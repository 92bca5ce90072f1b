//! The tiles of one level, as the movement code sees them.

use vstd::prelude::*;
use crate::tile::Tile;

verus! {

/// The tiles of `tiles` that block movement, in the order in which they
/// stand there.
pub open spec fn blocking_of(tiles: Seq<Tile>) -> Seq<Tile> {
    tiles.filter(|t: Tile| t.blocks())
}

/// What `blocking_of` keeps: only tiles that block, every tile that blocks,
/// and so nothing at all where no tile blocks.
pub proof fn lemma_blocking_of(tiles: Seq<Tile>)
    ensures
        blocking_of(tiles).len() <= tiles.len(),
        forall|k: int|
            0 <= k < blocking_of(tiles).len() ==> (#[trigger] blocking_of(tiles)[k]).blocks()
                && tiles.contains(blocking_of(tiles)[k]),
        forall|k: int|
            0 <= k < tiles.len() && tiles[k].blocks() ==> blocking_of(tiles).contains(
                #[trigger] tiles[k],
            ),
        (forall|k: int| 0 <= k < tiles.len() ==> !(#[trigger] tiles[k]).blocks()) ==> blocking_of(
            tiles,
        ).len() == 0,
    decreases tiles.len(),
{
    reveal(Seq::filter);
    if tiles.len() > 0 {
        let init = tiles.drop_last();
        let kept = blocking_of(tiles);
        lemma_blocking_of(init);
        assert forall|k: int| 0 <= k < kept.len() implies (#[trigger] kept[k]).blocks()
            && tiles.contains(kept[k]) by {
            if k < blocking_of(init).len() {
                let at = choose|at: int| 0 <= at < init.len() && init[at] == blocking_of(init)[k];
                assert(tiles[at] == kept[k]);
            } else {
                assert(tiles[tiles.len() - 1] == kept[k]);
            }
        }
        assert forall|k: int| 0 <= k < tiles.len() && tiles[k].blocks() implies kept.contains(
            #[trigger] tiles[k],
        ) by {
            if k < init.len() {
                assert(init[k] == tiles[k]);
                let at = choose|at: int|
                    0 <= at < blocking_of(init).len() && blocking_of(init)[at] == init[k];
                assert(kept[at] == tiles[k]);
            } else {
                assert(kept[kept.len() - 1] == tiles[k]);
            }
        }
        if forall|k: int| 0 <= k < tiles.len() ==> !(#[trigger] tiles[k]).blocks() {
            assert forall|k: int| 0 <= k < init.len() implies !(#[trigger] init[k]).blocks() by {
                assert(init[k] == tiles[k]);
            }
            assert(!tiles[tiles.len() - 1].blocks());
        }
    }
}

/// The placed tiles of a level. It is built once from a finished tile
/// sequence and never changed: a reload builds another.
pub struct CollisionWorld {
    tiles: Vec<Tile>,
    blocking: Vec<Tile>,
}

impl View for CollisionWorld {
    type V = Seq<Tile>;

    /// Every tile of the level, in the order in which it was placed.
    closed spec fn view(&self) -> Seq<Tile> {
        self.tiles@
    }
}

impl CollisionWorld {
    #[verifier::type_invariant]
    spec fn blocking_is_kept(self) -> bool {
        self.blocking@ == blocking_of(self.tiles@)
    }

    /// The tiles that block movement, in placement order.
    pub open spec fn blocking(&self) -> Seq<Tile> {
        blocking_of(self@)
    }

    /// Takes over a finished tile sequence.
    pub fn new(tiles: Vec<Tile>) -> (world: CollisionWorld)
        ensures
            world@ == tiles@,
    {
        let mut blocking: Vec<Tile> = Vec::new();
        let mut i: usize = 0;
        proof {
            reveal(Seq::filter);
            assert(tiles@.take(0) =~= Seq::<Tile>::empty());
        }
        while i < tiles.len()
            invariant
                i <= tiles.len(),
                blocking@ == blocking_of(tiles@.take(i as int)),
            decreases tiles.len() - i,
        {
            let tile = tiles[i];
            proof {
                reveal(Seq::filter);
                assert(tiles@.take(i + 1).drop_last() =~= tiles@.take(i as int));
            }
            if tile.is_blocking() {
                blocking.push(tile);
            }
            i = i + 1;
        }
        assert(tiles@.take(tiles.len() as int) =~= tiles@);
        CollisionWorld { tiles, blocking }
    }

    /// Every tile of the level, in placement order.
    pub fn tiles(&self) -> (all: &Vec<Tile>)
        ensures
            all@ == self@,
    {
        &self.tiles
    }

    /// The tiles that the player cannot enter: all but `Background`, in
    /// placement order.
    pub fn blocking_tiles(&self) -> (blocking: &Vec<Tile>)
        ensures
            blocking@ == self.blocking(),
            forall|k: int| 0 <= k < blocking.len() ==> (#[trigger] blocking[k]).blocks(),
    {
        proof {
            use_type_invariant(self);
            lemma_blocking_of(self@);
        }
        &self.blocking
    }

    /// The number of tiles.
    pub fn len(&self) -> (n: usize)
        ensures
            n == self@.len(),
    {
        self.tiles.len()
    }
}

} // verus!
