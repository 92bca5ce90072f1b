//! The kinds of tile, and how a random byte picks one.

use vstd::prelude::*;

verus! {

/// What a cell of the grid is to the game.
#[derive(Clone, Copy, Debug, PartialEq, Eq, Structural)]
pub enum Block {
    /// Open floor: the only kind that lets the player through.
    Background,
    Explodable,
    Solid,
    Portal,
}

/// The first byte that draws an `Explodable` tile.
pub const EXPLODABLE_FROM: u8 = 200;

/// The first byte that draws a `Solid` tile.
pub const SOLID_FROM: u8 = 220;

/// The first byte that draws a `Portal` tile.
pub const PORTAL_FROM: u8 = 240;

impl Block {
    /// Whether a tile of this kind stops the player.
    pub open spec fn blocks(self) -> bool {
        self != Block::Background
    }

    /// Whether the byte `v` lies in the half-open range of draws that give
    /// this kind.
    pub open spec fn drawn_by(self, v: u8) -> bool {
        match self {
            Block::Background => v < EXPLODABLE_FROM,
            Block::Explodable => EXPLODABLE_FROM <= v < SOLID_FROM,
            Block::Solid => SOLID_FROM <= v < PORTAL_FROM,
            Block::Portal => PORTAL_FROM <= v,
        }
    }

    /// The kind that the byte `v` draws.
    pub open spec fn of_draw(v: u8) -> Block {
        if v < EXPLODABLE_FROM {
            Block::Background
        } else if v < SOLID_FROM {
            Block::Explodable
        } else if v < PORTAL_FROM {
            Block::Solid
        } else {
            Block::Portal
        }
    }

    /// Whether a tile of this kind stops the player.
    pub fn is_blocking(&self) -> (b: bool)
        ensures
            b == self.blocks(),
    {
        match self {
            Block::Background => false,
            _ => true,
        }
    }

    /// Classifies one uniform byte: about 78% of draws are `Background`,
    /// 8% `Explodable`, 8% `Solid` and 6% `Portal`.
    pub fn classify(v: u8) -> (kind: Block)
        ensures
            kind == Block::of_draw(v),
            kind.drawn_by(v),
    {
        if v < EXPLODABLE_FROM {
            Block::Background
        } else if v < SOLID_FROM {
            Block::Explodable
        } else if v < PORTAL_FROM {
            Block::Solid
        } else {
            Block::Portal
        }
    }
}

/// The four draw ranges split the bytes with no gap and no overlap: every
/// byte lies in the range of exactly one kind, and that kind is the one
/// `classify` returns.
pub proof fn lemma_draw_ranges_partition(v: u8)
    ensures
        Block::of_draw(v).drawn_by(v),
        forall|kind: Block| kind.drawn_by(v) ==> kind == Block::of_draw(v),
{
}

} // verus!
