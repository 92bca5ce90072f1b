//! The layout of a level and the generator that fills it with tiles.
//!
//! Cells are named by column `i` and row `j`. The generator walks the
//! columns in turn and each column from row 0 up, so the tile of cell
//! `(i, j)` is number `i * height + j` of what it returns.

use vstd::prelude::*;
use crate::block::Block;
use crate::random::random_byte;
use crate::tile::Tile;
use crate::units::Vector;

verus! {

/// The measures of a level: how many tiles it is wide and high, half the
/// side of a tile, the margin that each tile keeps clear on every side and
/// the distance from the origin to the first tile's edge.
#[derive(Clone, Copy, Debug, PartialEq, Eq, Structural)]
pub struct Grid {
    pub width: u16,
    pub height: u16,
    pub tile_half_extent: i32,
    pub margin: i32,
    pub padding: i32,
}

/// Why a level could not be laid out.
#[derive(Clone, Copy, Debug, PartialEq, Eq, Structural)]
pub enum LayoutError {
    /// The grid is less than two tiles wide or high, so it cannot have a
    /// border on every side.
    InvalidLayout,
}

impl Grid {
    /// Whether the grid is at least two tiles wide and high.
    pub open spec fn valid(self) -> bool {
        self.width >= 2 && self.height >= 2
    }

    /// Whether `(i, j)` names a cell of the grid.
    pub open spec fn has_cell(self, i: int, j: int) -> bool {
        0 <= i < self.width && 0 <= j < self.height
    }

    /// Whether cell `(i, j)` lies on the rim of the grid.
    pub open spec fn on_border(self, i: int, j: int) -> bool {
        i == 0 || j == 0 || i == self.width - 1 || j == self.height - 1
    }

    /// The distance between the centres of two neighbouring tiles.
    pub open spec fn pitch(self) -> int {
        2 * (self.margin + self.tile_half_extent)
    }

    /// The coordinate, on either axis, of the centre of the `k`-th column
    /// or row.
    pub open spec fn center_coord(self, k: int) -> int {
        self.padding + self.tile_half_extent + self.pitch() * k
    }

    /// Where the tile of cell `(i, j)` stands in the generator's output.
    pub open spec fn index_of(self, i: int, j: int) -> int {
        i * self.height + j
    }

    /// Whether `tile` has the place and the size of the tile of cell
    /// `(i, j)`.
    pub open spec fn fills(self, tile: Tile, i: int, j: int) -> bool {
        &&& tile.center.x == self.center_coord(i)
        &&& tile.center.y == self.center_coord(j)
        &&& tile.half_extent == self.tile_half_extent
    }

    /// Whether `tiles` is a level of this grid: one tile for each cell,
    /// column by column, each at its cell's centre with the grid's
    /// half-extent, and every tile of the border `Solid`.
    pub open spec fn laid_out(self, tiles: Seq<Tile>) -> bool {
        &&& tiles.len() == self.width * self.height
        &&& forall|i: int, j: int|
            #![trigger self.index_of(i, j)]
            self.has_cell(i, j) ==> self.cell_placed(tiles, i, j)
    }

    /// Whether `tiles` holds, at its place, a fitting tile for cell `(i, j)`.
    pub open spec fn cell_placed(self, tiles: Seq<Tile>, i: int, j: int) -> bool {
        &&& 0 <= self.index_of(i, j) < tiles.len()
        &&& self.fills(tiles[self.index_of(i, j)], i, j)
        &&& self.on_border(i, j) ==> tiles[self.index_of(i, j)].kind == Block::Solid
    }

    /// How many cells lie off the border, in a valid grid.
    pub open spec fn interior_cells(self) -> int {
        (self.width - 2) * (self.height - 2)
    }

    /// Which of the drawn bytes decides the kind of cell `(i, j)`, a cell
    /// off the border: the cells take their bytes column by column.
    pub open spec fn draw_index(self, i: int, j: int) -> int {
        (i - 1) * (self.height - 2) + (j - 1)
    }

    /// Whether `tiles` holds, at its place, the tile that the bytes `draws`
    /// give cell `(i, j)`.
    pub open spec fn cell_drawn(self, tiles: Seq<Tile>, draws: Seq<u8>, i: int, j: int) -> bool {
        &&& self.cell_placed(tiles, i, j)
        &&& !self.on_border(i, j) ==> tiles[self.index_of(i, j)].kind == Block::of_draw(
            draws[self.draw_index(i, j)],
        )
    }

    /// Whether `tiles` is the level of this grid that the bytes `draws`
    /// give: a level of the grid in which the kind of each cell off the
    /// border is the one that the cell's byte draws.
    pub open spec fn drawn_from(self, tiles: Seq<Tile>, draws: Seq<u8>) -> bool {
        &&& tiles.len() == self.width * self.height
        &&& forall|i: int, j: int|
            #![trigger self.index_of(i, j)]
            self.has_cell(i, j) ==> self.cell_drawn(tiles, draws, i, j)
    }

    /// Each cell off the border has a byte of its own among the first
    /// `interior_cells()`.
    pub proof fn lemma_draw_index_in_range(self, i: int, j: int)
        requires
            self.has_cell(i, j),
            !self.on_border(i, j),
        ensures
            0 <= (i - 1) * (self.height - 2) <= self.draw_index(i, j) < self.interior_cells(),
    {
        let rows = self.height - 2;
        assert(0 <= (i - 1) * rows && (i - 1) * rows + rows <= (self.width - 2) * rows)
            by (nonlinear_arith)
            requires
                0 <= i - 1 < self.width - 2,
                0 < rows,
        ;
    }

    /// The bytes of a level can be counted in `u32`.
    pub proof fn lemma_interior_cells_fit(self)
        requires
            self.valid(),
        ensures
            0 <= self.interior_cells() <= u32::MAX,
    {
        let columns = self.width - 2;
        let rows = self.height - 2;
        assert(0 <= columns * rows <= 0xfffd * 0xfffd) by (nonlinear_arith)
            requires
                0 <= columns <= 0xfffd,
                0 <= rows <= 0xfffd,
        ;
    }

    /// The centre of every column and row fits in `i64`, and so does the
    /// way to it from the first.
    pub proof fn lemma_center_fits(self, k: int)
        requires
            0 <= k <= u16::MAX,
        ensures
            -0x2_0000_0000_0000 <= self.pitch() * k <= 0x2_0000_0000_0000,
            i64::MIN <= self.center_coord(k) <= i64::MAX,
    {
        let pitch = self.pitch();
        assert(-0x2_0000_0000 * 0x1_0000 <= pitch * k <= 0x2_0000_0000 * 0x1_0000)
            by (nonlinear_arith)
            requires
                -0x2_0000_0000 <= pitch <= 0x2_0000_0000,
                0 <= k < 0x1_0000,
        ;
    }

    /// Tests `valid`.
    pub fn is_valid(&self) -> (ok: bool)
        ensures
            ok == self.valid(),
    {
        self.width >= 2 && self.height >= 2
    }

    /// How many bytes a level takes: one for each cell off the border, and
    /// none where the grid is not valid.
    pub fn draws_needed(&self) -> (n: usize)
        ensures
            self.valid() ==> n == self.interior_cells(),
            !self.valid() ==> n == 0,
    {
        if !self.is_valid() {
            return 0;
        }
        proof {
            self.lemma_interior_cells_fit();
        }
        (self.width as usize - 2) * (self.height as usize - 2)
    }

    /// Whether cell `(i, j)` lies on the rim of the grid.
    pub fn is_border(&self, i: u16, j: u16) -> (rim: bool)
        ensures
            rim == self.on_border(i as int, j as int),
    {
        i == 0 || j == 0 || i as u32 + 1 == self.width as u32 || j as u32 + 1
            == self.height as u32
    }

    /// The centre of cell `(i, j)`.
    pub fn center(&self, i: u16, j: u16) -> (c: Vector)
        ensures
            c.x == self.center_coord(i as int),
            c.y == self.center_coord(j as int),
    {
        let pitch: i64 = 2 * (self.margin as i64 + self.tile_half_extent as i64);
        let first: i64 = self.padding as i64 + self.tile_half_extent as i64;
        proof {
            self.lemma_center_fits(i as int);
            self.lemma_center_fits(j as int);
        }
        Vector { x: first + pitch * (i as i64), y: first + pitch * (j as i64) }
    }

    /// Places a tile of kind `kind` in cell `(i, j)`.
    pub fn place(&self, i: u16, j: u16, kind: Block) -> (tile: Tile)
        ensures
            tile.kind == kind,
            self.fills(tile, i as int, j as int),
    {
        Tile { kind, center: self.center(i, j), half_extent: self.tile_half_extent }
    }

    /// Builds the tiles of a level from the bytes `draws`. A cell of the
    /// border gets a `Solid` tile; every other cell gets the kind that its
    /// own byte draws, the cells taking their bytes in the order in which
    /// they are placed. A grid less than two tiles wide or high is refused.
    pub fn generate_from(&self, draws: &Vec<u8>) -> (level: Result<Vec<Tile>, LayoutError>)
        requires
            self.valid() ==> draws@.len() >= self.interior_cells(),
        ensures
            level is Ok <==> self.valid(),
            level matches Ok(tiles) ==> self.drawn_from(tiles@, draws@),
            level matches Ok(tiles) ==> self.laid_out(tiles@),
            level matches Err(e) ==> e == LayoutError::InvalidLayout,
    {
        if !self.is_valid() {
            return Err(LayoutError::InvalidLayout);
        }
        let width = self.width;
        let height = self.height;
        let mut tiles: Vec<Tile> = Vec::new();
        let mut i: u16 = 0;
        while i < width
            invariant
                self.valid(),
                draws@.len() >= self.interior_cells(),
                width == self.width,
                height == self.height,
                i <= width,
                tiles.len() == i * height,
                forall|a: int, b: int|
                    #![trigger self.index_of(a, b)]
                    0 <= a < i && 0 <= b < height ==> self.cell_drawn(tiles@, draws@, a, b),
            decreases width - i,
        {
            let mut j: u16 = 0;
            while j < height
                invariant
                    self.valid(),
                    draws@.len() >= self.interior_cells(),
                    width == self.width,
                    height == self.height,
                    i < width,
                    j <= height,
                    tiles.len() == i * height + j,
                    forall|a: int, b: int|
                        #![trigger self.index_of(a, b)]
                        0 <= a < i && 0 <= b < height ==> self.cell_drawn(tiles@, draws@, a, b),
                    forall|b: int|
                        #![trigger self.index_of(i as int, b)]
                        0 <= b < j ==> self.cell_drawn(tiles@, draws@, i as int, b),
                decreases height - j,
            {
                let kind = if self.is_border(i, j) {
                    Block::Solid
                } else {
                    proof {
                        self.lemma_draw_index_in_range(i as int, j as int);
                        self.lemma_interior_cells_fit();
                    }
                    let n: usize = (i as usize - 1) * (height as usize - 2) + (j as usize - 1);
                    Block::classify(draws[n])
                };
                let tile = self.place(i, j, kind);
                let ghost before = tiles@;
                tiles.push(tile);
                proof {
                    assert forall|a: int, b: int|
                        #![trigger self.index_of(a, b)]
                        0 <= a < i && 0 <= b < height implies self.cell_drawn(
                        tiles@,
                        draws@,
                        a,
                        b,
                    ) by {
                        assert(self.cell_drawn(before, draws@, a, b));
                    }
                    assert forall|b: int|
                        #![trigger self.index_of(i as int, b)]
                        0 <= b < j + 1 implies self.cell_drawn(tiles@, draws@, i as int, b) by {
                        if b < j {
                            assert(self.cell_drawn(before, draws@, i as int, b));
                        }
                    }
                }
                j = j + 1;
            }
            proof {
                assert(i * height + height == (i + 1) * height) by (nonlinear_arith);
            }
            i = i + 1;
        }
        Ok(tiles)
    }

    /// Builds the tiles of a level, with one random byte drawn for each
    /// cell off the border. A grid less than two tiles wide or high is
    /// refused.
    pub fn generate(&self) -> (level: Result<Vec<Tile>, LayoutError>)
        ensures
            level is Ok <==> self.valid(),
            level matches Ok(tiles) ==> exists|draws: Seq<u8>|
                draws.len() == self.interior_cells() && self.drawn_from(tiles@, draws),
            level matches Ok(tiles) ==> self.laid_out(tiles@),
            level matches Ok(tiles) ==> tiles.len() == self.width * self.height,
            level matches Ok(tiles) ==> forall|i: int, j: int|
                #![trigger self.index_of(i, j)]
                self.has_cell(i, j) && self.on_border(i, j) ==> tiles[self.index_of(i, j)].kind
                    == Block::Solid,
            level matches Err(e) ==> e == LayoutError::InvalidLayout,
    {
        let wanted = self.draws_needed();
        let mut draws: Vec<u8> = Vec::new();
        while draws.len() < wanted
            invariant
                draws.len() <= wanted,
            decreases wanted - draws.len(),
        {
            draws.push(random_byte());
        }
        self.generate_from(&draws)
    }
}

impl Default for Grid {
    /// The usual level: 18 tiles by 15, tiles of half-extent 32 with a
    /// margin of 1, 64 away from the origin.
    fn default() -> (grid: Grid)
        ensures
            grid == (Grid {
                width: 18,
                height: 15,
                tile_half_extent: 32_000_000,
                margin: 1_000_000,
                padding: 64_000_000,
            }),
    {
        Grid {
            width: 18,
            height: 15,
            tile_half_extent: 32_000_000,
            margin: 1_000_000,
            padding: 64_000_000,
        }
    }
}

} // verus!
