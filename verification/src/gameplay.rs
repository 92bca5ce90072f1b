//! Play: the level, the player in it, and what the keys do.

use vstd::prelude::*;
use crate::block::Block;
use crate::bomberman::{Bomberman, HALF_EXTENT};
use crate::grid::{Grid, LayoutError};
use crate::movement::{raw_velocity, resolve, tick_speed, BombermanSystem};
use crate::states::{Action, Event, Key};
use crate::tile::Tile;
use crate::units::{Vector, ONE};
use crate::world::{blocking_of, CollisionWorld};

verus! {

/// What a play state holds, as plain mathematics.
pub struct Scene {
    pub grid: Grid,
    pub tiles: Seq<Tile>,
    pub bomberman: Bomberman,
}

/// Where the player of a level of `grid` starts, on both axes: its own
/// half-extent past the far edge of the first tile.
pub open spec fn spawn_coord(grid: Grid) -> int {
    grid.padding + 2 * grid.tile_half_extent + HALF_EXTENT
}

/// Whether `player` is as a level of `grid` starts with it: at rest at the
/// spawn, with the usual half-extent.
pub open spec fn spawned(player: Bomberman, grid: Grid) -> bool {
    &&& player.position.x == spawn_coord(grid)
    &&& player.position.y == spawn_coord(grid)
    &&& player.velocity == Vector { x: 0, y: 0 }
    &&& player.half_extent == HALF_EXTENT
}

impl Scene {
    /// Whether every tile on the rim of the grid is `Solid`.
    pub open spec fn border_is_solid(self) -> bool {
        forall|i: int, j: int|
            #![trigger self.grid.index_of(i, j)]
            self.grid.has_cell(i, j) && self.grid.on_border(i, j) ==> self.tiles[self.grid.index_of(
                i,
                j,
            )].kind == Block::Solid
    }

    /// Whether the level fits the grid: the grid is valid and the tiles
    /// are a level of it, complete and with a solid border.
    pub open spec fn well_formed(self) -> bool {
        self.grid.valid() && self.grid.laid_out(self.tiles)
    }

    /// Whether this is what a reload makes of `before`: the same grid, a
    /// level of it, and the player back at the spawn.
    pub open spec fn reloaded_from(self, before: Scene) -> bool {
        &&& self.grid == before.grid
        &&& self.well_formed()
        &&& spawned(self.bomberman, self.grid)
    }
}

/// The state in which the game is played: it owns the level and the player.
pub struct GameplayState {
    grid: Grid,
    world: CollisionWorld,
    bomberman: Bomberman,
}

impl View for GameplayState {
    type V = Scene;

    closed spec fn view(&self) -> Scene {
        Scene { grid: self.grid, tiles: self.world@, bomberman: self.bomberman }
    }
}

/// The player as a level of `grid` starts with it.
fn spawn(grid: &Grid) -> (player: Bomberman)
    ensures
        spawned(player, *grid),
{
    let at: i64 = grid.padding as i64 + 2 * (grid.tile_half_extent as i64) + HALF_EXTENT as i64;
    Bomberman::new(Vector { x: at, y: at })
}

impl GameplayState {
    #[verifier::type_invariant]
    spec fn level_fits_grid(self) -> bool {
        self.grid.valid() && self.grid.laid_out(self.world@)
    }

    /// What a window event asks for during play: to quit on a close request
    /// or `Escape`, a reload on `R`, a pause on `P`, each as the key goes
    /// down, and else nothing.
    pub open spec fn on_event(event: Event) -> Action {
        if event.asks_to_quit() {
            Action::Quit
        } else if event == Event::KeyPressed(Key::R) {
            Action::Reloaded
        } else if event == Event::KeyPressed(Key::P) {
            Action::Pause
        } else {
            Action::Continue
        }
    }

    /// Starts play on a new level of `grid`, with the player at the spawn.
    /// A grid less than two tiles wide or high is refused.
    pub fn new(grid: Grid) -> (state: Result<GameplayState, LayoutError>)
        ensures
            state is Ok <==> grid.valid(),
            state matches Ok(s) ==> s@.grid == grid && s@.well_formed() && spawned(
                s@.bomberman,
                grid,
            ),
            state matches Err(e) ==> e == LayoutError::InvalidLayout,
    {
        match grid.generate() {
            Ok(tiles) => Ok(
                GameplayState { grid, world: CollisionWorld::new(tiles), bomberman: spawn(&grid) },
            ),
            Err(e) => Err(e),
        }
    }

    /// The measures of the level.
    pub fn grid(&self) -> (grid: Grid)
        ensures
            grid == self@.grid,
            grid.valid(),
    {
        proof {
            use_type_invariant(self);
        }
        self.grid
    }

    /// The level. Whatever was done to the state, it is a level of the
    /// state's grid: complete, and with a solid border.
    pub fn world(&self) -> (world: &CollisionWorld)
        ensures
            world@ == self@.tiles,
            self@.well_formed(),
            self@.border_is_solid(),
    {
        proof {
            use_type_invariant(self);
        }
        &self.world
    }

    /// The player.
    pub fn bomberman(&self) -> (player: Bomberman)
        ensures
            player == self@.bomberman,
    {
        self.bomberman
    }

    /// Replaces the level by a new one of the same grid.
    pub fn create_grid(&mut self)
        ensures
            final(self)@.grid == old(self)@.grid,
            final(self)@.bomberman == old(self)@.bomberman,
            final(self)@.well_formed(),
    {
        proof {
            use_type_invariant(&*self);
        }
        if let Ok(tiles) = self.grid.generate() {
            self.world = CollisionWorld::new(tiles);
        }
    }

    /// Puts the player back at the spawn, at rest.
    pub fn create_bomberman(&mut self)
        ensures
            final(self)@.grid == old(self)@.grid,
            final(self)@.tiles == old(self)@.tiles,
            spawned(final(self)@.bomberman, old(self)@.grid),
    {
        proof {
            use_type_invariant(&*self);
        }
        self.bomberman = spawn(&self.grid);
    }

    /// Throws the level and the player away and builds both anew.
    pub fn reload_scene(&mut self)
        ensures
            final(self)@.reloaded_from(old(self)@),
    {
        self.create_grid();
        self.create_bomberman();
    }

    /// Looks at one window event. On `R` the scene is reloaded before the
    /// call returns; no other event changes the state.
    pub fn handle_event(&mut self, event: Event) -> (action: Action)
        ensures
            action == Self::on_event(event),
            action == Action::Reloaded ==> final(self)@.reloaded_from(old(self)@),
            action != Action::Reloaded ==> final(self)@ == old(self)@,
    {
        if event.is_quit_request() {
            return Action::Quit;
        }
        match event {
            Event::KeyPressed(Key::R) => {
                self.reload_scene();
                Action::Reloaded
            },
            Event::KeyPressed(Key::P) => Action::Pause,
            _ => Action::Continue,
        }
    }

    /// Moves the player for one tick of `dt` millionths of a second, in
    /// which the two input axes stand at `axis_x` and `axis_y`.
    pub fn update(&mut self, axis_x: i64, axis_y: i64, dt: u32)
        requires
            old(self)@.bomberman.in_range(),
            -ONE <= axis_x <= ONE,
            -ONE <= axis_y <= ONE,
        ensures
            final(self)@.grid == old(self)@.grid,
            final(self)@.tiles == old(self)@.tiles,
            final(self)@.bomberman.velocity@ == resolve(
                blocking_of(old(self)@.tiles),
                old(self)@.bomberman.position,
                old(self)@.bomberman.half_extent,
                raw_velocity(axis_x, axis_y, tick_speed(dt)),
                tick_speed(dt),
            ),
            final(self)@.bomberman.position.x == old(self)@.bomberman.position.x
                + final(self)@.bomberman.velocity.x,
            final(self)@.bomberman.position.y == old(self)@.bomberman.position.y
                + final(self)@.bomberman.velocity.y,
            final(self)@.bomberman.half_extent == old(self)@.bomberman.half_extent,
    {
        proof {
            use_type_invariant(&*self);
        }
        let mut player = self.bomberman;
        BombermanSystem.run(&self.world, &mut player, axis_x, axis_y, dt);
        self.bomberman = player;
    }
}

/// A reload made after a reload leaves what one reload leaves: a level of
/// the same grid with as many tiles, its border solid both times, and the
/// player at the spawn. Only the kinds of the inner tiles may differ.
pub proof fn lemma_reload_is_idempotent(start: Scene, once: Scene, twice: Scene)
    requires
        once.reloaded_from(start),
        twice.reloaded_from(once),
    ensures
        twice.reloaded_from(start),
        twice.tiles.len() == once.tiles.len(),
        once.tiles.len() == start.grid.width * start.grid.height,
        once.border_is_solid(),
        twice.border_is_solid(),
        twice.bomberman == once.bomberman,
{
}

} // verus!
