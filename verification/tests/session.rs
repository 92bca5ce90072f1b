use bomberman::block::Block;
use bomberman::bomberman::{Bomberman, HALF_EXTENT};
use bomberman::gameplay::GameplayState;
use bomberman::grid::{Grid, LayoutError};
use bomberman::movement::BombermanSystem;
use bomberman::states::{Action, Completion, Event, Key, LoadingState, PauseState};
use bomberman::tile::Tile;
use bomberman::units::{Vector, ONE};

const UNIT: i64 = 1_000_000;

const KEYS: [Key; 4] = [Key::Escape, Key::R, Key::P, Key::Other];

fn assert_is_level(state: &GameplayState) {
    let grid = state.grid();
    let tiles = state.world().tiles();
    assert_eq!(tiles.len(), grid.width as usize * grid.height as usize);
    for i in 0..grid.width {
        for j in 0..grid.height {
            let tile = tiles[i as usize * grid.height as usize + j as usize];
            assert_eq!(tile.center, grid.center(i, j));
            assert_eq!(tile.half_extent, grid.tile_half_extent);
            if grid.is_border(i, j) {
                assert_eq!(tile.kind, Block::Solid);
            }
        }
    }
}

fn spawn() -> Bomberman {
    Bomberman::new(Vector { x: 160 * UNIT, y: 160 * UNIT })
}

#[test]
fn play_starts_on_a_level_with_the_player_at_the_spawn() {
    let state = GameplayState::new(Grid::default()).unwrap();
    assert_eq!(state.grid(), Grid::default());
    assert_eq!(state.world().len(), 270);
    assert_is_level(&state);
    assert_eq!(state.bomberman(), spawn());
    assert_eq!(state.bomberman().half_extent, HALF_EXTENT);
}

#[test]
fn spawn_follows_the_grid() {
    let grid = Grid { width: 4, height: 4, tile_half_extent: 10, margin: 0, padding: -7 };
    let state = GameplayState::new(grid).unwrap();
    assert_eq!(state.bomberman().position, Vector { x: 32_000_013, y: 32_000_013 });
}

#[test]
fn play_refuses_a_grid_without_border() {
    for (width, height) in [(1u16, 15u16), (18, 1), (0, 0)] {
        let grid = Grid { width, height, ..Grid::default() };
        assert_eq!(GameplayState::new(grid).err(), Some(LayoutError::InvalidLayout));
    }
}

#[test]
fn reload_twice_is_as_good_as_once() {
    let mut state = GameplayState::new(Grid::default()).unwrap();
    state.update(0, ONE, 16_667);
    state.reload_scene();
    let once = state.world().len();
    assert_eq!(once, 270);
    assert_is_level(&state);
    assert_eq!(state.bomberman(), spawn());
    state.reload_scene();
    assert_eq!(state.world().len(), once);
    assert_is_level(&state);
    assert_eq!(state.bomberman(), spawn());
    assert_eq!(state.grid(), Grid::default());
}

#[test]
fn create_grid_keeps_the_player() {
    let mut state = GameplayState::new(Grid::default()).unwrap();
    state.update(0, ONE, 1_000);
    let player = state.bomberman();
    state.create_grid();
    assert_eq!(state.bomberman(), player);
    assert_is_level(&state);
}

#[test]
fn create_bomberman_keeps_the_level() {
    let mut state = GameplayState::new(Grid::default()).unwrap();
    let tiles: Vec<Tile> = state.world().tiles().clone();
    state.update(0, ONE, 1_000);
    state.create_bomberman();
    assert_eq!(state.bomberman(), spawn());
    assert_eq!(state.world().tiles(), &tiles);
}

#[test]
fn play_decides_on_each_event() {
    let mut state = GameplayState::new(Grid::default()).unwrap();
    assert_eq!(state.handle_event(Event::CloseRequested), Action::Quit);
    assert_eq!(state.handle_event(Event::KeyPressed(Key::Escape)), Action::Quit);
    assert_eq!(state.handle_event(Event::KeyPressed(Key::R)), Action::Reloaded);
    assert_eq!(state.handle_event(Event::KeyPressed(Key::P)), Action::Pause);
    assert_eq!(state.handle_event(Event::KeyPressed(Key::Other)), Action::Continue);
    assert_eq!(state.handle_event(Event::Other), Action::Continue);
    for key in KEYS {
        assert_eq!(state.handle_event(Event::KeyReleased(key)), Action::Continue);
    }
}

#[test]
fn only_a_reload_changes_the_scene() {
    let mut state = GameplayState::new(Grid::default()).unwrap();
    state.update(0, ONE, 1_000);
    let tiles: Vec<Tile> = state.world().tiles().clone();
    let player = state.bomberman();
    let mut events = vec![Event::CloseRequested, Event::Other];
    for key in KEYS {
        events.push(Event::KeyReleased(key));
        if key != Key::R {
            events.push(Event::KeyPressed(key));
        }
    }
    for event in events {
        state.handle_event(event);
        assert_eq!(state.world().tiles(), &tiles);
        assert_eq!(state.bomberman(), player);
    }
    assert_eq!(state.handle_event(Event::KeyPressed(Key::R)), Action::Reloaded);
    assert_eq!(state.bomberman(), spawn());
    assert_is_level(&state);
}

#[test]
fn update_moves_the_player_as_the_system_does() {
    for (axis_x, axis_y) in [(0, 0), (ONE, 0), (-ONE, 0), (0, ONE), (0, -ONE), (ONE / 3, -ONE)] {
        let mut state = GameplayState::new(Grid::default()).unwrap();
        for _ in 0..50 {
            let mut expected = state.bomberman();
            BombermanSystem.run(state.world(), &mut expected, axis_x, axis_y, 16_667);
            let tiles: Vec<Tile> = state.world().tiles().clone();
            state.update(axis_x, axis_y, 16_667);
            assert_eq!(state.bomberman(), expected);
            assert_eq!(state.world().tiles(), &tiles);
        }
    }
}

#[test]
fn idle_player_stays_at_the_spawn() {
    let mut state = GameplayState::new(Grid::default()).unwrap();
    state.update(0, 0, 16_667);
    assert_eq!(state.bomberman(), spawn());
}

#[test]
fn border_holds_the_player_back() {
    // From the spawn the way left and the way down lead into the border.
    let mut state = GameplayState::new(Grid::default()).unwrap();
    state.update(-ONE, 0, 16_667);
    assert_eq!(state.bomberman().velocity.x, 0);
    assert_eq!(state.bomberman().position.x, 160 * UNIT);
    let mut state = GameplayState::new(Grid::default()).unwrap();
    state.update(0, -ONE, 16_667);
    assert_eq!(state.bomberman().velocity.y, 0);
    assert_eq!(state.bomberman().position.y, 160 * UNIT);
}

#[test]
fn loading_waits_for_the_assets() {
    let loading = LoadingState::default();
    assert_eq!(loading.update(Completion::Loading), Action::Continue);
    assert_eq!(loading.update(Completion::Complete), Action::Play);
    assert_eq!(loading.update(Completion::Failed), Action::Unavailable);
}

#[test]
fn loading_can_be_left() {
    let loading = LoadingState;
    assert_eq!(loading.handle_event(Event::CloseRequested), Action::Quit);
    assert_eq!(loading.handle_event(Event::KeyPressed(Key::Escape)), Action::Quit);
    assert_eq!(loading.handle_event(Event::KeyReleased(Key::Escape)), Action::Continue);
    assert_eq!(loading.handle_event(Event::KeyPressed(Key::R)), Action::Continue);
    assert_eq!(loading.handle_event(Event::KeyPressed(Key::P)), Action::Continue);
    assert_eq!(loading.handle_event(Event::KeyPressed(Key::Other)), Action::Continue);
    assert_eq!(loading.handle_event(Event::Other), Action::Continue);
}

#[test]
fn any_key_ends_a_pause() {
    let pause = PauseState::default();
    for key in KEYS {
        assert_eq!(pause.handle_event(Event::KeyPressed(key)), Action::Resume);
        assert_eq!(pause.handle_event(Event::KeyReleased(key)), Action::Resume);
    }
    assert_eq!(pause.handle_event(Event::CloseRequested), Action::Continue);
    assert_eq!(pause.handle_event(Event::Other), Action::Continue);
}

#[test]
fn quit_requests_are_told_apart() {
    assert!(Event::CloseRequested.is_quit_request());
    assert!(Event::KeyPressed(Key::Escape).is_quit_request());
    assert!(!Event::KeyReleased(Key::Escape).is_quit_request());
    assert!(!Event::KeyPressed(Key::P).is_quit_request());
    assert!(!Event::Other.is_quit_request());
}
