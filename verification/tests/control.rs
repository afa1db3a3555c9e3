use std::collections::VecDeque;

use snake::control::apply_held_key;
use snake::control::grid_dimension;
use snake::control::should_tick;
use snake::control::wants_quit;
use snake::control::wants_restart;
use snake::control::GameKey;
use snake::game::Direction;
use snake::game::GameState;
use snake::game::PlayerState;
use snake::game::Vec2;

fn playing_state() -> GameState {
    GameState {
        dimension: Vec2 { x: 10, y: 10 },
        player: PlayerState {
            snake: VecDeque::from(vec![Vec2 { x: 5, y: 5 }]),
            direction: Direction::Right,
        },
        food: Vec2 { x: 3, y: 3 },
        has_lost: false,
    }
}

#[test]
fn held_key_sets_heading() {
    let table = [
        (GameKey::W, Direction::Up),
        (GameKey::S, Direction::Down),
        (GameKey::A, Direction::Left),
        (GameKey::D, Direction::Right),
    ];
    for (key, dir) in table {
        let mut st = playing_state();
        apply_held_key(&mut st, key);
        assert_eq!(st.player.direction, dir);
    }

    // a non-movement key leaves the heading alone
    let mut st = playing_state();
    apply_held_key(&mut st, GameKey::R);
    assert_eq!(st.player.direction, Direction::Right);
    apply_held_key(&mut st, GameKey::Other);
    assert_eq!(st.player.direction, Direction::Right);
}

#[test]
fn held_key_overwrite_is_idempotent() {
    let mut once = playing_state();
    apply_held_key(&mut once, GameKey::W);
    let mut twice = playing_state();
    apply_held_key(&mut twice, GameKey::W);
    apply_held_key(&mut twice, GameKey::W);
    assert_eq!(once.player.direction, twice.player.direction);
    assert_eq!(once.player.direction, Direction::Up);
}

#[test]
fn held_key_touches_nothing_else() {
    let mut st = playing_state();
    apply_held_key(&mut st, GameKey::S);
    assert_eq!(st.dimension, Vec2 { x: 10, y: 10 });
    assert_eq!(st.food, Vec2 { x: 3, y: 3 });
    assert!(!st.has_lost);
    assert_eq!(st.score(), 1);
}

#[test]
fn quit_and_restart_keys() {
    assert!(wants_quit(GameKey::Esc));
    assert!(wants_quit(GameKey::Q));
    assert!(!wants_quit(GameKey::R));
    assert!(!wants_quit(GameKey::W));
    assert!(wants_restart(GameKey::R));
    assert!(!wants_restart(GameKey::Q));
    assert!(!wants_restart(GameKey::Other));
}

#[test]
fn tick_on_even_frames_only() {
    assert!(should_tick(0));
    assert!(!should_tick(1));
    assert!(should_tick(2));
    assert!(!should_tick(3));
    assert!(should_tick(100));
}

#[test]
fn grid_is_four_fifths_of_window() {
    assert_eq!(grid_dimension(Vec2 { x: 100, y: 50 }), Vec2 { x: 80, y: 40 });
    assert_eq!(grid_dimension(Vec2 { x: 7, y: 9 }), Vec2 { x: 5, y: 7 });
    assert_eq!(grid_dimension(Vec2 { x: 0, y: 0 }), Vec2 { x: 0, y: 0 });
    assert_eq!(grid_dimension(Vec2 { x: 4, y: 4 }), Vec2 { x: 3, y: 3 });
}
