//! Control-loop decisions: which key means what, and on which frames the
//! simulation advances. The host loop polls input and renders; every rule
//! it applies lives here.

use vstd::prelude::*;

use crate::game::Direction;
use crate::game::GameState;
use crate::game::Vec2;

verus! {

/// The closed set of keys the game reacts to.
#[derive(Clone, Copy, PartialEq, Eq, Structural, Debug)]
pub enum GameKey {
    W,
    A,
    S,
    D,
    Esc,
    Q,
    R,
    Other,
}

/// The heading after one held key is applied: a movement key overwrites the
/// heading unconditionally (no reversal guard), any other key leaves it.
pub open spec fn next_direction(d: Direction, k: GameKey) -> Direction {
    match k {
        GameKey::W => Direction::Up,
        GameKey::S => Direction::Down,
        GameKey::A => Direction::Left,
        GameKey::D => Direction::Right,
        _ => d,
    }
}

/// Apply one currently-held key to the state: movement keys overwrite the
/// heading, everything else (and every other field) is left untouched.
pub fn apply_held_key(state: &mut GameState, k: GameKey)
    ensures
        final(state).player.direction == next_direction(old(state).player.direction, k),
        final(state).player.snake@ == old(state).player.snake@,
        final(state).dimension == old(state).dimension,
        final(state).food == old(state).food,
        final(state).has_lost == old(state).has_lost,
{
    match k {
        GameKey::W => state.player.direction = Direction::Up,
        GameKey::S => state.player.direction = Direction::Down,
        GameKey::A => state.player.direction = Direction::Left,
        GameKey::D => state.player.direction = Direction::Right,
        _ => (),
    }
}

/// Holding a movement key sets the heading rather than accumulating it:
/// applying the same key a second time within one frame changes nothing.
pub proof fn lemma_held_key_idempotent(d: Direction, k: GameKey)
    ensures
        next_direction(next_direction(d, k), k) == next_direction(d, k),
{
}

/// A pressed quit or escape key requests loop termination.
pub fn wants_quit(k: GameKey) -> (r: bool)
    ensures
        r == (k == GameKey::Esc || k == GameKey::Q),
{
    match k {
        GameKey::Esc => true,
        GameKey::Q => true,
        _ => false,
    }
}

/// A pressed restart key requests a freshly constructed state.
pub fn wants_restart(k: GameKey) -> (r: bool)
    ensures
        r == (k == GameKey::R),
{
    match k {
        GameKey::R => true,
        _ => false,
    }
}

/// The grid dimension derived from the window size: four fifths of it,
/// each axis floored independently.
pub fn grid_dimension(win: Vec2) -> (r: Vec2)
    requires
        0 <= win.x <= i32::MAX / 4,
        0 <= win.y <= i32::MAX / 4,
    ensures
        r.x == win.x * 4 / 5,
        r.y == win.y * 4 / 5,
{
    Vec2 { x: win.x * 4 / 5, y: win.y * 4 / 5 }
}

/// The simulation advances only on even frames: two render frames per
/// logical tick.
pub fn should_tick(frame: usize) -> (r: bool)
    ensures
        r == (frame % 2 == 0),
{
    frame % 2 == 0
}

} // verus!
