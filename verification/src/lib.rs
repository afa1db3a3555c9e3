//! A terminal snake game's verified core: the game-state model (grid,
//! snake, heading, food, loss flag) with its single tick operation, and
//! the control-loop decision rules a host render loop applies each frame.

pub mod control;
pub mod game;
