//! Movement, collision, ghost behaviour, scoring and state transitions of a
//! maze-chase arcade game. Positions are integer maze pixels; times are
//! microseconds of elapsed run time.

pub mod collision;
pub mod game;
pub mod ghosts;
pub mod interactions;
pub mod maze;
pub mod movement;
pub mod pacman;
pub mod sound;
pub mod states;
pub mod ui;
pub mod unit;
