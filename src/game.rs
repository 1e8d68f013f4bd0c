use vstd::prelude::*;

verus! {

/// Points for eating a dot.
pub const POINTS_DOT: u32 = 10;
/// Points for eating an energizer.
pub const POINTS_ENERGIZER: u32 = 50;
/// Base of the doubling award for eating a frightened ghost.
pub const POINTS_GHOST: u32 = 200;

/// Lives at the start of a game.
pub const START_LIFES: u32 = 3;

/// Round counter, score, lives and the timestamps (microseconds of run time)
/// of the last state change, the last ambient sound and the last blink.
#[derive(Clone, Copy, PartialEq, Eq, Structural, Debug)]
pub struct Game {
    pub round: u32,
    pub points: u32,
    pub lifes: u32,
    pub elapsed_time_state: u64,
    pub elapsed_time_sound: u64,
    pub elapsed_time_blink: u64,
}

/// Microseconds from `since` to `now`; zero when `since` lies ahead.
pub open spec fn elapsed(now: u64, since: u64) -> int {
    if now >= since {
        now - since
    } else {
        0
    }
}

/// Microseconds from `since` to `now`; zero when `since` lies ahead.
pub fn elapsed_since(now: u64, since: u64) -> (r: u64)
    ensures
        r == elapsed(now, since),
{
    if now >= since {
        now - since
    } else {
        0
    }
}

impl Game {
    /// A fresh game: round 1, no points, three lives, all timestamps at zero.
    pub fn new() -> (r: Self)
        ensures
            r.round == 1,
            r.points == 0,
            r.lifes == START_LIFES,
            r.elapsed_time_state == 0,
            r.elapsed_time_sound == 0,
            r.elapsed_time_blink == 0,
    {
        Game {
            round: 1,
            points: 0,
            lifes: START_LIFES,
            elapsed_time_state: 0,
            elapsed_time_sound: 0,
            elapsed_time_blink: 0,
        }
    }
}

} // verus!
