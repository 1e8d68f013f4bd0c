use vstd::prelude::*;

use crate::collision::{check_for_collisions, collides_with_obstacle};
use crate::game::{elapsed, elapsed_since, Game};
use crate::states::GameState;
use crate::unit::{UnitPosition, UNIT_HITBOX_SIZE};

verus! {

/// Width of the maze in pixels.
pub const MAZE_WIDTH: u32 = 3700;
/// Height of the maze in pixels.
pub const MAZE_HEIGHT: u32 = 1233;

/// Columns of the dot grid.
pub const DOTS_HORIZONTAL: u32 = 52;
/// Rows of the dot grid.
pub const DOTS_VERTICAL: u32 = 15;
/// Coordinate of the first row and column of the dot grid.
pub const DOTS_START_X_Y: i32 = 150;
/// Spacing of the dot grid, in hundredths of a pixel.
pub const DOTS_SPACING_HUNDREDTHS: i32 = 6666;

/// How long the maze blinks after a won round before the next one begins, in microseconds.
pub const ROUND_WON_BLINK_DURATION: u64 = 3_000_000;

/// Marker of a dot.
#[derive(Clone, Copy, PartialEq, Eq, Structural, Debug)]
pub struct Dot;

/// Marker of an energizer.
#[derive(Clone, Copy, PartialEq, Eq, Structural, Debug)]
pub struct Energizer;

/// Marker of the maze background.
#[derive(Clone, Copy, PartialEq, Eq, Structural, Debug)]
pub struct Maze;

/// Coordinate of the `k`-th row or column of the dot grid, rounded down.
pub open spec fn grid_coord(k: int) -> int {
    DOTS_START_X_Y + k * DOTS_SPACING_HUNDREDTHS / 100
}

/// Grid cells that hold nothing: the pen, the tunnel mouths and a few others.
pub open spec fn skipped_cell(i: int, j: int) -> bool {
    ||| i == 0 && (j == 18 || j == 19)
    ||| i == 7 && (j <= 3 || j >= 48)
    ||| 5 <= i <= 10 && 14 <= j <= 23
    ||| i == 11 && 15 <= j <= 23
    ||| 4 <= i <= 13 && j == 23
}

/// The five grid cells that hold an energizer rather than a dot.
pub open spec fn energizer_cell(i: int, j: int) -> bool {
    ||| i == 0 && j == 0
    ||| i == 0 && j == 51
    ||| i == 8 && j == 27
    ||| i == 12 && j == 0
    ||| i == 12 && j == 51
}

/// Position of the `n`-th grid cell, counted row by row.
pub open spec fn cell_pos(n: int) -> UnitPosition {
    UnitPosition {
        x: grid_coord(n % DOTS_HORIZONTAL as int) as i32,
        y: grid_coord(n / DOTS_HORIZONTAL as int) as i32,
    }
}

/// Whether the `n`-th grid cell holds something: it is not skipped and no wall covers it.
pub open spec fn cell_filled(n: int) -> bool {
    let i = n / DOTS_HORIZONTAL as int;
    let j = n % DOTS_HORIZONTAL as int;
    !skipped_cell(i, j) && !collides_with_obstacle(grid_coord(j), grid_coord(i), UNIT_HITBOX_SIZE as int)
}

/// Whether the `n`-th grid cell holds an energizer.
pub open spec fn cell_energizer(n: int) -> bool {
    cell_filled(n) && energizer_cell(n / DOTS_HORIZONTAL as int, n % DOTS_HORIZONTAL as int)
}

/// Whether the `n`-th grid cell holds a dot.
pub open spec fn cell_dot(n: int) -> bool {
    cell_filled(n) && !energizer_cell(n / DOTS_HORIZONTAL as int, n % DOTS_HORIZONTAL as int)
}

/// Dots of the first `n` grid cells, row by row.
pub open spec fn dots_upto(n: nat) -> Seq<UnitPosition>
    decreases n,
{
    if n == 0 {
        Seq::empty()
    } else if cell_dot(n - 1) {
        dots_upto((n - 1) as nat).push(cell_pos(n - 1))
    } else {
        dots_upto((n - 1) as nat)
    }
}

/// Energizers of the first `n` grid cells, row by row.
pub open spec fn energizers_upto(n: nat) -> Seq<UnitPosition>
    decreases n,
{
    if n == 0 {
        Seq::empty()
    } else if cell_energizer(n - 1) {
        energizers_upto((n - 1) as nat).push(cell_pos(n - 1))
    } else {
        energizers_upto((n - 1) as nat)
    }
}

/// Number of grid cells.
pub open spec fn grid_cells() -> nat {
    (DOTS_HORIZONTAL * DOTS_VERTICAL) as nat
}

/// Coordinate of the `k`-th row or column of the dot grid.
fn grid_coordinate(k: u32) -> (r: i32)
    requires
        k < DOTS_HORIZONTAL,
    ensures
        r == grid_coord(k as int),
{
    DOTS_START_X_Y + (k as i32 * DOTS_SPACING_HUNDREDTHS) / 100
}

/// The dots and energizers of a new round: one per grid cell that is not
/// skipped and not covered by a wall, energizers on five fixed cells, in row
/// order.
pub fn spawn_dots_and_energizers() -> (r: (Vec<UnitPosition>, Vec<UnitPosition>))
    ensures
        r.0@ == dots_upto(grid_cells()),
        r.1@ == energizers_upto(grid_cells()),
{
    let mut dots: Vec<UnitPosition> = Vec::new();
    let mut energizers: Vec<UnitPosition> = Vec::new();
    let total: u32 = DOTS_HORIZONTAL * DOTS_VERTICAL;
    let mut n: u32 = 0;
    while n < total
        invariant
            total == grid_cells(),
            n <= total,
            dots@ == dots_upto(n as nat),
            energizers@ == energizers_upto(n as nat),
        decreases total - n,
    {
        let i = n / DOTS_HORIZONTAL;
        let j = n % DOTS_HORIZONTAL;
        let skipped = (i == 0 && (j == 18 || j == 19)) || (i == 7 && (j <= 3 || j >= 48)) || ((i >= 5
            && i <= 10) && (j >= 14 && j <= 23)) || (i == 11 && (j >= 15 && j <= 23)) || ((i >= 4 && i
            <= 13) && j == 23);
        if !skipped {
            let x = grid_coordinate(j);
            let y = grid_coordinate(i);
            if !check_for_collisions(x, y, UNIT_HITBOX_SIZE) {
                let energizer = (i == 0 && j == 0) || (i == 0 && j == 51) || (i == 8 && j == 27) || (i
                    == 12 && j == 0) || (i == 12 && j == 51);
                if energizer {
                    energizers.push(UnitPosition { x, y });
                } else {
                    dots.push(UnitPosition { x, y });
                }
            }
        }
        n = n + 1;
    }
    (dots, energizers)
}

/// Whether the maze shows its blink frame `e` microseconds after the round was won.
pub open spec fn maze_blinks(e: int) -> bool {
    ||| 1_400_000 <= e < 1_600_000
    ||| 1_800_000 <= e < 2_000_000
    ||| 2_200_000 <= e < 2_400_000
    ||| 2_600_000 <= e < 2_800_000
}

/// After a won round the maze blinks a few times, then the next round
/// begins. Returns the maze frame to show, or `None` when it stays as it is.
pub fn blink_maze(game: &Game, state: &mut GameState, now: u64) -> (frame: Option<usize>)
    ensures
        *old(state) != GameState::RoundWon ==> *final(state) == *old(state) && frame.is_none(),
        *old(state) == GameState::RoundWon ==> {
            let e = elapsed(now, game.elapsed_time_state);
            if e >= ROUND_WON_BLINK_DURATION {
                *final(state) == GameState::NewRound && frame.is_none()
            } else {
                *final(state) == *old(state) && frame == Some(if maze_blinks(e) { 1usize } else { 0usize })
            }
        },
{
    if *state != GameState::RoundWon {
        return None;
    }
    let e = elapsed_since(now, game.elapsed_time_state);
    if e >= ROUND_WON_BLINK_DURATION {
        *state = GameState::NewRound;
        None
    } else if (e >= 1_400_000 && e < 1_600_000) || (e >= 1_800_000 && e < 2_000_000) || (e >= 2_200_000
        && e < 2_400_000) || (e >= 2_600_000 && e < 2_800_000) {
        Some(1)
    } else {
        Some(0)
    }
}

} // verus!
