use vstd::prelude::*;

use crate::collision::unit_may_stand;
use crate::game::{elapsed, elapsed_since};
use crate::movement::{advance_unit, first_step, pixel_budget, spec_pixel_budget, walk};
use crate::sound::Sound;
use crate::states::{GameState, PacmanState};
use crate::unit::{UnitDirection, UnitPosition};

verus! {

/// Pacman's speed, pixels per second.
pub const PACMAN_SPEED: u16 = 450;
/// Where pacman appears at the start of a round and after a respawn.
pub const PACMAN_START_X: i32 = 1380;
/// Where pacman appears at the start of a round and after a respawn.
pub const PACMAN_START_Y: i32 = 150;
/// Time between two frames of pacman's animation, in microseconds.
pub const PACMAN_FRAME_TIME: u64 = 50_000;
/// Number of frames of pacman's animation.
pub const PACMAN_FRAMES: usize = 3;

/// The player unit: its heading, the heading asked for by input, how many
/// dots and energizers it has eaten, how many ghosts in the current energized
/// window, and when it last animated and became energized (microseconds).
#[derive(Clone, Copy, PartialEq, Eq, Structural, Debug)]
pub struct Pacman {
    pub current_direction: UnitDirection,
    pub next_direction: UnitDirection,
    pub eaten_points: u32,
    pub eaten_ghosts: u32,
    pub animation_time: u64,
    pub start_time_energized: u64,
}

impl Pacman {
    /// A fresh pacman heading left, with nothing eaten.
    pub fn new() -> (r: Self)
        ensures
            r.current_direction == UnitDirection::Left,
            r.next_direction == UnitDirection::Left,
            r.eaten_points == 0,
            r.eaten_ghosts == 0,
            r.animation_time == 0,
            r.start_time_energized == 0,
    {
        Pacman {
            current_direction: UnitDirection::Left,
            next_direction: UnitDirection::Left,
            eaten_points: 0,
            eaten_ghosts: 0,
            animation_time: 0,
            start_time_energized: 0,
        }
    }
}

/// Where pacman stands at the start of a round and after a respawn.
pub fn pacman_start_pos() -> (r: UnitPosition)
    ensures
        r == (UnitPosition { x: PACMAN_START_X, y: PACMAN_START_Y }),
{
    UnitPosition { x: PACMAN_START_X, y: PACMAN_START_Y }
}

/// Moves pacman `budget` pixels at most: each pixel it turns to the heading
/// asked for when that is free, else keeps its heading when that is free,
/// else stops for the rest of the budget. Returns the heading of the first
/// step taken, if any.
pub fn pacman_movement_steps(pacman: &mut Pacman, pos: &mut UnitPosition, budget: u64) -> (first: Option<UnitDirection>)
    ensures
        (*final(pos), final(pacman).current_direction) == walk(
            *old(pos),
            old(pacman).current_direction,
            old(pacman).next_direction,
            budget as nat,
        ),
        *final(pacman) == (Pacman { current_direction: final(pacman).current_direction, ..*old(pacman) }),
        first == first_step(*old(pos), old(pacman).current_direction, old(pacman).next_direction, budget as nat),
        *final(pos) == *old(pos) || unit_may_stand(*final(pos)),
{
    let mut current = pacman.current_direction;
    let first = advance_unit(pos, &mut current, pacman.next_direction, budget);
    pacman.current_direction = current;
    first
}

/// While the game runs, moves pacman as far as its speed takes it in
/// `delta_us` microseconds. When it moved and its animation frame is due,
/// records `now` as the time of the frame and returns the heading to show.
pub fn pacman_movement(
    state: GameState,
    pacman: &mut Pacman,
    pos: &mut UnitPosition,
    delta_us: u64,
    now: u64,
) -> (facing: Option<UnitDirection>)
    ensures
        state != GameState::Running ==> *final(pacman) == *old(pacman) && *final(pos) == *old(pos)
            && facing.is_none(),
        state == GameState::Running ==> {
            let budget = spec_pixel_budget(delta_us as int, PACMAN_SPEED as int) as nat;
            let first = first_step(*old(pos), old(pacman).current_direction, old(pacman).next_direction, budget);
            let due = first.is_some() && elapsed(now, old(pacman).animation_time) >= PACMAN_FRAME_TIME;
            &&& (*final(pos), final(pacman).current_direction) == walk(
                *old(pos),
                old(pacman).current_direction,
                old(pacman).next_direction,
                budget,
            )
            &&& facing == (if due { first } else { None })
            &&& *final(pacman) == (Pacman {
                current_direction: final(pacman).current_direction,
                animation_time: if due { now } else { old(pacman).animation_time },
                ..*old(pacman)
            })
        },
        *final(pos) == *old(pos) || unit_may_stand(*final(pos)),
{
    if state != GameState::Running {
        return None;
    }
    let budget = pixel_budget(delta_us, PACMAN_SPEED);
    let first = pacman_movement_steps(pacman, pos, budget);
    match first {
        Some(d) => {
            if elapsed_since(now, pacman.animation_time) >= PACMAN_FRAME_TIME {
                pacman.animation_time = now;
                Some(d)
            } else {
                None
            }
        },
        None => None,
    }
}

/// The frame of pacman's animation after `index`: the frames cycle.
pub fn next_pacman_frame(index: usize) -> (r: usize)
    ensures
        r == (if index >= PACMAN_FRAMES - 1 { 0 } else { index + 1 }),
{
    if index >= PACMAN_FRAMES - 1 {
        0
    } else {
        index + 1
    }
}

/// Quarter turns, counter-clockwise, that point pacman's sprite (drawn facing
/// left) along `direction`.
pub fn facing_quarter_turns(direction: UnitDirection) -> (r: u32)
    ensures
        r == match direction {
            UnitDirection::Up => 3u32,
            UnitDirection::Right => 2u32,
            UnitDirection::Down => 1u32,
            _ => 0u32,
        },
{
    match direction {
        UnitDirection::Up => 3,
        UnitDirection::Right => 2,
        UnitDirection::Down => 1,
        _ => 0,
    }
}

/// Time between two frames of the death animation, in microseconds.
pub const DEATH_FRAME_TIME: u64 = 150_000;
/// Last frame of the death animation.
pub const DEATH_LAST_FRAME: usize = 10;
/// How long the death animation runs before pacman may respawn, in microseconds.
pub const DEATH_DURATION: u64 = 2_000_000;

/// The death animation: when it started, when it last changed frame, and
/// whether the death sound has been played.
#[derive(Clone, Copy, PartialEq, Eq, Structural, Debug)]
pub struct PacmanDeathAnimation {
    pub start_animation_time: u64,
    pub animation_time: u64,
    pub played_sound: bool,
}

impl PacmanDeathAnimation {
    /// A death animation starting at `now`.
    pub fn new(now: u64) -> (r: Self)
        ensures
            r == (PacmanDeathAnimation { start_animation_time: now, animation_time: 0, played_sound: false }),
    {
        PacmanDeathAnimation { start_animation_time: now, animation_time: 0, played_sound: false }
    }
}

/// One tick of the death animation while pacman is dead: the death sound
/// plays once, the frame advances every 0.15 s up to the last one, and two
/// seconds after the start pacman is ready to respawn. Returns the new frame
/// and the sound to play, if any.
pub fn pacman_death_animation(
    anim: &mut PacmanDeathAnimation,
    pacman_state: &mut PacmanState,
    sprite_index: usize,
    now: u64,
) -> (r: (usize, Option<Sound>))
    ensures
        *old(pacman_state) != PacmanState::Dead ==> *final(anim) == *old(anim) && *final(pacman_state)
            == *old(pacman_state) && r == (sprite_index, None::<Sound>),
        *old(pacman_state) == PacmanState::Dead ==> {
            let advance = elapsed(now, old(anim).animation_time) > DEATH_FRAME_TIME && sprite_index < DEATH_LAST_FRAME;
            &&& r.0 == (if advance { sprite_index + 1 } else { sprite_index as int })
            &&& r.1 == (if old(anim).played_sound { None } else { Some(Sound::Death) })
            &&& *final(anim) == (PacmanDeathAnimation {
                played_sound: true,
                animation_time: if advance { now } else { old(anim).animation_time },
                ..*old(anim)
            })
            &&& *final(pacman_state) == (if elapsed(now, old(anim).start_animation_time) >= DEATH_DURATION {
                PacmanState::Respawn
            } else {
                PacmanState::Dead
            })
        },
{
    if *pacman_state != PacmanState::Dead {
        return (sprite_index, None);
    }
    let mut sound = None;
    if !anim.played_sound {
        sound = Some(Sound::Death);
        anim.played_sound = true;
    }
    let mut index = sprite_index;
    if elapsed_since(now, anim.animation_time) > DEATH_FRAME_TIME && index < DEATH_LAST_FRAME {
        index = index + 1;
        anim.animation_time = now;
    }
    if elapsed_since(now, anim.start_animation_time) >= DEATH_DURATION {
        *pacman_state = PacmanState::Respawn;
    }
    (index, sound)
}

/// Latches the heading asked for by the arrow keys held down; with several
/// held, left wins over down, down over up, and up over right.
pub fn pacman_movement_input(pacman: &mut Pacman, left: bool, down: bool, up: bool, right: bool)
    ensures
        *final(pacman) == (Pacman {
            next_direction: if left {
                UnitDirection::Left
            } else if down {
                UnitDirection::Down
            } else if up {
                UnitDirection::Up
            } else if right {
                UnitDirection::Right
            } else {
                old(pacman).next_direction
            },
            ..*old(pacman)
        }),
{
    if left {
        pacman.next_direction = UnitDirection::Left;
    } else if down {
        pacman.next_direction = UnitDirection::Down;
    } else if up {
        pacman.next_direction = UnitDirection::Up;
    } else if right {
        pacman.next_direction = UnitDirection::Right;
    }
}

} // verus!
