use vstd::prelude::*;

use crate::game::{elapsed, elapsed_since, Game};
use crate::states::{GameState, PacmanState};

verus! {

/// Length of the start tune, in microseconds.
pub const SOUND_DURATION_START: u64 = 5_000_000;
/// Length of one ambient siren loop, in microseconds.
pub const SOUND_DURATION_AMBIENT_SIREN: u64 = 450_000;
/// Length of one ambient fright loop, in microseconds.
pub const SOUND_DURATION_AMBIENT_FRIGHT: u64 = 550_000;
/// Highest round whose siren differs from the next one's.
pub const MAX_SIREN_LEVEL: u32 = 4;

/// A sound for the audio collaborator to play.
#[derive(Clone, Copy, PartialEq, Eq, Structural, Debug)]
pub enum Sound {
    Start,
    Eat,
    EatAlternate,
    EatGhost,
    Death,
    /// The siren of the given level, one to four.
    AmbientSiren(u32),
    AmbientFright,
}

/// The eat sound after the `eaten_points`-th item: the two variants alternate.
pub open spec fn spec_eat_sound(eaten_points: u32) -> Sound {
    if eaten_points % 2 == 0 {
        Sound::EatAlternate
    } else {
        Sound::Eat
    }
}

/// The eat sound after the `eaten_points`-th item: the two variants alternate.
pub fn eat_sound(eaten_points: u32) -> (r: Sound)
    ensures
        r == spec_eat_sound(eaten_points),
{
    if eaten_points % 2 == 0 {
        Sound::EatAlternate
    } else {
        Sound::Eat
    }
}

/// The eat sounds for `n` items eaten one after another, when `first` items
/// had been eaten before: the `k`-th is the sound after item `first + k + 1`.
pub fn eat_sounds(first: u32, n: usize) -> (r: Vec<Sound>)
    requires
        first + n <= u32::MAX,
    ensures
        r@.len() == n,
        forall|k: int| 0 <= k < n ==> #[trigger] r@[k] == spec_eat_sound((first + k + 1) as u32),
{
    let mut r: Vec<Sound> = Vec::new();
    let mut k: usize = 0;
    while k < n
        invariant
            k <= n,
            first + n <= u32::MAX,
            r@.len() == k,
            forall|j: int| 0 <= j < k ==> #[trigger] r@[j] == spec_eat_sound((first + j + 1) as u32),
        decreases n - k,
    {
        r.push(eat_sound(first + k as u32 + 1));
        k = k + 1;
    }
    r
}

/// The siren level of a round: the round number, capped at four.
pub open spec fn siren_level(round: u32) -> u32 {
    if round > MAX_SIREN_LEVEL {
        MAX_SIREN_LEVEL
    } else {
        round
    }
}

/// While the game runs, starts the next ambient loop once the previous one
/// has finished: the fright loop while pacman is energized, else the siren of
/// the round while pacman is normal. Returns the sound to play, if any, and
/// records when it started.
pub fn play_ambient_sound(state: GameState, game: &mut Game, pacman_state: PacmanState, now: u64) -> (r: Option<Sound>)
    ensures
        ({
            let e = elapsed(now, old(game).elapsed_time_sound);
            if state != GameState::Running {
                r == None::<Sound>
            } else if e >= SOUND_DURATION_AMBIENT_FRIGHT && pacman_state == PacmanState::Energized {
                r == Some(Sound::AmbientFright)
            } else if e >= SOUND_DURATION_AMBIENT_SIREN && pacman_state == PacmanState::Normal {
                r == Some(Sound::AmbientSiren(siren_level(old(game).round)))
            } else {
                r == None::<Sound>
            }
        }),
        r.is_some() ==> *final(game) == (Game { elapsed_time_sound: now, ..*old(game) }),
        r.is_none() ==> *final(game) == *old(game),
{
    if state != GameState::Running {
        return None;
    }
    let e = elapsed_since(now, game.elapsed_time_sound);
    if e >= SOUND_DURATION_AMBIENT_FRIGHT && pacman_state == PacmanState::Energized {
        game.elapsed_time_sound = now;
        Some(Sound::AmbientFright)
    } else if e >= SOUND_DURATION_AMBIENT_SIREN && pacman_state == PacmanState::Normal {
        let level = if game.round > MAX_SIREN_LEVEL {
            MAX_SIREN_LEVEL
        } else {
            game.round
        };
        game.elapsed_time_sound = now;
        Some(Sound::AmbientSiren(level))
    } else {
        None
    }
}

} // verus!
