use vstd::prelude::*;

use crate::game::{elapsed, elapsed_since, Game};
use crate::ghosts::GhostUnit;
use crate::pacman::Pacman;
use crate::sound::SOUND_DURATION_START;

verus! {

/// Pause between two quick state changes, in microseconds.
pub const STATE_DEBOUNCE: u64 = 50_000;
/// How long an energizer keeps pacman energized, in microseconds.
pub const DURATION_ENERGIZED: u64 = 8_000_000;

/// Phase of the game.
#[derive(Clone, Copy, PartialEq, Eq, Structural, Debug, Hash)]
pub enum GameState {
    Start,
    Ready,
    Running,
    Paused,
    Respawn,
    RoundWon,
    NewRound,
    GameOver,
}

/// Phase of pacman's life.
#[derive(Clone, Copy, PartialEq, Eq, Structural, Debug, Hash)]
pub enum PacmanState {
    Normal,
    Energized,
    Dead,
    Respawn,
}

/// Records a state change at `now` and moves to `next`.
pub open spec fn entered(game: Game, now: u64) -> Game {
    Game { elapsed_time_state: now, ..game }
}

/// Result of a debounced transition from `from` to `to` after more than
/// `wait` microseconds in `from`.
pub open spec fn timed_transition(
    state: GameState,
    game: Game,
    now: u64,
    from: GameState,
    to: GameState,
    wait: u64,
) -> (GameState, Game) {
    if state == from && elapsed(now, game.elapsed_time_state) > wait {
        (to, entered(game, now))
    } else {
        (state, game)
    }
}

fn switch_after(state: &mut GameState, game: &mut Game, now: u64, from: GameState, to: GameState, wait: u64)
    ensures
        (*final(state), *final(game)) == timed_transition(*old(state), *old(game), now, from, to, wait),
{
    if *state == from && elapsed_since(now, game.elapsed_time_state) > wait {
        game.elapsed_time_state = now;
        *state = to;
    }
}

/// Leaves the start screen for a new round once the debounce has passed.
pub fn switch_state_to_new_round(state: &mut GameState, game: &mut Game, now: u64)
    ensures
        (*final(state), *final(game)) == timed_transition(
            *old(state),
            *old(game),
            now,
            GameState::Start,
            GameState::NewRound,
            STATE_DEBOUNCE,
        ),
{
    switch_after(state, game, now, GameState::Start, GameState::NewRound, STATE_DEBOUNCE);
}

/// Becomes ready once the debounce has passed since a new round or a respawn began.
pub fn switch_state_to_ready(state: &mut GameState, game: &mut Game, now: u64)
    ensures
        *old(state) == GameState::NewRound ==> (*final(state), *final(game)) == timed_transition(
            *old(state),
            *old(game),
            now,
            GameState::NewRound,
            GameState::Ready,
            STATE_DEBOUNCE,
        ),
        *old(state) != GameState::NewRound ==> (*final(state), *final(game)) == timed_transition(
            *old(state),
            *old(game),
            now,
            GameState::Respawn,
            GameState::Ready,
            STATE_DEBOUNCE,
        ),
{
    if *state == GameState::NewRound {
        switch_after(state, game, now, GameState::NewRound, GameState::Ready, STATE_DEBOUNCE);
    } else {
        switch_after(state, game, now, GameState::Respawn, GameState::Ready, STATE_DEBOUNCE);
    }
}

/// Starts running once the start tune has played out.
pub fn switch_state_to_running(state: &mut GameState, game: &mut Game, now: u64)
    ensures
        (*final(state), *final(game)) == timed_transition(
            *old(state),
            *old(game),
            now,
            GameState::Ready,
            GameState::Running,
            SOUND_DURATION_START,
        ),
{
    switch_after(state, game, now, GameState::Ready, GameState::Running, SOUND_DURATION_START);
}

/// After pacman's death: takes a life, then respawns, or ends the game when
/// no life is left.
pub fn switch_state_to_respawn_or_game_over(state: &mut GameState, game: &mut Game, now: u64)
    requires
        old(game).lifes > 0,
    ensures
        final(game).lifes == old(game).lifes - 1,
        *final(game) == (Game { lifes: (old(game).lifes - 1) as u32, ..entered(*old(game), now) }),
        *final(state) == (if final(game).lifes < 1 {
            GameState::GameOver
        } else {
            GameState::Respawn
        }),
{
    game.lifes = game.lifes - 1;
    game.elapsed_time_state = now;
    if game.lifes < 1 {
        *state = GameState::GameOver;
    } else {
        *state = GameState::Respawn;
    }
}

/// Result of checking for a won round: while running, with no dot and no
/// energizer left, the round is won and the round counter advances.
pub open spec fn round_won_step(state: GameState, game: Game, dots_left: nat, energizers_left: nat, now: u64) -> (
    GameState,
    Game,
) {
    if state == GameState::Running && dots_left == 0 && energizers_left == 0 {
        (GameState::RoundWon, Game { round: (game.round + 1) as u32, ..entered(game, now) })
    } else {
        (state, game)
    }
}

/// While running, wins the round when no dot and no energizer is left.
pub fn switch_state_to_round_won(
    state: &mut GameState,
    game: &mut Game,
    dots_left: usize,
    energizers_left: usize,
    now: u64,
)
    requires
        *old(state) == GameState::Running && dots_left == 0 && energizers_left == 0 ==> old(game).round
            < u32::MAX,
    ensures
        (*final(state), *final(game)) == round_won_step(
            *old(state),
            *old(game),
            dots_left as nat,
            energizers_left as nat,
            now,
        ),
{
    if *state == GameState::Running && dots_left == 0 && energizers_left == 0 {
        game.elapsed_time_state = now;
        *state = GameState::RoundWon;
        game.round = game.round + 1;
    }
}

/// Checking twice in a row for a won round with nothing left to eat wins the
/// round once: the round counter advances by exactly one.
pub proof fn lemma_round_won_once(state: GameState, game: Game, now: u64, later: u64)
    requires
        state == GameState::Running,
        game.round < u32::MAX,
    ensures
        ({
            let (s1, g1) = round_won_step(state, game, 0, 0, now);
            let (s2, g2) = round_won_step(s1, g1, 0, 0, later);
            &&& s1 == GameState::RoundWon
            &&& s2 == GameState::RoundWon
            &&& g2.round == game.round + 1
            &&& g2 == g1
        }),
{
}

/// A running round is won exactly when no dot and no energizer is left;
/// while something is left, checking changes nothing.
pub proof fn lemma_round_won_iff_empty(game: Game, dots_left: nat, energizers_left: nat, now: u64)
    ensures
        round_won_step(GameState::Running, game, dots_left, energizers_left, now).0 == GameState::RoundWon
            <==> (dots_left == 0 && energizers_left == 0),
        (dots_left > 0 || energizers_left > 0) ==> round_won_step(
            GameState::Running,
            game,
            dots_left,
            energizers_left,
            now,
        ) == (GameState::Running, game),
{
}

/// While running, the pause key toggles between running and paused; it
/// changes no other state.
pub fn pause_input(state: &mut GameState, pressed: bool)
    ensures
        *final(state) == (if pressed && *old(state) == GameState::Running {
            GameState::Paused
        } else if pressed && *old(state) == GameState::Paused {
            GameState::Running
        } else {
            *old(state)
        }),
{
    if pressed {
        if *state == GameState::Running {
            *state = GameState::Paused;
        } else if *state == GameState::Paused {
            *state = GameState::Running;
        }
    }
}

/// While the game runs and pacman is energized, returns pacman to normal once
/// the energized window has passed. Returns whether it did.
pub fn switch_pacman_state_to_energized(
    state: GameState,
    pacman_state: &mut PacmanState,
    pacman: &Pacman,
    now: u64,
) -> (r: bool)
    ensures
        r == (state == GameState::Running && *old(pacman_state) == PacmanState::Energized && elapsed(
            now,
            pacman.start_time_energized,
        ) > DURATION_ENERGIZED),
        *final(pacman_state) == (if r {
            PacmanState::Normal
        } else {
            *old(pacman_state)
        }),
{
    if state == GameState::Running && *pacman_state == PacmanState::Energized && elapsed_since(
        now,
        pacman.start_time_energized,
    ) > DURATION_ENERGIZED {
        *pacman_state = PacmanState::Normal;
        true
    } else {
        false
    }
}

/// On pacman becoming normal no ghost stays frightened.
pub fn on_enter_pacman_state_normal(ghosts: &mut Vec<GhostUnit>)
    ensures
        final(ghosts)@.len() == old(ghosts)@.len(),
        forall|i: int|
            0 <= i < old(ghosts)@.len() ==> #[trigger] final(ghosts)@[i] == (GhostUnit {
                is_frightened: false,
                ..old(ghosts)@[i]
            }),
{
    let mut i: usize = 0;
    while i < ghosts.len()
        invariant
            0 <= i <= ghosts@.len(),
            ghosts@.len() == old(ghosts)@.len(),
            forall|j: int|
                0 <= j < i ==> #[trigger] ghosts@[j] == (GhostUnit { is_frightened: false, ..old(ghosts)@[j] }),
            forall|j: int| i <= j < ghosts@.len() ==> #[trigger] ghosts@[j] == old(ghosts)@[j],
        decreases ghosts@.len() - i,
    {
        let mut g = ghosts[i];
        g.is_frightened = false;
        ghosts[i] = g;
        i = i + 1;
    }
}

} // verus!
