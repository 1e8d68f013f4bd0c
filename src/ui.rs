use vstd::prelude::*;

use crate::states::GameState;

verus! {

/// The status line shown for a game state.
pub fn status_text(state: GameState) -> (r: &'static str)
    ensures
        state == GameState::Ready ==> r@ == "Ready!"@,
        state == GameState::Paused ==> r@ == "Paused!"@,
        state == GameState::GameOver ==> r@ == "Game Over!"@,
        state != GameState::Ready && state != GameState::Paused && state != GameState::GameOver ==> r@
            == ""@,
{
    match state {
        GameState::Ready => "Ready!",
        GameState::Paused => "Paused!",
        GameState::GameOver => "Game Over!",
        _ => "",
    }
}

} // verus!
