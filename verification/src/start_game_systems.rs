//! From the title screen to the table.

use vstd::prelude::*;

use crate::constants::AppState;

verus! {

/// Which screen is up next: pressing enter brings up the table; without it
/// the screen stays.
pub fn start_game(enter_pressed: bool, state: AppState) -> (next: AppState)
    ensures
        next == if enter_pressed {
            AppState::InGame
        } else {
            state
        },
{
    if enter_pressed {
        AppState::InGame
    } else {
        state
    }
}

} // verus!
