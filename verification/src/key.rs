//! The keys' state for the player: which keys are down and what they are
//! bound to.

use vstd::prelude::*;

verus! {

/// What a location-selection input does.
#[derive(Copy, Clone, Default, Debug, PartialEq, Eq, Structural)]
pub enum LocSelInputState {
    #[default]
    Nothing,
    Confirm,
    Yaw,
    Regroup,
    Defend,
    SquadCancel,
    Cancel,
}

/// A key: whether it is down, how often it repeated, and its two bindings.
#[derive(Clone, Default)]
pub struct KeyState {
    pub down: bool,
    pub repeats: i32,
    pub binding: String,
    pub binding2: String,
}

/// The key state of the player. Its chat text field, which holds a float
/// size and is drawn by the renderer, is kept outside this library.
#[derive(Default)]
pub struct PlayerKeyState {
    pub char_team: i32,
    pub overstrike_mode: i32,
    pub any_key_down: i32,
    pub keys: arrayvec::ArrayVec<KeyState, 256>,
    pub loc_sel_input_state: LocSelInputState,
}

/// Clears the key state of the players `ids`: no key counts as down any
/// more; the rest is kept.
pub fn clear_states(state: &mut PlayerKeyState, ids: isize)
    ensures
        final(state).any_key_down == 0,
        final(state).char_team == old(state).char_team,
        final(state).overstrike_mode == old(state).overstrike_mode,
        final(state).keys == old(state).keys,
        final(state).loc_sel_input_state == old(state).loc_sel_input_state,
{
    state.any_key_down = 0;
}

} // verus!
