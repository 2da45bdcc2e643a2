//! The video layer's reaction to the application being activated,
//! deactivated or minimised.

use vstd::prelude::*;
use crate::input::{activate, InputState};
use crate::key::{clear_states, PlayerKeyState};
use crate::platform::{clear_active_app, clear_minimized, set_active_app, set_minimized, PlatformVars};

verus! {

/// Reacts to the application becoming active or not and minimised or not:
/// the keys' down count is cleared, the platform records both flags, and
/// input follows the active flag.
pub fn app_activate(
    keys: &mut PlayerKeyState,
    vars: &mut PlatformVars,
    input: &mut InputState,
    active_app: bool,
    is_minimized: bool,
)
    ensures
        final(keys).any_key_down == 0,
        final(keys).keys == old(keys).keys,
        final(keys).char_team == old(keys).char_team,
        *final(vars) == (PlatformVars { active_app, is_minimized, ..*old(vars) }),
        final(input).app_active == active_app,
{
    clear_states(keys, 0);
    if is_minimized {
        set_minimized(vars);
    } else {
        clear_minimized(vars);
    }
    if !active_app {
        clear_active_app(vars);
    } else {
        set_active_app(vars);
    }
    activate(input, active_app);
}

} // verus!
