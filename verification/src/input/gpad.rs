//! The game pad: its buttons and sticks, and what a query of them says.

use vstd::prelude::*;

use crate::dvar::global_fns::{DvarRegistry, DvarRegistryView};
use crate::dvar::register::{fresh_dvar, register_bool, register_int, register_string};
use crate::dvar::{DvarFlags, DvarLimitsView, DvarValueView, DvarView, DVAR_COUNT_MAX};

verus! {

/// Whether a button is pressed.
#[derive(Copy, Clone, Debug, PartialEq, Eq, Structural)]
pub enum ButtonState {
    Pressed,
    Released,
}

impl From<bool> for ButtonState {
    fn from(b: bool) -> (r: Self) {
        if b {
            ButtonState::Pressed
        } else {
            ButtonState::Released
        }
    }
}

impl vstd::std_specs::convert::FromSpecImpl<bool> for ButtonState {
    open spec fn obeys_from_spec() -> bool {
        true
    }

    open spec fn from_spec(b: bool) -> ButtonState {
        if b {
            ButtonState::Pressed
        } else {
            ButtonState::Released
        }
    }
}

/// A button of the game pad.
#[derive(Copy, Clone, Debug, PartialEq, Eq, Structural)]
pub enum Button {
    North,
    South,
    East,
    West,
    DPadUp,
    DPadDown,
    DPadLeft,
    DPadRight,
    LeftTrigger,
    LeftBumper,
    RightTrigger,
    RightBumper,
    Menu,
    EtcLeft,
    EtcRight,
}

/// A stick of the game pad.
#[derive(Copy, Clone, Debug, PartialEq, Eq, Structural)]
pub enum Stick {
    LStick,
    RStick,
}

/// Whether the game pad in port `port_index` is enabled; none where there
/// is no such pad. `enabled` holds the pads' flags by port.
pub fn is_active(enabled: &Vec<bool>, port_index: u8) -> (r: Option<bool>)
    ensures
        (port_index as int) < enabled@.len() ==> r == Some(enabled@[port_index as int]),
        (port_index as int) >= enabled@.len() ==> r is None,
{
    if (port_index as usize) < enabled.len() {
        Some(enabled[port_index as usize])
    } else {
        None
    }
}

/// Whether a button is pressed, given what the pad reported for it (none
/// where the pad or button could not be read).
pub fn is_button_pressed(state: Option<ButtonState>) -> (r: Option<bool>)
    ensures
        r == match state {
            Some(s) => Some(s == ButtonState::Pressed),
            None => None::<bool>,
        },
{
    match state {
        Some(s) => Some(s == ButtonState::Pressed),
        None => None,
    }
}

/// Whether a button is released, given what the pad reported for it.
pub fn is_button_released(state: Option<ButtonState>) -> (r: Option<bool>)
    ensures
        r == match state {
            Some(s) => Some(s == ButtonState::Released),
            None => None::<bool>,
        },
{
    match state {
        Some(s) => Some(s == ButtonState::Released),
        None => None,
    }
}

/// Whether a stick is pressed in, given what the pad reported for its
/// button.
pub fn is_stick_pressed(state: Option<ButtonState>) -> (r: Option<bool>)
    ensures
        r == match state {
            Some(s) => Some(s == ButtonState::Pressed),
            None => None::<bool>,
        },
{
    is_button_pressed(state)
}

/// Whether a stick is released, given what the pad reported for its
/// button.
pub fn is_stick_released(state: Option<ButtonState>) -> (r: Option<bool>)
    ensures
        r == match state {
            Some(s) => Some(s == ButtonState::Released),
            None => None::<bool>,
        },
{
    is_button_released(state)
}

/// The game pad's dvar of kind bool, as it is first registered.
pub open spec fn gpad_bool_dvar(name: Seq<char>, value: bool, flags: u32) -> DvarView {
    fresh_dvar(name, Seq::empty(), flags, DvarLimitsView::Bool, DvarValueView::Bool(value))
}

/// The game pad's dvar of kind int, as it is first registered.
pub open spec fn gpad_int_dvar(name: Seq<char>, value: i32, min: i32, max: i32, flags: u32) -> DvarView {
    fresh_dvar(name, Seq::empty(), flags, DvarLimitsView::Int { min, max }, DvarValueView::Int(value))
}

/// The game pad's dvar of kind string, as it is first registered.
pub open spec fn gpad_string_dvar(name: Seq<char>, value: Seq<char>, flags: u32) -> DvarView {
    fresh_dvar(name, Seq::empty(), flags, DvarLimitsView::String, DvarValueView::String(value))
}

/// The registry `r` once the game pad's dvars that hold no floating-point
/// value are registered, in this order: "gpad_debug" (0, any `i32`),
/// "gpad_rumble" (true; archived, settable from the developer GUI),
/// "gpad_menu_scroll_delay_first" (420, 0 to 1000; archived),
/// "gpad_menu_scroll_delay_rest" (210, 0 to 1000; archived),
/// "gpad_buttonsConfig" ("buttons_default") and "gpad_sticksConfig"
/// ("sticks_default"; both archived, settable from the developer GUI),
/// "gpad_enabled" (false; archived, settable from the developer GUI) and
/// "gpad_present" (false; read-only). None has a description.
pub open spec fn gpad_dvars_registered(r: DvarRegistryView) -> DvarRegistryView {
    let menu = DvarFlags::ARCHIVE | DvarFlags::ALLOW_SET_FROM_DEVGUI;
    r.registered(gpad_int_dvar("gpad_debug"@, 0, i32::MIN, i32::MAX, 0))
        .registered(gpad_bool_dvar("gpad_rumble"@, true, menu))
        .registered(gpad_int_dvar("gpad_menu_scroll_delay_first"@, 420, 0, 1000, DvarFlags::ARCHIVE))
        .registered(gpad_int_dvar("gpad_menu_scroll_delay_rest"@, 210, 0, 1000, DvarFlags::ARCHIVE))
        .registered(gpad_string_dvar("gpad_buttonsConfig"@, "buttons_default"@, menu))
        .registered(gpad_string_dvar("gpad_sticksConfig"@, "sticks_default"@, menu))
        .registered(gpad_bool_dvar("gpad_enabled"@, false, menu))
        .registered(gpad_bool_dvar("gpad_present"@, false, DvarFlags::READ_ONLY))
}

/// Registers the game pad's dvars that hold no floating-point value (see
/// [`gpad_dvars_registered`]); a dvar of the same name is registered
/// again. The registry must have room for all of them.
pub fn register_gpad_dvars(dvars: &mut DvarRegistry) -> (r: Result<(), ()>)
    requires
        old(dvars).wf(),
        old(dvars)@.count + 8 <= DVAR_COUNT_MAX,
    ensures
        final(dvars).wf(),
        r is Ok,
        final(dvars)@ == gpad_dvars_registered(old(dvars)@),
{
    let menu = DvarFlags::from_bits(DvarFlags::ARCHIVE | DvarFlags::ALLOW_SET_FROM_DEVGUI);
    let archive = DvarFlags::from_bits(DvarFlags::ARCHIVE);
    register_int(dvars, "gpad_debug", 0, Some(i32::MIN), Some(i32::MAX), DvarFlags::empty(), None)?;
    register_bool(dvars, "gpad_rumble", true, menu, None)?;
    register_int(dvars, "gpad_menu_scroll_delay_first", 420, Some(0), Some(1000), archive, None)?;
    register_int(dvars, "gpad_menu_scroll_delay_rest", 210, Some(0), Some(1000), archive, None)?;
    register_string(dvars, "gpad_buttonsConfig", "buttons_default", menu, None)?;
    register_string(dvars, "gpad_sticksConfig", "sticks_default", menu, None)?;
    register_bool(dvars, "gpad_enabled", false, menu, None)?;
    register_bool(dvars, "gpad_present", false, DvarFlags::from_bits(DvarFlags::READ_ONLY), None)?;
    Ok(())
}

} // verus!
