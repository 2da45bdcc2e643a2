//! The mouse: its buttons and whether its driver is up.

use vstd::prelude::*;
use crate::com::printed;
use crate::console::Channel;
use crate::dvar::{DvarRegistry, DvarRegistryView, DvarView};
use crate::dvar::get::{get_bool, spec_get_bool};
use crate::dvar::global_fns::clear_modified;

verus! {

/// Turns the mouse on; there is nothing to do yet.
pub fn activate(param_1: isize) {
}

/// Turns the mouse off; there is nothing to do yet.
pub fn deactivate() {
}

/// The mouse buttons that are down, as bits.
#[derive(Copy, Clone, Default, Debug, PartialEq, Eq, Structural)]
pub struct ButtonState {
    pub bits: u32,
}

impl ButtonState {
    pub const LBUTTON: u32 = 0x01;
    pub const RBUTTON: u32 = 0x02;
    pub const MBUTTON: u32 = 0x04;
    pub const XBUTTON1: u32 = 0x08;
    pub const XBUTTON2: u32 = 0x10;
}

/// The mouse's state: the buttons down and the position at the last look,
/// whether it is on, and whether its driver is up.
#[derive(Copy, Clone, Default, Debug)]
pub struct MouseVars {
    pub old_button_state: ButtonState,
    pub old_pos: (u16, u16),
    pub mouse_active: bool,
    pub mouse_initialized: bool,
}

/// The message printed when the mouse is not to be used.
pub open spec fn mouse_off_message() -> Option<Seq<char>> {
    printed(Channel(14), "Mouse control not active."@ + "\n"@)
}

/// Starts the mouse: its driver is up when the dvar "in_mouse" is true;
/// otherwise a message says so (returned). The dvar's modified mark is
/// cleared; the dvar must exist. The game pad's start-up is the caller's.
pub fn startup(dvars: &mut DvarRegistry, mouse: &mut MouseVars) -> (r: Option<String>)
    requires
        old(dvars).wf(),
        old(dvars).has("in_mouse"@),
    ensures
        final(dvars).wf(),
        final(dvars)@ == (DvarRegistryView {
            dvars: old(dvars)@.dvars.insert("in_mouse"@, DvarView { modified: false, ..old(dvars).get("in_mouse"@) }),
            ..old(dvars)@
        }),
        final(mouse).mouse_initialized == (spec_get_bool(old(dvars)@, "in_mouse"@) == Some(true)),
        final(mouse).mouse_active == old(mouse).mouse_active,
        final(mouse).old_pos == old(mouse).old_pos,
        final(mouse).old_button_state == old(mouse).old_button_state,
        match r {
            Some(s) => !final(mouse).mouse_initialized && mouse_off_message() == Some(s@),
            None => final(mouse).mouse_initialized,
        },
{
    mouse.mouse_initialized = false;
    let on = match get_bool(dvars, "in_mouse") {
        Some(b) => b,
        None => false,
    };
    let r = if !on {
        crate::com::println(Channel::new(14), "Mouse control not active.")
    } else {
        mouse.mouse_initialized = true;
        None
    };
    let _ = clear_modified(dvars, "in_mouse");
    r
}

/// A mouse button or wheel direction.
#[derive(Copy, Clone, Debug, PartialEq, Eq, Structural)]
pub enum Scancode {
    LClick,
    RClick,
    MClick,
    MWheelUp,
    MWheelDown,
}

} // verus!
