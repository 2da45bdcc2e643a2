//! Input: whether the application takes input, the use button's taps, and
//! the mouse, game pad and key binds.

pub mod gpad;
pub mod keyboard;
pub mod mouse;

use vstd::prelude::*;
use crate::cl::ClientUse;
use crate::com::printed;
use crate::console::Channel;
use crate::dvar::{DvarFlags, DvarRegistry, DvarRegistryView, DvarView, DvarLimitsView, DvarValueView};
use crate::dvar::get::{get_bool, get_int, spec_get_bool, spec_get_int};
use crate::dvar::global_fns::clear_modified;
use crate::dvar::register::{fresh_dvar, register_bool};
use crate::input::mouse::MouseVars;

verus! {

/// Whether the application takes input.
pub struct InputState {
    pub app_active: bool,
}

impl InputState {
    /// Not taking input.
    pub fn new() -> (r: Self)
        ensures
            !r.app_active,
    {
        Self { app_active: false }
    }
}

/// Records whether the application is active, and turns the mouse on or
/// off with it.
pub fn activate(state: &mut InputState, app_active: bool)
    ensures
        final(state).app_active == app_active,
        *final(state) == (InputState { app_active, ..*old(state) }),
{
    state.app_active = app_active;
    if !app_active {
        mouse::deactivate();
    } else {
        mouse::activate(1);
    }
}

/// Stops input: the mouse is turned off.
pub fn shutdown() {
    mouse::deactivate();
}

/// The longest gap between two taps of the use button that still counts
/// as a double tap, from the dvar "cl_dblTapMaxDelayTime".
pub open spec fn dbl_tap_max_delay(dvars: &DvarRegistry) -> i32 {
    spec_get_int(dvars@, "cl_dblTapMaxDelayTime"@)->Some_0
}

/// Whether the use button can be marked held: the dvar exists as an
/// integer and the time since the last press fits.
pub open spec fn can_update_use_held(cg: ClientUse, dvars: &DvarRegistry, frame_time: isize) -> bool {
    &&& spec_get_int(dvars@, "cl_dblTapMaxDelayTime"@) is Some
    &&& !cg.use_held ==> i32::MIN <= (frame_time as i32) - cg.use_time <= i32::MAX
}

/// The use state once the button is held at `frame_time`: a press that was
/// not held yet starts the count again when the last press is too long
/// ago, and takes the time.
pub open spec fn use_held_effect(cg: ClientUse, dvars: &DvarRegistry, frame_time: isize) -> ClientUse {
    if cg.use_held {
        cg
    } else {
        ClientUse {
            use_held: true,
            use_time: frame_time as i32,
            use_count: if dbl_tap_max_delay(dvars) <= (frame_time as i32) - cg.use_time {
                0
            } else {
                cg.use_count
            },
        }
    }
}

/// Marks the use button held at `frame_time` (see [`use_held_effect`]).
pub fn update_use_held(cg: &mut ClientUse, dvars: &DvarRegistry, frame_time: isize)
    requires
        dvars.wf(),
        can_update_use_held(*old(cg), dvars, frame_time),
    ensures
        *final(cg) == use_held_effect(*old(cg), dvars, frame_time),
{
    if !cg.use_held {
        let max_delay = match get_int(dvars, "cl_dblTapMaxDelayTime") {
            Some(v) => v,
            None => 0,
        };
        let now = frame_time as i32;
        if max_delay <= now - cg.use_time {
            cg.use_count = 0;
        }
        cg.use_held = true;
        cg.use_time = now;
    }
}

/// Whether a release can be counted: the dvar exists as an integer, the
/// time since the press fits, and so does one more tap.
pub open spec fn can_update_use_count(cg: ClientUse, dvars: &DvarRegistry, frame_time: isize) -> bool {
    &&& spec_get_int(dvars@, "cl_dblTapMaxDelayTime"@) is Some
    &&& isize::MIN <= frame_time - cg.use_time <= isize::MAX
    &&& frame_time - cg.use_time < dbl_tap_max_delay(dvars) ==> cg.use_count < i32::MAX
}

/// The use state once the button is released at `frame_time`: a release
/// soon enough after the press counts one more tap, a later one starts the
/// count again; the button is no longer held.
pub open spec fn use_count_effect(cg: ClientUse, dvars: &DvarRegistry, frame_time: isize) -> ClientUse {
    ClientUse {
        use_held: false,
        use_count: if frame_time - cg.use_time < dbl_tap_max_delay(dvars) {
            (cg.use_count + 1) as i32
        } else {
            0
        },
        ..cg
    }
}

/// Counts a release of the use button at `frame_time` (see
/// [`use_count_effect`]).
pub fn update_use_count(cg: &mut ClientUse, dvars: &DvarRegistry, frame_time: isize)
    requires
        dvars.wf(),
        can_update_use_count(*old(cg), dvars, frame_time),
    ensures
        *final(cg) == use_count_effect(*old(cg), dvars, frame_time),
{
    let max_delay = match get_int(dvars, "cl_dblTapMaxDelayTime") {
        Some(v) => v,
        None => 0,
    };
    if frame_time - (cg.use_time as isize) < (max_delay as isize) {
        cg.use_count = cg.use_count + 1;
    } else {
        cg.use_count = 0;
    }
    cg.use_held = false;
}

/// The dvar "in_mouse" as it is first registered: archived and latched,
/// true.
pub open spec fn in_mouse_dvar() -> DvarView {
    fresh_dvar(
        "in_mouse"@,
        "Initialize the mouse drivers"@,
        DvarFlags::ARCHIVE | DvarFlags::LATCHED,
        DvarLimitsView::Bool,
        DvarValueView::Bool(true),
    )
}

/// Starts input: registers "in_mouse" (see [`in_mouse_dvar`]), starts the
/// mouse (see [`mouse::startup`]) and clears the dvar's modified mark.
/// The game pad's start-up, which registers floating-point dvars, is the
/// caller's; the game pad's other dvars are registered by
/// [`gpad::register_gpad_dvars`]. "in_mouse" is registered again where it
/// exists. Returns what the mouse printed.
pub fn init(dvars: &mut DvarRegistry, mouse: &mut MouseVars) -> (r: Option<String>)
    requires
        old(dvars).wf(),
        old(dvars).can_register("in_mouse"@),
    ensures
        final(dvars).wf(),
        final(dvars)@ == old(dvars).after_register(in_mouse_dvar()),
        final(mouse).mouse_initialized,
        final(mouse).mouse_active == old(mouse).mouse_active,
        r is None,
{
    let flags = DvarFlags::from_bits(DvarFlags::ARCHIVE | DvarFlags::LATCHED);
    let _ = register_bool(dvars, "in_mouse", true, flags, Some("Initialize the mouse drivers"));
    let ghost registered = dvars@;
    assert(registered.dvars["in_mouse"@] == in_mouse_dvar());
    let r = mouse::startup(dvars, mouse);
    assert(dvars@.dvars =~= registered.dvars);
    let _ = clear_modified(dvars, "in_mouse");
    assert(dvars@.dvars =~= registered.dvars);
    r
}

} // verus!
