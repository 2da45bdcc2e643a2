//! The state the platform layer shares: the main window, whether the
//! application is active or minimised, and the time of the last message.

use vstd::prelude::*;

verus! {

/// The window-system handle of a window, from `raw-window-handle`.
#[verifier::external_type_specification]
#[verifier::external_body]
pub struct ExRawWindowHandle(raw_window_handle::RawWindowHandle);

/// The handle of a window.
#[derive(Copy, Clone)]
pub struct WindowHandle(pub raw_window_handle::RawWindowHandle);

/// The handle of a font.
#[derive(Copy, Clone, Debug, PartialEq, Eq, Structural)]
pub struct FontHandle(pub isize);

/// The platform state: the main window, whether the application is active
/// and whether it is minimised, whether the mouse is to be recentred, and
/// the time of the last system message.
#[derive(Copy, Clone)]
pub struct PlatformVars {
    pub window_handle: Option<WindowHandle>,
    pub active_app: bool,
    pub is_minimized: bool,
    pub recenter_mouse: bool,
    pub sys_msg_time: isize,
}

impl PlatformVars {
    /// No window, the mouse left alone, message time zero.
    pub fn new(active_app: bool, is_minimized: bool) -> (r: Self)
        ensures
            r.window_handle is None,
            r.active_app == active_app,
            r.is_minimized == is_minimized,
            !r.recenter_mouse,
            r.sys_msg_time == 0,
    {
        Self { window_handle: None, active_app, is_minimized, recenter_mouse: false, sys_msg_time: 0 }
    }
}

/// A copy of the platform state.
pub fn get_platform_vars(vars: &PlatformVars) -> (r: PlatformVars)
    ensures
        r == *vars,
{
    *vars
}

/// Replaces the platform state.
pub fn set_platform_vars(vars: &mut PlatformVars, new_vars: PlatformVars)
    ensures
        *final(vars) == new_vars,
{
    *vars = new_vars;
}

/// The main window, if there is one.
pub fn get_window_handle(vars: &PlatformVars) -> (r: Option<WindowHandle>)
    ensures
        r == vars.window_handle,
{
    vars.window_handle
}

/// Records the main window; nothing else changes.
pub fn set_window_handle(vars: &mut PlatformVars, window_handle: WindowHandle)
    ensures
        *final(vars) == (PlatformVars { window_handle: Some(window_handle), ..*old(vars) }),
{
    vars.window_handle = Some(window_handle);
}

/// Forgets the main window; nothing else changes.
pub fn clear_window_handle(vars: &mut PlatformVars)
    ensures
        *final(vars) == (PlatformVars { window_handle: None, ..*old(vars) }),
{
    vars.window_handle = None;
}

/// Whether the application is active.
pub fn get_active_app(vars: &PlatformVars) -> (r: bool)
    ensures
        r == vars.active_app,
{
    vars.active_app
}

/// Marks the application active; nothing else changes.
pub fn set_active_app(vars: &mut PlatformVars)
    ensures
        *final(vars) == (PlatformVars { active_app: true, ..*old(vars) }),
{
    vars.active_app = true;
}

/// Marks the application inactive; nothing else changes.
pub fn clear_active_app(vars: &mut PlatformVars)
    ensures
        *final(vars) == (PlatformVars { active_app: false, ..*old(vars) }),
{
    vars.active_app = false;
}

/// The answer to "is the application minimised?", which reads the active
/// flag rather than the minimised one.
pub fn get_minimized(vars: &PlatformVars) -> (r: bool)
    ensures
        r == vars.active_app,
{
    vars.active_app
}

/// Marks the application minimised; nothing else changes.
pub fn set_minimized(vars: &mut PlatformVars)
    ensures
        *final(vars) == (PlatformVars { is_minimized: true, ..*old(vars) }),
{
    vars.is_minimized = true;
}

/// Marks the application not minimised; nothing else changes.
pub fn clear_minimized(vars: &mut PlatformVars)
    ensures
        *final(vars) == (PlatformVars { is_minimized: false, ..*old(vars) }),
{
    vars.is_minimized = false;
}

/// The time of the last system message.
pub fn get_msg_time(vars: &PlatformVars) -> (r: isize)
    ensures
        r == vars.sys_msg_time,
{
    vars.sys_msg_time
}

/// Records the time of the last system message; nothing else changes.
pub fn set_msg_time(vars: &mut PlatformVars, msg_time: isize)
    ensures
        *final(vars) == (PlatformVars { sys_msg_time: msg_time, ..*old(vars) }),
{
    vars.sys_msg_time = msg_time;
}

} // verus!
