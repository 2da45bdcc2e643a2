//! The renderer's global state.

use vstd::prelude::*;

verus! {

/// The renderer's global state.
#[derive(Copy, Clone, Default, Debug, PartialEq, Eq, Structural)]
pub struct Globals {
    pub started_render_thread: bool,
    pub is_multiplayer: bool,
    pub end_frame_fence: i32,
    pub is_rendering_remote_update: bool,
    pub screen_update_notify: bool,
    pub remote_screen_update_nesting: i32,
    pub remote_screen_update_in_game: i32,
    pub remote_screen_last_scene_resolve_target: u8,
    pub back_end_frame_count: i32,
    pub frame_buffer: u8,
    pub display_buffer: u8,
    pub ui_3d_use_frame_buffer: u8,
    pub ui_3d_render_target: u8,
}

} // verus!
