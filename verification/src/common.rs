//! Shared data of the game's settings menus.

use vstd::prelude::*;

verus! {

/// The video memory a setting needs, per platform.
#[derive(Copy, Clone, Default, Debug)]
pub struct CardMemory {
    pub platform: [i32; 2],
}

/// The texture detail a setting uses, per platform.
#[derive(Copy, Clone, Default, Debug)]
pub struct Picmip {
    pub platform: [u8; 2],
}

/// A cell of a menu row.
#[derive(Clone, Default, Debug)]
pub struct MenuCell {
    pub cell_type: i32,
    pub max_chars: i32,
    pub string_value: String,
}

/// A row of a menu: its cells, the events it sends, and its state.
#[derive(Clone, Default, Debug)]
pub struct MenuRow {
    pub cells: Vec<MenuCell>,
    pub event_name: String,
    pub on_focus_event_name: String,
    pub disable_arg: bool,
    pub status: i32,
    pub name: i32,
}

} // verus!
