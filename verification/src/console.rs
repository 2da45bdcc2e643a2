//! Print channels, their visibility filters, and the console's line buffer.

use vstd::prelude::*;
use core::time::Duration;

verus! {

/// Where a printed message is headed.
#[derive(Copy, Clone, PartialEq, Eq, Debug, Structural)]
pub enum PrintMessageDest {
    Console,
    Minicon,
    Error,
    Game1,
    Game2,
    Game3,
}

/// The row of the filter table that belongs to a destination.
pub open spec fn dest_row(d: PrintMessageDest) -> int {
    match d {
        PrintMessageDest::Console => 0,
        PrintMessageDest::Minicon => 1,
        PrintMessageDest::Error => 2,
        PrintMessageDest::Game1 => 3,
        PrintMessageDest::Game2 => 4,
        PrintMessageDest::Game3 => 5,
    }
}

fn dest_index(d: PrintMessageDest) -> (r: usize)
    ensures
        r == dest_row(d),
{
    match d {
        PrintMessageDest::Console => 0,
        PrintMessageDest::Minicon => 1,
        PrintMessageDest::Error => 2,
        PrintMessageDest::Game1 => 3,
        PrintMessageDest::Game2 => 4,
        PrintMessageDest::Game3 => 5,
    }
}

/// A print channel, by number.
#[derive(Copy, Clone, PartialEq, Eq, Debug, Structural)]
pub struct Channel(pub u8);

impl Channel {
    /// The channel numbered `value`.
    pub fn new(value: u8) -> (r: Self)
        ensures
            r.0 == value,
    {
        Self(value)
    }

    /// The channel's number.
    pub fn get(&self) -> (r: u8)
        ensures
            r == self.0,
    {
        self.0
    }
}

/// A string of fixed capacity, from `arrayvec`.
#[verifier::external_type_specification]
#[verifier::external_body]
pub struct ExArrayString<const CAP: usize>(arrayvec::ArrayString<CAP>);

/// The characters a channel name of up to 32 bytes holds.
pub uninterp spec fn channel_name_text(s: arrayvec::ArrayString<32>) -> Seq<char>;

/// Calls `ArrayString::new`: an empty channel name.
#[verifier::external_body]
fn new_channel_name() -> (r: arrayvec::ArrayString<32>)
    ensures
        channel_name_text(r).len() == 0,
{
    arrayvec::ArrayString::new()
}

/// An open print channel: a name (empty while the channel is unused) and
/// whether scripts may print on it.
#[derive(Clone, Copy, Debug)]
pub struct PrintChannel {
    pub name: arrayvec::ArrayString<32>,
    pub allow_script: bool,
}

impl PrintChannel {
    /// A channel with no name that scripts may not print on.
    pub fn new() -> (r: Self)
        ensures
            channel_name_text(r.name).len() == 0,
            !r.allow_script,
    {
        Self { name: new_channel_name(), allow_script: false }
    }
}

/// The channels an `ArrayVec` of them holds: each one's name and whether
/// scripts may print on it.
pub uninterp spec fn open_channels_of(v: arrayvec::ArrayVec<PrintChannel, 256>) -> Seq<(Seq<char>, bool)>;

/// Calls `ArrayVec::new`: no open channel.
#[verifier::external_body]
fn new_open_channels() -> (r: arrayvec::ArrayVec<PrintChannel, 256>)
    ensures
        open_channels_of(r).len() == 0,
{
    arrayvec::ArrayVec::new()
}

/// Whether the name of channel `i` is empty: indexes the vector (through
/// the slice it dereferences to) and asks the name's `is_empty`.
#[verifier::external_body]
fn open_channel_name_is_empty(v: &arrayvec::ArrayVec<PrintChannel, 256>, i: usize) -> (r: bool)
    requires
        i < open_channels_of(*v).len(),
    ensures
        r == (open_channels_of(*v)[i as int].0.len() == 0),
{
    v[i].name.is_empty()
}

/// The open channels and, for each destination, a bit mask of the channels
/// shown there.
#[derive(Debug)]
pub struct PrintChannelGlob {
    pub open_channels: arrayvec::ArrayVec<PrintChannel, 256>,
    pub filters: [[u32; 8]; 6],
}

impl PrintChannelGlob {
    /// No open channel and every filter clear.
    pub fn new() -> (r: Self)
        ensures
            open_channels_of(r.open_channels).len() == 0,
            forall|d: int, w: int| 0 <= d < 6 && 0 <= w < 8 ==> #[trigger] r.filters@[d]@[w] == 0,
    {
        let row: [u32; 8] = [0u32, 0u32, 0u32, 0u32, 0u32, 0u32, 0u32, 0u32];
        let filters: [[u32; 8]; 6] = [row, row, row, row, row, row];
        Self { open_channels: new_open_channels(), filters }
    }

    /// How many channel slots there are.
    pub open spec fn channel_count(&self) -> nat {
        open_channels_of(self.open_channels).len()
    }

    /// Whether channel `ch` has a name.
    pub open spec fn is_open(&self, ch: u8) -> bool {
        open_channels_of(self.open_channels)[ch as int].0.len() > 0
    }
}

/// The destination that is looked at: the minicon shares the console's
/// filters.
pub open spec fn effective_dest(d: PrintMessageDest) -> PrintMessageDest {
    if d == PrintMessageDest::Minicon {
        PrintMessageDest::Console
    } else {
        d
    }
}

/// Whether the filter check is reached, past the early answers.
pub open spec fn reaches_filter(glob: &PrintChannelGlob, d: PrintMessageDest, ch: u8) -> bool {
    &&& glob.is_open(ch)
    &&& !(d == PrintMessageDest::Minicon && (ch == 2 || ch == 3 || ch == 4))
    &&& !(effective_dest(d) == PrintMessageDest::Console && ch == 0)
}

/// Whether a message for destination `d` on channel `ch`, with the extra
/// argument `p`, is shown.
pub open spec fn channel_visible(glob: &PrintChannelGlob, d: PrintMessageDest, ch: u8, p: i32) -> bool {
    if !glob.is_open(ch) {
        false
    } else if d == PrintMessageDest::Minicon && (ch == 2 || ch == 3 || ch == 4) {
        false
    } else if effective_dest(d) == PrintMessageDest::Console && ch == 0 {
        true
    } else {
        let row = glob.filters@[dest_row(effective_dest(d))]@;
        let masked = row[(ch >> 5u8) as int] & (1u32 << ch) & 0x1Fu32;
        let kind = (p >> 5i32) & 0x1Fi32;
        !(masked == 0 && ((kind != 3 && kind != 2) || row[0] & 2u32 != 0))
    }
}

/// Whether a message for `msg_dest` on `channel` is shown. The channel must
/// be one of the open-channel slots, and where the filter mask is consulted
/// its number must be below 32 (the mask is shifted by it).
pub fn is_channel_visible(glob: &PrintChannelGlob, msg_dest: PrintMessageDest, channel: Channel, param_3: i32) -> (r: bool)
    requires
        (channel.0 as int) < glob.channel_count(),
        reaches_filter(glob, msg_dest, channel.0) ==> channel.0 < 32,
    ensures
        r == channel_visible(glob, msg_dest, channel.0, param_3),
{
    let ch = channel.get();
    if open_channel_name_is_empty(&glob.open_channels, ch as usize) {
        return false;
    }
    let mut dest = msg_dest;
    if dest == PrintMessageDest::Minicon {
        if ch == 2 || ch == 3 || ch == 4 {
            return false;
        }
        dest = PrintMessageDest::Console;
    }
    if dest == PrintMessageDest::Console && ch == 0 {
        return true;
    }
    let row = dest_index(dest);
    assert((ch >> 5u8) < 8u8) by (bit_vector);
    let word = glob.filters[row][(ch >> 5u8) as usize];
    let bit: u32 = 1u32 << ch;
    let masked = word & bit & 0x1Fu32;
    let kind = (param_3 >> 5i32) & 0x1Fi32;
    if masked == 0 && ((kind != 3 && kind != 2) || glob.filters[row][0] & 2u32 != 0) {
        return false;
    }
    true
}

/// The characters a console line of up to 256 bytes holds.
pub uninterp spec fn console_line_text(s: arrayvec::ArrayString<256>) -> Seq<char>;

/// The lines an `ArrayVec` of console lines holds.
pub uninterp spec fn console_lines(v: arrayvec::ArrayVec<arrayvec::ArrayString<256>, 100>) -> Seq<Seq<char>>;

/// Calls `ArrayVec::new`: no line.
#[verifier::external_body]
fn new_console_lines() -> (r: arrayvec::ArrayVec<arrayvec::ArrayString<256>, 100>)
    ensures
        console_lines(r).len() == 0,
{
    arrayvec::ArrayVec::new()
}

/// Calls `ArrayVec::len`: how many lines are held.
#[verifier::external_body]
fn console_line_count(v: &arrayvec::ArrayVec<arrayvec::ArrayString<256>, 100>) -> (r: usize)
    ensures
        r == console_lines(*v).len(),
{
    v.len()
}

/// Replaces line `i`, through `ArrayVec::get_mut`, by a copy of `line`.
#[verifier::external_body]
fn set_console_line(v: &mut arrayvec::ArrayVec<arrayvec::ArrayString<256>, 100>, i: usize, line: &arrayvec::ArrayString<256>)
    requires
        i < console_lines(*old(v)).len(),
    ensures
        console_lines(*final(v)) == console_lines(*old(v)).update(i as int, console_line_text(*line)),
{
    *v.get_mut(i).unwrap() = *line;
}

/// The console's ring of lines and the slot the next line goes to.
pub struct ConsoleBuffer {
    pub buf: arrayvec::ArrayVec<arrayvec::ArrayString<256>, 100>,
    current_line: usize,
}

impl ConsoleBuffer {
    /// The lines held, in slot order.
    pub closed spec fn lines(&self) -> Seq<Seq<char>> {
        console_lines(self.buf)
    }

    /// The slot the next appended line goes to.
    pub closed spec fn cursor(&self) -> nat {
        self.current_line as nat
    }

    /// A buffer with no slots.
    pub fn new() -> (r: Self)
        ensures
            r.lines().len() == 0,
            r.cursor() == 0,
    {
        Self { buf: new_console_lines(), current_line: 0 }
    }

    /// Writes `line` into the current slot and moves on to the next slot,
    /// back to the first one after slot 256. The current slot must exist.
    pub fn append_line(&mut self, line: &arrayvec::ArrayString<256>)
        requires
            old(self).cursor() < old(self).lines().len(),
        ensures
            final(self).lines() == old(self).lines().update(old(self).cursor() as int, console_line_text(*line)),
            final(self).cursor() == if old(self).cursor() == 256 { 0 } else { old(self).cursor() + 1 },
    {
        let i = self.current_line;
        let count = console_line_count(&self.buf);
        assert(i < count);
        set_console_line(&mut self.buf, i, line);
        self.current_line = if i == 256 { 0 } else { i + 1 };
    }

    /// Writes `line` into slot `line_num`, which must exist.
    pub fn set_line(&mut self, line_num: u8, line: &arrayvec::ArrayString<256>)
        requires
            (line_num as int) < old(self).lines().len(),
        ensures
            final(self).lines() == old(self).lines().update(line_num as int, console_line_text(*line)),
            final(self).cursor() == old(self).cursor(),
    {
        set_console_line(&mut self.buf, line_num as usize, line);
    }
}

/// When a message appeared and when it goes.
#[derive(Copy, Clone, Default)]
pub struct Message {
    pub start_time: Duration,
    pub end_time: Duration,
}

/// The flags of a message line (none are defined).
#[derive(Copy, Clone, Default, PartialEq, Eq, Debug, Structural)]
pub struct MessageLineFlags {
    pub bits: u32,
}

/// A line of a message window.
#[derive(Copy, Clone, Default)]
pub struct MessageLine {
    pub message_index: usize,
    pub text_buf_pos: usize,
    pub text_buf_size: usize,
    pub typing_start_time: Duration,
    pub last_typing_sound_time: Duration,
    pub flags: MessageLineFlags,
}

/// `Duration` is `Copy`; its `clone` gives back the same duration.
pub assume_specification[ <Duration as Clone>::clone ](d: &Duration) -> (r: Duration)
    ensures
        r == *d,
;

/// A window of message lines over a circular text buffer.
#[derive(Clone, Default)]
pub struct MessageWindow {
    pub lines: Vec<MessageLine>,
    pub messages: Vec<Message>,
    pub circular_text_buffer: String,
    pub scroll_time: Duration,
    pub fade_in: Duration,
    pub fade_out: Duration,
    pub text_buf_pos: usize,
    pub first_line_index: usize,
    pub active_line_count: usize,
    pub message_index: usize,
}

/// The game-message, minicon and error windows with their texts and lines.
#[derive(Default)]
pub struct MessageBuffer {
    pub gamemsg_text: arrayvec::ArrayVec<arrayvec::ArrayString<2048>, 3>,
    pub gamemsg_windows: arrayvec::ArrayVec<MessageWindow, 3>,
    pub gamemsg_lines: arrayvec::ArrayVec<arrayvec::ArrayVec<MessageLine, 12>, 3>,
    pub gamemsg_messages: arrayvec::ArrayVec<arrayvec::ArrayVec<Message, 12>, 3>,
    pub minicon_text: arrayvec::ArrayString<4096>,
    pub minicon_window: MessageWindow,
    pub minicon_lines: arrayvec::ArrayVec<Message, 100>,
    pub minicon_messages: arrayvec::ArrayVec<Message, 100>,
    pub error_text: arrayvec::ArrayString<1024>,
    pub error_window: MessageWindow,
    pub error_lines: arrayvec::ArrayVec<MessageLine, 5>,
    pub error_messages: arrayvec::ArrayVec<Message, 5>,
}

/// A copy of the console text, at most `len` long. The console keeps no
/// text yet, so the copy is empty.
pub fn get_text_copy(len: usize) -> (r: String)
    ensures
        r@.len() == 0,
{
    String::new()
}

} // verus!
