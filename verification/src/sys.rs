//! Keyboard and mouse scancodes, modifier keys, input events and their
//! queue, the thread table, synchronisation events, the millisecond clock,
//! and message box kinds.

use vstd::prelude::*;
use vstd::string::StrSliceExecFns;
use crate::com::BuildOs;
use crate::text::{concat, contains_text, has_substring, decimal_u64, decimal_usize, trim, trimmed, u64_to_string, usize_to_string};
use crate::cmd::{add_internal, after_add, CmdRegistry, CmdRegistryView};
use crate::com::printed;
use crate::console::Channel;

verus! {

/// A key of the keyboard, by its place.
#[derive(Copy, Clone, Debug, PartialEq, Eq, Structural)]
pub enum KeyboardScancode {
    Esc,
    F1,
    F2,
    F3,
    F4,
    F5,
    F6,
    F7,
    F8,
    F9,
    F10,
    F11,
    F12,
    PrtScSysRq,
    ScrLk,
    PauseBreak,
    Tilde,
    Key1,
    Key2,
    Key3,
    Key4,
    Key5,
    Key6,
    Key7,
    Key8,
    Key9,
    Key0,
    Hyphen,
    Equals,
    Backspace,
    Insert,
    Home,
    PgUp,
    NumLk,
    NumSlash,
    NumAsterisk,
    NumHyphen,
    Tab,
    Q,
    W,
    E,
    R,
    T,
    Y,
    U,
    I,
    O,
    P,
    OpenBracket,
    CloseBracket,
    BackSlash,
    Del,
    End,
    PgDn,
    Num7,
    Num8,
    Num9,
    NumPlus,
    CapsLk,
    A,
    S,
    D,
    F,
    G,
    H,
    J,
    K,
    L,
    Semicolon,
    Apostrophe,
    Enter,
    Num4,
    Num5,
    Num6,
    LShift,
    Z,
    X,
    C,
    V,
    B,
    N,
    M,
    Comma,
    Period,
    ForwardSlash,
    RShift,
    ArrowUp,
    Num1,
    Num2,
    Num3,
    NumEnter,
    LCtrl,
    LSys,
    LAlt,
    Space,
    RAlt,
    RSys,
    Fn,
    Menu,
    RCtrl,
    ArrowLeft,
    ArrowDown,
    ArrowRight,
    Num0,
    NumPeriod,
}

impl KeyboardScancode {
    /// Whether Num Lock changes what the key means: the digits of the
    /// number pad and its decimal point.
    pub open spec fn spec_affected_by_num_lock(self) -> bool {
        ||| self == KeyboardScancode::Num0
        ||| self == KeyboardScancode::Num1
        ||| self == KeyboardScancode::Num2
        ||| self == KeyboardScancode::Num3
        ||| self == KeyboardScancode::Num4
        ||| self == KeyboardScancode::Num5
        ||| self == KeyboardScancode::Num6
        ||| self == KeyboardScancode::Num7
        ||| self == KeyboardScancode::Num8
        ||| self == KeyboardScancode::Num9
        ||| self == KeyboardScancode::NumPeriod
    }

    /// Whether Num Lock changes what the key means.
    pub fn affected_by_num_lock(self) -> (r: bool)
        ensures
            r == self.spec_affected_by_num_lock(),
    {
        match self {
            KeyboardScancode::Num0 | KeyboardScancode::Num1 | KeyboardScancode::Num2 | KeyboardScancode::Num3
            | KeyboardScancode::Num4 | KeyboardScancode::Num5 | KeyboardScancode::Num6 | KeyboardScancode::Num7
            | KeyboardScancode::Num8 | KeyboardScancode::Num9 | KeyboardScancode::NumPeriod => true,
            _ => false,
        }
    }

    /// The modifier key a single modifier bit stands for.
    pub open spec fn key_of_modifier(bits: u16) -> Option<KeyboardScancode> {
        if bits == Modifiers::CAPSLOCK { Some(KeyboardScancode::CapsLk) }
        else if bits == Modifiers::LALT { Some(KeyboardScancode::LAlt) }
        else if bits == Modifiers::LCTRL { Some(KeyboardScancode::LCtrl) }
        else if bits == Modifiers::LSHIFT { Some(KeyboardScancode::LShift) }
        else if bits == Modifiers::LSYS { Some(KeyboardScancode::LSys) }
        else if bits == Modifiers::NUMLOCK { Some(KeyboardScancode::NumLk) }
        else if bits == Modifiers::RALT { Some(KeyboardScancode::RAlt) }
        else if bits == Modifiers::RCTRL { Some(KeyboardScancode::RCtrl) }
        else if bits == Modifiers::RSHIFT { Some(KeyboardScancode::RShift) }
        else if bits == Modifiers::RSYS { Some(KeyboardScancode::RSys) }
        else if bits == Modifiers::SCRLOCK { Some(KeyboardScancode::ScrLk) }
        else { None }
    }

    /// The modifier bit of a modifier key.
    pub open spec fn modifier_of_key(k: KeyboardScancode) -> Option<u16> {
        match k {
            KeyboardScancode::CapsLk => Some(Modifiers::CAPSLOCK),
            KeyboardScancode::LAlt => Some(Modifiers::LALT),
            KeyboardScancode::LCtrl => Some(Modifiers::LCTRL),
            KeyboardScancode::LShift => Some(Modifiers::LSHIFT),
            KeyboardScancode::LSys => Some(Modifiers::LSYS),
            KeyboardScancode::NumLk => Some(Modifiers::NUMLOCK),
            KeyboardScancode::RAlt => Some(Modifiers::RALT),
            KeyboardScancode::RCtrl => Some(Modifiers::RCTRL),
            KeyboardScancode::RShift => Some(Modifiers::RSHIFT),
            KeyboardScancode::RSys => Some(Modifiers::RSYS),
            KeyboardScancode::ScrLk => Some(Modifiers::SCRLOCK),
            _ => None,
        }
    }

    /// The key a single modifier bit stands for; any other set of bits is
    /// refused.
    pub fn try_from_modifiers(value: Modifiers) -> (r: Result<KeyboardScancode, ()>)
        ensures
            match Self::key_of_modifier(value.bits) {
                Some(k) => r == Ok::<KeyboardScancode, ()>(k),
                None => r is Err,
            },
    {
        if value.bits == Modifiers::CAPSLOCK {
            Ok(KeyboardScancode::CapsLk)
        } else if value.bits == Modifiers::LALT {
            Ok(KeyboardScancode::LAlt)
        } else if value.bits == Modifiers::LCTRL {
            Ok(KeyboardScancode::LCtrl)
        } else if value.bits == Modifiers::LSHIFT {
            Ok(KeyboardScancode::LShift)
        } else if value.bits == Modifiers::LSYS {
            Ok(KeyboardScancode::LSys)
        } else if value.bits == Modifiers::NUMLOCK {
            Ok(KeyboardScancode::NumLk)
        } else if value.bits == Modifiers::RALT {
            Ok(KeyboardScancode::RAlt)
        } else if value.bits == Modifiers::RCTRL {
            Ok(KeyboardScancode::RCtrl)
        } else if value.bits == Modifiers::RSHIFT {
            Ok(KeyboardScancode::RShift)
        } else if value.bits == Modifiers::RSYS {
            Ok(KeyboardScancode::RSys)
        } else if value.bits == Modifiers::SCRLOCK {
            Ok(KeyboardScancode::ScrLk)
        } else {
            Err(())
        }
    }

    /// The modifier bit of a modifier key; any other key is refused.
    pub fn try_into_modifiers(self) -> (r: Result<Modifiers, ()>)
        ensures
            match Self::modifier_of_key(self) {
                Some(b) => r is Ok && r->Ok_0.bits == b,
                None => r is Err,
            },
    {
        match self {
            KeyboardScancode::CapsLk => Ok(Modifiers { bits: Modifiers::CAPSLOCK }),
            KeyboardScancode::LAlt => Ok(Modifiers { bits: Modifiers::LALT }),
            KeyboardScancode::LCtrl => Ok(Modifiers { bits: Modifiers::LCTRL }),
            KeyboardScancode::LShift => Ok(Modifiers { bits: Modifiers::LSHIFT }),
            KeyboardScancode::LSys => Ok(Modifiers { bits: Modifiers::LSYS }),
            KeyboardScancode::NumLk => Ok(Modifiers { bits: Modifiers::NUMLOCK }),
            KeyboardScancode::RAlt => Ok(Modifiers { bits: Modifiers::RALT }),
            KeyboardScancode::RCtrl => Ok(Modifiers { bits: Modifiers::RCTRL }),
            KeyboardScancode::RShift => Ok(Modifiers { bits: Modifiers::RSHIFT }),
            KeyboardScancode::RSys => Ok(Modifiers { bits: Modifiers::RSYS }),
            KeyboardScancode::ScrLk => Ok(Modifiers { bits: Modifiers::SCRLOCK }),
            _ => Err(()),
        }
    }
}

/// Taking the symmetric difference with the same modifiers twice gives the
/// modifiers back; the difference with no modifier changes nothing.
pub proof fn law_symmetric_difference_twice(a: u16, b: u16)
    ensures
        (a ^ b) ^ b == a,
        a ^ 0u16 == a,
        a ^ a == 0u16,
{
    assert((a ^ b) ^ b == a) by (bit_vector);
    assert(a ^ 0u16 == a) by (bit_vector);
    assert(a ^ a == 0u16) by (bit_vector);
}

/// Turning a modifier key into its bit and back gives the key again, and
/// turning a single modifier bit into its key and back gives the bit again.
pub proof fn modifier_round_trip(k: KeyboardScancode, bits: u16)
    ensures
        KeyboardScancode::modifier_of_key(k) matches Some(b) ==> KeyboardScancode::key_of_modifier(b) == Some(k),
        KeyboardScancode::key_of_modifier(bits) matches Some(k2) ==> KeyboardScancode::modifier_of_key(k2) == Some(bits),
{
}

/// A set of modifier keys that are down or locked, as bits.
#[derive(Copy, Clone, Debug, PartialEq, Eq, Structural)]
pub struct Modifiers {
    pub bits: u16,
}

impl Modifiers {
    pub const LCTRL: u16 = 0x0001;
    pub const LSYS: u16 = 0x0002;
    pub const LALT: u16 = 0x0004;
    pub const LSHIFT: u16 = 0x0008;
    pub const RSHIFT: u16 = 0x0010;
    pub const RALT: u16 = 0x0020;
    pub const RSYS: u16 = 0x0040;
    pub const RCTRL: u16 = 0x0080;
    pub const CAPSLOCK: u16 = 0x0100;
    pub const NUMLOCK: u16 = 0x0200;
    pub const SCRLOCK: u16 = 0x0400;

    /// Whether every bit of `other` is set in `self`.
    pub open spec fn has(self, other: u16) -> bool {
        self.bits & other == other
    }

    /// No modifier.
    pub fn empty() -> (r: Self)
        ensures
            r.bits == 0,
    {
        Modifiers { bits: 0 }
    }

    /// Whether no modifier is set.
    pub fn is_empty(&self) -> (r: bool)
        ensures
            r == (self.bits == 0),
    {
        self.bits == 0
    }

    /// Whether every bit of `other` is set.
    pub fn contains(&self, other: u16) -> (r: bool)
        ensures
            r == self.has(other),
    {
        self.bits & other == other
    }

    /// The modifiers set in exactly one of `self` and `other`.
    pub fn symmetric_difference(&self, other: Modifiers) -> (r: Modifiers)
        ensures
            r.bits == self.bits ^ other.bits,
    {
        Modifiers { bits: self.bits ^ other.bits }
    }

    /// Each modifier set in `self`, one bit at a time, in the order caps
    /// lock, left alt, left control, left system, num lock, right alt,
    /// right control, right shift, right system, scroll lock. The left
    /// shift is not among them.
    pub fn each(self) -> (r: Vec<Modifiers>)
        ensures
            r@.map_values(|m: Modifiers| m.bits) == each_prefix(self.bits, 10),
    {
        let order: [u16; 10] = [
            Modifiers::CAPSLOCK,
            Modifiers::LALT,
            Modifiers::LCTRL,
            Modifiers::LSYS,
            Modifiers::NUMLOCK,
            Modifiers::RALT,
            Modifiers::RCTRL,
            Modifiers::RSHIFT,
            Modifiers::RSYS,
            Modifiers::SCRLOCK,
        ];
        assert(order@ =~= each_order());
        let mut v: Vec<Modifiers> = Vec::new();
        let mut i: usize = 0;
        assert(v@.map_values(|m: Modifiers| m.bits) =~= each_prefix(self.bits, 0));
        while i < 10
            invariant
                i <= 10,
                order@ == each_order(),
                v@.map_values(|m: Modifiers| m.bits) == each_prefix(self.bits, i as int),
            decreases 10 - i,
        {
            let m = order[i];
            let ghost before = v@;
            if self.contains(m) {
                v.push(Modifiers { bits: m });
                assert(v@.map_values(|x: Modifiers| x.bits) =~= before.map_values(|x: Modifiers| x.bits).push(m));
            }
            i = i + 1;
        }
        v
    }
}

/// The single-bit modifiers that [`Modifiers::each`] visits, in its order.
pub open spec fn each_order() -> Seq<u16> {
    seq![Modifiers::CAPSLOCK, Modifiers::LALT, Modifiers::LCTRL, Modifiers::LSYS, Modifiers::NUMLOCK, Modifiers::RALT, Modifiers::RCTRL, Modifiers::RSHIFT, Modifiers::RSYS, Modifiers::SCRLOCK]
}

/// The bits among the first `n` of [`each_order`] that are set in `bits`.
pub open spec fn each_prefix(bits: u16, n: int) -> Seq<u16>
    decreases n,
{
    if n <= 0 {
        Seq::empty()
    } else {
        let m = each_order()[n - 1];
        let rest = each_prefix(bits, n - 1);
        if bits & m == m {
            rest.push(m)
        } else {
            rest
        }
    }
}


/// A mouse button.
#[derive(Copy, Clone, Debug, PartialEq, Eq, Structural)]
pub enum MouseScancode {
    LClick,
    RClick,
    MClick,
    Button4,
    Button5,
    ButtonN(u8),
}

/// What an input event reports.
#[derive(Clone, Debug)]
pub enum EventType {
    Nothing,
    Key(KeyboardScancode, bool),
    Mouse(MouseScancode, bool),
    Character(char),
    Console(String),
}

/// An input event and the time it happened, in milliseconds.
#[derive(Clone, Debug)]
pub struct Event {
    pub time: isize,
    pub event_type: EventType,
}

impl Event {
    /// An event at `time`, or at time zero where none is given.
    pub fn new(time: Option<isize>, event_type: EventType) -> (r: Self)
        ensures
            r.time == match time {
                Some(t) => t,
                None => 0isize,
            },
            r.event_type == event_type,
    {
        let t = match time {
            Some(t) => t,
            None => 0,
        };
        Self { time: t, event_type }
    }
}

/// The millisecond clock: times are counted from the first reading.
pub struct Clock {
    base_acquired: bool,
    time_base: isize,
}

impl Clock {
    /// Whether the clock has been read.
    pub closed spec fn started(&self) -> bool {
        self.base_acquired
    }

    /// The system time of the first reading.
    pub closed spec fn base(&self) -> isize {
        self.time_base
    }

    /// A clock not yet read.
    pub fn new() -> (r: Self)
        ensures
            !r.started(),
    {
        Self { base_acquired: false, time_base: 0 }
    }

    /// The milliseconds since the first reading, given the system time
    /// `now` in milliseconds; the first reading takes `now` as its base and
    /// gives zero.
    pub fn milliseconds(&mut self, now: isize) -> (r: isize)
        requires
            old(self).started() ==> isize::MIN <= now - old(self).base() <= isize::MAX,
        ensures
            final(self).started(),
            old(self).started() ==> final(self).base() == old(self).base() && r == now - old(self).base(),
            !old(self).started() ==> final(self).base() == now && r == 0,
    {
        if !self.base_acquired {
            self.time_base = now;
            self.base_acquired = true;
        }
        now - self.time_base
    }
}

/// The input events waiting to be handled, oldest first.
pub struct EventQueue {
    events: Vec<Event>,
}

impl View for EventQueue {
    type V = Seq<Event>;

    closed spec fn view(&self) -> Seq<Event> {
        self.events@
    }
}

impl EventQueue {
    /// No event waiting.
    pub fn new() -> (r: Self)
        ensures
            r@.len() == 0,
    {
        Self { events: Vec::new() }
    }

    /// How many events are waiting.
    pub fn len(&self) -> (r: usize)
        ensures
            r == self@.len(),
    {
        self.events.len()
    }

    /// Takes the oldest event out of the queue.
    pub fn pop_front(&mut self) -> (r: Option<Event>)
        ensures
            old(self)@.len() == 0 ==> r is None && final(self)@ == old(self)@,
            old(self)@.len() > 0 ==> r == Some(old(self)@[0]) && final(self)@ == old(self)@.drop_first(),
    {
        if self.events.len() == 0 {
            None
        } else {
            Some(self.events.remove(0))
        }
    }
}

/// Puts `ev` at the back of the queue. An event at time zero is stamped
/// with the clock's reading for the system time `now`.
pub fn enqueue_event(queue: &mut EventQueue, clock: &mut Clock, ev: Event, now: isize)
    requires
        ev.time == 0 && old(clock).started() ==> isize::MIN <= now - old(clock).base() <= isize::MAX,
    ensures
        ev.time != 0 ==> final(queue)@ == old(queue)@.push(ev) && *final(clock) == *old(clock),
        ev.time == 0 ==> final(clock).started() && final(clock).base() == (if old(clock).started() { old(clock).base() } else { now }),
        ev.time == 0 ==> final(queue)@.len() == old(queue)@.len() + 1
            && final(queue)@.drop_last() == old(queue)@
            && final(queue)@.last().event_type == ev.event_type
            && final(queue)@.last().time == (if old(clock).started() { now - old(clock).base() } else { 0 }),
{
    let mut ev = ev;
    if ev.time == 0 {
        ev.time = clock.milliseconds(now);
    }
    queue.events.push(ev);
}

/// Whether a synchronisation event is signalled.
#[derive(Copy, Clone, Debug, PartialEq, Eq, Structural)]
pub enum SignalState {
    Cleared,
    Signaled,
}

/// A synchronisation event: its state and whether it stays signalled until
/// it is cleared.
#[derive(Copy, Clone, Debug, PartialEq, Eq, Structural)]
pub struct SmpEvent {
    pub state: SignalState,
    pub manual_reset: bool,
}

impl SmpEvent {
    /// An event in the state `state`.
    pub fn new(state: SignalState, manual_reset: bool) -> (r: Self)
        ensures
            r.state == state && r.manual_reset == manual_reset,
    {
        Self { state, manual_reset }
    }

    /// Signals the event.
    pub fn set(&mut self)
        ensures
            final(self).state == SignalState::Signaled,
            final(self).manual_reset == old(self).manual_reset,
    {
        self.state = SignalState::Signaled;
    }

    /// Clears the event.
    pub fn clear(&mut self)
        ensures
            final(self).state == SignalState::Cleared,
            final(self).manual_reset == old(self).manual_reset,
    {
        self.state = SignalState::Cleared;
    }

    /// The event's state.
    pub fn query(&self) -> (r: SignalState)
        ensures
            r == self.state,
    {
        self.state
    }
}

/// The program's synchronisation events: quitting, the render globals
/// registered, the back end, the render device being usable, and a
/// finished render. All are manual-reset; the first three start cleared,
/// the last two signalled.
pub struct SysEvents {
    pub quit: SmpEvent,
    pub rg_registered: SmpEvent,
    pub backend: SmpEvent,
    pub render_device_ok: SmpEvent,
    pub render_completed: SmpEvent,
}

impl SysEvents {
    /// The events in their first states.
    pub fn new() -> (r: Self)
        ensures
            r.quit == (SmpEvent { state: SignalState::Cleared, manual_reset: true }),
            r.rg_registered == (SmpEvent { state: SignalState::Cleared, manual_reset: true }),
            r.backend == (SmpEvent { state: SignalState::Cleared, manual_reset: true }),
            r.render_device_ok == (SmpEvent { state: SignalState::Signaled, manual_reset: true }),
            r.render_completed == (SmpEvent { state: SignalState::Signaled, manual_reset: true }),
    {
        Self {
            quit: SmpEvent::new(SignalState::Cleared, true),
            rg_registered: SmpEvent::new(SignalState::Cleared, true),
            backend: SmpEvent::new(SignalState::Cleared, true),
            render_device_ok: SmpEvent::new(SignalState::Signaled, true),
            render_completed: SmpEvent::new(SignalState::Signaled, true),
        }
    }
}

/// Signals the quit event.
pub fn set_quit_event(events: &mut SysEvents)
    ensures
        final(events).quit.state == SignalState::Signaled,
        final(events).quit.manual_reset == old(events).quit.manual_reset,
        final(events).rg_registered == old(events).rg_registered,
        final(events).backend == old(events).backend,
        final(events).render_device_ok == old(events).render_device_ok,
        final(events).render_completed == old(events).render_completed,
{
    events.quit.set();
}

/// The state of the quit event.
pub fn query_quit_event(events: &SysEvents) -> (r: SignalState)
    ensures
        r == events.quit.state,
{
    events.quit.query()
}

/// Clears the event for registered render globals.
pub fn clear_rg_registered_event(events: &mut SysEvents)
    ensures
        final(events).rg_registered.state == SignalState::Cleared,
        final(events).rg_registered.manual_reset == old(events).rg_registered.manual_reset,
        final(events).quit == old(events).quit,
        final(events).backend == old(events).backend,
        final(events).render_device_ok == old(events).render_device_ok,
        final(events).render_completed == old(events).render_completed,
{
    events.rg_registered.clear();
}

/// The state of the event for registered render globals.
pub fn query_rg_registered_event(events: &SysEvents) -> (r: SignalState)
    ensures
        r == events.rg_registered.state,
{
    events.rg_registered.query()
}

/// Signals the event for registered render globals.
pub fn set_rg_registered_event(events: &mut SysEvents)
    ensures
        final(events).rg_registered.state == SignalState::Signaled,
        final(events).rg_registered.manual_reset == old(events).rg_registered.manual_reset,
        final(events).quit == old(events).quit,
        final(events).backend == old(events).backend,
        final(events).render_device_ok == old(events).render_device_ok,
        final(events).render_completed == old(events).render_completed,
{
    events.rg_registered.set();
}

/// The state of the back-end event.
pub fn query_backend_event(events: &SysEvents) -> (r: SignalState)
    ensures
        r == events.backend.state,
{
    events.backend.query()
}

/// Signals the back-end event.
pub fn set_backend_event(events: &mut SysEvents)
    ensures
        final(events).backend.state == SignalState::Signaled,
        final(events).backend.manual_reset == old(events).backend.manual_reset,
        final(events).quit == old(events).quit,
        final(events).rg_registered == old(events).rg_registered,
        final(events).render_device_ok == old(events).render_device_ok,
        final(events).render_completed == old(events).render_completed,
{
    events.backend.set();
}

/// Wakes the renderer: signals the back-end event.
pub fn notify_renderer(events: &mut SysEvents)
    ensures
        final(events).backend.state == SignalState::Signaled,
        final(events).backend.manual_reset == old(events).backend.manual_reset,
        final(events).quit == old(events).quit,
        final(events).rg_registered == old(events).rg_registered,
        final(events).render_device_ok == old(events).render_device_ok,
        final(events).render_completed == old(events).render_completed,
{
    set_backend_event(events);
}

/// The state of the event for a usable render device.
pub fn query_render_device_ok_event(events: &SysEvents) -> (r: SignalState)
    ensures
        r == events.render_device_ok.state,
{
    events.render_device_ok.query()
}

/// The state of the event for a finished render.
pub fn query_render_completed_event(events: &SysEvents) -> (r: SignalState)
    ensures
        r == events.render_completed.state,
{
    events.render_completed.query()
}

/// What a wait for the renderer does next.
#[derive(Copy, Clone, Debug, PartialEq, Eq, Structural)]
pub enum RendererWait {
    /// Stop waiting.
    Done,
    /// Sleep a tenth of a second, then stop waiting.
    SleepThenDone,
    /// Look at the events again.
    Poll,
}

/// The step of a wait for the renderer, from whether the caller is the main
/// thread, whether this is the first look at the events, the two events and
/// whether an error was entered. Only the main thread waits, and only while
/// the render device is fine; it waits while the render is not complete,
/// and gives up when an error is entered or the device fails.
pub open spec fn renderer_wait_step(
    is_main: bool,
    first: bool,
    device_ok: SignalState,
    completed: SignalState,
    error_entered: bool,
) -> RendererWait {
    if first && (!is_main || device_ok == SignalState::Signaled) {
        RendererWait::Done
    } else if completed != SignalState::Cleared {
        RendererWait::Done
    } else if error_entered {
        RendererWait::SleepThenDone
    } else if device_ok == SignalState::Cleared {
        RendererWait::Done
    } else {
        RendererWait::Poll
    }
}

/// One step of a wait for the renderer: the caller looks at the events of
/// `events` (again, unless `first`) and does what the result says.
pub fn wait_renderer(events: &SysEvents, is_main: bool, first: bool, error_entered: bool) -> (r: RendererWait)
    ensures
        r == renderer_wait_step(
            is_main,
            first,
            events.render_device_ok.state,
            events.render_completed.state,
            error_entered,
        ),
{
    if first && (!is_main || query_render_device_ok_event(events) == SignalState::Signaled) {
        return RendererWait::Done;
    }
    if query_render_completed_event(events) != SignalState::Cleared {
        return RendererWait::Done;
    }
    if error_entered {
        RendererWait::SleepThenDone
    } else if query_render_device_ok_event(events) == SignalState::Cleared {
        RendererWait::Done
    } else {
        RendererWait::Poll
    }
}

/// How many threads the thread table holds.
pub const THREAD_COUNT: usize = 15;

/// The name of the thread in slot `i` of the thread table.
pub open spec fn thread_name(i: int) -> Seq<char> {
    if i == 0 {
        "Main"@
    } else if i == 1 {
        "Backend"@
    } else if 2 <= i <= 9 {
        "Worker"@ + seq![(('0' as int) + (i - 2)) as char]
    } else if i == 10 {
        "Server"@
    } else if i == 11 {
        "occlusion"@
    } else if i == 12 {
        "TitleServer"@
    } else if i == 13 {
        "Database"@
    } else {
        "Stream"@
    }
}

fn thread_context_name(i: usize) -> (r: &'static str)
    requires
        i < 15,
    ensures
        r@ == thread_name(i as int),
{
    proof {
        reveal_strlit("Worker");
        reveal_strlit("Worker0");
        reveal_strlit("Worker1");
        reveal_strlit("Worker2");
        reveal_strlit("Worker3");
        reveal_strlit("Worker4");
        reveal_strlit("Worker5");
        reveal_strlit("Worker6");
        reveal_strlit("Worker7");
    }
    match i {
        0 => "Main",
        1 => "Backend",
        2 => "Worker0",
        3 => "Worker1",
        4 => "Worker2",
        5 => "Worker3",
        6 => "Worker4",
        7 => "Worker5",
        8 => "Worker6",
        9 => "Worker7",
        10 => "Server",
        11 => "occlusion",
        12 => "TitleServer",
        13 => "Database",
        _ => "Stream",
    }
}

/// The threads the program knows, by slot: each slot holds the id of the
/// thread playing that part, once it is known.
pub struct ThreadTable {
    ids: Vec<Option<u64>>,
}

impl View for ThreadTable {
    type V = Seq<Option<u64>>;

    closed spec fn view(&self) -> Seq<Option<u64>> {
        self.ids@
    }
}

impl ThreadTable {
    /// The table has one slot per known thread.
    pub closed spec fn wf(&self) -> bool {
        self.ids@.len() == THREAD_COUNT
    }

    /// Whether the thread `id` is in slot `i`.
    pub open spec fn is_in_slot(&self, id: u64, i: int) -> bool {
        self@[i] == Some(id)
    }

    /// A table where no thread is known yet.
    pub fn new() -> (r: Self)
        ensures
            r.wf(),
            forall|i: int| 0 <= i < THREAD_COUNT ==> r@[i] is None,
    {
        let mut ids: Vec<Option<u64>> = Vec::new();
        let mut i: usize = 0;
        while i < THREAD_COUNT
            invariant
                i <= THREAD_COUNT,
                ids@.len() == i,
                forall|j: int| 0 <= j < i ==> ids@[j] is None,
            decreases THREAD_COUNT - i,
        {
            ids.push(None);
            i = i + 1;
        }
        Self { ids }
    }

    /// Records `current` as the main thread; the other slots keep their
    /// threads.
    pub fn init_main_thread(&mut self, current: u64)
        requires
            old(self).wf(),
        ensures
            final(self).wf(),
            final(self)@ == old(self)@.update(0, Some(current)),
    {
        self.ids.set(0, Some(current));
    }

    fn slot_holds(&self, i: usize, current: u64) -> (r: bool)
        requires
            self.wf(),
            i < THREAD_COUNT,
        ensures
            r == self.is_in_slot(current, i as int),
    {
        match self.ids[i] {
            Some(id) => id == current,
            None => false,
        }
    }

    /// Whether `current` is the main thread.
    pub fn is_main_thread(&self, current: u64) -> (r: bool)
        requires
            self.wf(),
        ensures
            r == self.is_in_slot(current, 0),
    {
        self.slot_holds(0, current)
    }

    /// Whether `current` is the render (back-end) thread.
    pub fn is_render_thread(&self, current: u64) -> (r: bool)
        requires
            self.wf(),
        ensures
            r == self.is_in_slot(current, 1),
    {
        self.slot_holds(1, current)
    }

    /// Whether `current` is the server thread.
    pub fn is_server_thread(&self, current: u64) -> (r: bool)
        requires
            self.wf(),
        ensures
            r == self.is_in_slot(current, 10),
    {
        self.slot_holds(10, current)
    }

    /// Whether `current` is the database thread.
    pub fn is_database_thread(&self, current: u64) -> (r: bool)
        requires
            self.wf(),
        ensures
            r == self.is_in_slot(current, 13),
    {
        self.slot_holds(13, current)
    }

    /// Whether `current` is the stream thread.
    pub fn is_stream_thread(&self, current: u64) -> (r: bool)
        requires
            self.wf(),
        ensures
            r == self.is_in_slot(current, 14),
    {
        self.slot_holds(14, current)
    }

    /// The name of the part `current` plays: that of the first slot that
    /// holds it. A thread outside the table is a fatal error, so it must be
    /// in the table.
    pub fn get_current_thread_name(&self, current: u64) -> (r: String)
        requires
            self.wf(),
            exists|i: int| 0 <= i < THREAD_COUNT && self.is_in_slot(current, i),
        ensures
            exists|i: int|
                0 <= i < THREAD_COUNT && self.is_in_slot(current, i) && (forall|j: int| 0 <= j < i ==> !self.is_in_slot(current, j))
                    && r@ == thread_name(i),
    {
        let mut i: usize = 0;
        while i < THREAD_COUNT
            invariant
                self.wf(),
                i <= THREAD_COUNT,
                exists|k: int| 0 <= k < THREAD_COUNT && self.is_in_slot(current, k),
                forall|j: int| 0 <= j < i ==> !self.is_in_slot(current, j),
            decreases THREAD_COUNT - i,
        {
            if self.slot_holds(i, current) {
                return thread_context_name(i).to_owned();
            }
            i = i + 1;
        }
        proof {
            let k = choose|k: int| 0 <= k < THREAD_COUNT && self.is_in_slot(current, k);
            assert(!self.is_in_slot(current, k));
        }
        String::new()
    }
}

/// The buttons of a message box.
#[derive(Copy, Clone, Debug, Default, PartialEq, Eq, Structural)]
pub enum MessageBoxType {
    #[default]
    OkButton,
    YesNoCancel,
    YesNo,
}

/// The icon of a message box.
#[derive(Copy, Clone, Debug, Default, PartialEq, Eq, Structural)]
pub enum MessageBoxIcon {
    #[default]
    NoIcon,
    Stop,
    Information,
}

/// The button a message box was closed with.
#[derive(Copy, Clone, Debug, PartialEq, Eq, Structural)]
pub enum MessageBoxResult {
    Okay,
    Cancel,
    Yes,
    No,
    Unknown,
}

/// The default CD path: none.
pub fn default_cd_path() -> (r: &'static str)
    ensures
        r@.len() == 0,
{
    proof {
        reveal_strlit("");
    }
    ""
}

/// Whether the operating system is a Unix.
pub open spec fn is_unix(os: BuildOs) -> bool {
    !(os == BuildOs::Windows || os == BuildOs::Unknown)
}

/// The name of the semaphore file for the executable `executable_name`:
/// two underscores before it, and on Unix a dot before those.
pub fn get_semaphore_file_name(os: BuildOs, executable_name: &str) -> (r: String)
    ensures
        r@ == (if is_unix(os) { ".__"@ } else { "__"@ }) + executable_name@,
{
    let prefix = match os {
        BuildOs::Windows | BuildOs::Unknown => "__",
        _ => ".__",
    };
    concat(prefix, executable_name)
}

/// The program's arguments written one after the other, with nothing
/// between them.
pub open spec fn args_text(args: Seq<Seq<char>>) -> Seq<char>
    decreases args.len(),
{
    if args.len() == 0 {
        Seq::empty()
    } else {
        args_text(args.drop_last()) + args.last()
    }
}

/// The command line the program was started with, from its arguments
/// `args`: written one after the other, with nothing between them, and
/// trimmed of white space at both ends.
pub fn get_cmdline(args: &Vec<String>) -> (r: String)
    ensures
        r@ == trimmed(args_text(args@.map_values(|a: String| a@))),
{
    let ghost texts = args@.map_values(|a: String| a@);
    let mut line = String::new();
    let mut i: usize = 0;
    while i < args.len()
        invariant
            i <= args@.len(),
            texts == args@.map_values(|a: String| a@),
            line@ == args_text(texts.subrange(0, i as int)),
        decreases args@.len() - i,
    {
        assert(texts.subrange(0, i as int + 1).drop_last() =~= texts.subrange(0, i as int));
        line = concat(line.as_str(), args[i].as_str());
        i = i + 1;
    }
    assert(texts.subrange(0, args@.len() as int) =~= texts);
    trim(line.as_str())
}

/// What the command line decides at startup: whether a minidump is started
/// and whether it is automatic, whether to look for a crash of an earlier
/// run, and whether sound is off.
#[derive(Copy, Clone, Debug, PartialEq, Eq, Structural)]
pub struct StartupOptions {
    pub minidump: Option<bool>,
    pub check_crash: bool,
    pub no_sound: bool,
}

/// Whether the command line begins "allowdupe" with no further word
/// character right after it.
pub open spec fn allows_duplicate(cmdline: Seq<char>) -> bool {
    &&& cmdline.len() >= 9
    &&& cmdline.subrange(0, 9) == "allowdupe"@
    &&& (cmdline.len() == 9 || cmdline[9] <= ' ')
}

/// The startup options of the command line `cmdline`: "autominidump"
/// starts an automatic minidump, otherwise "minidump" starts one that is
/// not; an earlier run's crash is looked for unless duplicates are allowed
/// (see [`allows_duplicate`]) or "g_connectpaths 3" is given; "nosnd"
/// turns sound off.
pub open spec fn startup_options_of(cmdline: Seq<char>) -> StartupOptions {
    StartupOptions {
        minidump: if has_substring(cmdline, "autominidump"@) {
            Some(false)
        } else if has_substring(cmdline, "minidump"@) {
            Some(true)
        } else {
            None
        },
        check_crash: !allows_duplicate(cmdline) && !has_substring(cmdline, "g_connectpaths 3"@),
        no_sound: has_substring(cmdline, "nosnd"@),
    }
}

/// Reads the startup options of the command line `cmdline` (see
/// [`startup_options_of`]).
pub fn startup_options(cmdline: &str) -> (r: StartupOptions)
    ensures
        r == startup_options_of(cmdline@),
{
    let minidump = if contains_text(cmdline, "autominidump") {
        Some(false)
    } else if contains_text(cmdline, "minidump") {
        Some(true)
    } else {
        None
    };
    let n = cmdline.unicode_len();
    let allow = if n >= 9 {
        let head = cmdline.substring_char(0, 9);
        if head.to_owned() == "allowdupe".to_owned() {
            n == 9 || cmdline.get_char(9) <= ' '
        } else {
            false
        }
    } else {
        false
    };
    let check_crash = !allow && !contains_text(cmdline, "g_connectpaths 3");
    StartupOptions { minidump, check_crash, no_sound: contains_text(cmdline, "nosnd") }
}

/// The commands the system layer registers.
#[derive(Copy, Clone, Debug, PartialEq, Eq, Structural)]
pub enum SysCommand {
    InRestart,
    NetRestart,
    MovieStart,
    MovieStop,
    NetListen,
    NetConnect,
}

/// The registry `c` with the system commands registered, in order:
/// "in_restart", "net_restart", "movie_start", "movie_stop", "net_listen"
/// and "net_connect".
pub open spec fn with_sys_commands(c: CmdRegistryView<SysCommand>) -> CmdRegistryView<SysCommand> {
    after_add(
        after_add(
            after_add(
                after_add(
                    after_add(after_add(c, "in_restart"@, SysCommand::InRestart), "net_restart"@, SysCommand::NetRestart),
                    "movie_start"@,
                    SysCommand::MovieStart,
                ),
                "movie_stop"@,
                SysCommand::MovieStop,
            ),
            "net_listen"@,
            SysCommand::NetListen,
        ),
        "net_connect"@,
        SysCommand::NetConnect,
    )
}

/// What the system layer knows of the machine: the video card, the
/// processor counts, the memory in megabytes and the processor's vendor
/// and name. The processor's speeds, which are floating-point numbers, are
/// kept by the caller.
pub struct SysInfo {
    pub gpu_description: String,
    pub logical_cpu_count: usize,
    pub physical_cpu_count: usize,
    pub sys_mb: u64,
    pub cpu_vendor: String,
    pub cpu_name: String,
}

/// "s" unless `n` is one.
pub open spec fn plural(n: usize) -> Seq<char> {
    if n == 1 {
        Seq::empty()
    } else {
        "s"@
    }
}

/// The lines the system layer prints about the machine when it starts,
/// each on channel 16 and ending the line: the processor's vendor and name
/// in quotes, the logical and physical processor counts, the memory, the
/// video card in quotes, and an empty line. The two lines of processor
/// speeds, which come after the counts, are the caller's.
pub open spec fn sys_info_lines(info: SysInfo) -> Seq<Seq<char>> {
    seq![
        "CPU vendor is \""@ + info.cpu_vendor@ + "\""@,
        "CPU name is \""@ + info.cpu_name@ + "\""@,
        decimal_usize(info.logical_cpu_count) + " logical CPU"@ + plural(info.logical_cpu_count) + " reported"@,
        decimal_usize(info.physical_cpu_count) + " physical CPU"@ + plural(info.physical_cpu_count)
            + " detected"@,
        "System memory is "@ + decimal_u64(info.sys_mb) + " MB (capped at 1 GB)"@,
        "Video card is \""@ + info.gpu_description@ + "\""@,
        Seq::<char>::empty(),
    ]
}

/// The line printed for `message` on channel 16.
fn system_line(message: &str) -> (r: String)
    ensures
        printed(Channel(16), message@ + "\n"@) == Some(r@),
{
    match crate::com::println(Channel::new(16), message) {
        Some(l) => l,
        None => String::new(),
    }
}

/// "s" unless `n` is one.
fn plural_text(n: usize) -> (r: &'static str)
    ensures
        r@ == plural(n),
{
    proof {
        reveal_strlit("");
    }
    if n == 1 {
        ""
    } else {
        "s"
    }
}

/// Starts the system layer: registers its commands (see
/// [`with_sys_commands`]), none of whose names may be taken, and returns
/// the lines it prints about the machine `info` (see [`sys_info_lines`]).
/// Starting input is the caller's.
pub fn init(cmds: &mut CmdRegistry<SysCommand>, info: &SysInfo) -> (r: Vec<String>)
    requires
        old(cmds).wf(),
        !old(cmds).has("in_restart"@),
        !old(cmds).has("net_restart"@),
        !old(cmds).has("movie_start"@),
        !old(cmds).has("movie_stop"@),
        !old(cmds).has("net_listen"@),
        !old(cmds).has("net_connect"@),
    ensures
        final(cmds).wf(),
        final(cmds)@ == with_sys_commands(old(cmds)@),
        r@.len() == 7,
        forall|i: int| 0 <= i < 7 ==> printed(Channel(16), sys_info_lines(*info)[i] + "\n"@) == Some(#[trigger] r@[i]@),
{
    proof {
        reveal_strlit("in_restart");
        reveal_strlit("net_restart");
        reveal_strlit("movie_start");
        reveal_strlit("movie_stop");
        reveal_strlit("net_listen");
        reveal_strlit("net_connect");
        assert("in_restart"@[0] != "net_restart"@[0] && "in_restart"@[0] != "movie_start"@[0]);
        assert("in_restart"@[0] != "movie_stop"@[0] && "in_restart"@[0] != "net_listen"@[0]);
        assert("in_restart"@[0] != "net_connect"@[0]);
        assert("net_restart"@[0] != "movie_start"@[0] && "net_restart"@[0] != "movie_stop"@[0]);
        assert("net_restart"@[4] != "net_listen"@[4] && "net_restart"@[4] != "net_connect"@[4]);
        assert("movie_start"@[8] != "movie_stop"@[8] && "movie_start"@[0] != "net_listen"@[0]);
        assert("movie_start"@[0] != "net_connect"@[0]);
        assert("movie_stop"@[0] != "net_listen"@[0] && "movie_stop"@[0] != "net_connect"@[0]);
        assert("net_listen"@[4] != "net_connect"@[4]);
    }
    let _ = add_internal(cmds, "in_restart", SysCommand::InRestart);
    let _ = add_internal(cmds, "net_restart", SysCommand::NetRestart);
    let _ = add_internal(cmds, "movie_start", SysCommand::MovieStart);
    let _ = add_internal(cmds, "movie_stop", SysCommand::MovieStop);
    let _ = add_internal(cmds, "net_listen", SysCommand::NetListen);
    let _ = add_internal(cmds, "net_connect", SysCommand::NetConnect);
    let mut lines: Vec<String> = Vec::new();
    let a = concat("CPU vendor is \"", info.cpu_vendor.as_str());
    lines.push(system_line(concat(a.as_str(), "\"").as_str()));
    let b = concat("CPU name is \"", info.cpu_name.as_str());
    lines.push(system_line(concat(b.as_str(), "\"").as_str()));
    let c1 = concat(usize_to_string(info.logical_cpu_count).as_str(), " logical CPU");
    let c2 = concat(c1.as_str(), plural_text(info.logical_cpu_count));
    lines.push(system_line(concat(c2.as_str(), " reported").as_str()));
    let d1 = concat(usize_to_string(info.physical_cpu_count).as_str(), " physical CPU");
    let d2 = concat(d1.as_str(), plural_text(info.physical_cpu_count));
    lines.push(system_line(concat(d2.as_str(), " detected").as_str()));
    let m = concat("System memory is ", u64_to_string(info.sys_mb).as_str());
    lines.push(system_line(concat(m.as_str(), " MB (capped at 1 GB)").as_str()));
    let g = concat("Video card is \"", info.gpu_description.as_str());
    lines.push(system_line(concat(g.as_str(), "\"").as_str()));
    proof {
        reveal_strlit("");
    }
    lines.push(system_line(""));
    proof {
        assert(lines@.len() == 7);
    }
    lines
}

/// The name of the application.
pub fn get_application_name() -> (r: &'static str)
    ensures
        r@ == "Call of Duty(R) Singleplayer - Ship"@,
{
    "Call of Duty(R) Singleplayer - Ship"
}

} // verus!

verus! {

/// An event of the main window. The pointer's position and the wheel's
/// amount are floating-point numbers, which the caller keeps; the handler
/// does nothing with those events.
pub enum WindowEvent {
    Created(crate::platform::WindowHandle),
    Destroyed,
    Moved { x: u32, y: u32 },
    Resized { width: u32, height: u32 },
    Activate,
    Deactivate,
    SetFocus,
    KillFocus,
    CloseRequested,
    DisplayChange { bits_per_pixel: u32, horz_res: u32, vert_res: u32 },
    KeyDown { logical_scancode: KeyboardScancode, physical_scancode: Option<KeyboardScancode> },
    KeyUp { logical_scancode: KeyboardScancode, physical_scancode: Option<KeyboardScancode> },
    Character(char),
    CursorMoved,
    MouseButtonDown(MouseScancode),
    MouseButtonUp(MouseScancode),
    MouseWheelScroll,
    ModifiersChanged { modifiers: Modifiers },
}

/// What the main window's events act on: the platform state, the modifier
/// keys last seen, the input event queue and its clock, the
/// synchronisation events, the input state, and the local clients'
/// interface states.
pub struct MainWindowContext {
    pub platform: crate::platform::PlatformVars,
    pub modifiers: Modifiers,
    pub queue: EventQueue,
    pub clock: Clock,
    pub events: SysEvents,
    pub input: crate::input::InputState,
    pub client_uis: crate::cl::ClientUiActives,
}

/// The time a key event from the main window gets: that of the last
/// system message, or the clock's reading for `now` where that is zero.
pub open spec fn stamp(ctx: &MainWindowContext, now: isize) -> isize {
    if ctx.platform.sys_msg_time != 0 {
        ctx.platform.sys_msg_time
    } else if ctx.clock.started() {
        (now - ctx.clock.base()) as isize
    } else {
        0
    }
}

/// Whether the clock can be read at `now` without overflow.
pub open spec fn clock_fits(ctx: &MainWindowContext, now: isize) -> bool {
    ctx.platform.sys_msg_time == 0 && ctx.clock.started() ==> isize::MIN <= now - ctx.clock.base() <= isize::MAX
}

/// The key event for the modifier bit `bits`, pressed as `modifiers` says.
pub open spec fn modifier_event(bits: u16, modifiers: Modifiers, time: isize) -> (KeyboardScancode, bool, isize) {
    (KeyboardScancode::key_of_modifier(bits)->Some_0, modifiers.has(bits), time)
}

/// The key, press and time of an event.
pub open spec fn key_event_of(e: Event) -> Option<(KeyboardScancode, bool, isize)> {
    match e.event_type {
        EventType::Key(k, down) => Some((k, down, e.time)),
        _ => None,
    }
}

/// Whether a dvar holds a boolean.
pub open spec fn bool_of(dvars: &crate::dvar::DvarRegistry, name: Seq<char>) -> Option<bool> {
    crate::dvar::get::spec_get_bool(dvars@, name)
}

/// Whether Enter with the left Alt key asks to toggle full screen: the
/// first local client is not loading.
pub open spec fn toggles_fullscreen(ctx: &MainWindowContext, key: KeyboardScancode) -> bool {
    key == KeyboardScancode::Enter && ctx.modifiers.has(Modifiers::LALT)
}

/// The dvar "r_autopriority" as the main window registers it.
pub open spec fn autopriority_dvar() -> crate::dvar::DvarView {
    crate::dvar::register::fresh_dvar(
        "r_autopriority"@,
        "Automatically set the priority of the windows process when the game is minimized"@,
        crate::dvar::DvarFlags::ARCHIVE,
        crate::dvar::DvarLimitsView::Bool,
        crate::dvar::DvarValueView::Bool(false),
    )
}

/// What the handler demands of the state: the dvars it reads exist with
/// the kinds it reads, the ones it sets take the values, and the clock can
/// be read.
pub open spec fn window_event_ok(ev: &WindowEvent, ctx: &MainWindowContext, dvars: &crate::dvar::DvarRegistry, now: isize) -> bool {
    match ev {
        WindowEvent::Created(_) => {
            &&& bool_of(dvars, "r_reflectionProbeGenerate"@) is Some
            &&& bool_of(dvars, "r_reflectionProbeGenerate"@) == Some(true) ==> bool_of(dvars, "r_fullscreen"@) is Some
            &&& (bool_of(dvars, "r_reflectionProbeGenerate"@) == Some(true) && bool_of(dvars, "r_fullscreen"@) == Some(true))
                ==> dvars@.can_set("r_fullscreen"@, crate::dvar::DvarValueView::Bool(false), crate::dvar::SetSource::External)
            &&& dvars@.count < crate::dvar::DVAR_COUNT_MAX
        },
        WindowEvent::Moved { x, y } => {
            &&& bool_of(dvars, "r_fullscreen"@) is Some
            &&& bool_of(dvars, "r_fullscreen"@) == Some(false) ==> {
                &&& dvars.has("vid_xpos"@) && dvars.has("vid_ypos"@)
                &&& dvars@.can_set("vid_xpos"@, crate::dvar::DvarValueView::Int(*x as i32), crate::dvar::SetSource::Internal)
                &&& dvars@.can_set("vid_ypos"@, crate::dvar::DvarValueView::Int(*y as i32), crate::dvar::SetSource::Internal)
            }
        },
        WindowEvent::ModifiersChanged { .. } => clock_fits(ctx, now),
        WindowEvent::KeyDown { logical_scancode, .. } => {
            &&& clock_fits(ctx, now)
            &&& (toggles_fullscreen(ctx, *logical_scancode) && ctx.client_uis.actives@[0].connection_state
                != crate::cl::Connstate::LOADING) ==> {
                &&& crate::dvar::get::spec_get_int(dvars@, "developer"@) is Some
                &&& crate::dvar::get::spec_get_int(dvars@, "developer"@) != Some(0i32) ==> {
                    &&& bool_of(dvars, "r_fullscreen"@) is Some
                    &&& dvars@.can_set(
                        "r_fullscreen"@,
                        crate::dvar::DvarValueView::Bool(!bool_of(dvars, "r_fullscreen"@)->Some_0),
                        crate::dvar::SetSource::External,
                    )
                }
            }
        },
        WindowEvent::KeyUp { .. } => clock_fits(ctx, now),
        _ => true,
    }
}

/// The line that queues the command `text` for the first client.
pub open spec fn command_line(text: Seq<char>) -> Seq<char> {
    crate::cbuf::queued_line(0, text + "\n"@)
}

fn add_command(out: &mut Vec<String>, text: &str)
    ensures
        final(out)@.len() == old(out)@.len() + 1,
        final(out)@.drop_last() == old(out)@,
        final(out)@.last()@ == command_line(text@),
{
    out.push(crate::cbuf::add_textln(0, text));
}

/// Puts the key event (`key`, `down`) in the queue, at the time of the last
/// system message (see [`stamp`]).
fn enqueue_key(ctx: &mut MainWindowContext, key: KeyboardScancode, down: bool, now: isize)
    requires
        clock_fits(old(ctx), now),
    ensures
        final(ctx).queue@.len() == old(ctx).queue@.len() + 1,
        final(ctx).queue@.drop_last() == old(ctx).queue@,
        key_event_of(final(ctx).queue@.last()) == Some((key, down, stamp(old(ctx), now))),
        stamp(final(ctx), now) == stamp(old(ctx), now),
        clock_fits(final(ctx), now),
        final(ctx).platform == old(ctx).platform,
        final(ctx).modifiers == old(ctx).modifiers,
        final(ctx).events == old(ctx).events,
        final(ctx).input == old(ctx).input,
        final(ctx).client_uis == old(ctx).client_uis,
{
    let t = ctx.platform.sys_msg_time;
    let ev = Event::new(Some(t), EventType::Key(key, down));
    enqueue_event(&mut ctx.queue, &mut ctx.clock, ev, now);
}

/// With no bit set, [`Modifiers::each`] yields nothing.
proof fn lemma_each_prefix_zero(n: int)
    requires
        n <= 10,
    ensures
        each_prefix(0u16, n) == Seq::<u16>::empty(),
    decreases n,
{
    if n > 0 {
        lemma_each_prefix_zero(n - 1);
        let o = each_order();
        assert(o[0] != 0 && o[1] != 0 && o[2] != 0 && o[3] != 0 && o[4] != 0);
        assert(o[5] != 0 && o[6] != 0 && o[7] != 0 && o[8] != 0 && o[9] != 0);
        let m = o[n - 1];
        assert(m != 0u16);
        assert(0u16 & m != m) by (bit_vector)
            requires m != 0u16;
    }
}

/// The modifier bits [`Modifiers::each`] yields are among the ten it visits.
proof fn lemma_each_prefix_in_order(bits: u16, n: int)
    requires
        0 <= n <= 10,
    ensures
        forall|k: int| 0 <= k < each_prefix(bits, n).len() ==> exists|j: int| 0 <= j < 10 && #[trigger] each_prefix(bits, n)[k] == each_order()[j],
    decreases n,
{
    if n > 0 {
        lemma_each_prefix_in_order(bits, n - 1);
        let rest = each_prefix(bits, n - 1);
        assert forall|k: int| 0 <= k < each_prefix(bits, n).len() implies exists|j: int| 0 <= j < 10 && #[trigger] each_prefix(bits, n)[k] == each_order()[j] by {
            if k < rest.len() {
                assert(each_prefix(bits, n)[k] == rest[k]);
            } else {
                assert(each_prefix(bits, n)[k] == each_order()[n - 1]);
            }
        }
    }
}

/// Queues a key event for each modifier that changed to `modifiers` (see
/// [`handle_main_window_event`]) and remembers `modifiers`.
fn handle_modifiers_changed(ctx: &mut MainWindowContext, modifiers: Modifiers, now: isize)
    requires
        clock_fits(old(ctx), now),
    ensures
        ({
            let changed = each_prefix(old(ctx).modifiers.bits ^ modifiers.bits, 10);
            &&& final(ctx).modifiers == modifiers
            &&& final(ctx).queue@.len() == old(ctx).queue@.len() + changed.len()
            &&& final(ctx).queue@.subrange(0, old(ctx).queue@.len() as int) == old(ctx).queue@
            &&& forall|k: int| 0 <= k < changed.len() ==> key_event_of(#[trigger] final(ctx).queue@[old(ctx).queue@.len() + k])
                == Some(modifier_event(changed[k], modifiers, stamp(old(ctx), now)))
        }),
        final(ctx).events == old(ctx).events,
        final(ctx).platform == old(ctx).platform,
        final(ctx).input == old(ctx).input,
        final(ctx).client_uis == old(ctx).client_uis,
{
    let diff = ctx.modifiers.symmetric_difference(modifiers);
    if diff.is_empty() {
        proof {
            let a = old(ctx).modifiers.bits;
            let b = modifiers.bits;
            assert(a ^ b == 0u16);
            assert(a == b) by (bit_vector)
                requires a ^ b == 0u16;
            lemma_each_prefix_zero(10);
        }
        return;
    }
    let each = diff.each();
    let ghost changed = each_prefix(diff.bits, 10);
    proof {
        lemma_each_prefix_in_order(diff.bits, 10);
    }
    let ghost q0 = ctx.queue@;
    let ghost t0 = stamp(ctx, now);
    let mut j: usize = 0;
    while j < each.len()
        invariant
            each@.map_values(|m: Modifiers| m.bits) == changed,
            forall|k: int| 0 <= k < changed.len() ==> exists|i: int| 0 <= i < 10 && #[trigger] changed[k] == each_order()[i],
            j <= each@.len(),
            clock_fits(ctx, now),
            stamp(ctx, now) == t0,
            ctx.modifiers == old(ctx).modifiers,
            ctx.events == old(ctx).events,
            ctx.platform == old(ctx).platform,
            ctx.input == old(ctx).input,
            ctx.client_uis == old(ctx).client_uis,
            ctx.queue@.len() == q0.len() + j,
            ctx.queue@.subrange(0, q0.len() as int) == q0,
            forall|k: int| 0 <= k < j ==> key_event_of(#[trigger] ctx.queue@[q0.len() + k])
                == Some(modifier_event(changed[k], modifiers, t0)),
        decreases each@.len() - j,
    {
        let m = each[j];
        proof {
            assert(changed[j as int] == m.bits);
            let i = choose|i: int| 0 <= i < 10 && #[trigger] changed[j as int] == each_order()[i];
            assert(KeyboardScancode::key_of_modifier(each_order()[i]) is Some);
        }
        match KeyboardScancode::try_from_modifiers(m) {
            Ok(k) => {
                let ghost qb = ctx.queue@;
                let pressed = modifiers.contains(m.bits);
                enqueue_key(ctx, k, pressed, now);
                proof {
                    assert(ctx.queue@.subrange(0, q0.len() as int) =~= q0) by {
                        assert(ctx.queue@.drop_last() == qb);
                    }
                    assert forall|k2: int| 0 <= k2 < j + 1 implies key_event_of(#[trigger] ctx.queue@[q0.len() + k2])
                        == Some(modifier_event(changed[k2], modifiers, t0)) by {
                        if k2 < j {
                            assert(ctx.queue@[q0.len() + k2] == qb[q0.len() + k2]);
                        }
                    }
                }
            },
            Err(_) => {},
        }
        j = j + 1;
    }
    ctx.modifiers = modifiers;
}

/// Handles an event of the main window; returns the command lines it
/// queues. A new window is recorded (leaving full screen while reflection
/// probes are generated) and "r_autopriority" is registered; closing asks
/// to quit and signals the quit event; a destroyed window is forgotten; a
/// moved window records its place unless it is full screen; changed
/// modifiers queue a key event for each changed one that
/// [`Modifiers::each`] visits and are remembered; a key press queues its
/// event, after Enter with the left Alt key toggles full screen for a
/// developer (and queues nothing while the first client is loading); a
/// key release queues its event. Other events change nothing.
pub fn handle_main_window_event(ev: WindowEvent, ctx: &mut MainWindowContext, dvars: &mut crate::dvar::DvarRegistry, now: isize) -> (r: Vec<String>)
    requires
        old(dvars).wf(),
        window_event_ok(&ev, old(ctx), old(dvars), now),
    ensures
        final(dvars).wf(),
        !(ev is CloseRequested) ==> final(ctx).events == old(ctx).events,
        !(ev is Created) && !(ev is Destroyed) ==> final(ctx).platform == old(ctx).platform,
        !(ev is ModifiersChanged) ==> final(ctx).modifiers == old(ctx).modifiers,
        !(ev is Moved) ==> final(ctx).input == old(ctx).input,
        final(ctx).client_uis == old(ctx).client_uis,
        match ev {
            WindowEvent::Created(h) => {
                let toggle = bool_of(old(dvars), "r_reflectionProbeGenerate"@) == Some(true) && bool_of(old(dvars), "r_fullscreen"@) == Some(true);
                let d1 = if toggle {
                    old(dvars)@.set_result("r_fullscreen"@, crate::dvar::DvarValueView::Bool(false), crate::dvar::SetSource::External)
                } else {
                    old(dvars)@
                };
                &&& final(ctx).platform == (crate::platform::PlatformVars { window_handle: Some(h), ..old(ctx).platform })
                &&& final(dvars)@ == d1.registered(autopriority_dvar())
                &&& r@.len() == (if toggle { 1int } else { 0int })
                &&& toggle ==> r@[0]@ == command_line("vid_restart"@)
                &&& final(ctx).queue@ == old(ctx).queue@
                &&& final(ctx).events == old(ctx).events
            },
            WindowEvent::CloseRequested => {
                &&& final(dvars)@ == old(dvars)@
                &&& r@.len() == 1 && r@[0]@ == command_line("quit"@)
                &&& final(ctx).events.quit.state == SignalState::Signaled
                &&& final(ctx).events.quit.manual_reset == old(ctx).events.quit.manual_reset
                &&& final(ctx).events == (SysEvents { quit: final(ctx).events.quit, ..old(ctx).events })
                &&& final(ctx).platform == old(ctx).platform
                &&& final(ctx).queue@ == old(ctx).queue@
            },
            WindowEvent::Destroyed => {
                &&& final(dvars)@ == old(dvars)@
                &&& r@.len() == 0
                &&& final(ctx).platform == (crate::platform::PlatformVars { window_handle: None, ..old(ctx).platform })
                &&& final(ctx).queue@ == old(ctx).queue@
            },
            WindowEvent::Moved { x, y } => {
                &&& r@.len() == 0
                &&& final(ctx).queue@ == old(ctx).queue@
                &&& bool_of(old(dvars), "r_fullscreen"@) == Some(true) ==> final(dvars)@ == old(dvars)@
                    && final(ctx).input == old(ctx).input
                &&& bool_of(old(dvars), "r_fullscreen"@) == Some(false) ==> {
                    &&& final(dvars)@ == old(dvars)@.set_result(
                        "vid_xpos"@,
                        crate::dvar::DvarValueView::Int(x as i32),
                        crate::dvar::SetSource::Internal,
                    ).set_result("vid_ypos"@, crate::dvar::DvarValueView::Int(y as i32), crate::dvar::SetSource::Internal).cleared(
                        "vid_xpos"@,
                    ).cleared("vid_ypos"@)
                    &&& final(ctx).input.app_active == (old(ctx).platform.active_app || old(ctx).input.app_active)
                }
            },
            WindowEvent::ModifiersChanged { modifiers } => {
                let changed = each_prefix(old(ctx).modifiers.bits ^ modifiers.bits, 10);
                &&& final(dvars)@ == old(dvars)@
                &&& r@.len() == 0
                &&& final(ctx).modifiers == modifiers
                &&& final(ctx).queue@.len() == old(ctx).queue@.len() + changed.len()
                &&& final(ctx).queue@.subrange(0, old(ctx).queue@.len() as int) == old(ctx).queue@
                &&& forall|k: int| 0 <= k < changed.len() ==> key_event_of(#[trigger] final(ctx).queue@[old(ctx).queue@.len() + k])
                    == Some(modifier_event(changed[k], modifiers, stamp(old(ctx), now)))
            },
            WindowEvent::KeyDown { logical_scancode, .. } => {
                let blocked = toggles_fullscreen(old(ctx), logical_scancode)
                    && old(ctx).client_uis.actives@[0].connection_state == crate::cl::Connstate::LOADING;
                let toggle = toggles_fullscreen(old(ctx), logical_scancode) && !blocked
                    && crate::dvar::get::spec_get_int(old(dvars)@, "developer"@) != Some(0i32);
                &&& blocked ==> final(ctx).queue@ == old(ctx).queue@ && final(dvars)@ == old(dvars)@ && r@.len() == 0
                &&& !blocked ==> {
                    &&& final(ctx).queue@.len() == old(ctx).queue@.len() + 1
                    &&& final(ctx).queue@.drop_last() == old(ctx).queue@
                    &&& key_event_of(final(ctx).queue@.last()) == Some((logical_scancode, true, stamp(old(ctx), now)))
                }
                &&& toggle ==> final(dvars)@ == old(dvars)@.set_result(
                    "r_fullscreen"@,
                    crate::dvar::DvarValueView::Bool(!bool_of(old(dvars), "r_fullscreen"@)->Some_0),
                    crate::dvar::SetSource::External,
                ) && r@.len() == 1 && r@[0]@ == command_line("vid_restart"@)
                &&& !blocked && !toggle ==> final(dvars)@ == old(dvars)@ && r@.len() == 0
            },
            WindowEvent::KeyUp { logical_scancode, .. } => {
                &&& final(dvars)@ == old(dvars)@
                &&& r@.len() == 0
                &&& final(ctx).queue@.len() == old(ctx).queue@.len() + 1
                &&& final(ctx).queue@.drop_last() == old(ctx).queue@
                &&& key_event_of(final(ctx).queue@.last()) == Some((logical_scancode, false, stamp(old(ctx), now)))
            },
            _ => final(dvars)@ == old(dvars)@ && r@.len() == 0 && final(ctx).queue@ == old(ctx).queue@,
        },
{
    let mut out: Vec<String> = Vec::new();
    match ev {
        WindowEvent::Created(handle) => {
            crate::platform::set_window_handle(&mut ctx.platform, handle);
            let probe = match crate::dvar::get::get_bool(dvars, "r_reflectionProbeGenerate") {
                Some(b) => b,
                None => false,
            };
            if probe {
                let full = match crate::dvar::get::get_bool(dvars, "r_fullscreen") {
                    Some(b) => b,
                    None => false,
                };
                if full {
                    proof {
                        dvars.lemma_refused_set("r_fullscreen"@, crate::dvar::DvarValueView::Bool(false), crate::dvar::SetSource::External);
                    }
                    let _ = crate::dvar::set::set_bool(dvars, "r_fullscreen", false);
                    add_command(&mut out, "vid_restart");
                }
            }
            let _ = crate::dvar::register::register_bool(
                dvars,
                "r_autopriority",
                false,
                crate::dvar::DvarFlags::from_bits(crate::dvar::DvarFlags::ARCHIVE),
                Some("Automatically set the priority of the windows process when the game is minimized"),
            );
        },
        WindowEvent::CloseRequested => {
            add_command(&mut out, "quit");
            set_quit_event(&mut ctx.events);
        },
        WindowEvent::Destroyed => {
            crate::platform::clear_window_handle(&mut ctx.platform);
        },
        WindowEvent::Moved { x, y } => {
            let full = match crate::dvar::get::get_bool(dvars, "r_fullscreen") {
                Some(b) => b,
                None => false,
            };
            if full {
                crate::input::mouse::activate(0);
            } else {
                proof {
                    reveal_strlit("vid_xpos");
                    reveal_strlit("vid_ypos");
                    assert("vid_xpos"@[4] != "vid_ypos"@[4]);
                }
                proof {
                    dvars.lemma_refused_set("vid_xpos"@, crate::dvar::DvarValueView::Int(x as i32), crate::dvar::SetSource::Internal);
                }
                let _ = crate::dvar::set::set_int_internal(dvars, "vid_xpos", x as i32);
                assert(dvars.get("vid_ypos"@) == old(dvars).get("vid_ypos"@));
                proof {
                    dvars.lemma_refused_set("vid_ypos"@, crate::dvar::DvarValueView::Int(y as i32), crate::dvar::SetSource::Internal);
                }
                let _ = crate::dvar::set::set_int_internal(dvars, "vid_ypos", y as i32);
                let _ = crate::dvar::global_fns::clear_modified(dvars, "vid_xpos");
                let _ = crate::dvar::global_fns::clear_modified(dvars, "vid_ypos");
                if ctx.platform.active_app {
                    crate::input::activate(&mut ctx.input, true);
                }
            }
        },
        WindowEvent::ModifiersChanged { modifiers } => {
            handle_modifiers_changed(ctx, modifiers, now);
        },
        WindowEvent::KeyDown { logical_scancode, .. } => {
            if logical_scancode == KeyboardScancode::Enter && ctx.modifiers.contains(Modifiers::LALT) {
                if crate::cl::get_local_client_connection_state(&ctx.client_uis, 0) == crate::cl::Connstate::LOADING {
                    return out;
                }
                let developer = match crate::dvar::get::get_int(dvars, "developer") {
                    Some(v) => v,
                    None => 0,
                };
                if developer != 0 {
                    let full = match crate::dvar::get::get_bool(dvars, "r_fullscreen") {
                        Some(b) => b,
                        None => false,
                    };
                    proof {
                        dvars.lemma_refused_set("r_fullscreen"@, crate::dvar::DvarValueView::Bool(!full), crate::dvar::SetSource::External);
                    }
                    let _ = crate::dvar::set::set_bool(dvars, "r_fullscreen", !full);
                    add_command(&mut out, "vid_restart");
                }
            }
            enqueue_key(ctx, logical_scancode, true, now);
        },
        WindowEvent::KeyUp { logical_scancode, .. } => {
            enqueue_key(ctx, logical_scancode, false, now);
        },
        _ => {},
    }
    out
}


/// Each modifier that [`Modifiers::each`] yields is a single modifier that
/// is set; the left shift is never among them.
pub proof fn law_each_yields_set_modifiers(bits: u16)
    ensures
        forall|k: int| 0 <= k < each_prefix(bits, 10).len() ==> {
            let m = #[trigger] each_prefix(bits, 10)[k];
            &&& bits & m == m
            &&& m != Modifiers::LSHIFT
            &&& KeyboardScancode::key_of_modifier(m) is Some
        },
{
    lemma_each_prefix_set(bits, 10);
}

proof fn lemma_each_prefix_set(bits: u16, n: int)
    requires
        0 <= n <= 10,
    ensures
        forall|k: int| 0 <= k < each_prefix(bits, n).len() ==> {
            let m = #[trigger] each_prefix(bits, n)[k];
            &&& bits & m == m
            &&& m != Modifiers::LSHIFT
            &&& KeyboardScancode::key_of_modifier(m) is Some
        },
    decreases n,
{
    if n > 0 {
        lemma_each_prefix_set(bits, n - 1);
        let o = each_order();
        assert(o[0] == Modifiers::CAPSLOCK && o[1] == Modifiers::LALT && o[2] == Modifiers::LCTRL);
        assert(o[3] == Modifiers::LSYS && o[4] == Modifiers::NUMLOCK && o[5] == Modifiers::RALT);
        assert(o[6] == Modifiers::RCTRL && o[7] == Modifiers::RSHIFT && o[8] == Modifiers::RSYS && o[9] == Modifiers::SCRLOCK);
        let rest = each_prefix(bits, n - 1);
        assert forall|k: int| 0 <= k < each_prefix(bits, n).len() implies {
            let m = #[trigger] each_prefix(bits, n)[k];
            &&& bits & m == m
            &&& m != Modifiers::LSHIFT
            &&& KeyboardScancode::key_of_modifier(m) is Some
        } by {
            if k < rest.len() {
                assert(each_prefix(bits, n)[k] == rest[k]);
            }
        }
    }
}

} // verus!
