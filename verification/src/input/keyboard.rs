//! Key binds: the game actions that keys are bound to, and what pressing
//! and releasing a bound key does to its bind.

#![allow(dead_code)]

use vstd::prelude::*;
use crate::cl::ClientUse;
use crate::cmd::{argv, CmdArgs};
use crate::com::printed;
use crate::console::Channel;
use crate::dvar::DvarRegistry;
use crate::dvar::get::{get_bool, spec_get_bool};
use crate::input::{
    can_update_use_count, can_update_use_held, update_use_count, update_use_held, use_count_effect,
    use_held_effect,
};
use crate::text::{parse_isize, parse_usize, parsed_isize, parsed_usize};
use vstd::string::StrSliceExecFns;

verus! {

/// A game action a key can be bound to.
#[derive(Copy, Clone, Debug, PartialEq, Eq, Structural)]
pub enum KeybindCode {
    NoBind,
    Activate,
    Attack,
    Back,
    Breath,
    BreathSprint,
    Down,
    Forward,
    Frag,
    Gas,
    GoCrouch,
    GoProne,
    GoStandUp,
    Handbrake,
    LeanLeft,
    LeanRight,
    Left,
    LookDown,
    LookUp,
    LowerStance,
    Melee,
    MeleeBreath,
    MoveLeft,
    MoveRight,
    Prone,
    RaiseStance,
    Reload,
    Reverse,
    Right,
    Smoke,
    SpecNext,
    SpecPrev,
    SpeedThrow,
    Speed,
    Sprint,
    Stance,
    Strafe,
    SwitchSeat,
    Talk,
    Throw,
    ToggleAds,
    ToggleAdsThrow,
    ToggleCrouch,
    ToggleProne,
    ToggleSpec,
    ToggleView,
    Up,
    UseReload,
    VehicleAttack,
    VehicleAttackSecond,
    VehicleBoost,
    VehicleDropDeployable,
    VehicleFirePickup,
    VehicleMoveDown,
    VehicleMoveUp,
    VehicleSpecialAbility,
    VehicleSwapPickup,
    MLook,
}

/// How many actions there are.
pub const KEYBIND_COUNT: usize = 58;

/// The slot of an action in the bind table.
pub open spec fn code_slot(code: KeybindCode) -> int {
    match code {
            KeybindCode::NoBind => 0,
            KeybindCode::Activate => 1,
            KeybindCode::Attack => 2,
            KeybindCode::Back => 3,
            KeybindCode::Breath => 4,
            KeybindCode::BreathSprint => 5,
            KeybindCode::Down => 6,
            KeybindCode::Forward => 7,
            KeybindCode::Frag => 8,
            KeybindCode::Gas => 9,
            KeybindCode::GoCrouch => 10,
            KeybindCode::GoProne => 11,
            KeybindCode::GoStandUp => 12,
            KeybindCode::Handbrake => 13,
            KeybindCode::LeanLeft => 14,
            KeybindCode::LeanRight => 15,
            KeybindCode::Left => 16,
            KeybindCode::LookDown => 17,
            KeybindCode::LookUp => 18,
            KeybindCode::LowerStance => 19,
            KeybindCode::Melee => 20,
            KeybindCode::MeleeBreath => 21,
            KeybindCode::MoveLeft => 22,
            KeybindCode::MoveRight => 23,
            KeybindCode::Prone => 24,
            KeybindCode::RaiseStance => 25,
            KeybindCode::Reload => 26,
            KeybindCode::Reverse => 27,
            KeybindCode::Right => 28,
            KeybindCode::Smoke => 29,
            KeybindCode::SpecNext => 30,
            KeybindCode::SpecPrev => 31,
            KeybindCode::SpeedThrow => 32,
            KeybindCode::Speed => 33,
            KeybindCode::Sprint => 34,
            KeybindCode::Stance => 35,
            KeybindCode::Strafe => 36,
            KeybindCode::SwitchSeat => 37,
            KeybindCode::Talk => 38,
            KeybindCode::Throw => 39,
            KeybindCode::ToggleAds => 40,
            KeybindCode::ToggleAdsThrow => 41,
            KeybindCode::ToggleCrouch => 42,
            KeybindCode::ToggleProne => 43,
            KeybindCode::ToggleSpec => 44,
            KeybindCode::ToggleView => 45,
            KeybindCode::Up => 46,
            KeybindCode::UseReload => 47,
            KeybindCode::VehicleAttack => 48,
            KeybindCode::VehicleAttackSecond => 49,
            KeybindCode::VehicleBoost => 50,
            KeybindCode::VehicleDropDeployable => 51,
            KeybindCode::VehicleFirePickup => 52,
            KeybindCode::VehicleMoveDown => 53,
            KeybindCode::VehicleMoveUp => 54,
            KeybindCode::VehicleSpecialAbility => 55,
            KeybindCode::VehicleSwapPickup => 56,
            KeybindCode::MLook => 57,
    }
}

fn code_index(code: KeybindCode) -> (r: usize)
    ensures
        r == code_slot(code),
{
    match code {
            KeybindCode::NoBind => 0,
            KeybindCode::Activate => 1,
            KeybindCode::Attack => 2,
            KeybindCode::Back => 3,
            KeybindCode::Breath => 4,
            KeybindCode::BreathSprint => 5,
            KeybindCode::Down => 6,
            KeybindCode::Forward => 7,
            KeybindCode::Frag => 8,
            KeybindCode::Gas => 9,
            KeybindCode::GoCrouch => 10,
            KeybindCode::GoProne => 11,
            KeybindCode::GoStandUp => 12,
            KeybindCode::Handbrake => 13,
            KeybindCode::LeanLeft => 14,
            KeybindCode::LeanRight => 15,
            KeybindCode::Left => 16,
            KeybindCode::LookDown => 17,
            KeybindCode::LookUp => 18,
            KeybindCode::LowerStance => 19,
            KeybindCode::Melee => 20,
            KeybindCode::MeleeBreath => 21,
            KeybindCode::MoveLeft => 22,
            KeybindCode::MoveRight => 23,
            KeybindCode::Prone => 24,
            KeybindCode::RaiseStance => 25,
            KeybindCode::Reload => 26,
            KeybindCode::Reverse => 27,
            KeybindCode::Right => 28,
            KeybindCode::Smoke => 29,
            KeybindCode::SpecNext => 30,
            KeybindCode::SpecPrev => 31,
            KeybindCode::SpeedThrow => 32,
            KeybindCode::Speed => 33,
            KeybindCode::Sprint => 34,
            KeybindCode::Stance => 35,
            KeybindCode::Strafe => 36,
            KeybindCode::SwitchSeat => 37,
            KeybindCode::Talk => 38,
            KeybindCode::Throw => 39,
            KeybindCode::ToggleAds => 40,
            KeybindCode::ToggleAdsThrow => 41,
            KeybindCode::ToggleCrouch => 42,
            KeybindCode::ToggleProne => 43,
            KeybindCode::ToggleSpec => 44,
            KeybindCode::ToggleView => 45,
            KeybindCode::Up => 46,
            KeybindCode::UseReload => 47,
            KeybindCode::VehicleAttack => 48,
            KeybindCode::VehicleAttackSecond => 49,
            KeybindCode::VehicleBoost => 50,
            KeybindCode::VehicleDropDeployable => 51,
            KeybindCode::VehicleFirePickup => 52,
            KeybindCode::VehicleMoveDown => 53,
            KeybindCode::VehicleMoveUp => 54,
            KeybindCode::VehicleSpecialAbility => 55,
            KeybindCode::VehicleSwapPickup => 56,
            KeybindCode::MLook => 57,
    }
}

/// The state of a bound action: the keys holding it down (zero where a
/// slot is free), when it went down, how long it has been held in
/// milliseconds, whether it is active, and whether it was pressed. Its
/// analogue value is a floating-point number that the caller keeps.
#[derive(Copy, Clone, Debug)]
pub struct Keybind {
    pub down: (isize, isize),
    pub downtime: usize,
    pub msec: usize,
    pub active: bool,
    pub was_pressed: bool,
}

impl Keybind {
    /// No key down, never pressed.
    pub fn new() -> (r: Self)
        ensures
            r == (Keybind { down: (0, 0), downtime: 0, msec: 0, active: false, was_pressed: false }),
    {
        Self { down: (0, 0), downtime: 0, msec: 0, active: false, was_pressed: false }
    }
}

/// The binds of the actions, one slot per action; a slot is empty while
/// its action is not bound.
pub struct Keybinds {
    binds: Vec<Option<Keybind>>,
}

impl View for Keybinds {
    type V = Seq<Option<Keybind>>;

    closed spec fn view(&self) -> Seq<Option<Keybind>> {
        self.binds@
    }
}

impl Keybinds {
    /// There is one slot per action.
    pub open spec fn wf(&self) -> bool {
        self@.len() == KEYBIND_COUNT
    }

    /// No action bound.
    pub fn new() -> (r: Self)
        ensures
            r.wf(),
            forall|i: int| 0 <= i < KEYBIND_COUNT ==> r@[i] is None,
    {
        let mut binds: Vec<Option<Keybind>> = Vec::new();
        let mut i: usize = 0;
        while i < KEYBIND_COUNT
            invariant
                i <= KEYBIND_COUNT,
                binds@.len() == i,
                forall|j: int| 0 <= j < i ==> binds@[j] is None,
            decreases KEYBIND_COUNT - i,
        {
            binds.push(None);
            i = i + 1;
        }
        Self { binds }
    }

    /// Binds `code` afresh (see [`Keybind::new`]).
    pub fn bind(&mut self, code: KeybindCode)
        requires
            old(self).wf(),
        ensures
            final(self).wf(),
            final(self)@ == old(self)@.update(code_slot(code), Some(Keybind::new_spec())),
    {
        let k = code_index(code);
        self.binds.set(k, Some(Keybind::new()));
    }

    fn store(&mut self, code: KeybindCode, bind: Keybind)
        requires
            old(self).wf(),
        ensures
            final(self).wf(),
            final(self)@ == old(self)@.update(code_slot(code), Some(bind)),
    {
        let k = code_index(code);
        self.binds.set(k, Some(bind));
    }
}

impl Keybind {
    /// A bind with no key down, never pressed.
    pub open spec fn new_spec() -> Keybind {
        Keybind { down: (0, 0), downtime: 0, msec: 0, active: false, was_pressed: false }
    }
}

/// The bind of `code`, if it is bound.
pub open spec fn bind_of(m: Seq<Option<Keybind>>, code: KeybindCode) -> Option<Keybind> {
    m[code_slot(code)]
}

/// The bind of `code`, if it is bound.
fn find_keybind(binds: &Keybinds, code: KeybindCode) -> (r: Option<Keybind>)
    requires
        binds.wf(),
    ensures
        r == bind_of(binds@, code),
{
    binds.binds[code_index(code)]
}

/// The key number a command gives: its first argument, read as a number;
/// -1 where it is missing or no number.
pub open spec fn key_number(args: CmdArgs) -> isize {
    if args.arg(1).len() == 0 {
        -1isize
    } else {
        match parsed_isize(args.arg(1)) {
            Some(i) => i,
            None => -1isize,
        }
    }
}

/// The message printed when a third key goes down for one action.
pub open spec fn three_keys_message() -> Option<Seq<char>> {
    printed(Channel(14), "Three keys down for a button!"@)
}

/// The text of an optional message.
pub open spec fn message_text(m: Option<String>) -> Option<Seq<char>> {
    match m {
        Some(s) => Some(s@),
        None => None,
    }
}

/// What pressing a key for `code` does, with the command's arguments: the
/// key number, the time it went down, and a value. The key is recorded in
/// the first free slot of the bind; a key already down changes nothing; a
/// third key is refused with a message. An action not yet active becomes
/// active and pressed at the given time, and nothing is recorded when that
/// time is no number.
pub open spec fn key_down_effect(m: Seq<Option<Keybind>>, code: KeybindCode, args: CmdArgs) -> (
    Seq<Option<Keybind>>,
    Option<Seq<char>>,
) {
    match bind_of(m, code) {
        None => (m, None),
        Some(b) => {
            let i = key_number(args);
            if b.down.0 == i || b.down.1 == i {
                (m, None)
            } else if b.down.0 != 0 && b.down.1 != 0 {
                (m, three_keys_message())
            } else {
                let b1 = if b.down.0 == 0 {
                    Keybind { down: (i, b.down.1), ..b }
                } else {
                    Keybind { down: (b.down.0, i), ..b }
                };
                if b1.active {
                    (m.update(code_slot(code), Some(b1)), None)
                } else {
                    match parsed_usize(args.arg(2)) {
                        None => (m, None),
                        Some(t) => (
                            m.update(
                                code_slot(code),
                                Some(Keybind { downtime: t, active: true, was_pressed: true, ..b1 }),
                            ),
                            None,
                        ),
                    }
                }
            }
        },
    }
}

/// Every action has a slot among the binds.
proof fn lemma_code_slot_in_range(code: KeybindCode)
    ensures
        0 <= code_slot(code) < KEYBIND_COUNT,
{
}

/// Pressing a key (numbered other than 0) for a bound action that is idle,
/// with no key down and not active, records the key in the first slot and,
/// with a press time that reads as a number, makes the action active and
/// pressed at that time, printing nothing; the other actions keep their
/// binds. With no such time nothing changes.
pub proof fn law_key_down_activates(m: Seq<Option<Keybind>>, code: KeybindCode, args: CmdArgs, b: Keybind, other: KeybindCode)
    requires
        m.len() == KEYBIND_COUNT,
        bind_of(m, code) == Some(b),
        b.down == (0isize, 0isize),
        !b.active,
        key_number(args) != 0,
        code_slot(other) != code_slot(code),
    ensures
        parsed_usize(args.arg(2)) matches Some(t) ==> {
            let (m2, msg) = key_down_effect(m, code, args);
            &&& bind_of(m2, code) == Some(Keybind { down: (key_number(args), 0isize), downtime: t, active: true, was_pressed: true, ..b })
            &&& bind_of(m2, code)->Some_0.active
            &&& msg is None
            &&& bind_of(m2, other) == bind_of(m, other)
        },
        parsed_usize(args.arg(2)) is None ==> key_down_effect(m, code, args) == (m, None::<Seq<char>>),
{
    lemma_code_slot_in_range(code);
    lemma_code_slot_in_range(other);
}

/// Presses a key for the action `code` (see [`key_down_effect`]); returns
/// the message printed, if any.
pub fn key_down(binds: &mut Keybinds, code: KeybindCode, args: &CmdArgs) -> (r: Option<String>)
    requires
        old(binds).wf(),
        args.wf(),
    ensures
        final(binds).wf(),
        (final(binds)@, message_text(r)) == key_down_effect(old(binds)@, code, *args),
{
    let mut bind = match find_keybind(binds, code) {
        Some(b) => b,
        None => return None,
    };
    let arg = argv(args, 1);
    let i: isize = if arg.as_str().unicode_len() == 0 {
        -1
    } else {
        match parse_isize(arg.as_str()) {
            Some(v) => v,
            None => -1,
        }
    };
    if bind.down.0 == i || bind.down.1 == i {
        binds.store(code, bind);
        assert(binds@ =~= old(binds)@);
        return None;
    }
    if bind.down.0 == 0 {
        bind.down.0 = i;
    } else {
        if bind.down.1 != 0 {
            proof {
                reveal_strlit("Three keys down for a button!");
            }
            return crate::com::print(Channel::new(14), "Three keys down for a button!");
        }
        bind.down.1 = i;
    }
    if !bind.active {
        let arg2 = argv(args, 2);
        let downtime = match parse_usize(arg2.as_str()) {
            Some(t) => t,
            None => return None,
        };
        bind.downtime = downtime;
        bind.active = true;
        bind.was_pressed = true;
    }
    binds.store(code, bind);
    None
}

/// The bind after one of its keys is released, before its time is
/// counted: the key's slot freed.
pub open spec fn released(b: Keybind, i: isize) -> Keybind {
    if b.down.0 == i {
        Keybind { down: (0, b.down.1), ..b }
    } else {
        Keybind { down: (b.down.0, 0), ..b }
    }
}

/// Whether releasing a key for `code` keeps its time within range: the
/// release time is not before the press, and the held time fits.
pub open spec fn can_key_up(m: Seq<Option<Keybind>>, code: KeybindCode, args: CmdArgs) -> bool {
    match bind_of(m, code) {
        None => true,
        Some(b) => {
            let i = match parsed_isize(args.arg(1)) {
                Some(v) => v,
                None => -1isize,
            };
            args.arg(1).len() != 0 && (b.down.0 == i || b.down.1 == i) ==> match parsed_usize(args.arg(2)) {
                Some(t) => t != 0 ==> b.downtime <= t && b.msec + (t - b.downtime) <= usize::MAX,
                None => true,
            }
        },
    }
}

/// What releasing a key for `code` does, with the command's arguments: the
/// key number and the release time. Without a key number every key of the
/// bind is released and it turns inactive. A key that is not down changes
/// nothing. Otherwise its slot is freed (and recorded while another key is
/// still down); with a release time the bind turns inactive and, for a
/// nonzero time, the time since the press is added to its held time.
pub open spec fn key_up_effect(m: Seq<Option<Keybind>>, code: KeybindCode, args: CmdArgs) -> Seq<Option<Keybind>> {
    match bind_of(m, code) {
        None => m,
        Some(b) => {
            if args.arg(1).len() == 0 {
                m.update(code_slot(code), Some(Keybind { down: (0, 0), active: false, ..b }))
            } else {
                let i = match parsed_isize(args.arg(1)) {
                    Some(v) => v,
                    None => -1isize,
                };
                if b.down.0 != i && b.down.1 != i {
                    m
                } else {
                    let b1 = released(b, i);
                    let m1 = if b1.down != (0isize, 0isize) {
                        m.update(code_slot(code), Some(b1))
                    } else {
                        m
                    };
                    match parsed_usize(args.arg(2)) {
                        None => m1,
                        Some(t) => {
                            let msec = if t == 0 {
                                b1.msec
                            } else {
                                (b1.msec + (t - b1.downtime)) as usize
                            };
                            m.update(code_slot(code), Some(Keybind { msec, active: false, ..b1 }))
                        },
                    }
                }
            }
        },
    }
}

/// Pressing a key for an idle bound action at time `t1` and releasing the
/// same key at a later nonzero time `t2` leaves the action inactive with no
/// key down, pressed at `t1`, and held `t2 - t1` longer than before.
pub proof fn law_press_then_release(
    m: Seq<Option<Keybind>>,
    code: KeybindCode,
    down_args: CmdArgs,
    up_args: CmdArgs,
    b: Keybind,
    k: isize,
    t1: usize,
    t2: usize,
)
    requires
        m.len() == KEYBIND_COUNT,
        bind_of(m, code) == Some(b),
        b.down == (0isize, 0isize),
        !b.active,
        key_number(down_args) == k,
        k != 0,
        parsed_usize(down_args.arg(2)) == Some(t1),
        up_args.arg(1).len() > 0,
        parsed_isize(up_args.arg(1)) == Some(k),
        parsed_usize(up_args.arg(2)) == Some(t2),
        0 < t2,
        t1 <= t2,
        b.msec + (t2 - t1) <= usize::MAX,
    ensures
        bind_of(key_up_effect(key_down_effect(m, code, down_args).0, code, up_args), code) == Some(
            Keybind {
                down: (0isize, 0isize),
                downtime: t1,
                msec: (b.msec + (t2 - t1)) as usize,
                active: false,
                was_pressed: true,
                ..b
            },
        ),
{
    lemma_code_slot_in_range(code);
    let m2 = key_down_effect(m, code, down_args).0;
    assert(bind_of(m2, code) == Some(Keybind { down: (k, 0isize), downtime: t1, active: true, was_pressed: true, ..b }));
}

/// Releases a key for the action `code` (see [`key_up_effect`]).
pub fn key_up(binds: &mut Keybinds, code: KeybindCode, args: &CmdArgs)
    requires
        old(binds).wf(),
        args.wf(),
        can_key_up(old(binds)@, code, *args),
    ensures
        final(binds).wf(),
        final(binds)@ == key_up_effect(old(binds)@, code, *args),
{
    let mut bind = match find_keybind(binds, code) {
        Some(b) => b,
        None => return,
    };
    let arg = argv(args, 1);
    if arg.as_str().unicode_len() == 0 {
        bind.down = (0, 0);
        bind.active = false;
        binds.store(code, bind);
        return;
    }
    let i: isize = match parse_isize(arg.as_str()) {
        Some(v) => v,
        None => -1,
    };
    if bind.down.0 == i {
        bind.down.0 = 0;
    } else {
        if bind.down.1 != i {
            return;
        }
        bind.down.1 = 0;
    }
    let ghost m0 = binds@;
    if bind.down.0 != 0 || bind.down.1 != 0 {
        binds.store(code, bind);
    }
    bind.active = false;
    let arg2 = argv(args, 2);
    let t = match parse_usize(arg2.as_str()) {
        Some(t) => t,
        None => return,
    };
    if t != 0 {
        bind.msec = bind.msec + (t - bind.downtime);
    }
    bind.active = false;
    binds.store(code, bind);
    assert(binds@ =~= m0.update(code_slot(code), Some(bind)));
}

/// Marks the mouse-look action active, where it is bound.
fn mlook_down(binds: &mut Keybinds)
    requires
        old(binds).wf(),
    ensures
        final(binds).wf(),
        final(binds)@ == match bind_of(old(binds)@, KeybindCode::MLook) {
            Some(b) => old(binds)@.update(code_slot(KeybindCode::MLook), Some(Keybind { active: true, ..b })),
            None => old(binds)@,
        },
{
    match find_keybind(binds, KeybindCode::MLook) {
        Some(b) => {
            let mut b = b;
            b.active = true;
            binds.store(KeybindCode::MLook, b);
        },
        None => {},
    }
}

/// Whether the talk key is held down: the dvar "cl_talking" is true and
/// the talk action is not active (an unbound action counts as inactive).
pub open spec fn talk_key_held(m: Seq<Option<Keybind>>, dvars: &DvarRegistry) -> bool {
    let talking = match spec_get_bool(dvars@, "cl_talking"@) {
        Some(b) => b,
        None => false,
    };
    let active = match bind_of(m, KeybindCode::Talk) {
        Some(b) => b.active,
        None => false,
    };
    talking && !active
}

/// Whether the talk key is held down (see [`talk_key_held`]).
fn is_talk_key_held(binds: &Keybinds, dvars: &DvarRegistry) -> (r: bool)
    requires
        binds.wf(),
        dvars.wf(),
    ensures
        r == talk_key_held(binds@, dvars),
{
    let talking = match get_bool(dvars, "cl_talking") {
        Some(b) => b,
        None => false,
    };
    let active = match find_keybind(binds, KeybindCode::Talk) {
        Some(b) => b.active,
        None => false,
    };
    talking && !active
}

/// Presses the bind of `Back` (see [`key_down`]).
fn back_down(binds: &mut Keybinds, args: &CmdArgs) -> (r: Option<String>)
    requires
        old(binds).wf(),
        args.wf(),
    ensures
        (final(binds)@, message_text(r)) == key_down_effect(old(binds)@, KeybindCode::Back, *args),
        final(binds).wf(),
{
    key_down(binds, KeybindCode::Back, args)
}

/// Releases the bind of `Back` (see [`key_up`]).
fn back_up(binds: &mut Keybinds, args: &CmdArgs)
    requires
        old(binds).wf(),
        args.wf(),
        can_key_up(old(binds)@, KeybindCode::Back, *args),
    ensures
        final(binds)@ == key_up_effect(old(binds)@, KeybindCode::Back, *args),
        final(binds).wf(),
{
    key_up(binds, KeybindCode::Back, args)
}

/// Presses the bind of `Breath` (see [`key_down`]).
fn breath_down(binds: &mut Keybinds, args: &CmdArgs) -> (r: Option<String>)
    requires
        old(binds).wf(),
        args.wf(),
    ensures
        (final(binds)@, message_text(r)) == key_down_effect(old(binds)@, KeybindCode::Breath, *args),
        final(binds).wf(),
{
    key_down(binds, KeybindCode::Breath, args)
}

/// Releases the bind of `Breath` (see [`key_up`]).
fn breath_up(binds: &mut Keybinds, args: &CmdArgs)
    requires
        old(binds).wf(),
        args.wf(),
        can_key_up(old(binds)@, KeybindCode::Breath, *args),
    ensures
        final(binds)@ == key_up_effect(old(binds)@, KeybindCode::Breath, *args),
        final(binds).wf(),
{
    key_up(binds, KeybindCode::Breath, args)
}

/// Presses the bind of `Down` (see [`key_down`]).
fn down_down(binds: &mut Keybinds, args: &CmdArgs) -> (r: Option<String>)
    requires
        old(binds).wf(),
        args.wf(),
    ensures
        (final(binds)@, message_text(r)) == key_down_effect(old(binds)@, KeybindCode::Down, *args),
        final(binds).wf(),
{
    key_down(binds, KeybindCode::Down, args)
}

/// Releases the bind of `Down` (see [`key_up`]).
fn down_up(binds: &mut Keybinds, args: &CmdArgs)
    requires
        old(binds).wf(),
        args.wf(),
        can_key_up(old(binds)@, KeybindCode::Down, *args),
    ensures
        final(binds)@ == key_up_effect(old(binds)@, KeybindCode::Down, *args),
        final(binds).wf(),
{
    key_up(binds, KeybindCode::Down, args)
}

/// Presses the bind of `Forward` (see [`key_down`]).
fn forward_down(binds: &mut Keybinds, args: &CmdArgs) -> (r: Option<String>)
    requires
        old(binds).wf(),
        args.wf(),
    ensures
        (final(binds)@, message_text(r)) == key_down_effect(old(binds)@, KeybindCode::Forward, *args),
        final(binds).wf(),
{
    key_down(binds, KeybindCode::Forward, args)
}

/// Releases the bind of `Forward` (see [`key_up`]).
fn forward_up(binds: &mut Keybinds, args: &CmdArgs)
    requires
        old(binds).wf(),
        args.wf(),
        can_key_up(old(binds)@, KeybindCode::Forward, *args),
    ensures
        final(binds)@ == key_up_effect(old(binds)@, KeybindCode::Forward, *args),
        final(binds).wf(),
{
    key_up(binds, KeybindCode::Forward, args)
}

/// Presses the bind of `Frag` (see [`key_down`]).
fn frag_down(binds: &mut Keybinds, args: &CmdArgs) -> (r: Option<String>)
    requires
        old(binds).wf(),
        args.wf(),
    ensures
        (final(binds)@, message_text(r)) == key_down_effect(old(binds)@, KeybindCode::Frag, *args),
        final(binds).wf(),
{
    key_down(binds, KeybindCode::Frag, args)
}

/// Releases the bind of `Frag` (see [`key_up`]).
fn frag_up(binds: &mut Keybinds, args: &CmdArgs)
    requires
        old(binds).wf(),
        args.wf(),
        can_key_up(old(binds)@, KeybindCode::Frag, *args),
    ensures
        final(binds)@ == key_up_effect(old(binds)@, KeybindCode::Frag, *args),
        final(binds).wf(),
{
    key_up(binds, KeybindCode::Frag, args)
}

/// Presses the bind of `Gas` (see [`key_down`]).
fn gas_down(binds: &mut Keybinds, args: &CmdArgs) -> (r: Option<String>)
    requires
        old(binds).wf(),
        args.wf(),
    ensures
        (final(binds)@, message_text(r)) == key_down_effect(old(binds)@, KeybindCode::Gas, *args),
        final(binds).wf(),
{
    key_down(binds, KeybindCode::Gas, args)
}

/// Releases the bind of `Gas` (see [`key_up`]).
fn gas_up(binds: &mut Keybinds, args: &CmdArgs)
    requires
        old(binds).wf(),
        args.wf(),
        can_key_up(old(binds)@, KeybindCode::Gas, *args),
    ensures
        final(binds)@ == key_up_effect(old(binds)@, KeybindCode::Gas, *args),
        final(binds).wf(),
{
    key_up(binds, KeybindCode::Gas, args)
}

/// Presses the bind of `Handbrake` (see [`key_down`]).
fn handbrake_down(binds: &mut Keybinds, args: &CmdArgs) -> (r: Option<String>)
    requires
        old(binds).wf(),
        args.wf(),
    ensures
        (final(binds)@, message_text(r)) == key_down_effect(old(binds)@, KeybindCode::Handbrake, *args),
        final(binds).wf(),
{
    key_down(binds, KeybindCode::Handbrake, args)
}

/// Releases the bind of `Handbrake` (see [`key_up`]).
fn handbrake_up(binds: &mut Keybinds, args: &CmdArgs)
    requires
        old(binds).wf(),
        args.wf(),
        can_key_up(old(binds)@, KeybindCode::Handbrake, *args),
    ensures
        final(binds)@ == key_up_effect(old(binds)@, KeybindCode::Handbrake, *args),
        final(binds).wf(),
{
    key_up(binds, KeybindCode::Handbrake, args)
}

/// Presses the bind of `LeanLeft` (see [`key_down`]).
fn lean_left_down(binds: &mut Keybinds, args: &CmdArgs) -> (r: Option<String>)
    requires
        old(binds).wf(),
        args.wf(),
    ensures
        (final(binds)@, message_text(r)) == key_down_effect(old(binds)@, KeybindCode::LeanLeft, *args),
        final(binds).wf(),
{
    key_down(binds, KeybindCode::LeanLeft, args)
}

/// Releases the bind of `LeanLeft` (see [`key_up`]).
fn lean_left_up(binds: &mut Keybinds, args: &CmdArgs)
    requires
        old(binds).wf(),
        args.wf(),
        can_key_up(old(binds)@, KeybindCode::LeanLeft, *args),
    ensures
        final(binds)@ == key_up_effect(old(binds)@, KeybindCode::LeanLeft, *args),
        final(binds).wf(),
{
    key_up(binds, KeybindCode::LeanLeft, args)
}

/// Presses the bind of `LeanRight` (see [`key_down`]).
fn lean_right_down(binds: &mut Keybinds, args: &CmdArgs) -> (r: Option<String>)
    requires
        old(binds).wf(),
        args.wf(),
    ensures
        (final(binds)@, message_text(r)) == key_down_effect(old(binds)@, KeybindCode::LeanRight, *args),
        final(binds).wf(),
{
    key_down(binds, KeybindCode::LeanRight, args)
}

/// Releases the bind of `LeanRight` (see [`key_up`]).
fn lean_right_up(binds: &mut Keybinds, args: &CmdArgs)
    requires
        old(binds).wf(),
        args.wf(),
        can_key_up(old(binds)@, KeybindCode::LeanRight, *args),
    ensures
        final(binds)@ == key_up_effect(old(binds)@, KeybindCode::LeanRight, *args),
        final(binds).wf(),
{
    key_up(binds, KeybindCode::LeanRight, args)
}

/// Presses the bind of `Left` (see [`key_down`]).
fn left_down(binds: &mut Keybinds, args: &CmdArgs) -> (r: Option<String>)
    requires
        old(binds).wf(),
        args.wf(),
    ensures
        (final(binds)@, message_text(r)) == key_down_effect(old(binds)@, KeybindCode::Left, *args),
        final(binds).wf(),
{
    key_down(binds, KeybindCode::Left, args)
}

/// Releases the bind of `Left` (see [`key_up`]).
fn left_up(binds: &mut Keybinds, args: &CmdArgs)
    requires
        old(binds).wf(),
        args.wf(),
        can_key_up(old(binds)@, KeybindCode::Left, *args),
    ensures
        final(binds)@ == key_up_effect(old(binds)@, KeybindCode::Left, *args),
        final(binds).wf(),
{
    key_up(binds, KeybindCode::Left, args)
}

/// Presses the bind of `LookDown` (see [`key_down`]).
fn lookdown_down(binds: &mut Keybinds, args: &CmdArgs) -> (r: Option<String>)
    requires
        old(binds).wf(),
        args.wf(),
    ensures
        (final(binds)@, message_text(r)) == key_down_effect(old(binds)@, KeybindCode::LookDown, *args),
        final(binds).wf(),
{
    key_down(binds, KeybindCode::LookDown, args)
}

/// Releases the bind of `LookDown` (see [`key_up`]).
fn lookdown_up(binds: &mut Keybinds, args: &CmdArgs)
    requires
        old(binds).wf(),
        args.wf(),
        can_key_up(old(binds)@, KeybindCode::LookDown, *args),
    ensures
        final(binds)@ == key_up_effect(old(binds)@, KeybindCode::LookDown, *args),
        final(binds).wf(),
{
    key_up(binds, KeybindCode::LookDown, args)
}

/// Presses the bind of `LookUp` (see [`key_down`]).
fn lookup_down(binds: &mut Keybinds, args: &CmdArgs) -> (r: Option<String>)
    requires
        old(binds).wf(),
        args.wf(),
    ensures
        (final(binds)@, message_text(r)) == key_down_effect(old(binds)@, KeybindCode::LookUp, *args),
        final(binds).wf(),
{
    key_down(binds, KeybindCode::LookUp, args)
}

/// Releases the bind of `LookUp` (see [`key_up`]).
fn lookup_up(binds: &mut Keybinds, args: &CmdArgs)
    requires
        old(binds).wf(),
        args.wf(),
        can_key_up(old(binds)@, KeybindCode::LookUp, *args),
    ensures
        final(binds)@ == key_up_effect(old(binds)@, KeybindCode::LookUp, *args),
        final(binds).wf(),
{
    key_up(binds, KeybindCode::LookUp, args)
}

/// Presses the bind of `Melee` (see [`key_down`]).
fn melee_down(binds: &mut Keybinds, args: &CmdArgs) -> (r: Option<String>)
    requires
        old(binds).wf(),
        args.wf(),
    ensures
        (final(binds)@, message_text(r)) == key_down_effect(old(binds)@, KeybindCode::Melee, *args),
        final(binds).wf(),
{
    key_down(binds, KeybindCode::Melee, args)
}

/// Releases the bind of `Melee` (see [`key_up`]).
fn melee_up(binds: &mut Keybinds, args: &CmdArgs)
    requires
        old(binds).wf(),
        args.wf(),
        can_key_up(old(binds)@, KeybindCode::Melee, *args),
    ensures
        final(binds)@ == key_up_effect(old(binds)@, KeybindCode::Melee, *args),
        final(binds).wf(),
{
    key_up(binds, KeybindCode::Melee, args)
}

/// Presses the bind of `MoveLeft` (see [`key_down`]).
fn move_left_down(binds: &mut Keybinds, args: &CmdArgs) -> (r: Option<String>)
    requires
        old(binds).wf(),
        args.wf(),
    ensures
        (final(binds)@, message_text(r)) == key_down_effect(old(binds)@, KeybindCode::MoveLeft, *args),
        final(binds).wf(),
{
    key_down(binds, KeybindCode::MoveLeft, args)
}

/// Releases the bind of `MoveLeft` (see [`key_up`]).
fn move_left_up(binds: &mut Keybinds, args: &CmdArgs)
    requires
        old(binds).wf(),
        args.wf(),
        can_key_up(old(binds)@, KeybindCode::MoveLeft, *args),
    ensures
        final(binds)@ == key_up_effect(old(binds)@, KeybindCode::MoveLeft, *args),
        final(binds).wf(),
{
    key_up(binds, KeybindCode::MoveLeft, args)
}

/// Presses the bind of `MoveRight` (see [`key_down`]).
fn move_right_down(binds: &mut Keybinds, args: &CmdArgs) -> (r: Option<String>)
    requires
        old(binds).wf(),
        args.wf(),
    ensures
        (final(binds)@, message_text(r)) == key_down_effect(old(binds)@, KeybindCode::MoveRight, *args),
        final(binds).wf(),
{
    key_down(binds, KeybindCode::MoveRight, args)
}

/// Releases the bind of `MoveRight` (see [`key_up`]).
fn move_right_up(binds: &mut Keybinds, args: &CmdArgs)
    requires
        old(binds).wf(),
        args.wf(),
        can_key_up(old(binds)@, KeybindCode::MoveRight, *args),
    ensures
        final(binds)@ == key_up_effect(old(binds)@, KeybindCode::MoveRight, *args),
        final(binds).wf(),
{
    key_up(binds, KeybindCode::MoveRight, args)
}

/// Presses the bind of `Prone` (see [`key_down`]).
fn prone_down(binds: &mut Keybinds, args: &CmdArgs) -> (r: Option<String>)
    requires
        old(binds).wf(),
        args.wf(),
    ensures
        (final(binds)@, message_text(r)) == key_down_effect(old(binds)@, KeybindCode::Prone, *args),
        final(binds).wf(),
{
    key_down(binds, KeybindCode::Prone, args)
}

/// Releases the bind of `Prone` (see [`key_up`]).
fn prone_up(binds: &mut Keybinds, args: &CmdArgs)
    requires
        old(binds).wf(),
        args.wf(),
        can_key_up(old(binds)@, KeybindCode::Prone, *args),
    ensures
        final(binds)@ == key_up_effect(old(binds)@, KeybindCode::Prone, *args),
        final(binds).wf(),
{
    key_up(binds, KeybindCode::Prone, args)
}

/// Presses the bind of `Reverse` (see [`key_down`]).
fn reverse_down(binds: &mut Keybinds, args: &CmdArgs) -> (r: Option<String>)
    requires
        old(binds).wf(),
        args.wf(),
    ensures
        (final(binds)@, message_text(r)) == key_down_effect(old(binds)@, KeybindCode::Reverse, *args),
        final(binds).wf(),
{
    key_down(binds, KeybindCode::Reverse, args)
}

/// Releases the bind of `Reverse` (see [`key_up`]).
fn reverse_up(binds: &mut Keybinds, args: &CmdArgs)
    requires
        old(binds).wf(),
        args.wf(),
        can_key_up(old(binds)@, KeybindCode::Reverse, *args),
    ensures
        final(binds)@ == key_up_effect(old(binds)@, KeybindCode::Reverse, *args),
        final(binds).wf(),
{
    key_up(binds, KeybindCode::Reverse, args)
}

/// Presses the bind of `Right` (see [`key_down`]).
fn right_down(binds: &mut Keybinds, args: &CmdArgs) -> (r: Option<String>)
    requires
        old(binds).wf(),
        args.wf(),
    ensures
        (final(binds)@, message_text(r)) == key_down_effect(old(binds)@, KeybindCode::Right, *args),
        final(binds).wf(),
{
    key_down(binds, KeybindCode::Right, args)
}

/// Releases the bind of `Right` (see [`key_up`]).
fn right_up(binds: &mut Keybinds, args: &CmdArgs)
    requires
        old(binds).wf(),
        args.wf(),
        can_key_up(old(binds)@, KeybindCode::Right, *args),
    ensures
        final(binds)@ == key_up_effect(old(binds)@, KeybindCode::Right, *args),
        final(binds).wf(),
{
    key_up(binds, KeybindCode::Right, args)
}

/// Presses the bind of `SpecNext` (see [`key_down`]).
fn spec_next_down(binds: &mut Keybinds, args: &CmdArgs) -> (r: Option<String>)
    requires
        old(binds).wf(),
        args.wf(),
    ensures
        (final(binds)@, message_text(r)) == key_down_effect(old(binds)@, KeybindCode::SpecNext, *args),
        final(binds).wf(),
{
    key_down(binds, KeybindCode::SpecNext, args)
}

/// Releases the bind of `SpecNext` (see [`key_up`]).
fn spec_next_up(binds: &mut Keybinds, args: &CmdArgs)
    requires
        old(binds).wf(),
        args.wf(),
        can_key_up(old(binds)@, KeybindCode::SpecNext, *args),
    ensures
        final(binds)@ == key_up_effect(old(binds)@, KeybindCode::SpecNext, *args),
        final(binds).wf(),
{
    key_up(binds, KeybindCode::SpecNext, args)
}

/// Presses the bind of `SpecPrev` (see [`key_down`]).
fn spec_prev_down(binds: &mut Keybinds, args: &CmdArgs) -> (r: Option<String>)
    requires
        old(binds).wf(),
        args.wf(),
    ensures
        (final(binds)@, message_text(r)) == key_down_effect(old(binds)@, KeybindCode::SpecPrev, *args),
        final(binds).wf(),
{
    key_down(binds, KeybindCode::SpecPrev, args)
}

/// Releases the bind of `SpecPrev` (see [`key_up`]).
fn spec_prev_up(binds: &mut Keybinds, args: &CmdArgs)
    requires
        old(binds).wf(),
        args.wf(),
        can_key_up(old(binds)@, KeybindCode::SpecPrev, *args),
    ensures
        final(binds)@ == key_up_effect(old(binds)@, KeybindCode::SpecPrev, *args),
        final(binds).wf(),
{
    key_up(binds, KeybindCode::SpecPrev, args)
}

/// Presses the bind of `Sprint` (see [`key_down`]).
fn sprint_down(binds: &mut Keybinds, args: &CmdArgs) -> (r: Option<String>)
    requires
        old(binds).wf(),
        args.wf(),
    ensures
        (final(binds)@, message_text(r)) == key_down_effect(old(binds)@, KeybindCode::Sprint, *args),
        final(binds).wf(),
{
    key_down(binds, KeybindCode::Sprint, args)
}

/// Releases the bind of `Sprint` (see [`key_up`]).
fn sprint_up(binds: &mut Keybinds, args: &CmdArgs)
    requires
        old(binds).wf(),
        args.wf(),
        can_key_up(old(binds)@, KeybindCode::Sprint, *args),
    ensures
        final(binds)@ == key_up_effect(old(binds)@, KeybindCode::Sprint, *args),
        final(binds).wf(),
{
    key_up(binds, KeybindCode::Sprint, args)
}

/// Presses the bind of `Strafe` (see [`key_down`]).
fn strafe_down(binds: &mut Keybinds, args: &CmdArgs) -> (r: Option<String>)
    requires
        old(binds).wf(),
        args.wf(),
    ensures
        (final(binds)@, message_text(r)) == key_down_effect(old(binds)@, KeybindCode::Strafe, *args),
        final(binds).wf(),
{
    key_down(binds, KeybindCode::Strafe, args)
}

/// Releases the bind of `Strafe` (see [`key_up`]).
fn strafe_up(binds: &mut Keybinds, args: &CmdArgs)
    requires
        old(binds).wf(),
        args.wf(),
        can_key_up(old(binds)@, KeybindCode::Strafe, *args),
    ensures
        final(binds)@ == key_up_effect(old(binds)@, KeybindCode::Strafe, *args),
        final(binds).wf(),
{
    key_up(binds, KeybindCode::Strafe, args)
}

/// Presses the bind of `SwitchSeat` (see [`key_down`]).
fn switch_seat_down(binds: &mut Keybinds, args: &CmdArgs) -> (r: Option<String>)
    requires
        old(binds).wf(),
        args.wf(),
    ensures
        (final(binds)@, message_text(r)) == key_down_effect(old(binds)@, KeybindCode::SwitchSeat, *args),
        final(binds).wf(),
{
    key_down(binds, KeybindCode::SwitchSeat, args)
}

/// Releases the bind of `SwitchSeat` (see [`key_up`]).
fn switch_seat_up(binds: &mut Keybinds, args: &CmdArgs)
    requires
        old(binds).wf(),
        args.wf(),
        can_key_up(old(binds)@, KeybindCode::SwitchSeat, *args),
    ensures
        final(binds)@ == key_up_effect(old(binds)@, KeybindCode::SwitchSeat, *args),
        final(binds).wf(),
{
    key_up(binds, KeybindCode::SwitchSeat, args)
}

/// Presses the bind of `Talk` (see [`key_down`]).
fn talk_down(binds: &mut Keybinds, args: &CmdArgs) -> (r: Option<String>)
    requires
        old(binds).wf(),
        args.wf(),
    ensures
        (final(binds)@, message_text(r)) == key_down_effect(old(binds)@, KeybindCode::Talk, *args),
        final(binds).wf(),
{
    key_down(binds, KeybindCode::Talk, args)
}

/// Releases the bind of `Talk` (see [`key_up`]).
fn talk_up(binds: &mut Keybinds, args: &CmdArgs)
    requires
        old(binds).wf(),
        args.wf(),
        can_key_up(old(binds)@, KeybindCode::Talk, *args),
    ensures
        final(binds)@ == key_up_effect(old(binds)@, KeybindCode::Talk, *args),
        final(binds).wf(),
{
    key_up(binds, KeybindCode::Talk, args)
}

/// Presses the bind of `Throw` (see [`key_down`]).
fn throw_down(binds: &mut Keybinds, args: &CmdArgs) -> (r: Option<String>)
    requires
        old(binds).wf(),
        args.wf(),
    ensures
        (final(binds)@, message_text(r)) == key_down_effect(old(binds)@, KeybindCode::Throw, *args),
        final(binds).wf(),
{
    key_down(binds, KeybindCode::Throw, args)
}

/// Releases the bind of `Throw` (see [`key_up`]).
fn throw_up(binds: &mut Keybinds, args: &CmdArgs)
    requires
        old(binds).wf(),
        args.wf(),
        can_key_up(old(binds)@, KeybindCode::Throw, *args),
    ensures
        final(binds)@ == key_up_effect(old(binds)@, KeybindCode::Throw, *args),
        final(binds).wf(),
{
    key_up(binds, KeybindCode::Throw, args)
}

/// Presses the bind of `ToggleSpec` (see [`key_down`]).
fn toggle_spec_down(binds: &mut Keybinds, args: &CmdArgs) -> (r: Option<String>)
    requires
        old(binds).wf(),
        args.wf(),
    ensures
        (final(binds)@, message_text(r)) == key_down_effect(old(binds)@, KeybindCode::ToggleSpec, *args),
        final(binds).wf(),
{
    key_down(binds, KeybindCode::ToggleSpec, args)
}

/// Releases the bind of `ToggleSpec` (see [`key_up`]).
fn toggle_spec_up(binds: &mut Keybinds, args: &CmdArgs)
    requires
        old(binds).wf(),
        args.wf(),
        can_key_up(old(binds)@, KeybindCode::ToggleSpec, *args),
    ensures
        final(binds)@ == key_up_effect(old(binds)@, KeybindCode::ToggleSpec, *args),
        final(binds).wf(),
{
    key_up(binds, KeybindCode::ToggleSpec, args)
}

/// Presses the bind of `VehicleAttack` (see [`key_down`]).
fn vehicle_attack_down(binds: &mut Keybinds, args: &CmdArgs) -> (r: Option<String>)
    requires
        old(binds).wf(),
        args.wf(),
    ensures
        (final(binds)@, message_text(r)) == key_down_effect(old(binds)@, KeybindCode::VehicleAttack, *args),
        final(binds).wf(),
{
    key_down(binds, KeybindCode::VehicleAttack, args)
}

/// Releases the bind of `VehicleAttack` (see [`key_up`]).
fn vehicle_attack_up(binds: &mut Keybinds, args: &CmdArgs)
    requires
        old(binds).wf(),
        args.wf(),
        can_key_up(old(binds)@, KeybindCode::VehicleAttack, *args),
    ensures
        final(binds)@ == key_up_effect(old(binds)@, KeybindCode::VehicleAttack, *args),
        final(binds).wf(),
{
    key_up(binds, KeybindCode::VehicleAttack, args)
}

/// Presses the bind of `VehicleAttackSecond` (see [`key_down`]).
fn vehicle_attack_second_down(binds: &mut Keybinds, args: &CmdArgs) -> (r: Option<String>)
    requires
        old(binds).wf(),
        args.wf(),
    ensures
        (final(binds)@, message_text(r)) == key_down_effect(old(binds)@, KeybindCode::VehicleAttackSecond, *args),
        final(binds).wf(),
{
    key_down(binds, KeybindCode::VehicleAttackSecond, args)
}

/// Releases the bind of `VehicleAttackSecond` (see [`key_up`]).
fn vehicle_attack_second_up(binds: &mut Keybinds, args: &CmdArgs)
    requires
        old(binds).wf(),
        args.wf(),
        can_key_up(old(binds)@, KeybindCode::VehicleAttackSecond, *args),
    ensures
        final(binds)@ == key_up_effect(old(binds)@, KeybindCode::VehicleAttackSecond, *args),
        final(binds).wf(),
{
    key_up(binds, KeybindCode::VehicleAttackSecond, args)
}

/// Presses the bind of `VehicleBoost` (see [`key_down`]).
fn vehicle_boost_down(binds: &mut Keybinds, args: &CmdArgs) -> (r: Option<String>)
    requires
        old(binds).wf(),
        args.wf(),
    ensures
        (final(binds)@, message_text(r)) == key_down_effect(old(binds)@, KeybindCode::VehicleBoost, *args),
        final(binds).wf(),
{
    key_down(binds, KeybindCode::VehicleBoost, args)
}

/// Releases the bind of `VehicleBoost` (see [`key_up`]).
fn vehicle_boost_up(binds: &mut Keybinds, args: &CmdArgs)
    requires
        old(binds).wf(),
        args.wf(),
        can_key_up(old(binds)@, KeybindCode::VehicleBoost, *args),
    ensures
        final(binds)@ == key_up_effect(old(binds)@, KeybindCode::VehicleBoost, *args),
        final(binds).wf(),
{
    key_up(binds, KeybindCode::VehicleBoost, args)
}

/// Presses the bind of `VehicleDropDeployable` (see [`key_down`]).
fn vehicle_drop_deployable_down(binds: &mut Keybinds, args: &CmdArgs) -> (r: Option<String>)
    requires
        old(binds).wf(),
        args.wf(),
    ensures
        (final(binds)@, message_text(r)) == key_down_effect(old(binds)@, KeybindCode::VehicleDropDeployable, *args),
        final(binds).wf(),
{
    key_down(binds, KeybindCode::VehicleDropDeployable, args)
}

/// Releases the bind of `VehicleDropDeployable` (see [`key_up`]).
fn vehicle_drop_deployable_up(binds: &mut Keybinds, args: &CmdArgs)
    requires
        old(binds).wf(),
        args.wf(),
        can_key_up(old(binds)@, KeybindCode::VehicleDropDeployable, *args),
    ensures
        final(binds)@ == key_up_effect(old(binds)@, KeybindCode::VehicleDropDeployable, *args),
        final(binds).wf(),
{
    key_up(binds, KeybindCode::VehicleDropDeployable, args)
}

/// Presses the bind of `VehicleFirePickup` (see [`key_down`]).
fn vehicle_fire_pickup_down(binds: &mut Keybinds, args: &CmdArgs) -> (r: Option<String>)
    requires
        old(binds).wf(),
        args.wf(),
    ensures
        (final(binds)@, message_text(r)) == key_down_effect(old(binds)@, KeybindCode::VehicleFirePickup, *args),
        final(binds).wf(),
{
    key_down(binds, KeybindCode::VehicleFirePickup, args)
}

/// Releases the bind of `VehicleFirePickup` (see [`key_up`]).
fn vehicle_fire_pickup_up(binds: &mut Keybinds, args: &CmdArgs)
    requires
        old(binds).wf(),
        args.wf(),
        can_key_up(old(binds)@, KeybindCode::VehicleFirePickup, *args),
    ensures
        final(binds)@ == key_up_effect(old(binds)@, KeybindCode::VehicleFirePickup, *args),
        final(binds).wf(),
{
    key_up(binds, KeybindCode::VehicleFirePickup, args)
}

/// Presses the bind of `VehicleMoveDown` (see [`key_down`]).
fn vehicle_move_down_down(binds: &mut Keybinds, args: &CmdArgs) -> (r: Option<String>)
    requires
        old(binds).wf(),
        args.wf(),
    ensures
        (final(binds)@, message_text(r)) == key_down_effect(old(binds)@, KeybindCode::VehicleMoveDown, *args),
        final(binds).wf(),
{
    key_down(binds, KeybindCode::VehicleMoveDown, args)
}

/// Releases the bind of `VehicleMoveDown` (see [`key_up`]).
fn vehicle_move_down_up(binds: &mut Keybinds, args: &CmdArgs)
    requires
        old(binds).wf(),
        args.wf(),
        can_key_up(old(binds)@, KeybindCode::VehicleMoveDown, *args),
    ensures
        final(binds)@ == key_up_effect(old(binds)@, KeybindCode::VehicleMoveDown, *args),
        final(binds).wf(),
{
    key_up(binds, KeybindCode::VehicleMoveDown, args)
}

/// Presses the bind of `VehicleMoveUp` (see [`key_down`]).
fn vehicle_move_up_down(binds: &mut Keybinds, args: &CmdArgs) -> (r: Option<String>)
    requires
        old(binds).wf(),
        args.wf(),
    ensures
        (final(binds)@, message_text(r)) == key_down_effect(old(binds)@, KeybindCode::VehicleMoveUp, *args),
        final(binds).wf(),
{
    key_down(binds, KeybindCode::VehicleMoveUp, args)
}

/// Releases the bind of `VehicleMoveUp` (see [`key_up`]).
fn vehicle_move_up_up(binds: &mut Keybinds, args: &CmdArgs)
    requires
        old(binds).wf(),
        args.wf(),
        can_key_up(old(binds)@, KeybindCode::VehicleMoveUp, *args),
    ensures
        final(binds)@ == key_up_effect(old(binds)@, KeybindCode::VehicleMoveUp, *args),
        final(binds).wf(),
{
    key_up(binds, KeybindCode::VehicleMoveUp, args)
}

/// Presses the bind of `VehicleSpecialAbility` (see [`key_down`]).
fn vehicle_special_ability_down(binds: &mut Keybinds, args: &CmdArgs) -> (r: Option<String>)
    requires
        old(binds).wf(),
        args.wf(),
    ensures
        (final(binds)@, message_text(r)) == key_down_effect(old(binds)@, KeybindCode::VehicleSpecialAbility, *args),
        final(binds).wf(),
{
    key_down(binds, KeybindCode::VehicleSpecialAbility, args)
}

/// Releases the bind of `VehicleSpecialAbility` (see [`key_up`]).
fn vehicle_special_ability_up(binds: &mut Keybinds, args: &CmdArgs)
    requires
        old(binds).wf(),
        args.wf(),
        can_key_up(old(binds)@, KeybindCode::VehicleSpecialAbility, *args),
    ensures
        final(binds)@ == key_up_effect(old(binds)@, KeybindCode::VehicleSpecialAbility, *args),
        final(binds).wf(),
{
    key_up(binds, KeybindCode::VehicleSpecialAbility, args)
}

/// Presses the bind of `VehicleSwapPickup` (see [`key_down`]).
fn vehicle_swap_pickup_down(binds: &mut Keybinds, args: &CmdArgs) -> (r: Option<String>)
    requires
        old(binds).wf(),
        args.wf(),
    ensures
        (final(binds)@, message_text(r)) == key_down_effect(old(binds)@, KeybindCode::VehicleSwapPickup, *args),
        final(binds).wf(),
{
    key_down(binds, KeybindCode::VehicleSwapPickup, args)
}

/// Releases the bind of `VehicleSwapPickup` (see [`key_up`]).
fn vehicle_swap_pickup_up(binds: &mut Keybinds, args: &CmdArgs)
    requires
        old(binds).wf(),
        args.wf(),
        can_key_up(old(binds)@, KeybindCode::VehicleSwapPickup, *args),
    ensures
        final(binds)@ == key_up_effect(old(binds)@, KeybindCode::VehicleSwapPickup, *args),
        final(binds).wf(),
{
    key_up(binds, KeybindCode::VehicleSwapPickup, args)
}

/// Presses the binds of `Breath` and then `Sprint` (see [`key_down`]); the
/// messages of both are returned in that order.
fn breath_sprint_down(binds: &mut Keybinds, args: &CmdArgs) -> (r: (Option<String>, Option<String>))
    requires
        old(binds).wf(),
        args.wf(),
    ensures
        final(binds).wf(),
        ({
            let (mid, r1) = key_down_effect(old(binds)@, KeybindCode::Breath, *args);
            let (end, r2) = key_down_effect(mid, KeybindCode::Sprint, *args);
            final(binds)@ == end && message_text(r.0) == r1 && message_text(r.1) == r2
        }),
{
    let r1 = key_down(binds, KeybindCode::Breath, args);
    let r2 = key_down(binds, KeybindCode::Sprint, args);
    (r1, r2)
}

/// Releases the binds of `Breath` and then `Sprint` (see [`key_up`]).
fn breath_sprint_up(binds: &mut Keybinds, args: &CmdArgs)
    requires
        old(binds).wf(),
        args.wf(),
        can_key_up(old(binds)@, KeybindCode::Breath, *args),
        can_key_up(key_up_effect(old(binds)@, KeybindCode::Breath, *args), KeybindCode::Sprint, *args),
    ensures
        final(binds).wf(),
        final(binds)@ == key_up_effect(key_up_effect(old(binds)@, KeybindCode::Breath, *args), KeybindCode::Sprint, *args),
{
    key_up(binds, KeybindCode::Breath, args);
    key_up(binds, KeybindCode::Sprint, args);
}

/// Presses the binds of `Melee` and then `Breath` (see [`key_down`]); the
/// messages of both are returned in that order.
fn melee_breath_down(binds: &mut Keybinds, args: &CmdArgs) -> (r: (Option<String>, Option<String>))
    requires
        old(binds).wf(),
        args.wf(),
    ensures
        final(binds).wf(),
        ({
            let (mid, r1) = key_down_effect(old(binds)@, KeybindCode::Melee, *args);
            let (end, r2) = key_down_effect(mid, KeybindCode::Breath, *args);
            final(binds)@ == end && message_text(r.0) == r1 && message_text(r.1) == r2
        }),
{
    let r1 = key_down(binds, KeybindCode::Melee, args);
    let r2 = key_down(binds, KeybindCode::Breath, args);
    (r1, r2)
}

/// Releases the binds of `Melee` and then `Breath` (see [`key_up`]).
fn melee_breath_up(binds: &mut Keybinds, args: &CmdArgs)
    requires
        old(binds).wf(),
        args.wf(),
        can_key_up(old(binds)@, KeybindCode::Melee, *args),
        can_key_up(key_up_effect(old(binds)@, KeybindCode::Melee, *args), KeybindCode::Breath, *args),
    ensures
        final(binds).wf(),
        final(binds)@ == key_up_effect(key_up_effect(old(binds)@, KeybindCode::Melee, *args), KeybindCode::Breath, *args),
{
    key_up(binds, KeybindCode::Melee, args);
    key_up(binds, KeybindCode::Breath, args);
}

/// Presses the binds of `Speed` and then `Throw` (see [`key_down`]); the
/// messages of both are returned in that order.
fn speed_throw_down(binds: &mut Keybinds, args: &CmdArgs) -> (r: (Option<String>, Option<String>))
    requires
        old(binds).wf(),
        args.wf(),
    ensures
        final(binds).wf(),
        ({
            let (mid, r1) = key_down_effect(old(binds)@, KeybindCode::Speed, *args);
            let (end, r2) = key_down_effect(mid, KeybindCode::Throw, *args);
            final(binds)@ == end && message_text(r.0) == r1 && message_text(r.1) == r2
        }),
{
    let r1 = key_down(binds, KeybindCode::Speed, args);
    let r2 = key_down(binds, KeybindCode::Throw, args);
    (r1, r2)
}

/// Releases the binds of `Speed` and then `Throw` (see [`key_up`]).
fn speed_throw_up(binds: &mut Keybinds, args: &CmdArgs)
    requires
        old(binds).wf(),
        args.wf(),
        can_key_up(old(binds)@, KeybindCode::Speed, *args),
        can_key_up(key_up_effect(old(binds)@, KeybindCode::Speed, *args), KeybindCode::Throw, *args),
    ensures
        final(binds).wf(),
        final(binds)@ == key_up_effect(key_up_effect(old(binds)@, KeybindCode::Speed, *args), KeybindCode::Throw, *args),
{
    key_up(binds, KeybindCode::Speed, args);
    key_up(binds, KeybindCode::Throw, args);
}

/// Records that the use button is held (see [`update_use_held`]) and
/// presses the bind of `Activate` (see [`key_down`]).
fn activate_down(binds: &mut Keybinds, args: &CmdArgs, cg: &mut ClientUse, dvars: &DvarRegistry, frame_time: isize) -> (r: Option<String>)
    requires
        old(binds).wf(),
        args.wf(),
        dvars.wf(),
        can_update_use_held(*old(cg), dvars, frame_time),
    ensures
        final(binds).wf(),
        *final(cg) == use_held_effect(*old(cg), dvars, frame_time),
        (final(binds)@, message_text(r)) == key_down_effect(old(binds)@, KeybindCode::Activate, *args),
{
    update_use_held(cg, dvars, frame_time);
    key_down(binds, KeybindCode::Activate, args)
}

/// Counts a tap of the use button (see [`update_use_count`]) and releases
/// the bind of `Activate` (see [`key_up`]).
fn activate_up(binds: &mut Keybinds, args: &CmdArgs, cg: &mut ClientUse, dvars: &DvarRegistry, frame_time: isize)
    requires
        old(binds).wf(),
        args.wf(),
        dvars.wf(),
        can_update_use_count(*old(cg), dvars, frame_time),
        can_key_up(old(binds)@, KeybindCode::Activate, *args),
    ensures
        final(binds).wf(),
        *final(cg) == use_count_effect(*old(cg), dvars, frame_time),
        final(binds)@ == key_up_effect(old(binds)@, KeybindCode::Activate, *args),
{
    update_use_count(cg, dvars, frame_time);
    key_up(binds, KeybindCode::Activate, args)
}

/// Records that the use button is held (see [`update_use_held`]) and
/// presses the bind of `Reload` (see [`key_down`]).
fn reload_down(binds: &mut Keybinds, args: &CmdArgs, cg: &mut ClientUse, dvars: &DvarRegistry, frame_time: isize) -> (r: Option<String>)
    requires
        old(binds).wf(),
        args.wf(),
        dvars.wf(),
        can_update_use_held(*old(cg), dvars, frame_time),
    ensures
        final(binds).wf(),
        *final(cg) == use_held_effect(*old(cg), dvars, frame_time),
        (final(binds)@, message_text(r)) == key_down_effect(old(binds)@, KeybindCode::Reload, *args),
{
    update_use_held(cg, dvars, frame_time);
    key_down(binds, KeybindCode::Reload, args)
}

/// Counts a tap of the use button (see [`update_use_count`]) and releases
/// the bind of `Reload` (see [`key_up`]).
fn reload_up(binds: &mut Keybinds, args: &CmdArgs, cg: &mut ClientUse, dvars: &DvarRegistry, frame_time: isize)
    requires
        old(binds).wf(),
        args.wf(),
        dvars.wf(),
        can_update_use_count(*old(cg), dvars, frame_time),
        can_key_up(old(binds)@, KeybindCode::Reload, *args),
    ensures
        final(binds).wf(),
        *final(cg) == use_count_effect(*old(cg), dvars, frame_time),
        final(binds)@ == key_up_effect(old(binds)@, KeybindCode::Reload, *args),
{
    update_use_count(cg, dvars, frame_time);
    key_up(binds, KeybindCode::Reload, args)
}

/// Records that the use button is held (see [`update_use_held`]) and
/// presses the bind of `Reload` (see [`key_down`]).
fn use_reload_down(binds: &mut Keybinds, args: &CmdArgs, cg: &mut ClientUse, dvars: &DvarRegistry, frame_time: isize) -> (r: Option<String>)
    requires
        old(binds).wf(),
        args.wf(),
        dvars.wf(),
        can_update_use_held(*old(cg), dvars, frame_time),
    ensures
        final(binds).wf(),
        *final(cg) == use_held_effect(*old(cg), dvars, frame_time),
        (final(binds)@, message_text(r)) == key_down_effect(old(binds)@, KeybindCode::Reload, *args),
{
    update_use_held(cg, dvars, frame_time);
    key_down(binds, KeybindCode::Reload, args)
}

/// Counts a tap of the use button (see [`update_use_count`]) and releases
/// the bind of `Reload` (see [`key_up`]).
fn use_reload_up(binds: &mut Keybinds, args: &CmdArgs, cg: &mut ClientUse, dvars: &DvarRegistry, frame_time: isize)
    requires
        old(binds).wf(),
        args.wf(),
        dvars.wf(),
        can_update_use_count(*old(cg), dvars, frame_time),
        can_key_up(old(binds)@, KeybindCode::Reload, *args),
    ensures
        final(binds).wf(),
        *final(cg) == use_count_effect(*old(cg), dvars, frame_time),
        final(binds)@ == key_up_effect(old(binds)@, KeybindCode::Reload, *args),
{
    update_use_count(cg, dvars, frame_time);
    key_up(binds, KeybindCode::Reload, args)
}

/// A key of the keyboard, as the key binds know it.
#[derive(Copy, Clone, Debug, Default, PartialEq, Eq, Structural)]
pub enum KeyScancode {
    #[default]
    NoKey,
    Esc,
    F1,
    F2,
    F3,
    F4,
    F5,
    F6,
    F7,
    F8,
    F9,
    F10,
    F11,
    F12,
    PrtScrSysRq,
    ScrLk,
    PauseBreak,
    Tilde,
    Number0,
    Number1,
    Number2,
    Number3,
    Number4,
    Number5,
    Number6,
    Number7,
    Number8,
    Number9,
    Minus,
    Equals,
    Backspace,
    Insert,
    Home,
    PageUp,
    NumLk,
    NumpadSlash,
    NumpadAsterisk,
    NumpadMinus,
    Tab,
    Q,
    W,
    E,
    R,
    T,
    Y,
    U,
    I,
    O,
    P,
    OpenBracket,
    CloseBracket,
    BackSlash,
    Del,
    End,
    PageDown,
    Numpad7,
    Numpad8,
    Numpad9,
    NumpadPlus,
    CapsLock,
    A,
    S,
    D,
    F,
    G,
    H,
    J,
    K,
    L,
    Semicolon,
    Apostrophe,
    Enter,
    Numpad4,
    Numpad5,
    Numpad6,
    LShift,
    Z,
    X,
    C,
    V,
    B,
    N,
    M,
    Comma,
    Period,
    ForwardSlash,
    RShift,
    ArrowUp,
    Numpad1,
    Numpad2,
    Numpad3,
    NumpadEnter,
    LCtrl,
    Super,
    LAlt,
    Space,
    RAlt,
    Fn,
    RCtrl,
    LeftArrow,
    DownArrow,
    RightArrow,
    Numpad0,
    NumpadDot,
}


/// Pressing a key for an idle action and releasing the same key, with a
/// press time and a release time that is not earlier, leaves the action
/// idle and pressed, with the time it was held added (a release time of
/// zero adds nothing).
pub proof fn law_key_down_then_up(
    m: Seq<Option<Keybind>>,
    code: KeybindCode,
    down_args: CmdArgs,
    up_args: CmdArgs,
    i: isize,
    t: usize,
    u: usize,
)
    requires
        m.len() == KEYBIND_COUNT,
        bind_of(m, code) matches Some(b) && b.down == (0isize, 0isize) && !b.active,
        i != 0,
        down_args.arg(1).len() > 0 && parsed_isize(down_args.arg(1)) == Some(i),
        up_args.arg(1).len() > 0 && parsed_isize(up_args.arg(1)) == Some(i),
        parsed_usize(down_args.arg(2)) == Some(t),
        parsed_usize(up_args.arg(2)) == Some(u),
        u != 0 ==> t <= u && bind_of(m, code)->Some_0.msec + (u - t) <= usize::MAX,
    ensures
        can_key_up(key_down_effect(m, code, down_args).0, code, up_args),
        bind_of(key_up_effect(key_down_effect(m, code, down_args).0, code, up_args), code) == Some(
            Keybind {
                down: (0isize, 0isize),
                downtime: t,
                msec: if u == 0 {
                    bind_of(m, code)->Some_0.msec
                } else {
                    (bind_of(m, code)->Some_0.msec + (u - t)) as usize
                },
                active: false,
                was_pressed: true,
            },
        ),
{
    let k = code_slot(code);
    assert(0 <= k < KEYBIND_COUNT);
}

/// The game actions that keys stand for, one entry per key.
pub struct KeyCodes {
    pub entries: Vec<(KeyScancode, KeybindCode)>,
}

impl KeyCodes {
    /// No key appears twice.
    pub open spec fn wf(&self) -> bool {
        forall|i: int, j: int|
            0 <= i < j < self.entries@.len() ==> #[trigger] self.entries@[i].0 != #[trigger] self.entries@[j].0
    }

    /// No key stands for an action.
    pub fn new() -> (r: Self)
        ensures
            r.wf(),
            r.entries@.len() == 0,
    {
        KeyCodes { entries: Vec::new() }
    }
}

/// The action that key `code` stands for, if any.
pub fn find_keybind_code(codes: &KeyCodes, code: KeyScancode) -> (r: Option<KeybindCode>)
    requires
        codes.wf(),
    ensures
        match r {
            Some(b) => exists|i: int| 0 <= i < codes.entries@.len() && #[trigger] codes.entries@[i] == (code, b),
            None => forall|i: int| 0 <= i < codes.entries@.len() ==> #[trigger] codes.entries@[i].0 != code,
        },
{
    let mut i: usize = 0;
    while i < codes.entries.len()
        invariant
            i <= codes.entries@.len(),
            forall|j: int| 0 <= j < i ==> #[trigger] codes.entries@[j].0 != code,
        decreases codes.entries@.len() - i,
    {
        let (k, b) = codes.entries[i];
        if k == code {
            assert(codes.entries@[i as int] == (code, b));
            return Some(b);
        }
        i = i + 1;
    }
    None
}

} // verus!
