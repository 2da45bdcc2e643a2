//! Console variables ("dvars"): named, typed values with a domain, flags and
//! several stored values (current, latched, reset, saved).

pub mod flags;
pub mod limits;
pub mod value;
pub mod global_fns;
pub mod register;
pub mod get;
pub mod set;
pub mod cmds;
pub mod laws;

pub use global_fns::{
    add_flags, clear_flags, clear_modified, dvar_exists, find, make_latched_value_current, DvarRegistry,
    DvarRegistryView, DVAR_COUNT_MAX,
};

pub use flags::DvarFlags;
pub use limits::{DvarLimits, DvarLimitsView};
pub use value::{DvarValue, DvarValueView};

use vstd::prelude::*;

verus! {

/// Where a request to set a dvar comes from.
#[derive(Clone, Copy, PartialEq, Eq, Structural, Debug)]
pub enum SetSource {
    Internal,
    External,
    Script,
    Devgui,
}

/// Whether `v` is a kind of value that can be held against `domain` without
/// the domain check failing on a domain of another kind.
pub open spec fn compatible(domain: DvarLimitsView, v: DvarValueView) -> bool {
    match v {
        DvarValueView::Int(_) => domain is Int,
        DvarValueView::Int64(_) => domain is Int64,
        DvarValueView::Enumeration(_) => domain is Enumeration,
        _ => true,
    }
}

/// Whether `v` lies within `domain`.
pub open spec fn in_domain(domain: DvarLimitsView, v: DvarValueView) -> bool {
    match v {
        DvarValueView::Bool(_) => true,
        DvarValueView::String(_) => true,
        DvarValueView::Int(i) => match domain {
            DvarLimitsView::Int { min, max } => min <= i <= max,
            _ => false,
        },
        DvarValueView::Int64(i) => match domain {
            DvarLimitsView::Int64 { min64, max64 } => min64 <= i <= max64,
            _ => false,
        },
        DvarValueView::Enumeration(s) => match domain {
            DvarLimitsView::Enumeration(strings) => strings.contains(s),
            _ => false,
        },
    }
}

/// `v` moved to the nearest value within `domain`; values without bounds are
/// unchanged.
pub open spec fn clamp(domain: DvarLimitsView, v: DvarValueView) -> DvarValueView {
    match v {
        DvarValueView::Int(i) => match domain {
            DvarLimitsView::Int { min, max } => DvarValueView::Int(
                if i < min {
                    min
                } else if i > max {
                    max
                } else {
                    i
                },
            ),
            _ => v,
        },
        DvarValueView::Int64(i) => match domain {
            DvarLimitsView::Int64 { min64, max64 } => DvarValueView::Int64(
                if i < min64 {
                    min64
                } else if i > max64 {
                    max64
                } else {
                    i
                },
            ),
            _ => v,
        },
        _ => v,
    }
}

/// The mathematical model of a [`Dvar`].
pub struct DvarView {
    pub name: Seq<char>,
    pub description: Seq<char>,
    pub flags: u32,
    pub modified: bool,
    pub loaded_from_save_game: bool,
    pub domain: DvarLimitsView,
    pub current: DvarValueView,
    pub latched: DvarValueView,
    pub reset: DvarValueView,
    pub saved: DvarValueView,
}

impl DvarView {
    /// Whether the flag bit `bit` is set.
    pub open spec fn has(self, bit: u32) -> bool {
        self.flags & bit == bit
    }

    /// Whether `v` may be set from outside or from a script, where `cheats`
    /// tells whether cheats are on: the reset value always may; otherwise a
    /// read-only or write-protected dvar refuses, a cheat-protected one
    /// takes it only while cheats are on, and any other dvar takes it.
    pub open spec fn outside_allowed(self, v: DvarValueView, cheats: bool) -> bool {
        ||| v == self.reset
        ||| (!self.has(DvarFlags::READ_ONLY) && !self.has(DvarFlags::WRITE_PROTECTED) && (!self.has(
            DvarFlags::CHEAT_PROTECTED,
        ) || cheats))
    }

    /// Whether setting `v` from `source` is taken: the dvar has a name, `v`
    /// lies in its domain, and a set from outside or from a script is
    /// allowed (see [`DvarView::outside_allowed`]).
    pub open spec fn accepts(self, v: DvarValueView, source: SetSource, cheats: bool) -> bool {
        &&& self.name.len() > 0
        &&& in_domain(self.domain, v)
        &&& (source == SetSource::External || source == SetSource::Script) ==> self.outside_allowed(v, cheats)
    }

    /// The effect of writing `v` as the current value: a changed value
    /// marks the dvar modified and adds its flags to the modified flags; an
    /// equal one makes the latched value the current one.
    pub open spec fn write_value(self, v: DvarValueView, modified_flags: u32) -> (DvarView, u32) {
        if self.current != v {
            (DvarView { current: v, modified: true, ..self }, modified_flags | self.flags)
        } else {
            (DvarView { latched: self.current, ..self }, modified_flags)
        }
    }

    /// The effect of setting `v`, known to lie in the domain, from `source`:
    /// the new dvar and the new set of modified flags. A set from outside or
    /// from a script that is allowed goes to the latched value of a latched
    /// dvar and to the current value of any other; one that is not allowed
    /// changes nothing. The developer GUI sets the latched value of a dvar
    /// that permits it; any other set writes the current value.
    pub open spec fn set_in_domain(self, v: DvarValueView, source: SetSource, modified_flags: u32, cheats: bool) -> (
        DvarView,
        u32,
    ) {
        if source == SetSource::External || source == SetSource::Script {
            if !self.outside_allowed(v, cheats) {
                (self, modified_flags)
            } else if self.has(DvarFlags::LATCHED) {
                (DvarView { latched: v, ..self }, modified_flags)
            } else {
                self.write_value(v, modified_flags)
            }
        } else if source == SetSource::Devgui && self.has(DvarFlags::ALLOW_SET_FROM_DEVGUI) {
            (DvarView { latched: v, ..self }, modified_flags)
        } else {
            self.write_value(v, modified_flags)
        }
    }

    /// The effect of setting `v` from `source`, where `cheats` tells whether
    /// cheats are on: nothing for a nameless dvar; for an enumeration value
    /// outside the domain, the reset value is set in its place when it lies
    /// in the domain; nothing for any other value outside the domain;
    /// otherwise see [`DvarView::set_in_domain`].
    pub open spec fn set_variant(self, v: DvarValueView, source: SetSource, modified_flags: u32, cheats: bool) -> (
        DvarView,
        u32,
    ) {
        if self.name.len() == 0 {
            (self, modified_flags)
        } else if !in_domain(self.domain, v) {
            if v is Enumeration && in_domain(self.domain, self.reset) {
                self.set_in_domain(self.reset, source, modified_flags, cheats)
            } else {
                (self, modified_flags)
            }
        } else {
            self.set_in_domain(v, source, modified_flags, cheats)
        }
    }

    /// What setting `v` demands: the domain check must not fail on a domain
    /// of another kind, and an enumeration value outside the domain, which
    /// falls back to the reset value, needs a reset value that can be
    /// checked and that does not fall back again (which would never end).
    pub open spec fn can_set_variant(self, v: DvarValueView, source: SetSource) -> bool {
        &&& compatible(self.domain, v)
        &&& (v is Enumeration && !in_domain(self.domain, v)) ==> {
            &&& compatible(self.domain, self.reset)
            &&& self.reset is Enumeration ==> in_domain(self.domain, self.reset)
        }
    }
}

/// The line printed for `text` on channel `c` (which prints).
pub open spec fn line_on(c: u8, text: Seq<char>) -> Seq<char> {
    crate::com::printed(crate::console::Channel(c), text + "\n"@)->Some_0
}

/// The line printed, while a log file is open, before the current value of
/// `d` is replaced by another value `v`.
pub open spec fn log_lines(d: DvarView, v: DvarValueView, log_open: bool) -> Seq<Seq<char>> {
    if log_open && d.current != v {
        seq![line_on(16, "      dvar set "@ + d.name + " "@ + value::value_text(d.current))]
    } else {
        Seq::empty()
    }
}

/// The lines printed when `v`, within the domain, is set from outside or
/// from a script, where `cheats` tells whether cheats are on: an allowed
/// set to a latched dvar announces a latched value that differs from the
/// current one; a refused set says that the dvar is read-only,
/// write-protected or cheat-protected, on channel 1.
pub open spec fn outside_lines(d: DvarView, v: DvarValueView, source: SetSource, cheats: bool) -> Seq<Seq<char>> {
    if !(source == SetSource::External || source == SetSource::Script) {
        Seq::empty()
    } else if d.outside_allowed(v, cheats) {
        if d.has(DvarFlags::LATCHED) && v != d.current {
            seq![line_on(16, d.name + " will be changed upon restarting."@)]
        } else {
            Seq::empty()
        }
    } else if d.has(DvarFlags::READ_ONLY) {
        seq![line_on(1, d.name + " is read only."@)]
    } else if d.has(DvarFlags::WRITE_PROTECTED) {
        seq![line_on(1, d.name + " is write protected protected."@)]
    } else {
        seq![line_on(1, d.name + " is cheat protected."@)]
    }
}

/// The lines printed while `v` is set on `d` from `source`, where `log_open`
/// tells whether a log file is open and `cheats` whether cheats are on:
/// nothing for a nameless dvar; the log line; for a value outside the
/// domain, two lines on channel 1 (the value refused, then the domain);
/// otherwise the lines of a set from outside (see [`outside_lines`]). This
/// is one attempt; see [`set_messages`] for the fallback to the reset value.
pub open spec fn set_messages_once(d: DvarView, v: DvarValueView, source: SetSource, log_open: bool, cheats: bool) -> Seq<
    Seq<char>,
> {
    if d.name.len() == 0 {
        Seq::empty()
    } else if !in_domain(d.domain, v) {
        log_lines(d, v, log_open) + seq![
            line_on(1, "'"@ + value::value_text(v) + "' is not a valid value for dvar '"@ + d.name + "'"@),
            line_on(1, limits::domain_text(d.domain)),
        ]
    } else {
        log_lines(d, v, log_open) + outside_lines(d, v, source, cheats)
    }
}

/// The lines printed while `v` is set on `d` from `source` (see
/// [`set_messages_once`]); an enumeration value outside the domain of a
/// named dvar is followed by the lines of setting the reset value.
pub open spec fn set_messages(d: DvarView, v: DvarValueView, source: SetSource, log_open: bool, cheats: bool) -> Seq<
    Seq<char>,
> {
    if d.name.len() > 0 && !in_domain(d.domain, v) && v is Enumeration {
        set_messages_once(d, v, source, log_open, cheats) + set_messages_once(d, d.reset, source, log_open, cheats)
    } else {
        set_messages_once(d, v, source, log_open, cheats)
    }
}

/// A console variable.
#[derive(Debug)]
pub struct Dvar {
    /// Name of the dvar.
    pub name: String,
    /// Description of the dvar (may be empty).
    pub description: String,
    /// Flags of the dvar.
    pub flags: DvarFlags,
    /// Whether the dvar has been modified.
    pub modified: bool,
    /// Whether the dvar was loaded from a saved game.
    pub loaded_from_save_game: bool,
    /// Domain of the dvar.
    pub domain: DvarLimits,
    /// Current value.
    pub current: DvarValue,
    /// Latched value, applied on restart.
    pub latched: DvarValue,
    /// Reset value.
    pub reset: DvarValue,
    /// Saved value.
    pub saved: DvarValue,
}

/// Two dvars are equal when they have the same name.
impl PartialEq for Dvar {
    fn eq(&self, other: &Self) -> (r: bool) {
        self.name == other.name
    }
}

impl vstd::std_specs::cmp::PartialEqSpecImpl for Dvar {
    open spec fn obeys_eq_spec() -> bool {
        true
    }

    open spec fn eq_spec(&self, other: &Self) -> bool {
        self.name@ == other.name@
    }
}

impl View for Dvar {
    type V = DvarView;

    open spec fn view(&self) -> DvarView {
        DvarView {
            name: self.name@,
            description: self.description@,
            flags: self.flags.bits,
            modified: self.modified,
            loaded_from_save_game: self.loaded_from_save_game,
            domain: self.domain@,
            current: self.current@,
            latched: self.latched@,
            reset: self.reset@,
            saved: self.saved@,
        }
    }
}

impl Dvar {
    /// A copy of the dvar.
    pub fn clone_dvar(&self) -> (r: Dvar)
        ensures
            r@ == self@,
    {
        Dvar {
            name: self.name.clone(),
            description: self.description.clone(),
            flags: self.flags,
            modified: self.modified,
            loaded_from_save_game: self.loaded_from_save_game,
            domain: self.domain.clone_limits(),
            current: self.current.clone_value(),
            latched: self.latched.clone_value(),
            reset: self.reset.clone_value(),
            saved: self.saved.clone_value(),
        }
    }

    /// Moves `value` to the nearest value within `domain`, and returns a copy
    /// of the result. Only integer values have bounds to move to.
    pub fn clamp_value_to_domain(value: &mut DvarValue, domain: &DvarLimits) -> (r: DvarValue)
        requires
            compatible(domain@, old(value)@),
        ensures
            final(value)@ == clamp(domain@, old(value)@),
            r@ == final(value)@,
    {
        let clamped = match value {
            DvarValue::Int(i) => {
                let l = domain.as_int_limits().unwrap();
                if *i < l.min {
                    DvarValue::Int(l.min)
                } else if *i > l.max {
                    DvarValue::Int(l.max)
                } else {
                    DvarValue::Int(*i)
                }
            },
            DvarValue::Int64(i) => {
                let l = domain.as_int64_limits().unwrap();
                if *i < l.min {
                    DvarValue::Int64(l.min)
                } else if *i > l.max {
                    DvarValue::Int64(l.max)
                } else {
                    DvarValue::Int64(*i)
                }
            },
            _ => value.clone_value(),
        };
        *value = clamped.clone_value();
        clamped
    }

    /// Clamps the current value to the domain.
    pub fn clamp_current_value_to_domain(&mut self)
        requires
            compatible(old(self)@.domain, old(self)@.current),
        ensures
            final(self)@ == (DvarView { current: clamp(old(self)@.domain, old(self)@.current), ..old(self)@ }),
    {
        Self::clamp_value_to_domain(&mut self.current, &self.domain);
    }

    /// Clamps the latched value to the domain.
    pub fn clamp_latched_value_to_domain(&mut self)
        requires
            compatible(old(self)@.domain, old(self)@.latched),
        ensures
            final(self)@ == (DvarView { latched: clamp(old(self)@.domain, old(self)@.latched), ..old(self)@ }),
    {
        Self::clamp_value_to_domain(&mut self.latched, &self.domain);
    }

    /// Clamps the reset value to the domain.
    pub fn clamp_reset_value_to_domain(&mut self)
        requires
            compatible(old(self)@.domain, old(self)@.reset),
        ensures
            final(self)@ == (DvarView { reset: clamp(old(self)@.domain, old(self)@.reset), ..old(self)@ }),
    {
        Self::clamp_value_to_domain(&mut self.reset, &self.domain);
    }

    /// Clamps the current, latched and reset values to the domain.
    pub fn clamp_all_values_to_domain(&mut self)
        requires
            compatible(old(self)@.domain, old(self)@.current),
            compatible(old(self)@.domain, old(self)@.latched),
            compatible(old(self)@.domain, old(self)@.reset),
        ensures
            final(self)@ == (DvarView {
                current: clamp(old(self)@.domain, old(self)@.current),
                latched: clamp(old(self)@.domain, old(self)@.latched),
                reset: clamp(old(self)@.domain, old(self)@.reset),
                ..old(self)@
            }),
    {
        self.clamp_current_value_to_domain();
        self.clamp_latched_value_to_domain();
        self.clamp_reset_value_to_domain();
    }

    /// Whether the latched value differs from the current one.
    pub fn has_latched_value(&self) -> (r: bool)
        ensures
            r == (self@.current != self@.latched),
    {
        !self.current.equals(&self.latched)
    }

    /// Whether `value` may be set from outside, where `cheats` tells whether
    /// cheats are on (see [`DvarView::outside_allowed`]).
    pub fn can_change_value(&self, value: &DvarValue, cheats: bool) -> (r: bool)
        ensures
            r == self@.outside_allowed(value@, cheats),
    {
        if value.equals(&self.reset) {
            return true;
        }
        if self.flags.contains_bits(DvarFlags::READ_ONLY) {
            return false;
        }
        if self.flags.contains_bits(DvarFlags::WRITE_PROTECTED) {
            return false;
        }
        !self.flags.contains_bits(DvarFlags::CHEAT_PROTECTED) || cheats
    }

    /// Overwrites the latched value with the current one, if they differ.
    pub fn clear_latched_value(&mut self)
        ensures
            final(self)@ == (DvarView { latched: old(self)@.current, ..old(self)@ }),
    {
        if self.has_latched_value() {
            self.latched = self.current.clone_value();
        }
    }

    /// Sets `value` from `source` without any domain check (see
    /// [`DvarView::set_in_domain`]); `cheats` tells whether cheats are on.
    pub fn set_value(&mut self, value: DvarValue, source: SetSource, modified_flags: &mut DvarFlags, cheats: bool)
        ensures
            (final(self)@, final(modified_flags).bits) == old(self)@.set_in_domain(
                value@,
                source,
                old(modified_flags).bits,
                cheats,
            ),
    {
        if source == SetSource::External || source == SetSource::Script {
            if !self.can_change_value(&value, cheats) {
                return;
            }
            if self.flags.contains_bits(DvarFlags::LATCHED) {
                self.latched = value;
                return;
            }
        } else if source == SetSource::Devgui && self.flags.contains_bits(
            DvarFlags::ALLOW_SET_FROM_DEVGUI,
        ) {
            self.latched = value;
            return;
        }
        if !self.current.equals(&value) {
            modified_flags.insert(self.flags);
            self.current = value;
            self.modified = true;
        } else {
            self.latched = self.current.clone_value();
        }
    }

    /// Adds `flags` to the dvar's flags.
    pub fn add_flags(&mut self, flags: DvarFlags)
        ensures
            final(self)@ == (DvarView { flags: old(self)@.flags | flags.bits, ..old(self)@ }),
    {
        self.flags.insert(flags);
    }

    /// Removes `flags` from the dvar's flags.
    pub fn clear_flags(&mut self, flags: DvarFlags)
        ensures
            final(self)@ == (DvarView { flags: old(self)@.flags & !flags.bits, ..old(self)@ }),
    {
        self.flags.remove(flags);
    }

    /// Whether `value` lies within `domain`.
    pub fn value_is_in_domain(domain: &DvarLimits, value: &DvarValue) -> (r: bool)
        requires
            compatible(domain@, value@),
        ensures
            r == in_domain(domain@, value@),
    {
        match value {
            DvarValue::Bool(_) => true,
            DvarValue::Int(i) => {
                let l = domain.as_int_limits().unwrap();
                *i >= l.min && *i <= l.max
            },
            DvarValue::String(_) => true,
            DvarValue::Enumeration(v) => {
                match domain {
                    DvarLimits::Enumeration(e) => {
                        let found = limits::index_of(&e.strings, v);
                        proof {
                            if found is Some {
                                assert(limits::texts(e.strings@)[found->0 as int] == v@);
                            }
                        }
                        found.is_some()
                    },
                    _ => false,
                }
            },
            DvarValue::Int64(i) => {
                let l = domain.as_int64_limits().unwrap();
                *i >= l.min && *i <= l.max
            },
        }
    }

    /// The line printed on channel `c` for `text`.
    fn line(c: u8, text: &str) -> (r: String)
        requires
            c <= 32,
        ensures
            r@ == line_on(c, text@),
    {
        match crate::com::println(crate::console::Channel::new(c), text) {
            Some(l) => l,
            None => String::new(),
        }
    }

    /// The log line before the current value is replaced by `value` (see
    /// [`log_lines`]).
    fn push_log_line(&self, out: &mut Vec<String>, value: &DvarValue, log_file_open: bool)
        ensures
            final(out)@.map_values(|l: String| l@) == old(out)@.map_values(|l: String| l@) + log_lines(
                self@,
                value@,
                log_file_open,
            ),
    {
        let ghost before = out@.map_values(|l: String| l@);
        if log_file_open && !self.current.equals(value) {
            let a = crate::text::concat("      dvar set ", self.name.as_str());
            let b = crate::text::concat(a.as_str(), " ");
            let c = crate::text::concat(b.as_str(), self.current.to_text().as_str());
            out.push(Self::line(16, c.as_str()));
            assert(out@.map_values(|l: String| l@) =~= before + log_lines(self@, value@, log_file_open));
        } else {
            assert(out@.map_values(|l: String| l@) =~= before + log_lines(self@, value@, log_file_open));
        }
    }

    /// The lines of a set of `value`, within the domain, from `source` (see
    /// [`outside_lines`]).
    fn push_outside_lines(&self, out: &mut Vec<String>, value: &DvarValue, source: SetSource, cheats: bool)
        ensures
            final(out)@.map_values(|l: String| l@) == old(out)@.map_values(|l: String| l@) + outside_lines(
                self@,
                value@,
                source,
                cheats,
            ),
    {
        let ghost before = out@.map_values(|l: String| l@);
        if !(source == SetSource::External || source == SetSource::Script) {
            assert(out@.map_values(|l: String| l@) =~= before + outside_lines(self@, value@, source, cheats));
            return;
        }
        if self.can_change_value(value, cheats) {
            if self.flags.contains_bits(DvarFlags::LATCHED) && !value.equals(&self.current) {
                let a = crate::text::concat(self.name.as_str(), " will be changed upon restarting.");
                out.push(Self::line(16, a.as_str()));
            }
        } else if self.flags.contains_bits(DvarFlags::READ_ONLY) {
            let a = crate::text::concat(self.name.as_str(), " is read only.");
            out.push(Self::line(1, a.as_str()));
        } else if self.flags.contains_bits(DvarFlags::WRITE_PROTECTED) {
            let a = crate::text::concat(self.name.as_str(), " is write protected protected.");
            out.push(Self::line(1, a.as_str()));
        } else {
            let a = crate::text::concat(self.name.as_str(), " is cheat protected.");
            out.push(Self::line(1, a.as_str()));
        }
        assert(out@.map_values(|l: String| l@) =~= before + outside_lines(self@, value@, source, cheats));
    }

    /// The lines printed while `value` is set on this dvar from `source`
    /// (see [`set_messages`]); `log_file_open` tells whether a log file is
    /// open and `cheats` whether cheats are on. The set itself is
    /// [`Dvar::set_variant`].
    pub fn set_messages(&self, value: &DvarValue, source: SetSource, log_file_open: bool, cheats: bool) -> (r: Vec<
        String,
    >)
        requires
            self@.can_set_variant(value@, source),
        ensures
            r@.map_values(|l: String| l@) == set_messages(self@, value@, source, log_file_open, cheats),
    {
        let mut out: Vec<String> = Vec::new();
        self.push_messages_once(&mut out, value, source, log_file_open, cheats);
        if self.name.as_str().is_empty() {
            return out;
        }
        if !Self::value_is_in_domain(&self.domain, value) {
            match value {
                DvarValue::Enumeration(_) => {
                    self.push_messages_once(&mut out, &self.reset, source, log_file_open, cheats);
                },
                _ => {},
            }
        }
        out
    }

    /// The lines of one attempt to set `value` (see [`set_messages_once`]).
    fn push_messages_once(&self, out: &mut Vec<String>, value: &DvarValue, source: SetSource, log_file_open: bool, cheats: bool)
        requires
            compatible(self@.domain, value@),
        ensures
            final(out)@.map_values(|l: String| l@) == old(out)@.map_values(|l: String| l@) + set_messages_once(
                self@,
                value@,
                source,
                log_file_open,
                cheats,
            ),
    {
        let ghost before = out@.map_values(|l: String| l@);
        if self.name.as_str().is_empty() {
            assert(out@.map_values(|l: String| l@) =~= before + Seq::<Seq<char>>::empty());
            return;
        }
        self.push_log_line(out, value, log_file_open);
        let ghost mid = out@.map_values(|l: String| l@);
        if !Self::value_is_in_domain(&self.domain, value) {
            let a = crate::text::concat("'", value.to_text().as_str());
            let b = crate::text::concat(a.as_str(), "' is not a valid value for dvar '");
            let c = crate::text::concat(b.as_str(), self.name.as_str());
            let d = crate::text::concat(c.as_str(), "'");
            let l1 = Self::line(1, d.as_str());
            let l2 = Self::line(1, self.domain.to_text().as_str());
            let ghost g1 = l1@;
            let ghost g2 = l2@;
            out.push(l1);
            out.push(l2);
            assert(out@.map_values(|l: String| l@) =~= mid + seq![g1, g2]);
            assert(mid + seq![g1, g2] =~= before + (log_lines(self@, value@, log_file_open) + seq![g1, g2]));
        } else {
            self.push_outside_lines(out, value, source, cheats);
            assert(out@.map_values(|l: String| l@) =~= before + set_messages_once(self@, value@, source, log_file_open, cheats));
        }
    }

    /// Sets `value` from `source`, where `cheats` tells whether cheats are
    /// on; `modified_flags` collects the flags of every dvar whose current
    /// value changes. Returns whether the set was taken. See
    /// [`DvarView::set_variant`].
    pub fn set_variant(&mut self, value: DvarValue, source: SetSource, modified_flags: &mut DvarFlags, cheats: bool) -> (r: bool)
        requires
            old(self)@.can_set_variant(value@, source),
        ensures
            r == old(self)@.accepts(value@, source, cheats),
            (final(self)@, final(modified_flags).bits) == old(self)@.set_variant(
                value@,
                source,
                old(modified_flags).bits,
                cheats,
            ),
    {
        if self.name.as_str().is_empty() {
            return false;
        }
        if !Self::value_is_in_domain(&self.domain, &value) {
            match value {
                DvarValue::Enumeration(_) => {
                    let reset = self.reset.clone_value();
                    if Self::value_is_in_domain(&self.domain, &reset) {
                        self.set_value(reset, source, modified_flags, cheats);
                    }
                },
                _ => {},
            }
            return false;
        }
        let allowed = !(source == SetSource::External || source == SetSource::Script) || self.can_change_value(
            &value,
            cheats,
        );
        self.set_value(value, source, modified_flags, cheats);
        allowed
    }

    /// Makes the latched value the current one.
    pub fn make_latched_value_current(&mut self, modified_flags: &mut DvarFlags)
        requires
            old(self)@.can_set_variant(old(self)@.latched, SetSource::Internal),
        ensures
            (final(self)@, final(modified_flags).bits) == old(self)@.set_variant(
                old(self)@.latched,
                SetSource::Internal,
                old(modified_flags).bits,
                false,
            ),
    {
        let latched = self.latched.clone_value();
        let _ = self.set_variant(latched, SetSource::Internal, modified_flags, false);
    }

    /// Sets the reset value from `source`, where `cheats` tells whether
    /// cheats are on.
    pub fn reset(&mut self, source: SetSource, modified_flags: &mut DvarFlags, cheats: bool)
        requires
            old(self)@.can_set_variant(old(self)@.reset, source),
        ensures
            (final(self)@, final(modified_flags).bits) == old(self)@.set_variant(
                old(self)@.reset,
                source,
                old(modified_flags).bits,
                cheats,
            ),
    {
        let reset = self.reset.clone_value();
        let _ = self.set_variant(reset, source, modified_flags, cheats);
    }
}


/// The dvar "sv_restoreDvars" as the dvar system first registers it.
pub open spec fn restore_dvars_dvar() -> DvarView {
    register::fresh_dvar(
        "sv_restoreDvars"@,
        "Enable to restore Dvars on entering the Xbox Live menu"@,
        0,
        DvarLimitsView::Bool,
        DvarValueView::Bool(true),
    )
}

/// The dvar "sv_cheats" as the dvar system first registers it.
pub open spec fn cheats_dvar() -> DvarView {
    register::fresh_dvar("sv_cheats"@, "External Dvar"@, 0, DvarLimitsView::Bool, DvarValueView::Bool(false))
}

/// Starts the dvar system once: marks it active, registers (or registers
/// again) "sv_restoreDvars" (true) and "sv_cheats" (false), and adds its
/// commands (see [`cmds::add_commands`]). A system already active is left
/// alone.
pub fn init(dvars: &mut DvarRegistry, commands: &mut crate::cmd::CmdRegistry<cmds::DvarCommand>)
    requires
        old(dvars).wf(),
        old(commands).wf(),
        !old(dvars)@.active ==> {
            &&& old(dvars)@.count + 2 <= DVAR_COUNT_MAX
            &&& forall|i: int| 0 <= i < 20 ==> !old(commands).has(#[trigger] cmds::dvar_command_names()[i])
        },
    ensures
        final(dvars).wf(),
        final(commands).wf(),
        old(dvars)@.active ==> final(dvars)@ == old(dvars)@ && final(commands)@ == old(commands)@,
        !old(dvars)@.active ==> {
            &&& final(dvars)@ == (DvarRegistryView { active: true, ..old(dvars)@ }).registered(restore_dvars_dvar()).registered(
                cheats_dvar(),
            )
            &&& forall|i: int| 0 <= i < 20 ==> final(commands).has(#[trigger] cmds::dvar_command_names()[i])
                && final(commands)@.commands[cmds::dvar_command_names()[i]] == cmds::dvar_command_entry(i)
            &&& forall|n: Seq<char>| old(commands).has(n) ==> final(commands).has(n) && final(commands)@.commands[n]
                == old(commands)@.commands[n]
        },
{
    if dvars.is_active() {
        return;
    }
    dvars.set_active();
    let _ = register::register_bool(
        dvars,
        "sv_restoreDvars",
        true,
        DvarFlags::empty(),
        Some("Enable to restore Dvars on entering the Xbox Live menu"),
    );
    let _ = register::register_bool(dvars, "sv_cheats", false, DvarFlags::empty(), Some("External Dvar"));
    cmds::add_commands(commands);
}


/// How a dvar is displayed: its name, its description and its current
/// value, separated by dashes.
pub open spec fn dvar_text(d: DvarView) -> Seq<char> {
    d.name + " - "@ + d.description + " - "@ + value::value_text(d.current)
}

impl Dvar {
    /// How the dvar is displayed (see [`dvar_text`]).
    pub fn to_text(&self) -> (r: String)
        ensures
            r@ == dvar_text(self@),
    {
        let a = crate::text::concat(self.name.as_str(), " - ");
        let b = crate::text::concat(a.as_str(), self.description.as_str());
        let c = crate::text::concat(b.as_str(), " - ");
        crate::text::concat(c.as_str(), self.current.to_text().as_str())
    }
}

} // verus!
