//! Laws of the dvar system: what a read gives back after a register or a
//! set, where a set from outside goes, what clamping does, and what undoes
//! what.

use vstd::prelude::*;
use super::{clamp, in_domain, DvarFlags, DvarLimitsView, DvarValueView, DvarView, SetSource};
use super::get::{spec_get_bool, spec_get_int, current_value};
use super::global_fns::{restored_dvar, DvarRegistry};
use super::limits::{dedup, no_duplicates};
use super::register::fresh_dvar;
use super::cmds::toggle_value;
use super::get::spec_get_enumeration;
use super::global_fns::DvarRegistryView;
use super::limits::lemma_first_index_pub;
use super::set::{enum_next_target, enum_prev_target};

verus! {

/// A dvar that was just registered reads back the value it was registered
/// with.
pub proof fn law_register_then_read(dvars: &DvarRegistry, name: Seq<char>, description: Seq<char>, flags: u32, domain: DvarLimitsView, v: DvarValueView)
    requires
        dvars.can_register(name),
    ensures
        current_value(dvars.after_register(fresh_dvar(name, description, flags, domain, v)), name) == Some(v),
        v matches DvarValueView::Bool(b) ==> spec_get_bool(dvars.after_register(fresh_dvar(name, description, flags, domain, v)), name) == Some(b),
        v matches DvarValueView::Int(i) ==> spec_get_int(dvars.after_register(fresh_dvar(name, description, flags, domain, v)), name) == Some(i),
{
}

/// Registering a name that is taken registers that dvar again: the new dvar
/// takes its place, the other dvars stay, and the count is unchanged.
pub proof fn law_register_again_replaces(dvars: &DvarRegistry, d: DvarView, other: Seq<char>)
    requires
        dvars.has(d.name),
        other != d.name,
    ensures
        dvars.after_register(d).dvars[d.name] == d,
        dvars.after_register(d).count == dvars@.count,
        dvars.after_register(d).dvars.dom().contains(other) == dvars.has(other),
        dvars.has(other) ==> dvars.after_register(d).dvars[other] == dvars.get(other),
{
}

/// Setting a value within the domain of a named dvar from inside the engine
/// makes it the current value, whether cheats are on or not.
pub proof fn law_internal_set_then_read(d: DvarView, v: DvarValueView, modified_flags: u32, cheats: bool)
    requires
        d.name.len() > 0,
        in_domain(d.domain, v),
    ensures
        d.set_variant(v, SetSource::Internal, modified_flags, cheats).0.current == v,
{
}

/// A set from outside (or from a script) of a value within the domain of a
/// named dvar: when the dvar allows it (see [`DvarView::outside_allowed`]),
/// a dvar that is not latched takes it as its current value, and is marked
/// modified when the value changed, while a latched dvar takes it as its
/// latched value only; when the dvar does not allow it, nothing changes.
pub proof fn law_outside_set(d: DvarView, v: DvarValueView, modified_flags: u32, source: SetSource, cheats: bool)
    requires
        source == SetSource::External || source == SetSource::Script,
        d.name.len() > 0,
        in_domain(d.domain, v),
    ensures
        d.outside_allowed(v, cheats) && !d.has(DvarFlags::LATCHED) ==> d.set_variant(v, source, modified_flags, cheats).0.current == v,
        d.outside_allowed(v, cheats) && !d.has(DvarFlags::LATCHED) && v != d.current ==> d.set_variant(v, source, modified_flags, cheats).0.modified,
        d.outside_allowed(v, cheats) && d.has(DvarFlags::LATCHED) ==> d.set_variant(v, source, modified_flags, cheats) == (DvarView { latched: v, ..d }, modified_flags),
        !d.outside_allowed(v, cheats) ==> d.set_variant(v, source, modified_flags, cheats) == (d, modified_flags),
{
}

/// A set that the registry takes (see [`DvarRegistry::set_accepted`]) is
/// read back as the current value of the dvar, unless it went to the
/// latched value: a set from outside or from a script on a latched dvar,
/// or one from the developer GUI on a dvar that permits it.
pub proof fn law_set_then_read(dvars: &DvarRegistry, name: Seq<char>, v: DvarValueView, source: SetSource)
    requires
        dvars.set_accepted(name, v, source),
        (source == SetSource::External || source == SetSource::Script) ==> !dvars.get(name).has(DvarFlags::LATCHED),
        source == SetSource::Devgui ==> !dvars.get(name).has(DvarFlags::ALLOW_SET_FROM_DEVGUI),
    ensures
        current_value(dvars.after_set(name, v, source), name) == Some(v),
{
}

/// Clamping an integer into an integer domain whose bounds are in order
/// lands inside it, leaves a value already inside alone, and clamping
/// twice is clamping once.
pub proof fn law_clamp(domain: DvarLimitsView, v: DvarValueView)
    requires
        domain matches DvarLimitsView::Int { min, max } ==> min <= max,
        domain matches DvarLimitsView::Int64 { min64, max64 } ==> min64 <= max64,
        (v is Int && domain is Int) || (v is Int64 && domain is Int64),
    ensures
        in_domain(domain, clamp(domain, v)),
        in_domain(domain, v) ==> clamp(domain, v) == v,
        clamp(domain, clamp(domain, v)) == clamp(domain, v),
{
}

/// Adding flags that were not set and then clearing them gives the flags
/// back.
pub proof fn law_add_then_clear_flags(d: DvarView, bits: u32)
    requires
        d.flags & bits == 0,
    ensures
        (DvarView { flags: (DvarView { flags: d.flags | bits, ..d }).flags & !bits, ..d }) == d,
{
    let f = d.flags;
    assert((f | bits) & !bits == f) by (bit_vector)
        requires f & bits == 0u32;
}

/// Restoring saved values twice is restoring them once.
pub proof fn law_restore_idempotent(d: DvarView)
    ensures
        restored_dvar(restored_dvar(d)) == restored_dvar(d),
{
}

proof fn lemma_push_contains(a: Seq<Seq<char>>, b: Seq<char>, t: Seq<char>)
    ensures
        a.push(b).contains(t) <==> (a.contains(t) || t == b),
{
    if a.push(b).contains(t) {
        let i = choose|i: int| 0 <= i < a.push(b).len() && a.push(b)[i] == t;
        if i < a.len() {
            assert(a[i] == t);
        }
    }
    if a.contains(t) {
        let i = choose|i: int| 0 <= i < a.len() && a[i] == t;
        assert(a.push(b)[i] == t);
    }
    if t == b {
        assert(a.push(b)[a.len() as int] == t);
    }
}

/// An enumeration domain's strings with repetitions dropped hold each
/// string once, and hold exactly the strings given.
pub proof fn law_dedup(s: Seq<Seq<char>>)
    ensures
        no_duplicates(dedup(s)),
        forall|t: Seq<char>| dedup(s).contains(t) <==> s.contains(t),
    decreases s.len(),
{
    if s.len() > 0 {
        law_dedup(s.drop_last());
        let d = dedup(s.drop_last());
        let x = s.last();
        assert(s =~= s.drop_last().push(x));
        assert forall|t: Seq<char>| dedup(s).contains(t) <==> s.contains(t) by {
            lemma_push_contains(s.drop_last(), x, t);
            lemma_push_contains(d, x, t);
        }
        if !d.contains(x) {
            assert forall|i: int, j: int| 0 <= i < j < d.push(x).len() implies d.push(x)[i] != d.push(x)[j] by {
                if j == d.len() {
                    assert(d[i] == d.push(x)[i]);
                }
            }
        }
    }
}

/// Toggling a boolean dvar sets the negation of its current value; where
/// the dvar takes that value from outside and is not latched, the value
/// read back is the negation, and toggling once more gives the value it
/// had back.
pub proof fn law_toggle_negates_bool(dvars: &DvarRegistry, name: Seq<char>, b: bool)
    requires
        dvars.has(name),
        dvars.get(name).current == DvarValueView::Bool(b),
    ensures
        toggle_value(dvars.get(name)) == Some(DvarValueView::Bool(!b)),
        dvars.set_accepted(name, DvarValueView::Bool(!b), SetSource::External) && !dvars.get(name).has(DvarFlags::LATCHED)
            ==> {
            let after = dvars.after_set(name, DvarValueView::Bool(!b), SetSource::External);
            &&& current_value(after, name) == Some(DvarValueView::Bool(!b))
            &&& spec_get_bool(after, name) == Some(!b)
            &&& toggle_value(after.dvars[name]) == Some(DvarValueView::Bool(b))
        },
{
}

/// Stepping an enumeration dvar forward from the string at position `k` of
/// its domain (where no string occurs twice) sets the string at position
/// `k + 1`, when there is one; stepping back from position `k + 1` sets the
/// string at position `k`.
pub proof fn law_enum_step_is_adjacent(r: DvarRegistryView, name: Seq<char>, s: Seq<Seq<char>>, k: int)
    requires
        r.dvars.dom().contains(name),
        r.dvars[name].domain == DvarLimitsView::Enumeration(s),
        no_duplicates(s),
        0 <= k,
        k + 1 < s.len(),
    ensures
        r.dvars[name].current == DvarValueView::Enumeration(s[k]) ==> enum_next_target(r, name) == Some(s[k + 1]),
        r.dvars[name].current == DvarValueView::Enumeration(s[k + 1]) ==> enum_prev_target(r, name) == Some(s[k]),
{
    assert forall|j: int| 0 <= j < k implies #[trigger] s[j] != s[k] by {}
    lemma_first_index_pub(s, s[k], k);
    assert forall|j: int| 0 <= j < k + 1 implies #[trigger] s[j] != s[k + 1] by {}
    lemma_first_index_pub(s, s[k + 1], k + 1);
    if r.dvars[name].current == DvarValueView::Enumeration(s[k]) {
        assert(spec_get_enumeration(r, name) == Some(s[k]));
    }
    if r.dvars[name].current == DvarValueView::Enumeration(s[k + 1]) {
        assert(spec_get_enumeration(r, name) == Some(s[k + 1]));
    }
}

/// Toggling an integer dvar: where its domain holds 0 and 1, 0 goes to 1
/// and any other value to 0; otherwise its minimum goes to its maximum and
/// any other value to its minimum. Either way the value set lies in the
/// domain.
pub proof fn law_toggle_int(d: DvarView, i: i32, min: i32, max: i32)
    requires
        d.current == DvarValueView::Int(i),
        d.domain == (DvarLimitsView::Int { min, max }),
        min <= max,
    ensures
        min <= 0 && 1 <= max ==> toggle_value(d) == Some(DvarValueView::Int(if i == 0 { 1i32 } else { 0i32 })),
        !(min <= 0 && 1 <= max) ==> toggle_value(d) == Some(DvarValueView::Int(if i == min { max } else { min })),
        in_domain(d.domain, toggle_value(d)->0),
{
}

/// At the ends of an enumeration domain `s` (where no string occurs twice):
/// stepping forward from the last string sets nothing, stepping back from
/// the first sets nothing, and stepping forward from a value outside the
/// domain sets the first string.
pub proof fn law_enum_step_ends(r: DvarRegistryView, name: Seq<char>, s: Seq<Seq<char>>)
    requires
        r.dvars.dom().contains(name),
        r.dvars[name].domain == DvarLimitsView::Enumeration(s),
        no_duplicates(s),
        s.len() > 0,
    ensures
        r.dvars[name].current == DvarValueView::Enumeration(s[s.len() - 1]) ==> enum_next_target(r, name) is None,
        r.dvars[name].current == DvarValueView::Enumeration(s[0]) ==> enum_prev_target(r, name) is None,
        (r.dvars[name].current matches DvarValueView::Enumeration(c) && !s.contains(c)) ==> enum_next_target(r, name)
            == Some(s[0]),
{
    assert forall|j: int| 0 <= j < s.len() - 1 implies #[trigger] s[j] != s[s.len() - 1] by {}
    lemma_first_index_pub(s, s[s.len() - 1], s.len() - 1);
    lemma_first_index_pub(s, s[0], 0);
    if r.dvars[name].current == DvarValueView::Enumeration(s[s.len() - 1]) {
        assert(spec_get_enumeration(r, name) == Some(s[s.len() - 1]));
    }
    if r.dvars[name].current == DvarValueView::Enumeration(s[0]) {
        assert(spec_get_enumeration(r, name) == Some(s[0]));
    }
    if let DvarValueView::Enumeration(c) = r.dvars[name].current {
        assert(spec_get_enumeration(r, name) == Some(c));
    }
}

} // verus!
