use vstd::prelude::*;

use super::get::{get_enumeration, spec_get_enumeration};
use super::global_fns::{
    domain_with, domain_without, dvar_exists, find, DvarRegistry, DvarRegistryView,
};
use super::limits::first_index;
use super::register::{
    description_of, enum_domain, enum_domain_ok, fresh_dvar, int64_bounds_ok, int64_domain,
    int_bounds_ok, int_domain, register_bool, register_enumeration, register_int, register_int64,
    register_string,
};
use super::{
    in_domain, DvarFlags, DvarLimits, DvarLimitsView, DvarValue, DvarValueView, DvarView, SetSource,
};

verus! {

/// Sets `value` on the dvar named `name` from `source`; fails when there is
/// no such dvar (changing nothing) or it does not take the value (see
/// [`DvarRegistry::set_accepted`]), where an enumeration value outside the
/// domain still sets the reset value. See [`DvarView::set_variant`] for what
/// the dvar does.
pub fn set_variant_from_source(dvars: &mut DvarRegistry, name: &str, value: DvarValue, source: SetSource) -> (r: Result<(), ()>)
    requires
        old(dvars).wf(),
        old(dvars).can_set(name@, value@, source),
    ensures
        final(dvars).wf(),
        r is Ok <==> old(dvars).set_accepted(name@, value@, source),
        old(dvars).has(name@) ==> final(dvars)@ == old(dvars).after_set(name@, value@, source),
        !old(dvars).has(name@) ==> final(dvars)@ == old(dvars)@,
{
    if dvar_exists(dvars, name) {
        if dvars.set_variant_at(name, value, source) {
            Ok(())
        } else {
            Err(())
        }
    } else {
        Err(())
    }
}

/// Sets a boolean on the dvar named `name` from `source`.
pub fn set_bool_from_source(dvars: &mut DvarRegistry, name: &str, value: bool, source: SetSource) -> (r: Result<(), ()>)
    requires
        old(dvars).wf(),
        old(dvars).can_set(name@, DvarValueView::Bool(value), source),
    ensures
        final(dvars).wf(),
        r is Ok <==> old(dvars).set_accepted(name@, DvarValueView::Bool(value), source),
        r is Ok ==> final(dvars)@ == old(dvars).after_set(name@, DvarValueView::Bool(value), source),
        r is Err ==> final(dvars)@ == old(dvars)@,
{
    proof {
        dvars.lemma_refused_set(name@, DvarValueView::Bool(value), source);
    }
    set_variant_from_source(dvars, name, DvarValue::Bool(value), source)
}

/// Sets a boolean on the dvar named `name` from inside the engine.
pub fn set_bool_internal(dvars: &mut DvarRegistry, name: &str, value: bool) -> (r: Result<(), ()>)
    requires
        old(dvars).wf(),
        old(dvars).can_set(name@, DvarValueView::Bool(value), SetSource::Internal),
    ensures
        final(dvars).wf(),
        r is Ok <==> old(dvars).set_accepted(
            name@,
            DvarValueView::Bool(value),
            SetSource::Internal,
        ),
        r is Ok ==> final(dvars)@ == old(dvars).after_set(
            name@,
            DvarValueView::Bool(value),
            SetSource::Internal,
        ),
        r is Err ==> final(dvars)@ == old(dvars)@,
{
    set_bool_from_source(dvars, name, value, SetSource::Internal)
}

/// Sets a boolean on the dvar named `name` from outside the engine.
pub fn set_bool(dvars: &mut DvarRegistry, name: &str, value: bool) -> (r: Result<(), ()>)
    requires
        old(dvars).wf(),
        old(dvars).can_set(name@, DvarValueView::Bool(value), SetSource::External),
    ensures
        final(dvars).wf(),
        r is Ok <==> old(dvars).set_accepted(
            name@,
            DvarValueView::Bool(value),
            SetSource::External,
        ),
        r is Ok ==> final(dvars)@ == old(dvars).after_set(
            name@,
            DvarValueView::Bool(value),
            SetSource::External,
        ),
        r is Err ==> final(dvars)@ == old(dvars)@,
{
    set_bool_from_source(dvars, name, value, SetSource::External)
}

/// Sets a boolean on the dvar named `name` from inside the engine, or
/// registers a boolean dvar of that name when there is none.
pub fn set_or_register_bool(dvars: &mut DvarRegistry, name: &str, value: bool, flags: DvarFlags, description: Option<&str>) -> (r: Result<(), ()>)
    requires
        old(dvars).wf(),
        old(dvars).can_set(name@, DvarValueView::Bool(value), SetSource::Internal),
        !old(dvars).has(name@) ==> old(dvars).can_register(name@),
    ensures
        final(dvars).wf(),
        r is Ok <==> (!old(dvars).has(name@) || old(dvars).set_accepted(name@, DvarValueView::Bool(value), SetSource::Internal)),
        old(dvars).has(name@) ==> final(dvars)@ == old(dvars).after_set(
            name@,
            DvarValueView::Bool(value),
            SetSource::Internal,
        ),
        !old(dvars).has(name@) ==> final(dvars)@ == old(dvars).after_register(
            fresh_dvar(name@, description_of(description), flags.bits, DvarLimitsView::Bool, DvarValueView::Bool(value)),
        ),
{
    if dvar_exists(dvars, name) {
        proof {
            dvars.lemma_refused_set(name@, DvarValueView::Bool(value), SetSource::Internal);
        }
        set_bool_internal(dvars, name, value)
    } else {
        register_bool(dvars, name, value, flags, description)
    }
}

/// Sets an integer on the dvar named `name` from `source`.
pub fn set_int_from_source(dvars: &mut DvarRegistry, name: &str, value: i32, source: SetSource) -> (r: Result<(), ()>)
    requires
        old(dvars).wf(),
        old(dvars).can_set(name@, DvarValueView::Int(value), source),
    ensures
        final(dvars).wf(),
        r is Ok <==> old(dvars).set_accepted(name@, DvarValueView::Int(value), source),
        r is Ok ==> final(dvars)@ == old(dvars).after_set(name@, DvarValueView::Int(value), source),
        r is Err ==> final(dvars)@ == old(dvars)@,
{
    proof {
        dvars.lemma_refused_set(name@, DvarValueView::Int(value), source);
    }
    set_variant_from_source(dvars, name, DvarValue::Int(value), source)
}

/// Sets an integer on the dvar named `name` from inside the engine.
pub fn set_int_internal(dvars: &mut DvarRegistry, name: &str, value: i32) -> (r: Result<(), ()>)
    requires
        old(dvars).wf(),
        old(dvars).can_set(name@, DvarValueView::Int(value), SetSource::Internal),
    ensures
        final(dvars).wf(),
        r is Ok <==> old(dvars).set_accepted(
            name@,
            DvarValueView::Int(value),
            SetSource::Internal,
        ),
        r is Ok ==> final(dvars)@ == old(dvars).after_set(
            name@,
            DvarValueView::Int(value),
            SetSource::Internal,
        ),
        r is Err ==> final(dvars)@ == old(dvars)@,
{
    set_int_from_source(dvars, name, value, SetSource::Internal)
}

/// Sets an integer on the dvar named `name` from outside the engine.
pub fn set_int(dvars: &mut DvarRegistry, name: &str, value: i32) -> (r: Result<(), ()>)
    requires
        old(dvars).wf(),
        old(dvars).can_set(name@, DvarValueView::Int(value), SetSource::External),
    ensures
        final(dvars).wf(),
        r is Ok <==> old(dvars).set_accepted(
            name@,
            DvarValueView::Int(value),
            SetSource::External,
        ),
        r is Ok ==> final(dvars)@ == old(dvars).after_set(
            name@,
            DvarValueView::Int(value),
            SetSource::External,
        ),
        r is Err ==> final(dvars)@ == old(dvars)@,
{
    set_int_from_source(dvars, name, value, SetSource::External)
}

/// Sets an integer on the dvar named `name` from inside the engine, or
/// registers an integer dvar of that name when there is none.
pub fn set_or_register_int(
    dvars: &mut DvarRegistry,
    name: &str,
    value: i32,
    min: Option<i32>,
    max: Option<i32>,
    flags: DvarFlags,
    description: Option<&str>,
) -> (r: Result<(), ()>)
    requires
        old(dvars).wf(),
        old(dvars).can_set(name@, DvarValueView::Int(value), SetSource::Internal),
        !old(dvars).has(name@) ==> old(dvars).can_register(name@) && int_bounds_ok(min, max),
    ensures
        final(dvars).wf(),
        r is Ok <==> (!old(dvars).has(name@) || old(dvars).set_accepted(name@, DvarValueView::Int(value), SetSource::Internal)),
        old(dvars).has(name@) ==> final(dvars)@ == old(dvars).after_set(
            name@,
            DvarValueView::Int(value),
            SetSource::Internal,
        ),
        !old(dvars).has(name@) ==> final(dvars)@ == old(dvars).after_register(
            fresh_dvar(name@, description_of(description), flags.bits, int_domain(min, max), DvarValueView::Int(value)),
        ),
{
    if dvar_exists(dvars, name) {
        proof {
            dvars.lemma_refused_set(name@, DvarValueView::Int(value), SetSource::Internal);
        }
        set_int_internal(dvars, name, value)
    } else {
        register_int(dvars, name, value, min, max, flags, description)
    }
}

/// Sets a string on the dvar named `name` from `source`.
pub fn set_string_from_source(dvars: &mut DvarRegistry, name: &str, value: &str, source: SetSource) -> (r: Result<(), ()>)
    requires
        old(dvars).wf(),
        old(dvars).can_set(name@, DvarValueView::String(value@), source),
    ensures
        final(dvars).wf(),
        r is Ok <==> old(dvars).set_accepted(name@, DvarValueView::String(value@), source),
        r is Ok ==> final(dvars)@ == old(dvars).after_set(name@, DvarValueView::String(value@), source),
        r is Err ==> final(dvars)@ == old(dvars)@,
{
    proof {
        dvars.lemma_refused_set(name@, DvarValueView::String(value@), source);
    }
    set_variant_from_source(dvars, name, DvarValue::String(value.to_owned()), source)
}

/// Sets a string on the dvar named `name` from inside the engine.
pub fn set_string_internal(dvars: &mut DvarRegistry, name: &str, value: &str) -> (r: Result<(), ()>)
    requires
        old(dvars).wf(),
        old(dvars).can_set(name@, DvarValueView::String(value@), SetSource::Internal),
    ensures
        final(dvars).wf(),
        r is Ok <==> old(dvars).set_accepted(
            name@,
            DvarValueView::String(value@),
            SetSource::Internal,
        ),
        r is Ok ==> final(dvars)@ == old(dvars).after_set(
            name@,
            DvarValueView::String(value@),
            SetSource::Internal,
        ),
        r is Err ==> final(dvars)@ == old(dvars)@,
{
    set_string_from_source(dvars, name, value, SetSource::Internal)
}

/// Sets a string on the dvar named `name` from outside the engine.
pub fn set_string(dvars: &mut DvarRegistry, name: &str, value: &str) -> (r: Result<(), ()>)
    requires
        old(dvars).wf(),
        old(dvars).can_set(name@, DvarValueView::String(value@), SetSource::External),
    ensures
        final(dvars).wf(),
        r is Ok <==> old(dvars).set_accepted(
            name@,
            DvarValueView::String(value@),
            SetSource::External,
        ),
        r is Ok ==> final(dvars)@ == old(dvars).after_set(
            name@,
            DvarValueView::String(value@),
            SetSource::External,
        ),
        r is Err ==> final(dvars)@ == old(dvars)@,
{
    set_string_from_source(dvars, name, value, SetSource::External)
}

/// Sets a string on the dvar named `name` from inside the engine, or
/// registers a string dvar of that name when there is none.
pub fn set_or_register_string(dvars: &mut DvarRegistry, name: &str, value: &str, flags: DvarFlags, description: Option<&str>) -> (r: Result<(), ()>)
    requires
        old(dvars).wf(),
        old(dvars).can_set(name@, DvarValueView::String(value@), SetSource::Internal),
        !old(dvars).has(name@) ==> old(dvars).can_register(name@),
    ensures
        final(dvars).wf(),
        r is Ok <==> (!old(dvars).has(name@) || old(dvars).set_accepted(name@, DvarValueView::String(value@), SetSource::Internal)),
        old(dvars).has(name@) ==> final(dvars)@ == old(dvars).after_set(
            name@,
            DvarValueView::String(value@),
            SetSource::Internal,
        ),
        !old(dvars).has(name@) ==> final(dvars)@ == old(dvars).after_register(
            fresh_dvar(name@, description_of(description), flags.bits, DvarLimitsView::String, DvarValueView::String(value@)),
        ),
{
    if dvar_exists(dvars, name) {
        proof {
            dvars.lemma_refused_set(name@, DvarValueView::String(value@), SetSource::Internal);
        }
        set_string_internal(dvars, name, value)
    } else {
        register_string(dvars, name, value, flags, description)
    }
}

/// The strings of `d`'s domain, when it is an enumeration domain.
pub open spec fn enum_strings(d: DvarView) -> Seq<Seq<char>> {
    match d.domain {
        DvarLimitsView::Enumeration(s) => s,
        _ => Seq::empty(),
    }
}

/// Whether the dvar named `name` exists, holds an enumeration value and has
/// `value` in its domain.
pub open spec fn enum_settable(r: DvarRegistryView, name: Seq<char>, value: Seq<char>) -> bool {
    &&& r.dvars.dom().contains(name)
    &&& r.dvars[name].current is Enumeration
    &&& enum_strings(r.dvars[name]).contains(value)
}

/// Whether a dvar that holds an enumeration value has an enumeration
/// domain, so that looking at its domain cannot fail.
pub open spec fn enum_consistent(r: DvarRegistryView, name: Seq<char>) -> bool {
    (r.dvars.dom().contains(name) && r.dvars[name].current is Enumeration) ==> r.dvars[name].domain is Enumeration
}

/// Sets the enumeration value `value` on the dvar named `name` from
/// `source`; fails when there is no such dvar, when it holds no
/// enumeration value, when `value` is outside its domain, or when the dvar
/// does not take the value from `source`.
pub fn set_enumeration_from_source(dvars: &mut DvarRegistry, name: &str, value: &str, source: SetSource) -> (r: Result<(), ()>)
    requires
        old(dvars).wf(),
        enum_consistent(old(dvars)@, name@),
        enum_settable(old(dvars)@, name@, value@) ==> old(dvars).can_set(
            name@,
            DvarValueView::Enumeration(value@),
            source,
        ),
    ensures
        final(dvars).wf(),
        r is Ok <==> enum_settable(old(dvars)@, name@, value@) && old(dvars).set_accepted(name@, DvarValueView::Enumeration(value@), source),
        r is Ok ==> final(dvars)@ == old(dvars).after_set(name@, DvarValueView::Enumeration(value@), source),
        r is Err ==> final(dvars)@ == old(dvars)@,
{
    match dvars.get_ref(name) {
        Some(d) => match &d.current {
            DvarValue::Enumeration(_) => {
                let limits = d.domain.as_enumeration_limits().unwrap();
                let owned = value.to_owned();
                match super::limits::index_of(&limits.strings, &owned) {
                    Some(k) => {
                        assert(limits.view_strings()[k as int] == value@);
                    },
                    None => {
                        return Err(());
                    },
                }
            },
            _ => {
                return Err(());
            },
        },
        None => {
            return Err(());
        },
    }
    proof {
        dvars.lemma_refused_set(name@, DvarValueView::Enumeration(value@), source);
    }
    set_variant_from_source(dvars, name, DvarValue::Enumeration(value.to_owned()), source)
}

/// Sets the enumeration value `value` on the dvar named `name` from inside
/// the engine.
pub fn set_enumeration_internal(dvars: &mut DvarRegistry, name: &str, value: &str) -> (r: Result<(), ()>)
    requires
        old(dvars).wf(),
        enum_consistent(old(dvars)@, name@),
    ensures
        final(dvars).wf(),
        r is Ok <==> enum_settable(old(dvars)@, name@, value@) && old(dvars).set_accepted(
            name@,
            DvarValueView::Enumeration(value@),
            SetSource::Internal,
        ),
        r is Ok ==> final(dvars)@ == old(dvars).after_set(
            name@,
            DvarValueView::Enumeration(value@),
            SetSource::Internal,
        ),
        r is Err ==> final(dvars)@ == old(dvars)@,
{
    set_enumeration_from_source(dvars, name, value, SetSource::Internal)
}

/// Sets the enumeration value `value` on the dvar named `name` from outside
/// the engine.
pub fn set_enumeration(dvars: &mut DvarRegistry, name: &str, value: &str) -> (r: Result<(), ()>)
    requires
        old(dvars).wf(),
        enum_consistent(old(dvars)@, name@),
        enum_settable(old(dvars)@, name@, value@) ==> old(dvars).can_set(
            name@,
            DvarValueView::Enumeration(value@),
            SetSource::External,
        ),
    ensures
        final(dvars).wf(),
        r is Ok <==> enum_settable(old(dvars)@, name@, value@) && old(dvars).set_accepted(
            name@,
            DvarValueView::Enumeration(value@),
            SetSource::External,
        ),
        r is Ok ==> final(dvars)@ == old(dvars).after_set(
            name@,
            DvarValueView::Enumeration(value@),
            SetSource::External,
        ),
        r is Err ==> final(dvars)@ == old(dvars)@,
{
    set_enumeration_from_source(dvars, name, value, SetSource::External)
}

/// The value that follows `current` in the domain of `d`: the next string
/// after it, none after the last one, and the first string when `current`
/// is not in the domain.
pub open spec fn next_enum_value(d: DvarView, current: Seq<char>) -> Option<Seq<char>> {
    let s = enum_strings(d);
    match first_index(s, current) {
        Some(k) => if k + 1 < s.len() {
            Some(s[k + 1])
        } else {
            None
        },
        None => if s.len() > 0 {
            Some(s[0])
        } else {
            None
        },
    }
}

/// The value that precedes `current` in the domain of `d`: none before the
/// first string, and none when `current` is not in the domain.
pub open spec fn prev_enum_value(d: DvarView, current: Seq<char>) -> Option<Seq<char>> {
    let s = enum_strings(d);
    match first_index(s, current) {
        Some(k) => if k > 0 {
            Some(s[k - 1])
        } else {
            None
        },
        None => None,
    }
}

/// The step that [`set_enumeration_next`] takes on the dvar named `name`:
/// the value it sets from outside, if any.
pub open spec fn enum_next_target(r: DvarRegistryView, name: Seq<char>) -> Option<Seq<char>> {
    match spec_get_enumeration(r, name) {
        Some(cur) => next_enum_value(r.dvars[name], cur),
        None => None,
    }
}

/// The step that [`set_enumeration_prev`] takes on the dvar named `name`:
/// the value it sets from inside, if any.
pub open spec fn enum_prev_target(r: DvarRegistryView, name: Seq<char>) -> Option<Seq<char>> {
    match spec_get_enumeration(r, name) {
        Some(cur) => prev_enum_value(r.dvars[name], cur),
        None => None,
    }
}

/// The position of the first string of `strings` equal to `current`,
/// with its characters.
fn position_in(strings: &Vec<String>, current: &String) -> (r: Option<usize>)
    ensures
        r == (match first_index(super::limits::texts(strings@), current@) {
            Some(k) => Some(k as usize),
            None => None::<usize>,
        }),
{
    let found = super::limits::index_of(strings, current);
    proof {
        let s = super::limits::texts(strings@);
        match found {
            Some(k) => {
                assert(s[k as int] == current@);
                super::limits::lemma_first_index_pub(s, current@, k as int);
            },
            None => {},
        }
    }
    found
}

/// Sets, from outside, the value that follows the current one in the domain
/// of the enumeration dvar named `name` (the first one when the current
/// value is not in the domain); fails when there is no such dvar, it holds
/// no enumeration value, the current value is the last, or the dvar does
/// not take the value from outside.
pub fn set_enumeration_next(dvars: &mut DvarRegistry, name: &str) -> (r: Result<(), ()>)
    requires
        old(dvars).wf(),
        enum_consistent(old(dvars)@, name@),
        enum_next_target(old(dvars)@, name@) is Some ==> old(dvars).can_set(
            name@,
            DvarValueView::Enumeration(enum_next_target(old(dvars)@, name@)->0),
            SetSource::External,
        ),
    ensures
        final(dvars).wf(),
        r is Ok <==> enum_next_target(old(dvars)@, name@) is Some && old(dvars).set_accepted(
            name@,
            DvarValueView::Enumeration(enum_next_target(old(dvars)@, name@)->0),
            SetSource::External,
        ),
        r is Ok ==> final(dvars)@ == old(dvars).after_set(
            name@,
            DvarValueView::Enumeration(enum_next_target(old(dvars)@, name@)->0),
            SetSource::External,
        ),
        r is Err ==> final(dvars)@ == old(dvars)@,
{
    let current = match get_enumeration(dvars, name) {
        Some(c) => c,
        None => {
            return Err(());
        },
    };
    let limits = match find(dvars, name) {
        Some(d) => match d.current {
            DvarValue::Enumeration(_) => d.domain.as_enumeration_limits().unwrap(),
            _ => {
                return Err(());
            },
        },
        None => {
            return Err(());
        },
    };
    let ghost s = limits.view_strings();
    proof {
        super::limits::lemma_first_index_props(s, current@);
    }
    let next = match position_in(&limits.strings, &current) {
        Some(k) => {
            if k + 1 < limits.strings.len() {
                limits.strings[k + 1].clone()
            } else {
                return Err(());
            }
        },
        None => {
            if limits.strings.len() > 0 {
                limits.strings[0].clone()
            } else {
                return Err(());
            }
        },
    };
    assert(s.contains(next@)) by {
        match first_index(s, current@) {
            Some(k) => {
                assert(s[k + 1] == next@);
            },
            None => {
                assert(s[0] == next@);
            },
        }
    }
    set_enumeration(dvars, name, next.as_str())
}

/// Sets, from inside, the value that precedes the current one in the domain
/// of the enumeration dvar named `name`; fails when there is no such dvar,
/// it holds no enumeration value, the current value is not in the domain,
/// or it is the first.
pub fn set_enumeration_prev(dvars: &mut DvarRegistry, name: &str) -> (r: Result<(), ()>)
    requires
        old(dvars).wf(),
    ensures
        final(dvars).wf(),
        r is Ok <==> enum_prev_target(old(dvars)@, name@) is Some && old(dvars).set_accepted(
            name@,
            DvarValueView::Enumeration(enum_prev_target(old(dvars)@, name@)->0),
            SetSource::Internal,
        ),
        r is Ok ==> final(dvars)@ == old(dvars).after_set(
            name@,
            DvarValueView::Enumeration(enum_prev_target(old(dvars)@, name@)->0),
            SetSource::Internal,
        ),
        r is Err ==> final(dvars)@ == old(dvars)@,
{
    let (current, limits) = match find(dvars, name) {
        Some(d) => match d.current {
            DvarValue::Enumeration(s) => match d.domain {
                DvarLimits::Enumeration(l) => (s, l),
                _ => {
                    return Err(());
                },
            },
            _ => {
                return Err(());
            },
        },
        None => {
            return Err(());
        },
    };
    let ghost s = limits.view_strings();
    proof {
        super::limits::lemma_first_index_props(s, current@);
    }
    let i = match position_in(&limits.strings, &current) {
        Some(i) => i,
        None => {
            return Err(());
        },
    };
    if i == 0 {
        return Err(());
    }
    let value = limits.strings[i - 1].clone();
    assert(s[i - 1] == value@);
    if set_enumeration_internal(dvars, name, value.as_str()).is_err() {
        return Err(());
    }
    Ok(())
}

/// Adds `domain_str` to the domain of the enumeration dvar named `name`;
/// fails when there is no such dvar or it holds no enumeration value.
pub fn add_to_enumeration_domain(dvars: &mut DvarRegistry, name: &str, domain_str: &str) -> (r: Result<(), ()>)
    requires
        old(dvars).wf(),
    ensures
        final(dvars).wf(),
        r is Ok <==> (old(dvars).has(name@) && old(dvars).get(name@).current is Enumeration
            && old(dvars).get(name@).domain is Enumeration),
        r is Ok ==> final(dvars)@ == (DvarRegistryView {
            dvars: old(dvars)@.dvars.insert(
                name@,
                DvarView {
                    domain: domain_with(old(dvars).get(name@).domain, domain_str@),
                    ..old(dvars).get(name@)
                },
            ),
            ..old(dvars)@
        }),
        r is Err ==> final(dvars)@ == old(dvars)@,
{
    match dvars.get_ref(name) {
        Some(d) => match (&d.current, &d.domain) {
            (DvarValue::Enumeration(_), DvarLimits::Enumeration(_)) => {},
            _ => {
                return Err(());
            },
        },
        None => {
            return Err(());
        },
    }
    dvars.enum_domain_insert(name, domain_str);
    Ok(())
}

/// Removes `domain_str` from the domain of the enumeration dvar named
/// `name`; fails when there is no such dvar, it holds no enumeration value,
/// or `domain_str` is its current value, which its domain must keep.
pub fn remove_from_enumeration_domain(dvars: &mut DvarRegistry, name: &str, domain_str: &str) -> (r: Result<(), ()>)
    requires
        old(dvars).wf(),
    ensures
        final(dvars).wf(),
        r is Ok <==> (old(dvars).has(name@) && old(dvars).get(name@).current is Enumeration
            && old(dvars).get(name@).domain is Enumeration
            && old(dvars).get(name@).current != DvarValueView::Enumeration(domain_str@)),
        r is Ok ==> final(dvars)@ == (DvarRegistryView {
            dvars: old(dvars)@.dvars.insert(
                name@,
                DvarView {
                    domain: domain_without(old(dvars).get(name@).domain, domain_str@),
                    ..old(dvars).get(name@)
                },
            ),
            ..old(dvars)@
        }),
        r is Err ==> final(dvars)@ == old(dvars)@,
{
    match dvars.get_ref(name) {
        Some(d) => match (&d.current, &d.domain) {
            (DvarValue::Enumeration(cur), DvarLimits::Enumeration(_)) => {
                if *cur == domain_str.to_owned() {
                    return Err(());
                }
            },
            _ => {
                return Err(());
            },
        },
        None => {
            return Err(());
        },
    }
    dvars.enum_domain_remove(name, domain_str);
    Ok(())
}

/// Sets the enumeration value `value` on the dvar named `name` from inside
/// the engine, or registers an enumeration dvar of that name with `domain`
/// when there is none.
pub fn set_or_register_enumeration(
    dvars: &mut DvarRegistry,
    name: &str,
    value: String,
    domain: Option<Vec<String>>,
    flags: DvarFlags,
    description: Option<&str>,
) -> (r: Result<(), ()>)
    requires
        old(dvars).wf(),
        enum_consistent(old(dvars)@, name@),
        !old(dvars).has(name@) ==> old(dvars).can_register(name@) && enum_domain_ok(domain),
    ensures
        final(dvars).wf(),
        old(dvars).has(name@) ==> (r is Ok <==> enum_settable(old(dvars)@, name@, value@) && old(dvars).set_accepted(
            name@,
            DvarValueView::Enumeration(value@),
            SetSource::Internal,
        )),
        old(dvars).has(name@) && r is Ok ==> final(dvars)@ == old(dvars).after_set(
            name@,
            DvarValueView::Enumeration(value@),
            SetSource::Internal,
        ),
        old(dvars).has(name@) && r is Err ==> final(dvars)@ == old(dvars)@,
        !old(dvars).has(name@) ==> r is Ok && final(dvars)@ == old(dvars).after_register(
            fresh_dvar(
                name@,
                description_of(description),
                flags.bits,
                enum_domain(domain),
                DvarValueView::Enumeration(value@),
            ),
        ),
{
    if dvar_exists(dvars, name) {
        set_enumeration_internal(dvars, name, value.as_str())
    } else {
        register_enumeration(dvars, name, value, domain, flags, description)
    }
}

/// Sets a 64-bit integer on the dvar named `name` from `source`.
pub fn set_int64_from_source(dvars: &mut DvarRegistry, name: &str, value: i64, source: SetSource) -> (r: Result<(), ()>)
    requires
        old(dvars).wf(),
        old(dvars).can_set(name@, DvarValueView::Int64(value), source),
    ensures
        final(dvars).wf(),
        r is Ok <==> old(dvars).set_accepted(name@, DvarValueView::Int64(value), source),
        r is Ok ==> final(dvars)@ == old(dvars).after_set(name@, DvarValueView::Int64(value), source),
        r is Err ==> final(dvars)@ == old(dvars)@,
{
    proof {
        dvars.lemma_refused_set(name@, DvarValueView::Int64(value), source);
    }
    set_variant_from_source(dvars, name, DvarValue::Int64(value), source)
}

/// Sets a 64-bit integer on the dvar named `name` from inside the engine.
pub fn set_int64_internal(dvars: &mut DvarRegistry, name: &str, value: i64) -> (r: Result<(), ()>)
    requires
        old(dvars).wf(),
        old(dvars).can_set(name@, DvarValueView::Int64(value), SetSource::Internal),
    ensures
        final(dvars).wf(),
        r is Ok <==> old(dvars).set_accepted(
            name@,
            DvarValueView::Int64(value),
            SetSource::Internal,
        ),
        r is Ok ==> final(dvars)@ == old(dvars).after_set(
            name@,
            DvarValueView::Int64(value),
            SetSource::Internal,
        ),
        r is Err ==> final(dvars)@ == old(dvars)@,
{
    set_int64_from_source(dvars, name, value, SetSource::Internal)
}

/// Sets a 64-bit integer on the dvar named `name` from outside the engine.
pub fn set_int64(dvars: &mut DvarRegistry, name: &str, value: i64) -> (r: Result<(), ()>)
    requires
        old(dvars).wf(),
        old(dvars).can_set(name@, DvarValueView::Int64(value), SetSource::External),
    ensures
        final(dvars).wf(),
        r is Ok <==> old(dvars).set_accepted(
            name@,
            DvarValueView::Int64(value),
            SetSource::External,
        ),
        r is Ok ==> final(dvars)@ == old(dvars).after_set(
            name@,
            DvarValueView::Int64(value),
            SetSource::External,
        ),
        r is Err ==> final(dvars)@ == old(dvars)@,
{
    set_int64_from_source(dvars, name, value, SetSource::External)
}

/// Sets a 64-bit integer on the dvar named `name` from inside the engine, or
/// registers a 64-bit integer dvar of that name when there is none.
pub fn set_or_register_int64(
    dvars: &mut DvarRegistry,
    name: &str,
    value: i64,
    min: Option<i64>,
    max: Option<i64>,
    flags: DvarFlags,
    description: Option<&str>,
) -> (r: Result<(), ()>)
    requires
        old(dvars).wf(),
        old(dvars).can_set(name@, DvarValueView::Int64(value), SetSource::Internal),
        !old(dvars).has(name@) ==> old(dvars).can_register(name@) && int64_bounds_ok(min, max),
    ensures
        final(dvars).wf(),
        r is Ok <==> (!old(dvars).has(name@) || old(dvars).set_accepted(name@, DvarValueView::Int64(value), SetSource::Internal)),
        old(dvars).has(name@) ==> final(dvars)@ == old(dvars).after_set(
            name@,
            DvarValueView::Int64(value),
            SetSource::Internal,
        ),
        !old(dvars).has(name@) ==> final(dvars)@ == old(dvars).after_register(
            fresh_dvar(name@, description_of(description), flags.bits, int64_domain(min, max), DvarValueView::Int64(value)),
        ),
{
    if dvar_exists(dvars, name) {
        proof {
            dvars.lemma_refused_set(name@, DvarValueView::Int64(value), SetSource::Internal);
        }
        set_int64_internal(dvars, name, value)
    } else {
        register_int64(dvars, name, value, min, max, flags, description)
    }
}

} // verus!
