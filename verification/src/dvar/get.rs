use vstd::prelude::*;

use super::global_fns::{dvar_exists, DvarRegistry, DvarRegistryView};
use super::register::{
    description_of, enum_domain, enum_domain_ok, fresh_dvar, int64_bounds_ok, int64_domain,
    int_bounds_ok, int_domain, register_bool, register_enumeration, register_int, register_int64,
    register_string,
};
use super::{DvarFlags, DvarLimitsView, DvarValueView};

verus! {

/// The current value of the dvar named `name`, if there is one.
pub open spec fn current_value(r: DvarRegistryView, name: Seq<char>) -> Option<DvarValueView> {
    if r.dvars.dom().contains(name) {
        Some(r.dvars[name].current)
    } else {
        None
    }
}

/// The current boolean of the dvar named `name`, if it exists and holds one.
pub open spec fn spec_get_bool(r: DvarRegistryView, name: Seq<char>) -> Option<bool> {
    match current_value(r, name) {
        Some(DvarValueView::Bool(b)) => Some(b),
        _ => None,
    }
}

/// The current integer of the dvar named `name`, if it exists and holds one.
pub open spec fn spec_get_int(r: DvarRegistryView, name: Seq<char>) -> Option<i32> {
    match current_value(r, name) {
        Some(DvarValueView::Int(i)) => Some(i),
        _ => None,
    }
}

/// The current text of the dvar named `name`, if it exists and holds a
/// string.
pub open spec fn spec_get_string(r: DvarRegistryView, name: Seq<char>) -> Option<Seq<char>> {
    match current_value(r, name) {
        Some(DvarValueView::String(s)) => Some(s),
        _ => None,
    }
}

/// The current enumeration value of the dvar named `name`, if it exists and
/// holds one.
pub open spec fn spec_get_enumeration(r: DvarRegistryView, name: Seq<char>) -> Option<Seq<char>> {
    match current_value(r, name) {
        Some(DvarValueView::Enumeration(s)) => Some(s),
        _ => None,
    }
}

/// The current 64-bit integer of the dvar named `name`, if it exists and
/// holds one.
pub open spec fn spec_get_int64(r: DvarRegistryView, name: Seq<char>) -> Option<i64> {
    match current_value(r, name) {
        Some(DvarValueView::Int64(i)) => Some(i),
        _ => None,
    }
}

/// The current boolean of the dvar named `name`, if it exists and holds one.
pub fn get_bool(dvars: &DvarRegistry, name: &str) -> (r: Option<bool>)
    requires
        dvars.wf(),
    ensures
        r == spec_get_bool(dvars@, name@),
{
    match dvars.get_ref(name) {
        Some(d) => d.current.as_bool(),
        None => None,
    }
}

/// The current boolean of the dvar named `name`; when there is no dvar of
/// that name, a boolean dvar is registered with `value`, which is returned;
/// a dvar of that name that holds no boolean gives none.
pub fn get_or_register_bool(dvars: &mut DvarRegistry, name: &str, value: bool, flags: DvarFlags, description: Option<&str>) -> (r: Option<bool>)
    requires
        old(dvars).wf(),
        !old(dvars).has(name@) ==> old(dvars).can_register(name@),
    ensures
        final(dvars).wf(),
        match spec_get_bool(old(dvars)@, name@) {
            Some(b) => r == Some(b) && final(dvars)@ == old(dvars)@,
            None => if old(dvars).has(name@) {
                r is None && final(dvars)@ == old(dvars)@
            } else {
                r == Some(value) && final(dvars)@ == old(dvars).after_register(
                    fresh_dvar(name@, description_of(description), flags.bits, DvarLimitsView::Bool, DvarValueView::Bool(value)),
                )
            },
        },
{
    match get_bool(dvars, name) {
        Some(b) => Some(b),
        None => {
            if dvar_exists(dvars, name) {
                return None;
            }
            if register_bool(dvars, name, value, flags, description).is_err() {
                return None;
            }
            Some(value)
        },
    }
}

/// The current integer of the dvar named `name`, if it exists and holds one.
pub fn get_int(dvars: &DvarRegistry, name: &str) -> (r: Option<i32>)
    requires
        dvars.wf(),
    ensures
        r == spec_get_int(dvars@, name@),
{
    match dvars.get_ref(name) {
        Some(d) => d.current.as_int(),
        None => None,
    }
}

/// The current integer of the dvar named `name`; when there is no dvar of
/// that name, an integer dvar is registered with `value`, which is returned;
/// a dvar of that name that holds no integer gives none.
pub fn get_or_register_int(
    dvars: &mut DvarRegistry,
    name: &str,
    value: i32,
    min: Option<i32>,
    max: Option<i32>,
    flags: DvarFlags,
    description: Option<&str>,
) -> (r: Option<i32>)
    requires
        old(dvars).wf(),
        !old(dvars).has(name@) ==> old(dvars).can_register(name@) && int_bounds_ok(
            min,
            max,
        ),
    ensures
        final(dvars).wf(),
        match spec_get_int(old(dvars)@, name@) {
            Some(i) => r == Some(i) && final(dvars)@ == old(dvars)@,
            None => if old(dvars).has(name@) {
                r is None && final(dvars)@ == old(dvars)@
            } else {
                r == Some(value) && final(dvars)@ == old(dvars).after_register(
                    fresh_dvar(name@, description_of(description), flags.bits, int_domain(min, max), DvarValueView::Int(value)),
                )
            },
        },
{
    match get_int(dvars, name) {
        Some(i) => Some(i),
        None => {
            if dvar_exists(dvars, name) {
                return None;
            }
            if register_int(dvars, name, value, min, max, flags, description).is_err() {
                return None;
            }
            Some(value)
        },
    }
}

/// A copy of the current text of the dvar named `name`, if it exists and
/// holds a string.
pub fn get_string(dvars: &DvarRegistry, name: &str) -> (r: Option<String>)
    requires
        dvars.wf(),
    ensures
        match spec_get_string(dvars@, name@) {
            Some(s) => r is Some && r->0@ == s,
            None => r is None,
        },
{
    match dvars.get_ref(name) {
        Some(d) => d.current.as_string(),
        None => None,
    }
}

/// The current text of the dvar named `name`; when there is no dvar of that
/// name, a string dvar is registered with `value`, which is returned; a dvar
/// of that name that holds no string gives none.
pub fn get_or_register_string(dvars: &mut DvarRegistry, name: &str, value: &str, flags: DvarFlags, description: Option<&str>) -> (r: Option<String>)
    requires
        old(dvars).wf(),
        !old(dvars).has(name@) ==> old(dvars).can_register(name@),
    ensures
        final(dvars).wf(),
        match spec_get_string(old(dvars)@, name@) {
            Some(s) => r is Some && r->0@ == s && final(dvars)@ == old(dvars)@,
            None => if old(dvars).has(name@) {
                r is None && final(dvars)@ == old(dvars)@
            } else {
                r is Some && r->0@ == value@ && final(dvars)@ == old(dvars).after_register(
                    fresh_dvar(name@, description_of(description), flags.bits, DvarLimitsView::String, DvarValueView::String(value@)),
                )
            },
        },
{
    match get_string(dvars, name) {
        Some(s) => Some(s),
        None => {
            if dvar_exists(dvars, name) {
                return None;
            }
            if register_string(dvars, name, value, flags, description).is_err() {
                return None;
            }
            Some(value.to_owned())
        },
    }
}

/// A copy of the current enumeration value of the dvar named `name`, if it
/// exists and holds one.
pub fn get_enumeration(dvars: &DvarRegistry, name: &str) -> (r: Option<String>)
    requires
        dvars.wf(),
    ensures
        match spec_get_enumeration(dvars@, name@) {
            Some(s) => r is Some && r->0@ == s,
            None => r is None,
        },
{
    match dvars.get_ref(name) {
        Some(d) => d.current.as_enumeration(),
        None => None,
    }
}

/// The current enumeration value of the dvar named `name`; when there is no
/// dvar of that name, an enumeration dvar is registered with `value` and
/// `domain`, and `value` is returned; a dvar of that name that holds no
/// enumeration value gives none.
pub fn get_or_register_enumeration(
    dvars: &mut DvarRegistry,
    name: &str,
    value: String,
    domain: Option<Vec<String>>,
    flags: DvarFlags,
    description: Option<&str>,
) -> (r: Option<String>)
    requires
        old(dvars).wf(),
        !old(dvars).has(name@) ==> old(dvars).can_register(name@)
            && enum_domain_ok(domain),
    ensures
        final(dvars).wf(),
        match spec_get_enumeration(old(dvars)@, name@) {
            Some(s) => r is Some && r->0@ == s && final(dvars)@ == old(dvars)@,
            None => if old(dvars).has(name@) {
                r is None && final(dvars)@ == old(dvars)@
            } else {
                r is Some && r->0@ == value@ && final(dvars)@ == old(dvars).after_register(
                    fresh_dvar(
                        name@,
                        description_of(description),
                        flags.bits,
                        enum_domain(domain),
                        DvarValueView::Enumeration(value@),
                    ),
                )
            },
        },
{
    match get_enumeration(dvars, name) {
        Some(s) => Some(s),
        None => {
            if dvar_exists(dvars, name) {
                return None;
            }
            let copy = value.clone();
            if register_enumeration(dvars, name, value, domain, flags, description).is_err() {
                return None;
            }
            Some(copy)
        },
    }
}

/// The current 64-bit integer of the dvar named `name`, if it exists and
/// holds one.
pub fn get_int64(dvars: &DvarRegistry, name: &str) -> (r: Option<i64>)
    requires
        dvars.wf(),
    ensures
        r == spec_get_int64(dvars@, name@),
{
    match dvars.get_ref(name) {
        Some(d) => d.current.as_int64(),
        None => None,
    }
}

/// The current 64-bit integer of the dvar named `name`; when there is no
/// dvar of that name, a 64-bit integer dvar is registered with `value`,
/// which is returned; a dvar of that name that holds no 64-bit integer gives
/// none.
pub fn get_or_register_int64(
    dvars: &mut DvarRegistry,
    name: &str,
    value: i64,
    min: Option<i64>,
    max: Option<i64>,
    flags: DvarFlags,
    description: Option<&str>,
) -> (r: Option<i64>)
    requires
        old(dvars).wf(),
        !old(dvars).has(name@) ==> old(dvars).can_register(name@) && int64_bounds_ok(
            min,
            max,
        ),
    ensures
        final(dvars).wf(),
        match spec_get_int64(old(dvars)@, name@) {
            Some(i) => r == Some(i) && final(dvars)@ == old(dvars)@,
            None => if old(dvars).has(name@) {
                r is None && final(dvars)@ == old(dvars)@
            } else {
                r == Some(value) && final(dvars)@ == old(dvars).after_register(
                    fresh_dvar(name@, description_of(description), flags.bits, int64_domain(min, max), DvarValueView::Int64(value)),
                )
            },
        },
{
    match get_int64(dvars, name) {
        Some(i) => Some(i),
        None => {
            if dvar_exists(dvars, name) {
                return None;
            }
            if register_int64(dvars, name, value, min, max, flags, description).is_err() {
                return None;
            }
            Some(value)
        },
    }
}

} // verus!
