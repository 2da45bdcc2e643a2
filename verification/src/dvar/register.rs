use vstd::prelude::*;

use super::global_fns::{dvar_exists, DvarRegistry, DVAR_COUNT_MAX};
use super::limits::{
    DvarLimitsBool, DvarLimitsEnumeration, DvarLimitsInt, DvarLimitsInt64, DvarLimitsString, dedup,
    texts,
};
use super::{Dvar, DvarFlags, DvarLimits, DvarLimitsView, DvarValue, DvarValueView, DvarView};

verus! {

/// The text of an optional description; none is the empty text.
pub open spec fn description_of(description: Option<&str>) -> Seq<char> {
    match description {
        Some(d) => d@,
        None => Seq::empty(),
    }
}

/// A freshly registered dvar: not modified, not from a saved game, and
/// every stored value equal to `v`.
pub open spec fn fresh_dvar(
    name: Seq<char>,
    description: Seq<char>,
    flags: u32,
    domain: DvarLimitsView,
    v: DvarValueView,
) -> DvarView {
    DvarView {
        name,
        description,
        flags,
        modified: false,
        loaded_from_save_game: false,
        domain,
        current: v,
        latched: v,
        reset: v,
        saved: v,
    }
}

fn description_text(description: Option<&str>) -> (r: String)
    ensures
        r@ == description_of(description),
{
    match description {
        Some(d) => d.to_owned(),
        None => String::new(),
    }
}

fn new_dvar(name: &str, description: Option<&str>, flags: DvarFlags, domain: DvarLimits, value: DvarValue) -> (r: Dvar)
    ensures
        r@ == fresh_dvar(name@, description_of(description), flags.bits, domain@, value@),
{
    Dvar {
        name: name.to_owned(),
        description: description_text(description),
        flags,
        modified: false,
        loaded_from_save_game: false,
        domain,
        current: value.clone_value(),
        latched: value.clone_value(),
        reset: value.clone_value(),
        saved: value,
    }
}

/// Adds `dvar` to the registry, or puts it in place of the dvar of the same
/// name; a full registry is a fatal error, which `requires` rules out.
fn register_dvar(dvars: &mut DvarRegistry, dvar: Dvar) -> (r: Result<(), ()>)
    requires
        old(dvars).wf(),
        old(dvars).can_register(dvar@.name),
    ensures
        final(dvars).wf(),
        r is Ok,
        final(dvars)@ == old(dvars).after_register(dvar@),
{
    if dvars.len() + 1 > DVAR_COUNT_MAX {
        return Err(());
    }
    dvars.insert_or_replace(dvar);
    Ok(())
}

/// The integer domain from `min` (or the smallest `i32`) to `max` (or the
/// largest).
pub open spec fn int_domain(min: Option<i32>, max: Option<i32>) -> DvarLimitsView {
    DvarLimitsView::Int { min: min.unwrap_or(i32::MIN), max: max.unwrap_or(i32::MAX) }
}

/// The 64-bit integer domain from `min` (or the smallest `i64`) to `max`
/// (or the largest).
pub open spec fn int64_domain(min: Option<i64>, max: Option<i64>) -> DvarLimitsView {
    DvarLimitsView::Int64 { min64: min.unwrap_or(i64::MIN), max64: max.unwrap_or(i64::MAX) }
}

/// Whether the optional bounds are in order once the missing ones are
/// taken as the extremes.
pub open spec fn int_bounds_ok(min: Option<i32>, max: Option<i32>) -> bool {
    min.unwrap_or(i32::MIN) <= max.unwrap_or(i32::MAX)
}

/// Whether the optional bounds are in order once the missing ones are
/// taken as the extremes.
pub open spec fn int64_bounds_ok(min: Option<i64>, max: Option<i64>) -> bool {
    min.unwrap_or(i64::MIN) <= max.unwrap_or(i64::MAX)
}

/// The enumeration domain of the distinct strings of `domain`.
pub open spec fn enum_domain(domain: Option<Vec<String>>) -> DvarLimitsView {
    DvarLimitsView::Enumeration(dedup(texts(domain->0@)))
}

/// Whether an enumeration domain is given and not empty.
pub open spec fn enum_domain_ok(domain: Option<Vec<String>>) -> bool {
    domain is Some && domain->0@.len() > 0
}

/// Registers a boolean dvar; a dvar of the same name is registered again
/// (replaced).
pub fn register_bool(dvars: &mut DvarRegistry, name: &str, value: bool, flags: DvarFlags, description: Option<&str>) -> (r: Result<(), ()>)
    requires
        old(dvars).wf(),
        old(dvars).can_register(name@),
    ensures
        final(dvars).wf(),
        r is Ok,
        final(dvars)@ == old(dvars).after_register(
            fresh_dvar(name@, description_of(description), flags.bits, DvarLimitsView::Bool, DvarValueView::Bool(value)),
        ),
{
    let d = new_dvar(name, description, flags, DvarLimits::Bool(DvarLimitsBool::new()), DvarValue::Bool(value));
    register_dvar(dvars, d)
}

/// Registers a boolean dvar, unless one of that name exists (an error).
pub fn register_new_bool(dvars: &mut DvarRegistry, name: &str, value: bool, flags: DvarFlags, description: Option<&str>) -> (r: Result<(), ()>)
    requires
        old(dvars).wf(),
        !old(dvars).has(name@) ==> old(dvars).can_register(name@),
    ensures
        final(dvars).wf(),
        r is Ok <==> !old(dvars).has(name@),
        r is Ok ==> final(dvars)@ == old(dvars).after_register(
            fresh_dvar(name@, description_of(description), flags.bits, DvarLimitsView::Bool, DvarValueView::Bool(value)),
        ),
        r is Err ==> final(dvars)@ == old(dvars)@,
{
    if dvar_exists(dvars, name) {
        return Err(());
    }
    register_bool(dvars, name, value, flags, description)
}

/// Registers again, with the new value, flags and description, the boolean
/// dvar named `name`, which takes the place of the one there; fails, and
/// changes nothing, when there is no dvar of that name.
pub fn reregister_bool(dvars: &mut DvarRegistry, name: &str, value: bool, flags: DvarFlags, description: Option<&str>) -> (r: Result<(), ()>)
    requires
        old(dvars).wf(),
        old(dvars).has(name@) ==> old(dvars).can_register(name@),
    ensures
        final(dvars).wf(),
        r is Ok <==> old(dvars).has(name@),
        r is Ok ==> final(dvars)@ == old(dvars).after_register(
            fresh_dvar(name@, description_of(description), flags.bits, DvarLimitsView::Bool, DvarValueView::Bool(value)),
        ),
        r is Err ==> final(dvars)@ == old(dvars)@,
{
    if !dvar_exists(dvars, name) {
        return Err(());
    }
    register_bool(dvars, name, value, flags, description)
}

/// Registers an integer dvar with the domain from `min` to `max` (the
/// extremes of `i32` where absent).
pub fn register_int(
    dvars: &mut DvarRegistry,
    name: &str,
    value: i32,
    min: Option<i32>,
    max: Option<i32>,
    flags: DvarFlags,
    description: Option<&str>,
) -> (r: Result<(), ()>)
    requires
        old(dvars).wf(),
        old(dvars).can_register(name@),
        int_bounds_ok(min, max),
    ensures
        final(dvars).wf(),
        r is Ok,
        final(dvars)@ == old(dvars).after_register(
            fresh_dvar(name@, description_of(description), flags.bits, int_domain(min, max), DvarValueView::Int(value)),
        ),
{
    let lo = match min {
        Some(m) => m,
        None => i32::MIN,
    };
    let hi = match max {
        Some(m) => m,
        None => i32::MAX,
    };
    let d = new_dvar(name, description, flags, DvarLimits::Int(DvarLimitsInt::new(lo, hi)), DvarValue::Int(value));
    register_dvar(dvars, d)
}

/// Registers an integer dvar, unless one of that name exists (an error).
pub fn register_new_int(
    dvars: &mut DvarRegistry,
    name: &str,
    value: i32,
    min: Option<i32>,
    max: Option<i32>,
    flags: DvarFlags,
    description: Option<&str>,
) -> (r: Result<(), ()>)
    requires
        old(dvars).wf(),
        !old(dvars).has(name@) ==> old(dvars).can_register(name@) && int_bounds_ok(min, max),
    ensures
        final(dvars).wf(),
        r is Ok <==> !old(dvars).has(name@),
        r is Ok ==> final(dvars)@ == old(dvars).after_register(
            fresh_dvar(name@, description_of(description), flags.bits, int_domain(min, max), DvarValueView::Int(value)),
        ),
        r is Err ==> final(dvars)@ == old(dvars)@,
{
    if dvar_exists(dvars, name) {
        return Err(());
    }
    register_int(dvars, name, value, min, max, flags, description)
}

/// Registers an integer dvar again; see [`reregister_bool`].
pub fn reregister_int(
    dvars: &mut DvarRegistry,
    name: &str,
    value: i32,
    min: Option<i32>,
    max: Option<i32>,
    flags: DvarFlags,
    description: Option<&str>,
) -> (r: Result<(), ()>)
    requires
        old(dvars).wf(),
        old(dvars).has(name@) ==> old(dvars).can_register(name@) && int_bounds_ok(min, max),
    ensures
        final(dvars).wf(),
        r is Ok <==> old(dvars).has(name@),
        r is Ok ==> final(dvars)@ == old(dvars).after_register(
            fresh_dvar(name@, description_of(description), flags.bits, int_domain(min, max), DvarValueView::Int(value)),
        ),
        r is Err ==> final(dvars)@ == old(dvars)@,
{
    if !dvar_exists(dvars, name) {
        return Err(());
    }
    register_int(dvars, name, value, min, max, flags, description)
}

/// Registers a string dvar.
pub fn register_string(dvars: &mut DvarRegistry, name: &str, value: &str, flags: DvarFlags, description: Option<&str>) -> (r: Result<(), ()>)
    requires
        old(dvars).wf(),
        old(dvars).can_register(name@),
    ensures
        final(dvars).wf(),
        r is Ok,
        final(dvars)@ == old(dvars).after_register(
            fresh_dvar(name@, description_of(description), flags.bits, DvarLimitsView::String, DvarValueView::String(value@)),
        ),
{
    let d = new_dvar(
        name,
        description,
        flags,
        DvarLimits::String(DvarLimitsString::new()),
        DvarValue::String(value.to_owned()),
    );
    register_dvar(dvars, d)
}

/// Registers a string dvar, unless one of that name exists (an error).
pub fn register_new_string(dvars: &mut DvarRegistry, name: &str, value: &str, flags: DvarFlags, description: Option<&str>) -> (r: Result<(), ()>)
    requires
        old(dvars).wf(),
        !old(dvars).has(name@) ==> old(dvars).can_register(name@),
    ensures
        final(dvars).wf(),
        r is Ok <==> !old(dvars).has(name@),
        r is Ok ==> final(dvars)@ == old(dvars).after_register(
            fresh_dvar(name@, description_of(description), flags.bits, DvarLimitsView::String, DvarValueView::String(value@)),
        ),
        r is Err ==> final(dvars)@ == old(dvars)@,
{
    if dvar_exists(dvars, name) {
        return Err(());
    }
    register_string(dvars, name, value, flags, description)
}

/// Registers a string dvar again; see [`reregister_bool`].
pub fn reregister_string(dvars: &mut DvarRegistry, name: &str, value: &str, flags: DvarFlags, description: Option<&str>) -> (r: Result<(), ()>)
    requires
        old(dvars).wf(),
        old(dvars).has(name@) ==> old(dvars).can_register(name@),
    ensures
        final(dvars).wf(),
        r is Ok <==> old(dvars).has(name@),
        r is Ok ==> final(dvars)@ == old(dvars).after_register(
            fresh_dvar(name@, description_of(description), flags.bits, DvarLimitsView::String, DvarValueView::String(value@)),
        ),
        r is Err ==> final(dvars)@ == old(dvars)@,
{
    if !dvar_exists(dvars, name) {
        return Err(());
    }
    register_string(dvars, name, value, flags, description)
}

/// Registers an enumeration dvar whose domain is the distinct strings of
/// `domain`, which must be given and not empty.
pub fn register_enumeration(
    dvars: &mut DvarRegistry,
    name: &str,
    value: String,
    domain: Option<Vec<String>>,
    flags: DvarFlags,
    description: Option<&str>,
) -> (r: Result<(), ()>)
    requires
        old(dvars).wf(),
        old(dvars).can_register(name@),
        enum_domain_ok(domain),
    ensures
        final(dvars).wf(),
        r is Ok,
        final(dvars)@ == old(dvars).after_register(
            fresh_dvar(name@, description_of(description), flags.bits, enum_domain(domain), DvarValueView::Enumeration(value@)),
        ),
{
    let strings = match domain {
        Some(v) => v,
        None => Vec::new(),
    };
    let limits = DvarLimitsEnumeration::new(strings.as_slice());
    let d = new_dvar(name, description, flags, DvarLimits::Enumeration(limits), DvarValue::Enumeration(value));
    register_dvar(dvars, d)
}

/// Registers an enumeration dvar, unless one of that name exists (an
/// error).
pub fn register_new_enumeration(
    dvars: &mut DvarRegistry,
    name: &str,
    value: String,
    domain: Option<Vec<String>>,
    flags: DvarFlags,
    description: Option<&str>,
) -> (r: Result<(), ()>)
    requires
        old(dvars).wf(),
        !old(dvars).has(name@) ==> old(dvars).can_register(name@) && enum_domain_ok(domain),
    ensures
        final(dvars).wf(),
        r is Ok <==> !old(dvars).has(name@),
        r is Ok ==> final(dvars)@ == old(dvars).after_register(
            fresh_dvar(name@, description_of(description), flags.bits, enum_domain(domain), DvarValueView::Enumeration(value@)),
        ),
        r is Err ==> final(dvars)@ == old(dvars)@,
{
    if dvar_exists(dvars, name) {
        return Err(());
    }
    register_enumeration(dvars, name, value, domain, flags, description)
}

/// Registers an enumeration dvar again; see [`reregister_bool`].
pub fn reregister_enumeration(
    dvars: &mut DvarRegistry,
    name: &str,
    value: String,
    domain: Option<Vec<String>>,
    flags: DvarFlags,
    description: Option<&str>,
) -> (r: Result<(), ()>)
    requires
        old(dvars).wf(),
        old(dvars).has(name@) ==> old(dvars).can_register(name@) && enum_domain_ok(domain),
    ensures
        final(dvars).wf(),
        r is Ok <==> old(dvars).has(name@),
        r is Ok ==> final(dvars)@ == old(dvars).after_register(
            fresh_dvar(name@, description_of(description), flags.bits, enum_domain(domain), DvarValueView::Enumeration(value@)),
        ),
        r is Err ==> final(dvars)@ == old(dvars)@,
{
    if !dvar_exists(dvars, name) {
        return Err(());
    }
    register_enumeration(dvars, name, value, domain, flags, description)
}

/// Registers a 64-bit integer dvar with the domain from `min` to `max` (the
/// extremes of `i64` where absent).
pub fn register_int64(
    dvars: &mut DvarRegistry,
    name: &str,
    value: i64,
    min: Option<i64>,
    max: Option<i64>,
    flags: DvarFlags,
    description: Option<&str>,
) -> (r: Result<(), ()>)
    requires
        old(dvars).wf(),
        old(dvars).can_register(name@),
        int64_bounds_ok(min, max),
    ensures
        final(dvars).wf(),
        r is Ok,
        final(dvars)@ == old(dvars).after_register(
            fresh_dvar(name@, description_of(description), flags.bits, int64_domain(min, max), DvarValueView::Int64(value)),
        ),
{
    let lo = match min {
        Some(m) => m,
        None => i64::MIN,
    };
    let hi = match max {
        Some(m) => m,
        None => i64::MAX,
    };
    let d = new_dvar(name, description, flags, DvarLimits::Int64(DvarLimitsInt64::new(lo, hi)), DvarValue::Int64(value));
    register_dvar(dvars, d)
}

/// Registers a 64-bit integer dvar, unless one of that name exists (an
/// error).
pub fn register_new_int64(
    dvars: &mut DvarRegistry,
    name: &str,
    value: i64,
    min: Option<i64>,
    max: Option<i64>,
    flags: DvarFlags,
    description: Option<&str>,
) -> (r: Result<(), ()>)
    requires
        old(dvars).wf(),
        !old(dvars).has(name@) ==> old(dvars).can_register(name@) && int64_bounds_ok(min, max),
    ensures
        final(dvars).wf(),
        r is Ok <==> !old(dvars).has(name@),
        r is Ok ==> final(dvars)@ == old(dvars).after_register(
            fresh_dvar(name@, description_of(description), flags.bits, int64_domain(min, max), DvarValueView::Int64(value)),
        ),
        r is Err ==> final(dvars)@ == old(dvars)@,
{
    if dvar_exists(dvars, name) {
        return Err(());
    }
    register_int64(dvars, name, value, min, max, flags, description)
}

/// Registers a 64-bit integer dvar again; see [`reregister_bool`].
pub fn reregister_int64(
    dvars: &mut DvarRegistry,
    name: &str,
    value: i64,
    min: Option<i64>,
    max: Option<i64>,
    flags: DvarFlags,
    description: Option<&str>,
) -> (r: Result<(), ()>)
    requires
        old(dvars).wf(),
        old(dvars).has(name@) ==> old(dvars).can_register(name@) && int64_bounds_ok(min, max),
    ensures
        final(dvars).wf(),
        r is Ok <==> old(dvars).has(name@),
        r is Ok ==> final(dvars)@ == old(dvars).after_register(
            fresh_dvar(name@, description_of(description), flags.bits, int64_domain(min, max), DvarValueView::Int64(value)),
        ),
        r is Err ==> final(dvars)@ == old(dvars)@,
{
    if !dvar_exists(dvars, name) {
        return Err(());
    }
    register_int64(dvars, name, value, min, max, flags, description)
}

} // verus!
