use vstd::prelude::*;
use vstd::string::StringExecFns;

use crate::cmd::{add_internal, argc, argv, CmdArgs, CmdFunctionView, CmdRegistry};
use crate::text::{
    concat, contains_ascii_digit, has_ascii_digit, isize_to_string, parse_bool, parse_i32,
    parse_usize, parsed_i32, parsed_usize, spec_parse_bool, decimal_isize,
};
use super::get::{get_bool, get_enumeration, spec_get_bool, spec_get_enumeration};
use super::global_fns::{
    add_flags, dvar_exists, find, name_is_valid, restored_dvar, valid_name, DvarRegistry, DvarRegistryView,
};
use super::register::{description_of, fresh_dvar, int_domain, register_int};
use super::set::{enum_strings, set_bool_from_source, set_int64_from_source, set_int_from_source, set_string_from_source};
use vstd::string::StrSliceExecFns;
use super::Dvar;
use super::value::value_text;
use crate::text::{decimal_usize, push_char, usize_to_string};
use super::{compatible, DvarFlags, DvarLimits, DvarLimitsView, DvarValue, DvarValueView, DvarView, SetSource};

verus! {

/// The value that toggling `d` sets: a boolean is negated; an integer whose
/// domain holds 0 and 1 goes from 0 to 1 and from anything else to 0;
/// any other integer goes from its minimum to its maximum and from anything
/// else to its minimum. Other values cannot be toggled.
pub open spec fn toggle_value(d: DvarView) -> Option<DvarValueView> {
    match d.current {
        DvarValueView::Bool(b) => Some(DvarValueView::Bool(!b)),
        DvarValueView::Int(i) => match d.domain {
            DvarLimitsView::Int { min, max } => Some(
                DvarValueView::Int(
                    if max > 0 && min < 1 {
                        if i == 0 {
                            1
                        } else {
                            0
                        }
                    } else if i == min {
                        max
                    } else {
                        min
                    },
                ),
            ),
            _ => None,
        },
        DvarValueView::Int64(i) => match d.domain {
            DvarLimitsView::Int64 { min64, max64 } => Some(
                DvarValueView::Int64(
                    if max64 > 0 && min64 < 1 {
                        if i == 0 {
                            1
                        } else {
                            0
                        }
                    } else if i == min64 {
                        max64
                    } else {
                        min64
                    },
                ),
            ),
            _ => None,
        },
        _ => None,
    }
}

/// What toggling the dvar named `name` demands: an enumeration cannot be
/// toggled without arguments (a fatal error), an integer must have an
/// integer domain, and the new value must be settable from outside.
pub open spec fn can_toggle(dvars: &DvarRegistry, name: Seq<char>) -> bool {
    dvars.has(name) ==> {
        let d = dvars.get(name);
        &&& !(d.current is Enumeration)
        &&& compatible(d.domain, d.current)
        &&& toggle_value(d) is Some ==> dvars.can_set(name, toggle_value(d)->0, SetSource::External)
    }
}

/// Toggles the dvar named `name` from outside (see [`toggle_value`]);
/// fails when there is no such dvar or its value cannot be toggled.
pub fn toggle_simple(dvars: &mut DvarRegistry, name: &str) -> (r: Result<(), ()>)
    requires
        old(dvars).wf(),
        can_toggle(old(dvars), name@),
    ensures
        final(dvars).wf(),
        r is Ok <==> old(dvars).has(name@) && toggle_value(old(dvars).get(name@)) is Some && old(dvars).set_accepted(
            name@,
            toggle_value(old(dvars).get(name@))->0,
            SetSource::External,
        ),
        old(dvars).has(name@) && toggle_value(old(dvars).get(name@)) is Some ==> final(dvars)@ == old(dvars).after_set(
            name@,
            toggle_value(old(dvars).get(name@))->0,
            SetSource::External,
        ),
        !(old(dvars).has(name@) && toggle_value(old(dvars).get(name@)) is Some) ==> final(dvars)@ == old(dvars)@,
{
    if !dvar_exists(dvars, name) {
        return Err(());
    }
    proof {
        if toggle_value(dvars.get(name@)) is Some {
            dvars.lemma_refused_set(name@, toggle_value(dvars.get(name@))->0, SetSource::External);
        }
    }
    let d = find(dvars, name).unwrap();
    match d.current {
        DvarValue::Bool(b) => set_bool_from_source(dvars, name, !b, SetSource::External),
        DvarValue::Int(i) => {
            let l = d.domain.as_int_limits().unwrap();
            if l.max > 0 && l.min < 1 {
                if i == 0 {
                    set_int_from_source(dvars, name, 1, SetSource::External)
                } else {
                    set_int_from_source(dvars, name, 0, SetSource::External)
                }
            } else if i == l.min {
                set_int_from_source(dvars, name, l.max, SetSource::External)
            } else {
                set_int_from_source(dvars, name, l.min, SetSource::External)
            }
        },
        DvarValue::Int64(i) => {
            let l = d.domain.as_int64_limits().unwrap();
            if l.max > 0 && l.min < 1 {
                if i == 0 {
                    set_int64_from_source(dvars, name, 1, SetSource::External)
                } else {
                    set_int64_from_source(dvars, name, 0, SetSource::External)
                }
            } else if i == l.min {
                set_int64_from_source(dvars, name, l.max, SetSource::External)
            } else {
                set_int64_from_source(dvars, name, l.min, SetSource::External)
            }
        },
        _ => Err(()),
    }
}

/// The domain string that `index` names for the enumeration dvar named
/// `name`: none for an empty domain or for a text with a digit in it;
/// otherwise the string at the position the text reads as, unless that is
/// 0 or past the domain.
pub open spec fn enum_string_at(r: DvarRegistryView, name: Seq<char>, index: Seq<char>) -> Option<Seq<char>> {
    if !r.dvars.dom().contains(name) {
        None
    } else {
        let s = enum_strings(r.dvars[name]);
        if s.len() == 0 || has_ascii_digit(index) {
            None
        } else {
            match parsed_usize(index) {
                Some(i) => if i == 0 || i >= s.len() {
                    None
                } else {
                    Some(s[i as int])
                },
                None => None,
            }
        }
    }
}

/// The domain string that `index_string` names for the enumeration dvar
/// named `name`; see [`enum_string_at`].
pub fn index_string_to_enum_string(dvars: &DvarRegistry, name: &str, index_string: &str) -> (r: Option<String>)
    requires
        dvars.wf(),
        dvars.has(name@) ==> dvars.get(name@).domain is Enumeration,
    ensures
        match enum_string_at(dvars@, name@, index_string@) {
            Some(s) => r is Some && r->0@ == s,
            None => r is None,
        },
{
    let d = match dvars.get_ref(name) {
        Some(d) => d,
        None => {
            return None;
        },
    };
    let limits = d.domain.as_enumeration_limits().unwrap();
    if limits.strings.len() == 0 {
        return None;
    }
    if contains_ascii_digit(index_string) {
        return None;
    }
    match parse_usize(index_string) {
        Some(i) => {
            if i == 0 || i >= limits.strings.len() {
                None
            } else {
                Some(limits.strings[i].clone())
            }
        },
        None => None,
    }
}

/// `r` with the dvar named `name` marked as set during an autoexec load:
/// the autoexec flag added and the current value made the reset value.
pub open spec fn autoexec_marked(r: DvarRegistryView, name: Seq<char>) -> DvarRegistryView {
    DvarRegistryView {
        dvars: r.dvars.insert(
            name,
            DvarView { flags: r.dvars[name].flags | DvarFlags::AUTOEXEC, reset: r.dvars[name].current, ..r.dvars[name] },
        ),
        ..r
    }
}

/// The registry after the `set` command sets `value` on the dvar named
/// `name`: nothing for a missing dvar or a set that is not taken; otherwise
/// the string is set from outside and, while an autoexec file loads, the
/// dvar is marked.
pub open spec fn after_set_command(dvars: &DvarRegistry, name: Seq<char>, value: Seq<char>, loading_autoexec: bool) -> DvarRegistryView {
    if !dvars.set_accepted(name, DvarValueView::String(value), SetSource::External) {
        dvars@
    } else {
        let r = dvars.after_set(name, DvarValueView::String(value), SetSource::External);
        if loading_autoexec {
            autoexec_marked(r, name)
        } else {
            r
        }
    }
}

/// Sets the string `value` on the dvar named `name` from outside; while an
/// autoexec file loads, the dvar is also marked (see [`autoexec_marked`]).
pub fn set_command(dvars: &mut DvarRegistry, name: &str, value: &str, loading_autoexec: bool)
    requires
        old(dvars).wf(),
        old(dvars).can_set(name@, DvarValueView::String(value@), SetSource::External),
    ensures
        final(dvars).wf(),
        final(dvars)@ == after_set_command(old(dvars), name@, value@, loading_autoexec),
{
    if set_string_from_source(dvars, name, value, SetSource::External).is_err() {
        return;
    }
    if loading_autoexec {
        if dvar_exists(dvars, name) {
            dvars.mark_autoexec(name);
        }
    }
}

/// The arguments from `start` on, each followed by a space.
pub open spec fn combined(args: CmdArgs, start: int) -> Seq<char>
    decreases args.count() - start,
{
    if start >= args.count() {
        Seq::empty()
    } else {
        args.arg(start) + seq![' '] + combined(args, start + 1)
    }
}

/// The arguments of the command from `start` on, joined into one text,
/// each followed by a space. Starting at 0 with arguments present is an
/// arithmetic overflow, which `requires` rules out.
pub fn get_combined_string(args: &CmdArgs, start_idx: usize) -> (r: String)
    requires
        args.wf(),
        start_idx >= 1 || args.count() <= start_idx,
    ensures
        r@ == combined(*args, start_idx as int),
{
    let n = argc(args);
    let mut s = String::new();
    let mut i = start_idx;
    let ghost mut done: Seq<char> = Seq::empty();
    while i < n
        invariant
            n == args.count(),
            args.wf(),
            start_idx <= i || n <= start_idx,
            i >= 1 || n <= i,
            s@ + combined(*args, i as int) == combined(*args, start_idx as int),
        decreases n - i,
    {
        let a = argv(args, i);
        let ghost before = s@;
        s.append(a.as_str());
        if n != i - 1 {
            crate::text::push_char(&mut s, ' ');
        }
        assert(combined(*args, i as int) == a@ + seq![' '] + combined(*args, i + 1));
        assert(s@ =~= before + a@ + seq![' ']);
        assert(before + combined(*args, i as int) =~= s@ + combined(*args, i + 1));
        i = i + 1;
    }
    assert(s@ =~= s@ + combined(*args, i as int));
    s
}

/// The argument `a` of a toggle of the enumeration dvar named `name`: the
/// domain string it names, when there is one that is not one byte long;
/// otherwise `a` itself.
pub open spec fn toggle_arg(r: DvarRegistryView, name: Seq<char>, a: Seq<char>) -> Seq<char> {
    match enum_string_at(r, name, a) {
        Some(s) => if vstd::utf8::encode_utf8(s).len() as usize != 1 {
            s
        } else {
            a
        },
        None => a,
    }
}

/// The first position from `i` on whose toggle argument is the current
/// value of the enumeration dvar named `name`.
pub open spec fn toggle_match(r: DvarRegistryView, name: Seq<char>, args: CmdArgs, i: int) -> Option<int>
    decreases args.count() - i,
{
    if i >= args.count() {
        None
    } else if spec_get_enumeration(r, name) == Some(toggle_arg(r, name, args.arg(i))) {
        Some(i)
    } else {
        toggle_match(r, name, args, i + 1)
    }
}

/// The text that a toggle with a value sequence sets on the dvar named
/// `args.arg(1)`: the value after the one matching the current value, or,
/// when none matches, the first value of the sequence.
pub open spec fn toggle_target(r: DvarRegistryView, args: CmdArgs) -> Seq<char> {
    let name = args.arg(1);
    match toggle_match(r, name, args, 2) {
        Some(i) => args.arg(i + 1),
        None => toggle_arg(r, name, args.arg(2)),
    }
}

/// What a toggle demands: without a value sequence see [`can_toggle`]; with
/// one, the dvar must be an enumeration (else a fatal error) and the target
/// text must be settable from outside.
pub open spec fn can_toggle_args(dvars: &DvarRegistry, args: CmdArgs) -> bool {
    let name = args.arg(1);
    &&& args.count() == 2 ==> can_toggle(dvars, name)
    &&& (args.count() > 2 && dvars.has(name)) ==> {
        &&& dvars.get(name).current is Enumeration
        &&& dvars.get(name).domain is Enumeration
        &&& dvars.can_set(name, DvarValueView::String(toggle_target(dvars@, args)), SetSource::External)
    }
}

proof fn lemma_toggle_match_skip(r: DvarRegistryView, name: Seq<char>, args: CmdArgs, i: int)
    requires
        i < args.count(),
        spec_get_enumeration(r, name) != Some(toggle_arg(r, name, args.arg(i))),
    ensures
        toggle_match(r, name, args, i) == toggle_match(r, name, args, i + 1),
{
}

/// Toggles the dvar named by the first argument: with no further argument
/// see [`toggle_simple`]; with a value sequence, sets from outside the value
/// that follows the current one (see [`toggle_target`]). Fails with fewer
/// than two arguments or when the dvar does not exist.
pub fn toggle_internal(dvars: &mut DvarRegistry, args: &CmdArgs, loading_autoexec: bool) -> (r: Result<(), ()>)
    requires
        old(dvars).wf(),
        args.wf(),
        can_toggle_args(old(dvars), *args),
    ensures
        final(dvars).wf(),
        (args.count() < 2 || !old(dvars).has(args.arg(1))) ==> r is Err && final(dvars)@ == old(dvars)@,
        args.count() == 2 && old(dvars).has(args.arg(1)) ==> {
            let d = old(dvars).get(args.arg(1));
            &&& (r is Ok <==> toggle_value(d) is Some && old(dvars).set_accepted(args.arg(1), toggle_value(d)->0, SetSource::External))
            &&& final(dvars)@ == toggle_effect(old(dvars), *args, loading_autoexec)
        },
        args.count() > 2 && old(dvars).has(args.arg(1)) ==> r is Ok && final(dvars)@ == after_set_command(
            old(dvars),
            args.arg(1),
            toggle_target(old(dvars)@, *args),
            loading_autoexec,
        ),
{
    let n = argc(args);
    let name = if n < 1 {
        String::new()
    } else {
        argv(args, 1)
    };
    if n < 2 {
        return Err(());
    }
    let argv_1 = argv(args, 1);
    if !dvar_exists(dvars, name.as_str()) {
        return Err(());
    }
    if n == 2 {
        return toggle_simple(dvars, name.as_str());
    }
    let ghost r0 = dvars@;
    let mut i: usize = 2;
    while i < n
        invariant
            n == args.count(),
            args.wf(),
            2 <= i <= n,
            dvars.wf(),
            dvars@ == r0,
            old(dvars)@ == r0,
            old(dvars).wf(),
            name@ == args.arg(1),
            argv_1@ == args.arg(1),
            dvars.has(name@),
            dvars.get(name@).current is Enumeration,
            dvars.get(name@).domain is Enumeration,
            toggle_match(r0, name@, *args, 2) == toggle_match(r0, name@, *args, i as int),
            dvars.can_set(name@, DvarValueView::String(toggle_target(r0, *args)), SetSource::External),
        decreases n - i,
    {
        let mut argv_i = argv(args, i);
        let current = get_enumeration(dvars, name.as_str()).unwrap();
        let found = index_string_to_enum_string(dvars, name.as_str(), argv_i.as_str());
        match found {
            Some(s) => {
                if s.as_str().len() != 1 {
                    argv_i = s;
                }
            },
            None => {},
        }
        assert(argv_i@ == toggle_arg(r0, name@, args.arg(i as int)));
        if current == argv_i {
            let value = argv(args, i + 1);
            assert(toggle_match(r0, name@, *args, i as int) == Some(i as int));
            assert(toggle_target(r0, *args) == value@);
            set_command(dvars, argv_1.as_str(), value.as_str(), loading_autoexec);
            return Ok(());
        }
        proof {
            lemma_toggle_match_skip(r0, name@, *args, i as int);
        }
        i = i + 1;
    }
    let mut argv_2 = argv(args, 2);
    match find(dvars, name.as_str()).unwrap().current {
        DvarValue::Enumeration(_) => {
            match index_string_to_enum_string(dvars, name.as_str(), argv_2.as_str()) {
                Some(s) => {
                    if s.as_str().len() != 1 {
                        argv_2 = s;
                    }
                },
                None => {},
            }
        },
        _ => {},
    }
    set_command(dvars, argv_1.as_str(), argv_2.as_str(), loading_autoexec);
    Ok(())
}

/// What a toggle does to the registry (see [`toggle_internal`]).
pub open spec fn toggle_effect(dvars: &DvarRegistry, args: CmdArgs, loading_autoexec: bool) -> DvarRegistryView {
    if args.count() < 2 || !dvars.has(args.arg(1)) {
        dvars@
    } else if args.count() == 2 {
        match toggle_value(dvars.get(args.arg(1))) {
            Some(v) => dvars.after_set(args.arg(1), v, SetSource::External),
            None => dvars@,
        }
    } else {
        after_set_command(dvars, args.arg(1), toggle_target(dvars@, args), loading_autoexec)
    }
}

/// The line a toggle without a value sequence prints for a dvar whose
/// value cannot be toggled (a string); none otherwise.
pub open spec fn toggle_refusal(dvars: &DvarRegistry, args: CmdArgs) -> Seq<Seq<char>> {
    let name = args.arg(1);
    if args.count() == 2 && dvars.has(name) && dvars.get(name).current is String {
        seq!["'toggle' with no arguments makes no sense for dvar '"@ + name + "'"@]
    } else {
        Seq::empty()
    }
}

fn toggle_refusal_lines(dvars: &DvarRegistry, args: &CmdArgs) -> (r: Vec<String>)
    requires
        dvars.wf(),
        args.wf(),
    ensures
        super::limits::texts(r@) == toggle_refusal(dvars, *args),
{
    let mut out: Vec<String> = Vec::new();
    if argc(args) == 2 {
        let name = argv(args, 1);
        match dvars.get_ref(name.as_str()) {
            Some(d) => match &d.current {
                DvarValue::String(_) => {
                    let a = concat("'toggle' with no arguments makes no sense for dvar '", name.as_str());
                    out.push(concat(a.as_str(), "'"));
                },
                _ => {},
            },
            None => {},
        }
    }
    assert(super::limits::texts(out@) =~= toggle_refusal(dvars, *args));
    out
}

/// The `toggle` command (see [`toggle_internal`]); returns the line it
/// prints for a value that cannot be toggled (see [`toggle_refusal`]).
pub fn toggle_f(dvars: &mut DvarRegistry, args: &CmdArgs, loading_autoexec: bool) -> (r: Vec<String>)
    requires
        old(dvars).wf(),
        args.wf(),
        can_toggle_args(old(dvars), *args),
    ensures
        final(dvars).wf(),
        final(dvars)@ == toggle_effect(old(dvars), *args, loading_autoexec),
        super::limits::texts(r@) == toggle_refusal(old(dvars), *args),
{
    let out = toggle_refusal_lines(dvars, args);
    let _ = toggle_internal(dvars, args, loading_autoexec);
    out
}

/// The `togglep` command: toggles (see [`toggle_internal`]) and, where
/// the toggle succeeded, returns the line naming the new value.
pub fn toggle_print_f(dvars: &mut DvarRegistry, args: &CmdArgs, loading_autoexec: bool) -> (r: Vec<String>)
    requires
        old(dvars).wf(),
        args.wf(),
        can_toggle_args(old(dvars), *args),
    ensures
        final(dvars).wf(),
        final(dvars)@ == toggle_effect(old(dvars), *args, loading_autoexec),
        r@.len() <= 1,
        toggle_refusal(old(dvars), *args).len() == 1 ==> super::limits::texts(r@) == toggle_refusal(old(dvars), *args),
        toggle_refusal(old(dvars), *args).len() == 0 && r@.len() == 1 ==> final(dvars).has(args.arg(1)) && r@[0]@
            == args.arg(1) + " toggled to "@ + value_text(final(dvars).get(args.arg(1)).current),
        (args.count() < 2 || !old(dvars).has(args.arg(1))) ==> r@.len() == 0,
        (args.count() > 2 && old(dvars).has(args.arg(1))) ==> r@.len() == 1,
{
    let refusal = toggle_refusal_lines(dvars, args);
    let mut out: Vec<String> = Vec::new();
    assert(refusal@.len() == super::limits::texts(refusal@).len());
    if toggle_internal(dvars, args, loading_autoexec).is_err() {
        return refusal;
    }
    let name = argv(args, 1);
    match dvars.get_ref(name.as_str()) {
        Some(d) => {
            let a = concat(name.as_str(), " toggled to ");
            out.push(concat(a.as_str(), d.current.to_text().as_str()));
        },
        None => {},
    }
    out
}

/// The `dvardump` command: the dvars are dumped to a channel, which does
/// nothing yet.
pub fn dump_f(args: &CmdArgs)
    requires
        args.wf(),
{
    let name = argv(args, 1);
    crate::com::dvar_dump(0, name.as_str());
}

/// The letters that mark a dvar's flags in a listing: server info, user
/// info, read-only, write-protected, archived, latched, cheat-protected,
/// system info, an unnamed flag, autoexec, external, and saved (marked
/// with a Y), a space for each flag not set.
pub open spec fn flag_letters(f: u32) -> Seq<char> {
    let has = |b: u32| f & b == b;
    seq![
        if has(DvarFlags::UNKNOWN_00000400 | DvarFlags::SERVER_INFO) { 'S' } else { ' ' },
        if has(DvarFlags::USER_INFO) { 'U' } else { ' ' },
        if has(DvarFlags::READ_ONLY) { 'R' } else { ' ' },
        if has(DvarFlags::WRITE_PROTECTED) { 'I' } else { ' ' },
        if has(DvarFlags::ARCHIVE) { 'A' } else { ' ' },
        if has(DvarFlags::LATCHED) { 'L' } else { ' ' },
        if has(DvarFlags::CHEAT_PROTECTED) { 'C' } else { ' ' },
        if has(DvarFlags::SYSTEM_INFO) { 'Y' } else { ' ' },
        if has(DvarFlags::UNKNOWN_00000100_D) { 'D' } else { ' ' },
        if has(DvarFlags::AUTOEXEC) { 'X' } else { ' ' },
        if has(DvarFlags::EXTERNAL) { 'E' } else { ' ' },
        if has(DvarFlags::SAVED) { 'Y' } else { ' ' },
    ]
}

/// Whether the console may only list dvars open to it: the dvar
/// "con_access_restricted" is true.
pub open spec fn access_restricted(r: DvarRegistryView) -> bool {
    spec_get_bool(r, "con_access_restricted"@) == Some(true)
}

/// The listing line of `d`, unless access is restricted and the dvar is
/// not open to the console: its flag letters, its name, and its value in
/// quotes.
pub open spec fn listed_line(d: DvarView, restricted: bool) -> Option<Seq<char>> {
    if !d.has(DvarFlags::CON_ACCESS) && restricted {
        None
    } else {
        Some(flag_letters(d.flags) + " "@ + d.name + " \""@ + value_text(d.current) + "\""@)
    }
}

fn flag_letter(flags: &DvarFlags, bits: u32, letter: char) -> (r: char)
    ensures
        r == if flags.bits & bits == bits { letter } else { ' ' },
{
    if flags.contains(DvarFlags::from_bits(bits)) {
        letter
    } else {
        ' '
    }
}

fn flag_letters_text(f: &DvarFlags) -> (r: String)
    ensures
        r@ == flag_letters(f.bits),
{
    let c: [char; 12] = [
        flag_letter(f, DvarFlags::UNKNOWN_00000400 | DvarFlags::SERVER_INFO, 'S'),
        flag_letter(f, DvarFlags::USER_INFO, 'U'),
        flag_letter(f, DvarFlags::READ_ONLY, 'R'),
        flag_letter(f, DvarFlags::WRITE_PROTECTED, 'I'),
        flag_letter(f, DvarFlags::ARCHIVE, 'A'),
        flag_letter(f, DvarFlags::LATCHED, 'L'),
        flag_letter(f, DvarFlags::CHEAT_PROTECTED, 'C'),
        flag_letter(f, DvarFlags::SYSTEM_INFO, 'Y'),
        flag_letter(f, DvarFlags::UNKNOWN_00000100_D, 'D'),
        flag_letter(f, DvarFlags::AUTOEXEC, 'X'),
        flag_letter(f, DvarFlags::EXTERNAL, 'E'),
        flag_letter(f, DvarFlags::SAVED, 'Y'),
    ];
    assert(c@ =~= flag_letters(f.bits));
    let mut letters = String::new();
    let mut i: usize = 0;
    while i < 12
        invariant
            i <= 12,
            c@.len() == 12,
            letters@ == c@.subrange(0, i as int),
        decreases 12 - i,
    {
        push_char(&mut letters, c[i]);
        assert(letters@ =~= c@.subrange(0, i as int + 1));
        i = i + 1;
    }
    assert(c@.subrange(0, 12) =~= c@);
    letters
}

/// The listing line of `dvar` (see [`listed_line`]); the name filter lets
/// every dvar through.
pub fn list_single(dvars: &DvarRegistry, dvar: &Dvar, name: &str) -> (r: Option<String>)
    requires
        dvars.wf(),
    ensures
        match listed_line(dvar@, access_restricted(dvars@)) {
            Some(l) => r matches Some(s) && s@ == l,
            None => r is None,
        },
{
    let restricted = match get_bool(dvars, "con_access_restricted") {
        Some(b) => b,
        None => false,
    };
    if !dvar.flags.contains(DvarFlags::from_bits(DvarFlags::CON_ACCESS)) && restricted {
        return None;
    }
    if name.unicode_len() > 0 && !crate::com::filter(name, dvar.name.as_str(), false) {
        return None;
    }
    let letters = flag_letters_text(&dvar.flags);
    let a = concat(letters.as_str(), " ");
    let b = concat(a.as_str(), dvar.name.as_str());
    let c = concat(b.as_str(), " \"");
    let d = concat(c.as_str(), dvar.current.to_text().as_str());
    Some(concat(d.as_str(), "\""))
}

/// The text of `n` written in decimal.
pub open spec fn decimal_i32(n: i32) -> Seq<char> {
    decimal_isize(n as isize)
}

fn i32_text(n: i32) -> (r: String)
    ensures
        r@ == decimal_i32(n),
{
    isize_to_string(n as isize)
}

/// What the `set` command does: its messages, and the registry after it.
/// Fewer than three arguments give the usage; an invalid name is refused;
/// otherwise the arguments from the second on are set (see
/// [`set_command`]).
pub open spec fn set_f_effect(dvars: &DvarRegistry, args: CmdArgs, loading_autoexec: bool) -> (
    DvarRegistryView,
    Seq<Seq<char>>,
) {
    if args.count() < 3 {
        (dvars@, seq!["USAGE: set <variable> <value>"@])
    } else if !valid_name(args.arg(1)) {
        (dvars@, seq!["invalid variable name: "@ + args.arg(1)])
    } else {
        (after_set_command(dvars, args.arg(1), combined(args, 2), loading_autoexec), Seq::empty())
    }
}

/// What the `set` command demands: the text must be settable from outside.
pub open spec fn can_set_f(dvars: &DvarRegistry, args: CmdArgs) -> bool {
    (args.count() >= 3 && valid_name(args.arg(1))) ==> dvars.can_set(
        args.arg(1),
        DvarValueView::String(combined(args, 2)),
        SetSource::External,
    )
}

/// The `set` command: sets the dvar named by the first argument to the
/// remaining arguments; returns the lines it prints.
pub fn set_f(dvars: &mut DvarRegistry, args: &CmdArgs, loading_autoexec: bool) -> (r: Vec<String>)
    requires
        old(dvars).wf(),
        args.wf(),
        can_set_f(old(dvars), *args),
    ensures
        final(dvars).wf(),
        (final(dvars)@, super::limits::texts(r@)) == set_f_effect(old(dvars), *args, loading_autoexec),
{
    let mut out: Vec<String> = Vec::new();
    let n = argc(args);
    if n < 3 {
        out.push("USAGE: set <variable> <value>".to_owned());
        assert(super::limits::texts(out@) =~= seq!["USAGE: set <variable> <value>"@]);
        return out;
    }
    let name = argv(args, 1);
    if !name_is_valid(name.as_str()) {
        out.push(concat("invalid variable name: ", name.as_str()));
        assert(super::limits::texts(out@) =~= seq!["invalid variable name: "@ + name@]);
        return out;
    }
    let string = get_combined_string(args, 2);
    set_command(dvars, name.as_str(), string.as_str(), loading_autoexec);
    assert(super::limits::texts(out@) =~= Seq::<Seq<char>>::empty());
    out
}

/// `r` with `bit` added to the flags of the dvar named `name`, if it
/// exists.
pub open spec fn with_flag(r: DvarRegistryView, name: Seq<char>, bit: u32) -> DvarRegistryView {
    if r.dvars.dom().contains(name) {
        DvarRegistryView {
            dvars: r.dvars.insert(name, DvarView { flags: r.dvars[name].flags | bit, ..r.dvars[name] }),
            ..r
        }
    } else {
        r
    }
}

/// The `set` command followed by adding `bit` to the dvar; `usage` is
/// printed first when there are fewer than three arguments.
fn set_and_flag(dvars: &mut DvarRegistry, args: &CmdArgs, loading_autoexec: bool, usage: &str, bit: u32) -> (r: Vec<String>)
    requires
        old(dvars).wf(),
        args.wf(),
        can_set_f(old(dvars), *args),
    ensures
        final(dvars).wf(),
        ({
            let (after, lines) = set_f_effect(old(dvars), *args, loading_autoexec);
            &&& final(dvars)@ == with_flag(after, args.arg(1), bit)
            &&& super::limits::texts(r@) == if args.count() < 3 {
                seq![usage@] + lines
            } else {
                lines
            }
        }),
{
    let mut out: Vec<String> = Vec::new();
    if argc(args) < 3 {
        out.push(usage.to_owned());
    }
    let ghost first = super::limits::texts(out@);
    let mut more = set_f(dvars, args, loading_autoexec);
    out.append(&mut more);
    assert(super::limits::texts(out@) =~= first + set_f_effect(old(dvars), *args, loading_autoexec).1);
    let name = argv(args, 1);
    let _ = add_flags(dvars, name.as_str(), DvarFlags::from_bits(bit));
    out
}

/// The `sets` command: `set`, then marks the dvar as server information.
pub fn sets_f(dvars: &mut DvarRegistry, args: &CmdArgs, loading_autoexec: bool) -> (r: Vec<String>)
    requires
        old(dvars).wf(),
        args.wf(),
        can_set_f(old(dvars), *args),
    ensures
        final(dvars).wf(),
        ({
            let (after, lines) = set_f_effect(old(dvars), *args, loading_autoexec);
            &&& final(dvars)@ == with_flag(after, args.arg(1), DvarFlags::SERVER_INFO)
            &&& super::limits::texts(r@) == if args.count() < 3 {
                seq!["USAGE: sets <variable> <value>\n"@] + lines
            } else {
                lines
            }
        }),
{
    set_and_flag(dvars, args, loading_autoexec, "USAGE: sets <variable> <value>\n", DvarFlags::SERVER_INFO)
}

/// The `seta` command: `set`, then marks the dvar as archived.
pub fn seta_f(dvars: &mut DvarRegistry, args: &CmdArgs, loading_autoexec: bool) -> (r: Vec<String>)
    requires
        old(dvars).wf(),
        args.wf(),
        can_set_f(old(dvars), *args),
    ensures
        final(dvars).wf(),
        ({
            let (after, lines) = set_f_effect(old(dvars), *args, loading_autoexec);
            &&& final(dvars)@ == with_flag(after, args.arg(1), DvarFlags::ARCHIVE)
            &&& super::limits::texts(r@) == if args.count() < 3 {
                seq!["USAGE: seta <variable> <value>\n"@] + lines
            } else {
                lines
            }
        }),
{
    set_and_flag(dvars, args, loading_autoexec, "USAGE: seta <variable> <value>\n", DvarFlags::ARCHIVE)
}

/// The `setu` command: with at least three arguments, `set`, then marks the
/// dvar as user information; the dvar must exist (a fatal error otherwise).
pub fn setu_f(dvars: &mut DvarRegistry, args: &CmdArgs, loading_autoexec: bool) -> (r: Vec<String>)
    requires
        old(dvars).wf(),
        args.wf(),
        can_set_f(old(dvars), *args),
        args.count() >= 3 ==> old(dvars).has(args.arg(1)),
    ensures
        final(dvars).wf(),
        args.count() < 3 ==> final(dvars)@ == old(dvars)@ && super::limits::texts(r@) == seq![
            "USAGE: setu <variable> <value>"@,
        ],
        args.count() >= 3 ==> ({
            let (after, lines) = set_f_effect(old(dvars), *args, loading_autoexec);
            &&& final(dvars)@ == with_flag(after, args.arg(1), DvarFlags::USER_INFO)
            &&& super::limits::texts(r@) == lines
        }),
{
    if argc(args) < 3 {
        let mut out: Vec<String> = Vec::new();
        out.push("USAGE: setu <variable> <value>".to_owned());
        assert(super::limits::texts(out@) =~= seq!["USAGE: setu <variable> <value>"@]);
        return out;
    }
    let out = set_f(dvars, args, loading_autoexec);
    let name = argv(args, 1);
    let _ = add_flags(dvars, name.as_str(), DvarFlags::from_bits(DvarFlags::USER_INFO));
    out
}

/// The `setadminvar` command: for an existing dvar, marks it archived when
/// it allows console access, then runs `set`; otherwise reports the dvar
/// missing. Running `set` there would wait on the registry it already holds,
/// so `requires` leaves only the cases where `set` stops early.
pub fn set_admin_f(dvars: &mut DvarRegistry, args: &CmdArgs, loading_autoexec: bool) -> (r: Vec<String>)
    requires
        old(dvars).wf(),
        args.wf(),
        old(dvars).has(args.arg(1)) ==> (args.count() < 3 || !valid_name(args.arg(1))),
    ensures
        final(dvars).wf(),
        ({
            let usage: Seq<Seq<char>> = if args.count() < 3 {
                seq!["USAGE: setadminvar <variable> <value>\n"@]
            } else {
                Seq::empty()
            };
            if old(dvars).has(args.arg(1)) {
                let d = old(dvars).get(args.arg(1));
                &&& final(dvars)@ == (if d.has(DvarFlags::CON_ACCESS) {
                    with_flag(old(dvars)@, args.arg(1), DvarFlags::ARCHIVE)
                } else {
                    old(dvars)@
                })
                &&& super::limits::texts(r@) == usage + set_f_effect(old(dvars), *args, loading_autoexec).1
            } else {
                &&& final(dvars)@ == old(dvars)@
                &&& super::limits::texts(r@) == usage + seq![
                    "setadmindvar failed: dvar \'"@ + args.arg(1) + "\' not found."@,
                ]
            }
        }),
{
    let mut out: Vec<String> = Vec::new();
    if argc(args) < 3 {
        out.push("USAGE: setadminvar <variable> <value>\n".to_owned());
    }
    let ghost first = super::limits::texts(out@);
    let name = argv(args, 1);
    match find(dvars, name.as_str()) {
        Some(d) => {
            if d.flags.contains_bits(DvarFlags::CON_ACCESS) {
                let _ = add_flags(dvars, name.as_str(), DvarFlags::from_bits(DvarFlags::ARCHIVE));
            }
            let mut more = set_f(dvars, args, loading_autoexec);
            out.append(&mut more);
            assert(super::limits::texts(out@) =~= first + set_f_effect(old(dvars), *args, loading_autoexec).1);
        },
        None => {
            let msg = concat(concat("setadmindvar failed: dvar \'", name.as_str()).as_str(), "\' not found.");
            out.push(msg);
            assert(super::limits::texts(out@) =~= first + seq![
                "setadmindvar failed: dvar \'"@ + args.arg(1) + "\' not found."@,
            ]);
        },
    }
    out
}

/// The `setfromdvar` command: with exactly three arguments, sets the first
/// named dvar to the value of the second. Setting there would wait on the
/// registry it already holds, so `requires` leaves only the usage and the
/// missing source.
pub fn set_from_dvar_f(dvars: &mut DvarRegistry, args: &CmdArgs) -> (r: Vec<String>)
    requires
        old(dvars).wf(),
        args.wf(),
        args.count() == 3 ==> !old(dvars).has(args.arg(2)),
    ensures
        final(dvars)@ == old(dvars)@,
        final(dvars).wf(),
        super::limits::texts(r@) == if args.count() != 3 {
            seq!["USAGE: setfromdvar <dest_dvar> <source_dvar>"@]
        } else {
            seq!["dvar \'"@ + args.arg(2) + "\' doesn\'t exist\n"@]
        },
{
    let mut out: Vec<String> = Vec::new();
    if argc(args) != 3 {
        out.push("USAGE: setfromdvar <dest_dvar> <source_dvar>".to_owned());
        assert(super::limits::texts(out@) =~= seq!["USAGE: setfromdvar <dest_dvar> <source_dvar>"@]);
        return out;
    }
    let source = argv(args, 2);
    if !dvar_exists(dvars, source.as_str()) {
        out.push(concat(concat("dvar \'", source.as_str()).as_str(), "\' doesn\'t exist\n"));
        assert(super::limits::texts(out@) =~= seq!["dvar \'"@ + args.arg(2) + "\' doesn\'t exist\n"@]);
    }
    out
}

/// The `settotime` command: sets the dvar named by the first argument to the
/// time `time`, in decimal.
pub fn set_to_time_f(dvars: &mut DvarRegistry, args: &CmdArgs, loading_autoexec: bool, time: isize) -> (r: Vec<String>)
    requires
        old(dvars).wf(),
        args.wf(),
        (args.count() >= 2 && valid_name(args.arg(1))) ==> old(dvars).can_set(
            args.arg(1),
            DvarValueView::String(decimal_isize(time)),
            SetSource::External,
        ),
    ensures
        final(dvars).wf(),
        args.count() < 2 ==> final(dvars)@ == old(dvars)@ && super::limits::texts(r@) == seq![
            "USAGE: set <variable>"@,
        ],
        args.count() >= 2 && !valid_name(args.arg(1)) ==> final(dvars)@ == old(dvars)@
            && super::limits::texts(r@) == seq!["invalid variable name: "@ + args.arg(1) + "\n"@],
        args.count() >= 2 && valid_name(args.arg(1)) ==> final(dvars)@ == after_set_command(
            old(dvars),
            args.arg(1),
            decimal_isize(time),
            loading_autoexec,
        ) && r@.len() == 0,
{
    let mut out: Vec<String> = Vec::new();
    if argc(args) < 2 {
        out.push("USAGE: set <variable>".to_owned());
        assert(super::limits::texts(out@) =~= seq!["USAGE: set <variable>"@]);
        return out;
    }
    let name = argv(args, 1);
    if !name_is_valid(name.as_str()) {
        out.push(concat(concat("invalid variable name: ", name.as_str()).as_str(), "\n"));
        assert(super::limits::texts(out@) =~= seq!["invalid variable name: "@ + args.arg(1) + "\n"@]);
        return out;
    }
    let text = isize_to_string(time);
    set_command(dvars, name.as_str(), text.as_str(), loading_autoexec);
    out
}

/// The `reset` command: with exactly two arguments, sets the named dvar to
/// its reset value from outside.
pub fn reset_f(dvars: &mut DvarRegistry, args: &CmdArgs) -> (r: Vec<String>)
    requires
        old(dvars).wf(),
        args.wf(),
        (args.count() == 2 && old(dvars).has(args.arg(1))) ==> old(dvars).get(args.arg(1)).can_set_variant(
            old(dvars).get(args.arg(1)).reset,
            SetSource::External,
        ),
    ensures
        final(dvars).wf(),
        args.count() != 2 ==> final(dvars)@ == old(dvars)@ && super::limits::texts(r@) == seq![
            "USAGE: reset <variable>"@,
        ],
        args.count() == 2 ==> r@.len() == 0 && final(dvars)@ == if old(dvars).has(args.arg(1)) {
            old(dvars).after_set(args.arg(1), old(dvars).get(args.arg(1)).reset, SetSource::External)
        } else {
            old(dvars)@
        },
{
    let mut out: Vec<String> = Vec::new();
    if argc(args) != 2 {
        out.push("USAGE: reset <variable>".to_owned());
        assert(super::limits::texts(out@) =~= seq!["USAGE: reset <variable>"@]);
        return out;
    }
    let name = argv(args, 1);
    if dvar_exists(dvars, name.as_str()) {
        dvars.reset_at(name.as_str(), SetSource::External);
    }
    out
}

/// The `dvar_bool` command: declares an external boolean dvar. An existing
/// dvar that holds anything but a string is reported as not boolean. The
/// default must read as a boolean, and an existing external string dvar
/// cannot be declared again (both fatal errors).
pub fn register_bool_f(dvars: &mut DvarRegistry, args: &CmdArgs) -> (r: Vec<String>)
    requires
        old(dvars).wf(),
        args.wf(),
        spec_parse_bool(args.arg(2)) is Some,
        old(dvars).has(args.arg(1)) && old(dvars).get(args.arg(1)).current is String ==> !old(
            dvars,
        ).get(args.arg(1)).has(DvarFlags::EXTERNAL),
    ensures
        final(dvars)@ == old(dvars)@,
        final(dvars).wf(),
        ({
            let usage: Seq<Seq<char>> = if args.count() != 3 {
                seq!["USAGE: "@ + args.arg(0) + " <name> <default>"@]
            } else {
                Seq::empty()
            };
            super::limits::texts(r@) == if old(dvars).has(args.arg(1)) && !(old(dvars).get(
                args.arg(1),
            ).current is String) {
                usage + seq!["dvar \'"@ + args.arg(1) + "\' is not a boolean dvar"@]
            } else {
                usage
            }
        }),
{
    let mut out: Vec<String> = Vec::new();
    if argc(args) != 3 {
        let cmd = argv(args, 0);
        out.push(concat(concat("USAGE: ", cmd.as_str()).as_str(), " <name> <default>"));
    }
    let ghost first = super::limits::texts(out@);
    let name = argv(args, 1);
    let value_text = argv(args, 2);
    let _value = parse_bool(value_text.as_str()).unwrap();
    match find(dvars, name.as_str()) {
        None => {},
        Some(d) => match d.current {
            DvarValue::String(_) => {},
            _ => {
                out.push(concat(concat("dvar \'", name.as_str()).as_str(), "\' is not a boolean dvar"));
                assert(super::limits::texts(out@) =~= first + seq![
                    "dvar \'"@ + args.arg(1) + "\' is not a boolean dvar"@,
                ]);
            },
        },
    }
    out
}

/// Whether `a` orders after `b`, where no value orders before any value.
pub open spec fn option_gt(a: Option<i32>, b: Option<i32>) -> bool {
    match (a, b) {
        (Some(x), Some(y)) => x > y,
        (Some(_), None) => true,
        _ => false,
    }
}

/// The `dvar_int` command: with exactly five arguments, declares an
/// external integer dvar with the given default, minimum and maximum. An
/// existing dvar that holds no integer, enumeration or string is reported.
/// An existing external string dvar cannot be declared again, and the
/// registry must have room (both fatal errors).
pub fn register_int_f(dvars: &mut DvarRegistry, args: &CmdArgs) -> (r: Vec<String>)
    requires
        old(dvars).wf(),
        args.wf(),
        ({
            let name = args.arg(1);
            let min = parsed_i32(args.arg(3));
            let max = parsed_i32(args.arg(4));
            (args.count() == 5 && !option_gt(min, max)) ==> {
                &&& !old(dvars).has(name) ==> old(dvars)@.count < super::global_fns::DVAR_COUNT_MAX
                &&& (old(dvars).has(name) && old(dvars).get(name).current is String) ==> !old(dvars).get(
                    name,
                ).has(DvarFlags::EXTERNAL)
            }
        }),
    ensures
        final(dvars).wf(),
        ({
            let name = args.arg(1);
            let value = parsed_i32(args.arg(2));
            let min = parsed_i32(args.arg(3));
            let max = parsed_i32(args.arg(4));
            if args.count() != 5 {
                &&& final(dvars)@ == old(dvars)@
                &&& super::limits::texts(r@) == seq!["USAGE: "@ + args.arg(0) + " <name> <default> <min> <max>"@]
            } else if option_gt(min, max) {
                &&& final(dvars)@ == old(dvars)@
                &&& super::limits::texts(r@) == seq![
                    "dvar "@ + name + ": min "@ + decimal_i32(min.unwrap_or(0))
                        + " should not be greater than max "@ + decimal_i32(max.unwrap_or(0)) + "i\n"@,
                ]
            } else if !old(dvars).has(name) {
                &&& final(dvars)@ == old(dvars).after_register(
                    fresh_dvar(
                        name,
                        "External Dvar"@,
                        DvarFlags::EXTERNAL,
                        int_domain(min, max),
                        DvarValueView::Int(value.unwrap_or(0)),
                    ),
                )
                &&& r@.len() == 0
            } else {
                let c = old(dvars).get(name).current;
                &&& final(dvars)@ == old(dvars)@
                &&& super::limits::texts(r@) == if c is String || c is Int || c is Enumeration {
                    Seq::<Seq<char>>::empty()
                } else {
                    seq!["dvar \'"@ + name + "\' is not an integer dvar"@]
                }
            }
        }),
{
    let mut out: Vec<String> = Vec::new();
    if argc(args) != 5 {
        let cmd = argv(args, 0);
        out.push(concat(concat("USAGE: ", cmd.as_str()).as_str(), " <name> <default> <min> <max>"));
        assert(super::limits::texts(out@) =~= seq!["USAGE: "@ + args.arg(0) + " <name> <default> <min> <max>"@]);
        return out;
    }
    let name = argv(args, 1);
    let value = parse_i32(argv(args, 2).as_str());
    let min = parse_i32(argv(args, 3).as_str());
    let max = parse_i32(argv(args, 4).as_str());
    let greater = match (min, max) {
        (Some(x), Some(y)) => x > y,
        (Some(_), None) => true,
        _ => false,
    };
    if greater {
        let lo = match min {
            Some(x) => x,
            None => 0,
        };
        let hi = match max {
            Some(x) => x,
            None => 0,
        };
        let m1 = concat("dvar ", name.as_str());
        let m2 = concat(m1.as_str(), ": min ");
        let m3 = concat(m2.as_str(), i32_text(lo).as_str());
        let m4 = concat(m3.as_str(), " should not be greater than max ");
        let m5 = concat(m4.as_str(), i32_text(hi).as_str());
        let msg = concat(m5.as_str(), "i\n");
        out.push(msg);
        assert(super::limits::texts(out@) =~= seq![
            "dvar "@ + args.arg(1) + ": min "@ + decimal_i32(min.unwrap_or(0))
                + " should not be greater than max "@ + decimal_i32(max.unwrap_or(0)) + "i\n"@,
        ]);
        return out;
    }
    match find(dvars, name.as_str()) {
        None => {
            let v = match value {
                Some(x) => x,
                None => 0,
            };
            let _ = register_int(
                dvars,
                name.as_str(),
                v,
                min,
                max,
                DvarFlags::from_bits(DvarFlags::EXTERNAL),
                Some("External Dvar"),
            );
        },
        Some(d) => match d.current {
            DvarValue::String(_) => {},
            DvarValue::Int(_) => {},
            DvarValue::Enumeration(_) => {},
            _ => {
                out.push(concat(concat("dvar \'", name.as_str()).as_str(), "\' is not an integer dvar"));
                assert(super::limits::texts(out@) =~= seq!["dvar \'"@ + args.arg(1) + "\' is not an integer dvar"@]);
            },
        },
    }
    out
}


/// Whether `value` is of a kind that `domain` can hold (see [`compatible`]).
fn is_compatible(domain: &DvarLimits, value: &DvarValue) -> (r: bool)
    ensures
        r == compatible(domain@, value@),
{
    match value {
        DvarValue::Int(_) => match domain {
            DvarLimits::Int(_) => true,
            _ => false,
        },
        DvarValue::Int64(_) => match domain {
            DvarLimits::Int64(_) => true,
            _ => false,
        },
        DvarValue::Enumeration(_) => match domain {
            DvarLimits::Enumeration(_) => true,
            _ => false,
        },
        _ => true,
    }
}

/// Whether setting `value` on the dvar named `name` from `source` is safe
/// to ask for (see [`DvarRegistry::can_set`]).
pub fn can_set(dvars: &DvarRegistry, name: &str, value: &DvarValue, source: SetSource) -> (r: bool)
    requires
        dvars.wf(),
    ensures
        r == dvars.can_set(name@, value@, source),
{
    let d = match dvars.get_ref(name) {
        Some(d) => d,
        None => return true,
    };
    if !is_compatible(&d.domain, value) {
        return false;
    }
    match value {
        DvarValue::Enumeration(_) => {
            if Dvar::value_is_in_domain(&d.domain, value) {
                return true;
            }
            if !is_compatible(&d.domain, &d.reset) {
                return false;
            }
            match &d.reset {
                DvarValue::Enumeration(_) => Dvar::value_is_in_domain(&d.domain, &d.reset),
                _ => true,
            }
        },
        _ => true,
    }
}

/// The `settotime` command where it is safe to run (see [`set_to_time_f`]);
/// none, and nothing changed, where setting the time text would be refused.
pub fn set_to_time_checked(dvars: &mut DvarRegistry, args: &CmdArgs, loading_autoexec: bool, time: isize) -> (r: Option<Vec<String>>)
    requires
        old(dvars).wf(),
        args.wf(),
    ensures
        final(dvars).wf(),
        ((args.count() >= 2 && valid_name(args.arg(1))) ==> old(dvars).can_set(
            args.arg(1),
            DvarValueView::String(decimal_isize(time)),
            SetSource::External,
        )) ==> r is Some,
        r is None ==> final(dvars)@ == old(dvars)@,
        r matches Some(out) ==> {
            &&& args.count() < 2 ==> final(dvars)@ == old(dvars)@ && super::limits::texts(out@) == seq!["USAGE: set <variable>"@]
            &&& args.count() >= 2 && !valid_name(args.arg(1)) ==> final(dvars)@ == old(dvars)@
                && super::limits::texts(out@) == seq!["invalid variable name: "@ + args.arg(1) + "\n"@]
            &&& args.count() >= 2 && valid_name(args.arg(1)) ==> final(dvars)@ == after_set_command(
                old(dvars),
                args.arg(1),
                decimal_isize(time),
                loading_autoexec,
            ) && out@.len() == 0
        },
{
    if argc(args) >= 2 {
        let name = argv(args, 1);
        if name_is_valid(name.as_str()) {
            let v = DvarValue::String(isize_to_string(time));
            if !can_set(dvars, name.as_str(), &v, SetSource::External) {
                return None;
            }
        }
    }
    Some(set_to_time_f(dvars, args, loading_autoexec, time))
}

/// Whether `a` is above `b`, as options of integers compare.
fn option_above(a: Option<i32>, b: Option<i32>) -> (r: bool)
    ensures
        r == option_gt(a, b),
{
    match (a, b) {
        (Some(x), Some(y)) => x > y,
        (Some(_), None) => true,
        _ => false,
    }
}

/// The `dvar_int` command where it is safe to run (see
/// [`register_int_f`]); none, and nothing changed, where registering would
/// fail: the registry is full, or an external string dvar of that name
/// would be registered again.
pub fn register_int_checked(dvars: &mut DvarRegistry, args: &CmdArgs) -> (r: Option<Vec<String>>)
    requires
        old(dvars).wf(),
        args.wf(),
    ensures
        final(dvars).wf(),
        r is None ==> final(dvars)@ == old(dvars)@,
        ({
            let name = args.arg(1);
            let min = parsed_i32(args.arg(3));
            let max = parsed_i32(args.arg(4));
            (args.count() == 5 && !option_gt(min, max)) ==> {
                &&& !old(dvars).has(name) ==> old(dvars)@.count < super::global_fns::DVAR_COUNT_MAX
                &&& (old(dvars).has(name) && old(dvars).get(name).current is String) ==> !old(dvars).get(
                    name,
                ).has(DvarFlags::EXTERNAL)
            }
        }) <==> r is Some,
{
    if argc(args) == 5 {
        let name = argv(args, 1);
        let min = parse_i32(argv(args, 3).as_str());
        let max = parse_i32(argv(args, 4).as_str());
        if !option_above(min, max) {
            match dvars.get_ref(name.as_str()) {
                None => {
                    if dvars.len() >= super::global_fns::DVAR_COUNT_MAX {
                        return None;
                    }
                },
                Some(d) => {
                    let is_string = match d.current {
                        DvarValue::String(_) => true,
                        _ => false,
                    };
                    if is_string && d.flags.contains(DvarFlags::from_bits(DvarFlags::EXTERNAL)) {
                        return None;
                    }
                },
            }
        }
    }
    Some(register_int_f(dvars, args))
}


/// A command of the dvar system, as the command registry holds it.
#[derive(Copy, Clone, Debug, PartialEq, Eq, Structural)]
pub enum DvarCommand {
    Toggle,
    TogglePrint,
    SetValue,
    Sets,
    Seta,
    SetAdminVar,
    SetModDvar,
    SetFromDvar,
    SetFromLocString,
    Reset,
    List,
    Dump,
    RegisterBool,
    RegisterInt,
    RegisterFloat,
    RegisterColor,
    Setu,
    SetAllClientDvars,
    RestoreDvars,
    ListSaved,
}

/// The names of the dvar system's commands, in the order they are added.
pub open spec fn dvar_command_names() -> Seq<Seq<char>> {
    seq![
        "toggle"@,
        "togglep"@,
        "set"@,
        "sets"@,
        "seta"@,
        "setadminvar"@,
        "setmoddvar"@,
        "setfromdvar"@,
        "setfromlocString"@,
        "reset"@,
        "dvarlist"@,
        "dvardump"@,
        "dvar_bool"@,
        "dvar_int"@,
        "dvar_float"@,
        "dvar_color"@,
        "setu"@,
        "setAllClientDvars"@,
        "restoreDvars"@,
        "dvarlist_saved"@,
    ]
}

/// The dvar system's commands, in the order they are added.
pub open spec fn dvar_commands() -> Seq<DvarCommand> {
    seq![
        DvarCommand::Toggle,
        DvarCommand::TogglePrint,
        DvarCommand::SetValue,
        DvarCommand::Sets,
        DvarCommand::Seta,
        DvarCommand::SetAdminVar,
        DvarCommand::SetModDvar,
        DvarCommand::SetFromDvar,
        DvarCommand::SetFromLocString,
        DvarCommand::Reset,
        DvarCommand::List,
        DvarCommand::Dump,
        DvarCommand::RegisterBool,
        DvarCommand::RegisterInt,
        DvarCommand::RegisterFloat,
        DvarCommand::RegisterColor,
        DvarCommand::Setu,
        DvarCommand::SetAllClientDvars,
        DvarCommand::RestoreDvars,
        DvarCommand::ListSaved,
    ]
}

/// No two of the dvar system's commands share a name.
pub proof fn lemma_dvar_command_names_distinct()
    ensures
        dvar_command_names().len() == 20,
        forall|a: int, b: int| 0 <= a < b < 20 ==> dvar_command_names()[a] != dvar_command_names()[b],
{
    reveal_strlit("toggle");
    reveal_strlit("togglep");
    reveal_strlit("set");
    reveal_strlit("sets");
    reveal_strlit("seta");
    reveal_strlit("setadminvar");
    reveal_strlit("setmoddvar");
    reveal_strlit("setfromdvar");
    reveal_strlit("setfromlocString");
    reveal_strlit("reset");
    reveal_strlit("dvarlist");
    reveal_strlit("dvardump");
    reveal_strlit("dvar_bool");
    reveal_strlit("dvar_int");
    reveal_strlit("dvar_float");
    reveal_strlit("dvar_color");
    reveal_strlit("setu");
    reveal_strlit("setAllClientDvars");
    reveal_strlit("restoreDvars");
    reveal_strlit("dvarlist_saved");
    assert("toggle"@.len() != "togglep"@.len());
    assert("toggle"@.len() != "set"@.len());
    assert("toggle"@.len() != "sets"@.len());
    assert("toggle"@.len() != "seta"@.len());
    assert("toggle"@.len() != "setadminvar"@.len());
    assert("toggle"@.len() != "setmoddvar"@.len());
    assert("toggle"@.len() != "setfromdvar"@.len());
    assert("toggle"@.len() != "setfromlocString"@.len());
    assert("toggle"@.len() != "reset"@.len());
    assert("toggle"@.len() != "dvarlist"@.len());
    assert("toggle"@.len() != "dvardump"@.len());
    assert("toggle"@.len() != "dvar_bool"@.len());
    assert("toggle"@.len() != "dvar_int"@.len());
    assert("toggle"@.len() != "dvar_float"@.len());
    assert("toggle"@.len() != "dvar_color"@.len());
    assert("toggle"@.len() != "setu"@.len());
    assert("toggle"@.len() != "setAllClientDvars"@.len());
    assert("toggle"@.len() != "restoreDvars"@.len());
    assert("toggle"@.len() != "dvarlist_saved"@.len());
    assert("togglep"@.len() != "set"@.len());
    assert("togglep"@.len() != "sets"@.len());
    assert("togglep"@.len() != "seta"@.len());
    assert("togglep"@.len() != "setadminvar"@.len());
    assert("togglep"@.len() != "setmoddvar"@.len());
    assert("togglep"@.len() != "setfromdvar"@.len());
    assert("togglep"@.len() != "setfromlocString"@.len());
    assert("togglep"@.len() != "reset"@.len());
    assert("togglep"@.len() != "dvarlist"@.len());
    assert("togglep"@.len() != "dvardump"@.len());
    assert("togglep"@.len() != "dvar_bool"@.len());
    assert("togglep"@.len() != "dvar_int"@.len());
    assert("togglep"@.len() != "dvar_float"@.len());
    assert("togglep"@.len() != "dvar_color"@.len());
    assert("togglep"@.len() != "setu"@.len());
    assert("togglep"@.len() != "setAllClientDvars"@.len());
    assert("togglep"@.len() != "restoreDvars"@.len());
    assert("togglep"@.len() != "dvarlist_saved"@.len());
    assert("set"@.len() != "sets"@.len());
    assert("set"@.len() != "seta"@.len());
    assert("set"@.len() != "setadminvar"@.len());
    assert("set"@.len() != "setmoddvar"@.len());
    assert("set"@.len() != "setfromdvar"@.len());
    assert("set"@.len() != "setfromlocString"@.len());
    assert("set"@.len() != "reset"@.len());
    assert("set"@.len() != "dvarlist"@.len());
    assert("set"@.len() != "dvardump"@.len());
    assert("set"@.len() != "dvar_bool"@.len());
    assert("set"@.len() != "dvar_int"@.len());
    assert("set"@.len() != "dvar_float"@.len());
    assert("set"@.len() != "dvar_color"@.len());
    assert("set"@.len() != "setu"@.len());
    assert("set"@.len() != "setAllClientDvars"@.len());
    assert("set"@.len() != "restoreDvars"@.len());
    assert("set"@.len() != "dvarlist_saved"@.len());
    assert("sets"@[3] != "seta"@[3]);
    assert("sets"@.len() != "setadminvar"@.len());
    assert("sets"@.len() != "setmoddvar"@.len());
    assert("sets"@.len() != "setfromdvar"@.len());
    assert("sets"@.len() != "setfromlocString"@.len());
    assert("sets"@.len() != "reset"@.len());
    assert("sets"@.len() != "dvarlist"@.len());
    assert("sets"@.len() != "dvardump"@.len());
    assert("sets"@.len() != "dvar_bool"@.len());
    assert("sets"@.len() != "dvar_int"@.len());
    assert("sets"@.len() != "dvar_float"@.len());
    assert("sets"@.len() != "dvar_color"@.len());
    assert("sets"@[3] != "setu"@[3]);
    assert("sets"@.len() != "setAllClientDvars"@.len());
    assert("sets"@.len() != "restoreDvars"@.len());
    assert("sets"@.len() != "dvarlist_saved"@.len());
    assert("seta"@.len() != "setadminvar"@.len());
    assert("seta"@.len() != "setmoddvar"@.len());
    assert("seta"@.len() != "setfromdvar"@.len());
    assert("seta"@.len() != "setfromlocString"@.len());
    assert("seta"@.len() != "reset"@.len());
    assert("seta"@.len() != "dvarlist"@.len());
    assert("seta"@.len() != "dvardump"@.len());
    assert("seta"@.len() != "dvar_bool"@.len());
    assert("seta"@.len() != "dvar_int"@.len());
    assert("seta"@.len() != "dvar_float"@.len());
    assert("seta"@.len() != "dvar_color"@.len());
    assert("seta"@[3] != "setu"@[3]);
    assert("seta"@.len() != "setAllClientDvars"@.len());
    assert("seta"@.len() != "restoreDvars"@.len());
    assert("seta"@.len() != "dvarlist_saved"@.len());
    assert("setadminvar"@.len() != "setmoddvar"@.len());
    assert("setadminvar"@[3] != "setfromdvar"@[3]);
    assert("setadminvar"@.len() != "setfromlocString"@.len());
    assert("setadminvar"@.len() != "reset"@.len());
    assert("setadminvar"@.len() != "dvarlist"@.len());
    assert("setadminvar"@.len() != "dvardump"@.len());
    assert("setadminvar"@.len() != "dvar_bool"@.len());
    assert("setadminvar"@.len() != "dvar_int"@.len());
    assert("setadminvar"@.len() != "dvar_float"@.len());
    assert("setadminvar"@.len() != "dvar_color"@.len());
    assert("setadminvar"@.len() != "setu"@.len());
    assert("setadminvar"@.len() != "setAllClientDvars"@.len());
    assert("setadminvar"@.len() != "restoreDvars"@.len());
    assert("setadminvar"@.len() != "dvarlist_saved"@.len());
    assert("setmoddvar"@.len() != "setfromdvar"@.len());
    assert("setmoddvar"@.len() != "setfromlocString"@.len());
    assert("setmoddvar"@.len() != "reset"@.len());
    assert("setmoddvar"@.len() != "dvarlist"@.len());
    assert("setmoddvar"@.len() != "dvardump"@.len());
    assert("setmoddvar"@.len() != "dvar_bool"@.len());
    assert("setmoddvar"@.len() != "dvar_int"@.len());
    assert("setmoddvar"@[0] != "dvar_float"@[0]);
    assert("setmoddvar"@[0] != "dvar_color"@[0]);
    assert("setmoddvar"@.len() != "setu"@.len());
    assert("setmoddvar"@.len() != "setAllClientDvars"@.len());
    assert("setmoddvar"@.len() != "restoreDvars"@.len());
    assert("setmoddvar"@.len() != "dvarlist_saved"@.len());
    assert("setfromdvar"@.len() != "setfromlocString"@.len());
    assert("setfromdvar"@.len() != "reset"@.len());
    assert("setfromdvar"@.len() != "dvarlist"@.len());
    assert("setfromdvar"@.len() != "dvardump"@.len());
    assert("setfromdvar"@.len() != "dvar_bool"@.len());
    assert("setfromdvar"@.len() != "dvar_int"@.len());
    assert("setfromdvar"@.len() != "dvar_float"@.len());
    assert("setfromdvar"@.len() != "dvar_color"@.len());
    assert("setfromdvar"@.len() != "setu"@.len());
    assert("setfromdvar"@.len() != "setAllClientDvars"@.len());
    assert("setfromdvar"@.len() != "restoreDvars"@.len());
    assert("setfromdvar"@.len() != "dvarlist_saved"@.len());
    assert("setfromlocString"@.len() != "reset"@.len());
    assert("setfromlocString"@.len() != "dvarlist"@.len());
    assert("setfromlocString"@.len() != "dvardump"@.len());
    assert("setfromlocString"@.len() != "dvar_bool"@.len());
    assert("setfromlocString"@.len() != "dvar_int"@.len());
    assert("setfromlocString"@.len() != "dvar_float"@.len());
    assert("setfromlocString"@.len() != "dvar_color"@.len());
    assert("setfromlocString"@.len() != "setu"@.len());
    assert("setfromlocString"@.len() != "setAllClientDvars"@.len());
    assert("setfromlocString"@.len() != "restoreDvars"@.len());
    assert("setfromlocString"@.len() != "dvarlist_saved"@.len());
    assert("reset"@.len() != "dvarlist"@.len());
    assert("reset"@.len() != "dvardump"@.len());
    assert("reset"@.len() != "dvar_bool"@.len());
    assert("reset"@.len() != "dvar_int"@.len());
    assert("reset"@.len() != "dvar_float"@.len());
    assert("reset"@.len() != "dvar_color"@.len());
    assert("reset"@.len() != "setu"@.len());
    assert("reset"@.len() != "setAllClientDvars"@.len());
    assert("reset"@.len() != "restoreDvars"@.len());
    assert("reset"@.len() != "dvarlist_saved"@.len());
    assert("dvarlist"@[4] != "dvardump"@[4]);
    assert("dvarlist"@.len() != "dvar_bool"@.len());
    assert("dvarlist"@[4] != "dvar_int"@[4]);
    assert("dvarlist"@.len() != "dvar_float"@.len());
    assert("dvarlist"@.len() != "dvar_color"@.len());
    assert("dvarlist"@.len() != "setu"@.len());
    assert("dvarlist"@.len() != "setAllClientDvars"@.len());
    assert("dvarlist"@.len() != "restoreDvars"@.len());
    assert("dvarlist"@.len() != "dvarlist_saved"@.len());
    assert("dvardump"@.len() != "dvar_bool"@.len());
    assert("dvardump"@[4] != "dvar_int"@[4]);
    assert("dvardump"@.len() != "dvar_float"@.len());
    assert("dvardump"@.len() != "dvar_color"@.len());
    assert("dvardump"@.len() != "setu"@.len());
    assert("dvardump"@.len() != "setAllClientDvars"@.len());
    assert("dvardump"@.len() != "restoreDvars"@.len());
    assert("dvardump"@.len() != "dvarlist_saved"@.len());
    assert("dvar_bool"@.len() != "dvar_int"@.len());
    assert("dvar_bool"@.len() != "dvar_float"@.len());
    assert("dvar_bool"@.len() != "dvar_color"@.len());
    assert("dvar_bool"@.len() != "setu"@.len());
    assert("dvar_bool"@.len() != "setAllClientDvars"@.len());
    assert("dvar_bool"@.len() != "restoreDvars"@.len());
    assert("dvar_bool"@.len() != "dvarlist_saved"@.len());
    assert("dvar_int"@.len() != "dvar_float"@.len());
    assert("dvar_int"@.len() != "dvar_color"@.len());
    assert("dvar_int"@.len() != "setu"@.len());
    assert("dvar_int"@.len() != "setAllClientDvars"@.len());
    assert("dvar_int"@.len() != "restoreDvars"@.len());
    assert("dvar_int"@.len() != "dvarlist_saved"@.len());
    assert("dvar_float"@[5] != "dvar_color"@[5]);
    assert("dvar_float"@.len() != "setu"@.len());
    assert("dvar_float"@.len() != "setAllClientDvars"@.len());
    assert("dvar_float"@.len() != "restoreDvars"@.len());
    assert("dvar_float"@.len() != "dvarlist_saved"@.len());
    assert("dvar_color"@.len() != "setu"@.len());
    assert("dvar_color"@.len() != "setAllClientDvars"@.len());
    assert("dvar_color"@.len() != "restoreDvars"@.len());
    assert("dvar_color"@.len() != "dvarlist_saved"@.len());
    assert("setu"@.len() != "setAllClientDvars"@.len());
    assert("setu"@.len() != "restoreDvars"@.len());
    assert("setu"@.len() != "dvarlist_saved"@.len());
    assert("setAllClientDvars"@.len() != "restoreDvars"@.len());
    assert("setAllClientDvars"@.len() != "dvarlist_saved"@.len());
    assert("restoreDvars"@.len() != "dvarlist_saved"@.len());
}

/// The registry entry of the dvar system's command `i`: its name, no
/// completion, and the command.
pub open spec fn dvar_command_entry(i: int) -> CmdFunctionView<DvarCommand> {
    CmdFunctionView {
        name: dvar_command_names()[i],
        auto_complete_dir: Seq::<char>::empty(),
        auto_complete_ext: Seq::<char>::empty(),
        function: dvar_commands()[i],
    }
}

/// Adds the dvar system's commands (see [`dvar_command_names`]), none of
/// which may be registered yet; the commands registered before stay.
pub fn add_commands(cmds: &mut CmdRegistry<DvarCommand>)
    requires
        old(cmds).wf(),
        forall|i: int| 0 <= i < 20 ==> !old(cmds).has(#[trigger] dvar_command_names()[i]),
    ensures
        final(cmds).wf(),
        forall|i: int| 0 <= i < 20 ==> final(cmds).has(#[trigger] dvar_command_names()[i])
            && final(cmds)@.commands[dvar_command_names()[i]] == dvar_command_entry(i),
        forall|n: Seq<char>| old(cmds).has(n) ==> final(cmds).has(n) && final(cmds)@.commands[n]
            == old(cmds)@.commands[n],
        forall|n: Seq<char>| #[trigger] final(cmds).has(n) ==> old(cmds).has(n) || dvar_command_names().contains(n),
{
    let names: [&'static str; 20] = [
            "toggle",
            "togglep",
            "set",
            "sets",
            "seta",
            "setadminvar",
            "setmoddvar",
            "setfromdvar",
            "setfromlocString",
            "reset",
            "dvarlist",
            "dvardump",
            "dvar_bool",
            "dvar_int",
            "dvar_float",
            "dvar_color",
            "setu",
            "setAllClientDvars",
            "restoreDvars",
            "dvarlist_saved",
        ];
    let commands: [DvarCommand; 20] = [
            DvarCommand::Toggle,
            DvarCommand::TogglePrint,
            DvarCommand::SetValue,
            DvarCommand::Sets,
            DvarCommand::Seta,
            DvarCommand::SetAdminVar,
            DvarCommand::SetModDvar,
            DvarCommand::SetFromDvar,
            DvarCommand::SetFromLocString,
            DvarCommand::Reset,
            DvarCommand::List,
            DvarCommand::Dump,
            DvarCommand::RegisterBool,
            DvarCommand::RegisterInt,
            DvarCommand::RegisterFloat,
            DvarCommand::RegisterColor,
            DvarCommand::Setu,
            DvarCommand::SetAllClientDvars,
            DvarCommand::RestoreDvars,
            DvarCommand::ListSaved,
        ];
    proof {
        lemma_dvar_command_names_distinct();
    }
    assert(forall|k: int| 0 <= k < 20 ==> (#[trigger] names@[k])@ == dvar_command_names()[k]);
    assert(commands@ == dvar_commands());
    let mut i: usize = 0;
    while i < 20
        invariant
            i <= 20,
            cmds.wf(),
            forall|k: int| 0 <= k < 20 ==> (#[trigger] names@[k])@ == dvar_command_names()[k],
            commands@ == dvar_commands(),
            forall|a: int, b: int| 0 <= a < b < 20 ==> dvar_command_names()[a] != dvar_command_names()[b],
            forall|k: int| i <= k < 20 ==> !cmds.has(#[trigger] dvar_command_names()[k]),
            forall|k: int| 0 <= k < i ==> cmds.has(#[trigger] dvar_command_names()[k])
                && cmds@.commands[dvar_command_names()[k]] == dvar_command_entry(k),
            forall|n: Seq<char>| old(cmds).has(n) ==> cmds.has(n) && cmds@.commands[n] == old(cmds)@.commands[n],
            forall|n: Seq<char>| #[trigger] cmds.has(n) ==> old(cmds).has(n) || exists|k: int| 0 <= k < i && dvar_command_names()[k] == n,
            forall|k: int| 0 <= k < 20 ==> !old(cmds).has(#[trigger] dvar_command_names()[k]),
        decreases 20 - i,
    {
        let name = names[i];
        let ghost before = cmds@;
        assert forall|n: Seq<char>| #[trigger] before.commands.dom().contains(n) implies old(cmds).has(n) || exists|k: int| 0 <= k < i && dvar_command_names()[k] == n by {
            assert(cmds.has(n));
        }
        let _ = add_internal(cmds, name, commands[i]);
        proof {
            assert(name@ == dvar_command_names()[i as int]);
            assert forall|n: Seq<char>| #[trigger] cmds.has(n) implies old(cmds).has(n) || exists|k: int| 0 <= k < i + 1 && dvar_command_names()[k] == n by {
                if n == dvar_command_names()[i as int] {
                    assert(dvar_command_names()[i as int] == n);
                } else {
                    assert(before.commands.dom().contains(n));
                }
            }
        }
        i = i + 1;
    }
    proof {
        assert forall|n: Seq<char>| #[trigger] cmds.has(n) implies old(cmds).has(n) || dvar_command_names().contains(n) by {
            if !old(cmds).has(n) {
                let k = choose|k: int| 0 <= k < 20 && dvar_command_names()[k] == n;
                assert(dvar_command_names()[k] == n);
            }
        }
    }
}

/// Sets the dvars loaded from a saved game back to their saved values (see
/// [`DvarRegistry::restore_saved`]) when the dvar "sv_restoreDvars" is
/// true; nothing happens when it is false. That dvar must exist and hold a
/// boolean.
pub fn restore_dvars(dvars: &mut DvarRegistry)
    requires
        old(dvars).wf(),
        spec_get_bool(old(dvars)@, "sv_restoreDvars"@) is Some,
        spec_get_bool(old(dvars)@, "sv_restoreDvars"@) == Some(true) ==> old(dvars).can_restore(),
    ensures
        final(dvars).wf(),
        spec_get_bool(old(dvars)@, "sv_restoreDvars"@) == Some(false) ==> final(dvars)@ == old(dvars)@,
        spec_get_bool(old(dvars)@, "sv_restoreDvars"@) == Some(true) ==> {
            &&& final(dvars)@.count == old(dvars)@.count
            &&& final(dvars)@.active == old(dvars)@.active
            &&& final(dvars)@.dvars.dom() == old(dvars)@.dvars.dom()
            &&& forall|n: Seq<char>| #[trigger] old(dvars).has(n) ==> final(dvars).get(n) == restored_dvar(old(dvars).get(n))
            &&& final(dvars)@.modified_flags & old(dvars)@.modified_flags == old(dvars)@.modified_flags
            &&& forall|n: Seq<char>| #[trigger] old(dvars).has(n) && final(dvars).get(n).current != old(dvars).get(n).current
                ==> final(dvars)@.modified_flags & old(dvars).get(n).flags == old(dvars).get(n).flags
        },
{
    let on = match get_bool(dvars, "sv_restoreDvars") {
        Some(b) => b,
        None => false,
    };
    if !on {
        return;
    }
    dvars.restore_saved();
}


/// The listing lines of the first `n` dvars of `s` (see [`listed_line`]).
pub open spec fn listed_lines(s: Seq<DvarView>, restricted: bool, n: int) -> Seq<Seq<char>>
    decreases n,
{
    if n <= 0 {
        Seq::empty()
    } else {
        match listed_line(s[n - 1], restricted) {
            Some(l) => listed_lines(s, restricted, n - 1).push(l),
            None => listed_lines(s, restricted, n - 1),
        }
    }
}

/// The `dvarlist` command: the listing line of each dvar (see
/// [`listed_line`]), in the order they were registered, and then the
/// number listed.
pub fn list_f(dvars: &DvarRegistry, args: &CmdArgs) -> (r: Vec<String>)
    requires
        dvars.wf(),
        args.wf(),
    ensures
        r@.len() >= 1,
        super::limits::texts(r@).drop_last() == listed_lines(dvars.listing(), access_restricted(dvars@), dvars@.count as int),
        r@.last()@ == "\n"@ + decimal_usize((r@.len() - 1) as usize) + " total dvars"@,
{
    let filter_name = argv(args, 1);
    let mut out: Vec<String> = Vec::new();
    let n = dvars.len();
    let mut count: usize = 0;
    let mut i: usize = 0;
    while i < n
        invariant
            dvars.wf(),
            n == dvars@.count,
            i <= n,
            count == out@.len(),
            count <= i,
            super::limits::texts(out@) == listed_lines(dvars.listing(), access_restricted(dvars@), i as int),
        decreases n - i,
    {
        let ghost before = super::limits::texts(out@);
        match list_single(dvars, dvars.entry(i), filter_name.as_str()) {
            Some(line) => {
                let ghost lv = line@;
                out.push(line);
                count = count + 1;
                assert(super::limits::texts(out@) =~= before.push(lv));
            },
            None => {},
        }
        i = i + 1;
    }
    let ghost body = super::limits::texts(out@);
    let a = concat("\n", usize_to_string(count).as_str());
    let total = concat(a.as_str(), " total dvars");
    out.push(total);
    assert(super::limits::texts(out@).drop_last() =~= body);
    out
}

/// The line of a saved dvar in the listing of saved dvars: its name and,
/// in quotes, how it is displayed.
pub open spec fn saved_line(d: DvarView) -> Option<Seq<char>> {
    if d.has(DvarFlags::SAVED) {
        Some(" "@ + d.name + " \""@ + super::dvar_text(d) + "\""@)
    } else {
        None
    }
}

/// The line of `dvar` in the listing of saved dvars (see [`saved_line`]);
/// the count of saved dvars goes up by one for a saved dvar.
pub fn display_dvar(dvar: &Dvar, i: &mut i32) -> (r: Option<String>)
    requires
        dvar@.has(DvarFlags::SAVED) ==> *old(i) < i32::MAX,
    ensures
        match saved_line(dvar@) {
            Some(l) => r matches Some(s) && s@ == l && *final(i) == *old(i) + 1,
            None => r is None && *final(i) == *old(i),
        },
{
    if dvar.flags.contains(DvarFlags::from_bits(DvarFlags::SAVED)) {
        *i = *i + 1;
        let a = concat(" ", dvar.name.as_str());
        let b = concat(a.as_str(), " \"");
        let c = concat(b.as_str(), dvar.to_text().as_str());
        Some(concat(c.as_str(), "\""))
    } else {
        None
    }
}

/// The saved-dvar lines of the first `n` dvars of `s`.
pub open spec fn saved_lines(s: Seq<DvarView>, n: int) -> Seq<Seq<char>>
    decreases n,
{
    if n <= 0 {
        Seq::empty()
    } else {
        match saved_line(s[n - 1]) {
            Some(l) => saved_lines(s, n - 1).push(l),
            None => saved_lines(s, n - 1),
        }
    }
}

/// The `dvarlist_saved` command: the line of each saved dvar (see
/// [`saved_line`]), in the order they were registered, and then a total,
/// which is the position of the last dvar listed or looked at (zero
/// without dvars) rather than a count.
pub fn list_saved_dvars(dvars: &DvarRegistry) -> (r: Vec<String>)
    requires
        dvars.wf(),
    ensures
        r@.len() >= 1,
        super::limits::texts(r@).drop_last() == saved_lines(dvars.listing(), dvars@.count as int),
        r@.last()@ == "\n"@ + decimal_usize(if dvars@.count == 0 { 0usize } else { (dvars@.count - 1) as usize })
            + " total SAVED dvars"@,
{
    let mut out: Vec<String> = Vec::new();
    let n = dvars.len();
    let mut last: usize = 0;
    let mut i: usize = 0;
    while i < n
        invariant
            dvars.wf(),
            n == dvars@.count,
            i <= n,
            last == if i == 0 { 0usize } else { (i - 1) as usize },
            super::limits::texts(out@) == saved_lines(dvars.listing(), i as int),
        decreases n - i,
    {
        let ghost before = super::limits::texts(out@);
        let mut scratch: i32 = 0;
        match display_dvar(dvars.entry(i), &mut scratch) {
            Some(line) => {
                let ghost lv = line@;
                out.push(line);
                assert(super::limits::texts(out@) =~= before.push(lv));
            },
            None => {},
        }
        last = i;
        i = i + 1;
    }
    let ghost body = super::limits::texts(out@);
    let a = concat("\n", usize_to_string(last).as_str());
    out.push(concat(a.as_str(), " total SAVED dvars"));
    assert(super::limits::texts(out@).drop_last() =~= body);
    out
}

} // verus!
