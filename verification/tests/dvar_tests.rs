use opent5::cmd::{CmdArgs, CmdRegistry};
use opent5::dvar::cmds::{
    add_commands, register_int_checked, register_int_f, restore_dvars, set_f, set_to_time_checked, DvarCommand,
};
use opent5::dvar::get::{get_bool, get_int, get_string};
use opent5::dvar::limits::DvarLimitsEnumeration;
use opent5::dvar::register::{register_bool, register_enumeration, register_int, register_new_bool, register_string};
use opent5::dvar::set::{set_bool, set_enumeration_next, set_int_internal, set_string};
use opent5::dvar::{add_flags, clear_flags, clear_modified, dvar_exists, find, init, Dvar, DvarFlags, DvarRegistry, DvarValue, SetSource};

fn args(words: &[&str]) -> CmdArgs {
    CmdArgs::with_args(words.iter().map(|w| w.to_string()).collect())
}

#[test]
fn register_then_get_returns_value() {
    let mut dvars = DvarRegistry::new();
    assert!(register_bool(&mut dvars, "b", true, DvarFlags::empty(), None).is_ok());
    assert!(register_int(&mut dvars, "i", 7, Some(0), Some(10), DvarFlags::empty(), Some("an int")).is_ok());
    assert!(register_string(&mut dvars, "s", "text", DvarFlags::empty(), None).is_ok());
    assert_eq!(get_bool(&dvars, "b"), Some(true));
    assert_eq!(get_int(&dvars, "i"), Some(7));
    assert_eq!(get_string(&dvars, "s"), Some("text".to_string()));
    assert_eq!(get_int(&dvars, "b"), None);
    assert_eq!(get_bool(&dvars, "missing"), None);
    assert!(dvar_exists(&dvars, "i"));
    assert_eq!(dvars.len(), 3);
    assert_eq!(find(&dvars, "i").unwrap().description, "an int");
}

#[test]
fn register_new_refuses_taken_name() {
    let mut dvars = DvarRegistry::new();
    assert!(register_new_bool(&mut dvars, "b", true, DvarFlags::empty(), None).is_ok());
    assert!(register_new_bool(&mut dvars, "b", false, DvarFlags::empty(), None).is_err());
    assert_eq!(get_bool(&dvars, "b"), Some(true));
    assert_eq!(dvars.len(), 1);
}

#[test]
fn internal_set_in_domain_is_read_back() {
    let mut dvars = DvarRegistry::new();
    register_int(&mut dvars, "i", 1, Some(0), Some(10), DvarFlags::empty(), None).unwrap();
    assert!(set_int_internal(&mut dvars, "i", 5).is_ok());
    assert_eq!(get_int(&dvars, "i"), Some(5));
    assert!(find(&dvars, "i").unwrap().modified);
    // out of the domain: refused, nothing changes
    assert!(set_int_internal(&mut dvars, "i", 11).is_err());
    assert_eq!(get_int(&dvars, "i"), Some(5));
    assert!(set_int_internal(&mut dvars, "missing", 1).is_err());
}

#[test]
fn external_set_goes_to_latched_or_current() {
    let mut dvars = DvarRegistry::new();
    register_bool(&mut dvars, "b", false, DvarFlags::from_bits(DvarFlags::LATCHED), None).unwrap();
    assert!(set_bool(&mut dvars, "b", true).is_ok());
    assert_eq!(get_bool(&dvars, "b"), Some(false));
    assert!(find(&dvars, "b").unwrap().latched.equals(&DvarValue::Bool(true)));
    register_string(&mut dvars, "s", "a", DvarFlags::empty(), None).unwrap();
    set_string(&mut dvars, "s", "b").unwrap();
    assert_eq!(get_string(&dvars, "s"), Some("b".to_string()));
    assert!(find(&dvars, "s").unwrap().modified);
}

#[test]
fn clamp_moves_into_domain() {
    let d = opent5::dvar::limits::DvarLimitsInt::new(0, 10);
    let domain = opent5::dvar::DvarLimits::Int(d);
    let mut v = DvarValue::Int(42);
    let r = Dvar::clamp_value_to_domain(&mut v, &domain);
    assert!(r.equals(&DvarValue::Int(10)));
    let mut w = DvarValue::Int(-3);
    assert!(Dvar::clamp_value_to_domain(&mut w, &domain).equals(&DvarValue::Int(0)));
    let mut x = DvarValue::Int(4);
    assert!(Dvar::clamp_value_to_domain(&mut x, &domain).equals(&DvarValue::Int(4)));
}

#[test]
fn add_then_clear_flags_restores() {
    let mut dvars = DvarRegistry::new();
    register_bool(&mut dvars, "b", true, DvarFlags::from_bits(DvarFlags::ARCHIVE), None).unwrap();
    add_flags(&mut dvars, "b", DvarFlags::from_bits(DvarFlags::LATCHED)).unwrap();
    assert_eq!(find(&dvars, "b").unwrap().flags.bits, DvarFlags::ARCHIVE | DvarFlags::LATCHED);
    clear_flags(&mut dvars, "b", DvarFlags::from_bits(DvarFlags::LATCHED)).unwrap();
    assert_eq!(find(&dvars, "b").unwrap().flags.bits, DvarFlags::ARCHIVE);
    assert!(clear_flags(&mut dvars, "missing", DvarFlags::empty()).is_err());
}

#[test]
fn enumeration_domain_drops_repeats() {
    let strings = vec!["a".to_string(), "b".to_string(), "a".to_string(), "c".to_string()];
    let e = DvarLimitsEnumeration::new(&strings);
    assert_eq!(e.strings, vec!["a".to_string(), "b".to_string(), "c".to_string()]);
}

#[test]
fn enumeration_next_stops_at_the_last() {
    let mut dvars = DvarRegistry::new();
    let strings = vec!["low".to_string(), "high".to_string()];
    register_enumeration(&mut dvars, "e", "high".to_string(), Some(strings.clone()), DvarFlags::empty(), None).unwrap();
    assert!(set_enumeration_next(&mut dvars, "e").is_err());
    register_enumeration(&mut dvars, "f", "low".to_string(), Some(strings), DvarFlags::empty(), None).unwrap();
    assert!(set_enumeration_next(&mut dvars, "f").is_ok());
    assert_eq!(opent5::dvar::get::get_enumeration(&dvars, "f"), Some("high".to_string()));
    assert!(set_enumeration_next(&mut dvars, "f").is_err());
    assert!(set_enumeration_next(&mut dvars, "missing").is_err());
}

#[test]
fn init_registers_once() {
    let mut dvars = DvarRegistry::new();
    let mut cmds: CmdRegistry<DvarCommand> = CmdRegistry::new();
    init(&mut dvars, &mut cmds);
    assert!(dvars.is_active());
    assert_eq!(get_bool(&dvars, "sv_restoreDvars"), Some(true));
    assert_eq!(get_bool(&dvars, "sv_cheats"), Some(false));
    assert_eq!(dvars.len(), 2);
    assert!(opent5::cmd::cmd_exists(&cmds, "toggle"));
    assert!(opent5::cmd::cmd_exists(&cmds, "dvarlist_saved"));
    assert_eq!(opent5::cmd::find(&cmds, "set").unwrap().function(), DvarCommand::SetValue);
    // a second start changes nothing
    init(&mut dvars, &mut cmds);
    assert_eq!(dvars.len(), 2);
}

#[test]
fn add_commands_registers_twenty() {
    let mut cmds: CmdRegistry<DvarCommand> = CmdRegistry::new();
    add_commands(&mut cmds);
    for name in ["toggle", "togglep", "set", "sets", "seta", "setadminvar", "setmoddvar", "setfromdvar",
        "setfromlocString", "reset", "dvarlist", "dvardump", "dvar_bool", "dvar_int", "dvar_float",
        "dvar_color", "setu", "setAllClientDvars", "restoreDvars", "dvarlist_saved"] {
        assert!(opent5::cmd::cmd_exists(&cmds, name), "{}", name);
    }
    assert_eq!(opent5::cmd::find(&cmds, "dvar_int").unwrap().function(), DvarCommand::RegisterInt);
}

#[test]
fn restore_sets_saved_values_back() {
    let mut dvars = DvarRegistry::new();
    register_bool(&mut dvars, "sv_restoreDvars", true, DvarFlags::empty(), None).unwrap();
    let mut d = Dvar {
        name: "x".to_string(),
        description: String::new(),
        flags: DvarFlags::empty(),
        modified: false,
        loaded_from_save_game: true,
        domain: opent5::dvar::DvarLimits::Int(opent5::dvar::limits::DvarLimitsInt::new(0, 100)),
        current: DvarValue::Int(50),
        latched: DvarValue::Int(50),
        reset: DvarValue::Int(0),
        saved: DvarValue::Int(20),
    };
    d.loaded_from_save_game = true;
    dvars.insert_new(d);
    restore_dvars(&mut dvars);
    let x = find(&dvars, "x").unwrap();
    assert!(x.current.equals(&DvarValue::Int(20)));
    assert!(!x.loaded_from_save_game);
}

#[test]
fn restore_does_nothing_when_disabled() {
    let mut dvars = DvarRegistry::new();
    register_bool(&mut dvars, "sv_restoreDvars", false, DvarFlags::empty(), None).unwrap();
    register_int(&mut dvars, "i", 3, None, None, DvarFlags::empty(), None).unwrap();
    restore_dvars(&mut dvars);
    assert_eq!(get_int(&dvars, "i"), Some(3));
}

#[test]
fn set_command_messages() {
    let mut dvars = DvarRegistry::new();
    let out = set_f(&mut dvars, &args(&["set"]), false);
    assert_eq!(out, vec!["USAGE: set <variable> <value>".to_string()]);
    let out = set_f(&mut dvars, &args(&["set", "bad name!", "1"]), false);
    assert_eq!(out, vec!["invalid variable name: bad name!".to_string()]);
    // a set from the console is a set from outside: a latched dvar takes
    // the value as the latched one, the current value stays
    register_string(&mut dvars, "v", "old", DvarFlags::from_bits(DvarFlags::LATCHED), None).unwrap();
    let out = set_f(&mut dvars, &args(&["set", "v", "hello", "world"]), false);
    assert!(out.is_empty());
    assert_eq!(get_string(&dvars, "v"), Some("old".to_string()));
    // the arguments are joined, each followed by a space
    assert!(find(&dvars, "v").unwrap().latched.equals(&DvarValue::String("hello world ".to_string())));
    // a missing dvar is not created
    let out = set_f(&mut dvars, &args(&["set", "newvar", "x"]), false);
    assert!(out.is_empty());
    assert!(!dvar_exists(&dvars, "newvar"));
}

#[test]
fn register_int_command() {
    let mut dvars = DvarRegistry::new();
    let out = register_int_f(&mut dvars, &args(&["dvar_int", "x"]));
    assert_eq!(out, vec!["USAGE: dvar_int <name> <default> <min> <max>".to_string()]);
    let out = register_int_f(&mut dvars, &args(&["dvar_int", "x", "1", "5", "2"]));
    assert_eq!(out, vec!["dvar x: min 5 should not be greater than max 2i\n".to_string()]);
    let out = register_int_checked(&mut dvars, &args(&["dvar_int", "x", "3", "0", "9"])).unwrap();
    assert!(out.is_empty());
    assert_eq!(get_int(&dvars, "x"), Some(3));
    register_bool(&mut dvars, "flag", true, DvarFlags::empty(), None).unwrap();
    let out = register_int_f(&mut dvars, &args(&["dvar_int", "flag", "3", "0", "9"]));
    assert_eq!(out, vec!["dvar 'flag' is not an integer dvar".to_string()]);
}

#[test]
fn set_to_time_writes_decimal() {
    let mut dvars = DvarRegistry::new();
    let out = set_to_time_checked(&mut dvars, &args(&["settotime"]), false, 1234).unwrap();
    assert_eq!(out, vec!["USAGE: set <variable>".to_string()]);
    register_string(&mut dvars, "t", "0", DvarFlags::empty(), None).unwrap();
    let out = set_to_time_checked(&mut dvars, &args(&["settotime", "t"]), false, 1234).unwrap();
    assert!(out.is_empty());
    assert_eq!(get_string(&dvars, "t"), Some("1234".to_string()));
}

#[test]
fn clear_modified_needs_the_dvar() {
    let mut dvars = DvarRegistry::new();
    register_int(&mut dvars, "i", 0, None, None, DvarFlags::empty(), None).unwrap();
    set_int_internal(&mut dvars, "i", 2).unwrap();
    assert!(find(&dvars, "i").unwrap().modified);
    clear_modified(&mut dvars, "i").unwrap();
    assert!(!find(&dvars, "i").unwrap().modified);
    assert!(clear_modified(&mut dvars, "nope").is_err());
}

#[test]
fn value_and_domain_texts() {
    assert_eq!(DvarValue::Bool(true).to_text(), "true");
    assert_eq!(DvarValue::Int(-5).to_text(), "-5");
    assert_eq!(DvarValue::Int64(1 << 40).to_text(), "1099511627776");
    let d = opent5::dvar::limits::DvarLimitsInt::new(0, 10);
    assert_eq!(d.to_text(), "Domain is any integer from 0 to 10");
    assert_eq!(opent5::dvar::limits::DvarLimitsInt::full().to_text(), "Domain is any integer");
    let e = DvarLimitsEnumeration::new(&vec!["a".to_string(), "b".to_string()]);
    assert_eq!(e.to_text(), "Domain is any one of the following:\n   0: a\n   1: b");
    assert_eq!(opent5::dvar::limits::DvarLimitsBool::new().to_text(), "Domain is 0 or 1");
}

#[test]
fn dvar_listing() {
    let mut dvars = DvarRegistry::new();
    register_bool(&mut dvars, "a", true, DvarFlags::from_bits(DvarFlags::ARCHIVE | DvarFlags::SAVED), Some("first")).unwrap();
    register_int(&mut dvars, "b", 3, None, None, DvarFlags::from_bits(DvarFlags::READ_ONLY), None).unwrap();
    let lines = opent5::dvar::cmds::list_f(&dvars, &args(&["dvarlist"]));
    assert_eq!(lines, vec![
        "    A      Y a \"true\"".to_string(),
        "  R          b \"3\"".to_string(),
        "\n2 total dvars".to_string(),
    ]);
    let saved = opent5::dvar::cmds::list_saved_dvars(&dvars);
    assert_eq!(saved, vec![" a \"a - first - true\"".to_string(), "\n1 total SAVED dvars".to_string()]);
    assert_eq!(find(&dvars, "a").unwrap().to_text(), "a - first - true");
}

#[test]
fn toggle_print_names_new_value() {
    let mut dvars = DvarRegistry::new();
    register_bool(&mut dvars, "b", false, DvarFlags::empty(), None).unwrap();
    let out = opent5::dvar::cmds::toggle_print_f(&mut dvars, &args(&["togglep", "b"]), false);
    assert_eq!(out, vec!["b toggled to true".to_string()]);
    assert_eq!(get_bool(&dvars, "b"), Some(true));
    let out = opent5::dvar::cmds::toggle_print_f(&mut dvars, &args(&["togglep", "missing"]), false);
    assert!(out.is_empty());
}

#[test]
fn command_added_then_found() {
    let mut cmds: CmdRegistry<u32> = CmdRegistry::new();
    let added = opent5::cmd::add_internal(&mut cmds, "quit", 7).unwrap();
    assert_eq!(added.name().as_str(), "quit");
    assert_eq!(opent5::cmd::add_internal(&mut cmds, "vid_restart", 8).unwrap().function(), 8);
    // a taken name is refused and the first command stays
    assert!(opent5::cmd::add_internal(&mut cmds, "quit", 9).is_none());
    assert_eq!(opent5::cmd::add_internal_refusal("quit"), "(16) - cmd::add_internal: quit is already defined\n");
    let found = opent5::cmd::find(&cmds, "quit").unwrap();
    assert_eq!(found.function(), 7);
    assert_eq!(found.name().as_str(), "quit");
    assert_eq!(opent5::cmd::find(&cmds, "vid_restart").unwrap().function(), 8);
    assert!(opent5::cmd::find(&cmds, "map").is_none());
}

#[test]
fn integer_texts_in_commands() {
    let mut dvars = DvarRegistry::new();
    // a plus sign is read, a minus sign makes the number negative
    let out = register_int_checked(&mut dvars, &args(&["dvar_int", "y", "+4", "-10", "10"])).unwrap();
    assert!(out.is_empty());
    assert_eq!(get_int(&dvars, "y"), Some(4));
    let out = register_int_f(&mut dvars, &args(&["dvar_int", "z", "1", "-3", "-7"]));
    assert_eq!(out, vec!["dvar z: min -3 should not be greater than max -7i\n".to_string()]);
}

#[test]
fn equality_by_name() {
    let mut dvars = DvarRegistry::new();
    register_bool(&mut dvars, "a", true, DvarFlags::empty(), None).unwrap();
    register_bool(&mut dvars, "b", true, DvarFlags::empty(), None).unwrap();
    let before = find(&dvars, "a").unwrap();
    set_bool(&mut dvars, "a", false).unwrap();
    let after = find(&dvars, "a").unwrap();
    assert!(before == after);
    assert!(before != find(&dvars, "b").unwrap());
    let mut cmds: CmdRegistry<u32> = CmdRegistry::new();
    let quit = opent5::cmd::add_internal(&mut cmds, "quit", 1).unwrap();
    let map = opent5::cmd::add_internal(&mut cmds, "map", 2).unwrap();
    assert!(quit == opent5::cmd::find(&cmds, "quit").unwrap());
    assert!(quit != map);
}

#[test]
fn messages_of_a_set() {
    let mut dvars = DvarRegistry::new();
    register_int(&mut dvars, "x", 3, Some(0), Some(9), DvarFlags::from_bits(DvarFlags::LATCHED), None).unwrap();
    let d = find(&dvars, "x").unwrap();
    assert_eq!(
        d.set_messages(&DvarValue::Int(20), SetSource::Internal, false, false),
        vec![
            "(1) - '20' is not a valid value for dvar 'x'\n".to_string(),
            "(1) - Domain is any integer from 0 to 9\n".to_string(),
        ]
    );
    assert!(d.set_messages(&DvarValue::Int(5), SetSource::Internal, false, false).is_empty());
    assert_eq!(
        d.set_messages(&DvarValue::Int(5), SetSource::Internal, true, false),
        vec!["(16) -       dvar set x 3\n".to_string()]
    );
    // a latched dvar announces a value from outside that differs from the current one
    let mut other = DvarRegistry::new();
    register_int(&mut other, "y", 3, Some(0), Some(9), DvarFlags::from_bits(DvarFlags::LATCHED), None).unwrap();
    set_int_internal(&mut other, "y", 4).unwrap();
    let y = find(&other, "y").unwrap();
    assert_eq!(
        y.set_messages(&DvarValue::Int(3), SetSource::External, false, false),
        vec!["(16) - y will be changed upon restarting.\n".to_string()]
    );
    assert_eq!(
        y.set_messages(&DvarValue::Int(5), SetSource::External, false, false),
        vec!["(16) - y will be changed upon restarting.\n".to_string()]
    );
    assert!(y.set_messages(&DvarValue::Int(4), SetSource::External, false, false).is_empty());
    assert!(y.set_messages(&DvarValue::Int(5), SetSource::Internal, false, false).is_empty());
    register_int(&mut other, "r", 1, Some(0), Some(9), DvarFlags::from_bits(DvarFlags::READ_ONLY), None).unwrap();
    let r = find(&other, "r").unwrap();
    assert_eq!(
        r.set_messages(&DvarValue::Int(2), SetSource::Script, false, false),
        vec!["(1) - r is read only.\n".to_string()]
    );
    register_int(&mut other, "w", 1, Some(0), Some(9), DvarFlags::from_bits(DvarFlags::WRITE_PROTECTED), None).unwrap();
    let w = find(&other, "w").unwrap();
    assert_eq!(
        w.set_messages(&DvarValue::Int(2), SetSource::External, false, true),
        vec!["(1) - w is write protected protected.\n".to_string()]
    );
    register_int(&mut other, "c", 1, Some(0), Some(9), DvarFlags::from_bits(DvarFlags::CHEAT_PROTECTED), None).unwrap();
    let c = find(&other, "c").unwrap();
    assert_eq!(
        c.set_messages(&DvarValue::Int(2), SetSource::External, false, false),
        vec!["(1) - c is cheat protected.\n".to_string()]
    );
    assert!(c.set_messages(&DvarValue::Int(2), SetSource::External, false, true).is_empty());
    // the reset value is always allowed
    assert!(c.set_messages(&DvarValue::Int(1), SetSource::External, false, false).is_empty());
}
