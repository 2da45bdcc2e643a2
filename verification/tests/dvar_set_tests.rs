use opent5::dvar::global_fns::name_is_valid;
use opent5::cmd::{CmdArgs, CmdRegistry};
use opent5::dvar::cmds::{toggle_f, DvarCommand};
use opent5::dvar::get::{get_bool, get_enumeration, get_int, get_or_register_int, get_string};
use opent5::dvar::register::{register_bool, register_enumeration, register_int, reregister_int};
use opent5::dvar::set::{
    set_enumeration_internal, set_variant_from_source,
    remove_from_enumeration_domain, set_bool, set_bool_internal, set_enumeration_prev, set_int, set_int_internal,
    set_or_register_int,
};
use opent5::dvar::{find, init, DvarFlags, DvarRegistry, DvarValue, SetSource};
use opent5::input::gpad::register_gpad_dvars;

fn args(words: &[&str]) -> CmdArgs {
    CmdArgs::with_args(words.iter().map(|w| w.to_string()).collect())
}

#[test]
fn set_bool_sets_the_value() {
    let mut dvars = DvarRegistry::new();
    register_bool(&mut dvars, "b", false, DvarFlags::empty(), None).unwrap();
    assert_eq!(set_bool(&mut dvars, "b", true), Ok(()));
    assert_eq!(get_bool(&dvars, "b"), Some(true));
    assert!(find(&dvars, "b").unwrap().modified);
    assert_eq!(dvars.modified_flags().bits, 0);
    assert!(set_bool(&mut dvars, "missing", true).is_err());
}

#[test]
fn set_marks_the_modified_flags() {
    let mut dvars = DvarRegistry::new();
    register_int(&mut dvars, "a", 1, Some(0), Some(9), DvarFlags::from_bits(DvarFlags::ARCHIVE), None).unwrap();
    assert_eq!(set_int(&mut dvars, "a", 2), Ok(()));
    assert_eq!(dvars.modified_flags().bits, DvarFlags::ARCHIVE);
}

#[test]
fn set_outside_the_domain_is_refused() {
    let mut dvars = DvarRegistry::new();
    register_int(&mut dvars, "x", 3, Some(0), Some(9), DvarFlags::empty(), None).unwrap();
    assert!(set_int_internal(&mut dvars, "x", 20).is_err());
    assert_eq!(get_int(&dvars, "x"), Some(3));
    assert!(set_int(&mut dvars, "x", -1).is_err());
    assert_eq!(get_int(&dvars, "x"), Some(3));
    assert!(!find(&dvars, "x").unwrap().modified);
    assert_eq!(set_int_internal(&mut dvars, "x", 9), Ok(()));
    assert_eq!(get_int(&dvars, "x"), Some(9));
}

#[test]
fn external_set_of_a_latched_int() {
    let mut dvars = DvarRegistry::new();
    register_int(&mut dvars, "l", 3, Some(0), Some(9), DvarFlags::from_bits(DvarFlags::LATCHED), None).unwrap();
    assert_eq!(set_int(&mut dvars, "l", 5), Ok(()));
    assert_eq!(get_int(&dvars, "l"), Some(3));
    assert!(find(&dvars, "l").unwrap().latched.equals(&DvarValue::Int(5)));
    // from inside the value is written
    assert_eq!(set_int_internal(&mut dvars, "l", 7), Ok(()));
    assert_eq!(get_int(&dvars, "l"), Some(7));
}

#[test]
fn read_only_and_write_protected_refuse_outside_sets() {
    let mut dvars = DvarRegistry::new();
    register_bool(&mut dvars, "r", false, DvarFlags::from_bits(DvarFlags::READ_ONLY), None).unwrap();
    register_bool(&mut dvars, "w", false, DvarFlags::from_bits(DvarFlags::WRITE_PROTECTED), None).unwrap();
    assert!(set_bool(&mut dvars, "r", true).is_err());
    assert!(set_bool(&mut dvars, "w", true).is_err());
    assert_eq!(get_bool(&dvars, "r"), Some(false));
    assert_eq!(get_bool(&dvars, "w"), Some(false));
    // the reset value is always taken
    assert_eq!(set_bool(&mut dvars, "r", false), Ok(()));
    // from inside they are written
    assert_eq!(set_bool_internal(&mut dvars, "r", true), Ok(()));
    assert_eq!(get_bool(&dvars, "r"), Some(true));
}

#[test]
fn cheat_protected_follows_sv_cheats() {
    let mut dvars = DvarRegistry::new();
    let mut cmds: CmdRegistry<DvarCommand> = CmdRegistry::new();
    init(&mut dvars, &mut cmds);
    register_int(&mut dvars, "c", 1, Some(0), Some(9), DvarFlags::from_bits(DvarFlags::CHEAT_PROTECTED), None).unwrap();
    assert!(!dvars.cheats_enabled());
    assert!(set_int(&mut dvars, "c", 5).is_err());
    assert_eq!(get_int(&dvars, "c"), Some(1));
    assert_eq!(set_bool_internal(&mut dvars, "sv_cheats", true), Ok(()));
    assert!(dvars.cheats_enabled());
    assert_eq!(set_int(&mut dvars, "c", 5), Ok(()));
    assert_eq!(get_int(&dvars, "c"), Some(5));
}

#[test]
fn enumeration_prev_steps_back() {
    let mut dvars = DvarRegistry::new();
    let strings = vec!["low".to_string(), "mid".to_string(), "high".to_string()];
    register_enumeration(&mut dvars, "e", "mid".to_string(), Some(strings), DvarFlags::empty(), None).unwrap();
    assert_eq!(set_enumeration_prev(&mut dvars, "e"), Ok(()));
    assert_eq!(get_enumeration(&dvars, "e"), Some("low".to_string()));
    assert!(set_enumeration_prev(&mut dvars, "e").is_err());
    register_int(&mut dvars, "i", 1, None, None, DvarFlags::empty(), None).unwrap();
    assert!(set_enumeration_prev(&mut dvars, "i").is_err());
}

#[test]
fn removing_the_current_enumeration_value_is_refused() {
    let mut dvars = DvarRegistry::new();
    let strings = vec!["low".to_string(), "high".to_string()];
    register_enumeration(&mut dvars, "e", "low".to_string(), Some(strings), DvarFlags::empty(), None).unwrap();
    assert!(remove_from_enumeration_domain(&mut dvars, "e", "low").is_err());
    assert_eq!(
        find(&dvars, "e").unwrap().domain.as_enumeration_limits().unwrap().strings,
        vec!["low".to_string(), "high".to_string()]
    );
    assert_eq!(remove_from_enumeration_domain(&mut dvars, "e", "high"), Ok(()));
    assert_eq!(find(&dvars, "e").unwrap().domain.as_enumeration_limits().unwrap().strings, vec!["low".to_string()]);
    assert!(remove_from_enumeration_domain(&mut dvars, "missing", "low").is_err());
}

#[test]
fn reregister_replaces_an_existing_dvar() {
    let mut dvars = DvarRegistry::new();
    assert!(reregister_int(&mut dvars, "x", 1, None, None, DvarFlags::empty(), None).is_err());
    assert_eq!(dvars.len(), 0);
    register_int(&mut dvars, "x", 1, Some(0), Some(9), DvarFlags::empty(), None).unwrap();
    assert_eq!(
        reregister_int(&mut dvars, "x", 42, Some(0), Some(100), DvarFlags::from_bits(DvarFlags::ARCHIVE), Some("again")),
        Ok(())
    );
    assert_eq!(get_int(&dvars, "x"), Some(42));
    assert_eq!(dvars.len(), 1);
    let d = find(&dvars, "x").unwrap();
    assert_eq!(d.flags.bits, DvarFlags::ARCHIVE);
    assert_eq!(d.description, "again");
    // registering a taken name registers it again
    register_bool(&mut dvars, "x", true, DvarFlags::empty(), None).unwrap();
    assert_eq!(get_bool(&dvars, "x"), Some(true));
    assert_eq!(dvars.len(), 1);
}

#[test]
fn get_or_register_int_cases() {
    let mut dvars = DvarRegistry::new();
    register_bool(&mut dvars, "b", true, DvarFlags::empty(), None).unwrap();
    register_int(&mut dvars, "i", 7, None, None, DvarFlags::empty(), None).unwrap();
    assert_eq!(get_or_register_int(&mut dvars, "i", 1, None, None, DvarFlags::empty(), None), Some(7));
    assert_eq!(get_or_register_int(&mut dvars, "b", 1, None, None, DvarFlags::empty(), None), None);
    assert_eq!(get_bool(&dvars, "b"), Some(true));
    assert_eq!(dvars.len(), 2);
    assert_eq!(get_or_register_int(&mut dvars, "n", 5, Some(0), Some(9), DvarFlags::empty(), None), Some(5));
    assert_eq!(get_int(&dvars, "n"), Some(5));
    assert_eq!(dvars.len(), 3);
}

#[test]
fn set_or_register_int_reports_a_refused_set() {
    let mut dvars = DvarRegistry::new();
    assert_eq!(set_or_register_int(&mut dvars, "n", 4, Some(0), Some(9), DvarFlags::empty(), None), Ok(()));
    assert_eq!(get_int(&dvars, "n"), Some(4));
    assert_eq!(set_or_register_int(&mut dvars, "n", 6, None, None, DvarFlags::empty(), None), Ok(()));
    assert_eq!(get_int(&dvars, "n"), Some(6));
    assert!(set_or_register_int(&mut dvars, "n", 60, None, None, DvarFlags::empty(), None).is_err());
    assert_eq!(get_int(&dvars, "n"), Some(6));
}

#[test]
fn toggle_refuses_a_string() {
    let mut dvars = DvarRegistry::new();
    opent5::dvar::register::register_string(&mut dvars, "s", "text", DvarFlags::empty(), None).unwrap();
    let out = toggle_f(&mut dvars, &args(&["toggle", "s"]), false);
    assert_eq!(out, vec!["'toggle' with no arguments makes no sense for dvar 's'".to_string()]);
    assert_eq!(get_string(&dvars, "s"), Some("text".to_string()));
    register_int(&mut dvars, "i", 0, Some(0), Some(1), DvarFlags::empty(), None).unwrap();
    assert!(toggle_f(&mut dvars, &args(&["toggle", "i"]), false).is_empty());
    assert_eq!(get_int(&dvars, "i"), Some(1));
}

#[test]
fn gpad_dvars_are_registered() {
    let mut dvars = DvarRegistry::new();
    assert_eq!(register_gpad_dvars(&mut dvars), Ok(()));
    assert_eq!(dvars.len(), 8);
    assert_eq!(get_int(&dvars, "gpad_debug"), Some(0));
    assert_eq!(get_bool(&dvars, "gpad_rumble"), Some(true));
    assert_eq!(get_int(&dvars, "gpad_menu_scroll_delay_first"), Some(420));
    assert_eq!(get_int(&dvars, "gpad_menu_scroll_delay_rest"), Some(210));
    assert_eq!(get_string(&dvars, "gpad_buttonsConfig"), Some("buttons_default".to_string()));
    assert_eq!(get_string(&dvars, "gpad_sticksConfig"), Some("sticks_default".to_string()));
    assert_eq!(get_bool(&dvars, "gpad_enabled"), Some(false));
    assert_eq!(get_bool(&dvars, "gpad_present"), Some(false));
    assert_eq!(find(&dvars, "gpad_present").unwrap().flags.bits, DvarFlags::READ_ONLY);
    assert_eq!(
        find(&dvars, "gpad_rumble").unwrap().flags.bits,
        DvarFlags::ARCHIVE | DvarFlags::ALLOW_SET_FROM_DEVGUI
    );
    // a second registration registers them again
    assert_eq!(register_gpad_dvars(&mut dvars), Ok(()));
    assert_eq!(dvars.len(), 8);
}

#[test]
fn enumeration_outside_the_domain_falls_back_to_reset() {
    let mut dvars = DvarRegistry::new();
    let strings = vec!["low".to_string(), "high".to_string()];
    register_enumeration(&mut dvars, "e", "low".to_string(), Some(strings), DvarFlags::empty(), None).unwrap();
    assert_eq!(set_enumeration_internal(&mut dvars, "e", "high"), Ok(()));
    assert_eq!(get_enumeration(&dvars, "e"), Some("high".to_string()));
    let d = find(&dvars, "e").unwrap();
    // the refused value is reported, then the reset value is set
    let lines = d.set_messages(&DvarValue::Enumeration("nope".to_string()), SetSource::Internal, true, false);
    assert_eq!(lines.len(), 4);
    assert_eq!(lines[0], "(16) -       dvar set e high\n");
    assert_eq!(lines[1], "(1) - 'nope' is not a valid value for dvar 'e'\n");
    assert_eq!(lines[3], "(16) -       dvar set e high\n");
    assert!(set_variant_from_source(&mut dvars, "e", DvarValue::Enumeration("nope".to_string()), SetSource::Internal).is_err());
    assert_eq!(get_enumeration(&dvars, "e"), Some("low".to_string()));
    assert!(find(&dvars, "e").unwrap().modified);
    // the typed setter checks the domain first and changes nothing
    assert_eq!(set_enumeration_internal(&mut dvars, "e", "high"), Ok(()));
    assert!(set_enumeration_internal(&mut dvars, "e", "nope").is_err());
    assert_eq!(get_enumeration(&dvars, "e"), Some("high".to_string()));
}

#[test]
fn dvar_names_are_checked() {
    assert!(name_is_valid("sv_cheats"));
    assert!(name_is_valid("r_fullscreen2"));
    assert!(name_is_valid(""));
    assert!(!name_is_valid("sv-cheats"));
    assert!(!name_is_valid("set x"));
}
