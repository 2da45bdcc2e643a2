use opent5::cl::ClientUse;
use opent5::cmd::CmdArgs;
use opent5::dvar::register::register_int;
use opent5::dvar::{DvarFlags, DvarRegistry};
use opent5::input::gpad::{is_active, is_button_pressed, is_button_released, is_stick_pressed, ButtonState};
use opent5::input::keyboard::{key_down, key_up, KeyScancode, KeybindCode, Keybinds};
use opent5::input::mouse::MouseVars;
use opent5::input::{activate, init, update_use_count, update_use_held, InputState};

fn args(words: &[&str]) -> CmdArgs {
    CmdArgs::with_args(words.iter().map(|w| w.to_string()).collect())
}

#[test]
fn unbound_actions_ignore_keys() {
    let mut binds = Keybinds::new();
    assert!(key_down(&mut binds, KeybindCode::Forward, &args(&["+forward", "5", "100"])).is_none());
    key_up(&mut binds, KeybindCode::Forward, &args(&["-forward", "5", "150"]));
}

#[test]
fn press_then_release_counts_held_time() {
    let mut binds = Keybinds::new();
    binds.bind(KeybindCode::Forward);
    assert!(key_down(&mut binds, KeybindCode::Forward, &args(&["+forward", "5", "100"])).is_none());
    key_up(&mut binds, KeybindCode::Forward, &args(&["-forward", "5", "150"]));
    // a second press and release adds to the held time
    key_down(&mut binds, KeybindCode::Forward, &args(&["+forward", "5", "200"]));
    key_up(&mut binds, KeybindCode::Forward, &args(&["-forward", "5", "230"]));
    // a third key while two are down is refused with a message
    key_down(&mut binds, KeybindCode::Forward, &args(&["+forward", "1", "300"]));
    key_down(&mut binds, KeybindCode::Forward, &args(&["+forward", "2", "300"]));
    let msg = key_down(&mut binds, KeybindCode::Forward, &args(&["+forward", "3", "300"]));
    assert_eq!(msg, Some("(14) - Three keys down for a button!".to_string()));
}

#[test]
fn use_button_counts_double_taps() {
    let mut dvars = DvarRegistry::new();
    register_int(&mut dvars, "cl_dblTapMaxDelayTime", 300, None, None, DvarFlags::empty(), None).unwrap();
    let mut cg = ClientUse::default();
    update_use_held(&mut cg, &dvars, 1000);
    assert!(cg.use_held);
    assert_eq!(cg.use_time, 1000);
    assert_eq!(cg.use_count, 0);
    update_use_count(&mut cg, &dvars, 1100);
    assert!(!cg.use_held);
    assert_eq!(cg.use_count, 1);
    update_use_held(&mut cg, &dvars, 1200);
    update_use_count(&mut cg, &dvars, 1600);
    assert_eq!(cg.use_count, 0);
}

#[test]
fn input_init_registers_mouse_dvar() {
    let mut dvars = DvarRegistry::new();
    let mut mouse = MouseVars::default();
    assert!(init(&mut dvars, &mut mouse).is_none());
    assert!(mouse.mouse_initialized);
    assert_eq!(opent5::dvar::get::get_bool(&dvars, "in_mouse"), Some(true));
    let mut state = InputState::new();
    activate(&mut state, true);
    assert!(state.app_active);
    activate(&mut state, false);
    assert!(!state.app_active);
}

#[test]
fn mouse_off_prints_message() {
    let mut dvars = DvarRegistry::new();
    opent5::dvar::register::register_bool(&mut dvars, "in_mouse", false, DvarFlags::empty(), None).unwrap();
    let mut mouse = MouseVars::default();
    let msg = opent5::input::mouse::startup(&mut dvars, &mut mouse);
    assert_eq!(msg, Some("(14) - Mouse control not active.\n".to_string()));
    assert!(!mouse.mouse_initialized);
}

#[test]
fn game_pad_queries() {
    assert_eq!(is_active(&vec![true], 0), Some(true));
    assert_eq!(is_active(&vec![true], 1), None);
    assert_eq!(is_button_pressed(Some(ButtonState::Pressed)), Some(true));
    assert_eq!(is_button_released(Some(ButtonState::Pressed)), Some(false));
    assert_eq!(is_stick_pressed(None), None);
    assert!(ButtonState::from(true) == ButtonState::Pressed);
    assert!(ButtonState::from(false) == ButtonState::Released);
}

#[test]
fn key_codes_lookup() {
    let mut codes = opent5::input::keyboard::KeyCodes::new();
    assert_eq!(opent5::input::keyboard::find_keybind_code(&codes, KeyScancode::W), None);
    codes.entries.push((KeyScancode::W, KeybindCode::Forward));
    codes.entries.push((KeyScancode::S, KeybindCode::Back));
    assert_eq!(opent5::input::keyboard::find_keybind_code(&codes, KeyScancode::S), Some(KeybindCode::Back));
    assert_eq!(opent5::input::keyboard::find_keybind_code(&codes, KeyScancode::W), Some(KeybindCode::Forward));
    assert_eq!(opent5::input::keyboard::find_keybind_code(&codes, KeyScancode::A), None);
}
