use opent5::sys::{wait_renderer, RendererWait};
use opent5::com::BuildOs;
use opent5::sys::{
    default_cd_path, enqueue_event, get_semaphore_file_name, handle_main_window_event, query_quit_event, set_quit_event,
    Clock, Event, EventQueue, EventType, KeyboardScancode, MainWindowContext, Modifiers, SignalState, SysEvents,
    ThreadTable, WindowEvent,
};

fn context() -> MainWindowContext {
    MainWindowContext {
        platform: opent5::platform::PlatformVars::new(true, false),
        modifiers: Modifiers::empty(),
        queue: EventQueue::new(),
        clock: Clock::new(),
        events: SysEvents::new(),
        input: opent5::input::InputState::new(),
        client_uis: opent5::cl::ClientUiActives::new(),
    }
}

#[test]
fn each_lists_set_modifiers_without_left_shift() {
    let m = Modifiers { bits: Modifiers::LSHIFT | Modifiers::RALT | Modifiers::CAPSLOCK };
    let each: Vec<u16> = m.each().iter().map(|x| x.bits).collect();
    assert_eq!(each, vec![Modifiers::CAPSLOCK, Modifiers::RALT]);
    assert!(Modifiers::empty().each().is_empty());
}

#[test]
fn modifier_keys_convert_both_ways() {
    let k = KeyboardScancode::try_from_modifiers(Modifiers { bits: Modifiers::LCTRL }).unwrap();
    assert_eq!(k, KeyboardScancode::LCtrl);
    assert_eq!(k.try_into_modifiers().unwrap().bits, Modifiers::LCTRL);
    assert!(KeyboardScancode::try_from_modifiers(Modifiers { bits: 3 }).is_err());
    assert!(KeyboardScancode::A.try_into_modifiers().is_err());
    assert!(KeyboardScancode::Num5.affected_by_num_lock());
    assert!(!KeyboardScancode::Key5.affected_by_num_lock());
}

#[test]
fn clock_counts_from_first_reading() {
    let mut clock = Clock::new();
    assert_eq!(clock.milliseconds(1000), 0);
    assert_eq!(clock.milliseconds(1250), 250);
}

#[test]
fn enqueue_stamps_events_without_time() {
    let mut q = EventQueue::new();
    let mut clock = Clock::new();
    enqueue_event(&mut q, &mut clock, Event::new(Some(7), EventType::Character('a')), 100);
    enqueue_event(&mut q, &mut clock, Event::new(None, EventType::Character('b')), 100);
    enqueue_event(&mut q, &mut clock, Event::new(None, EventType::Character('c')), 130);
    assert_eq!(q.len(), 3);
    assert_eq!(q.pop_front().unwrap().time, 7);
    assert_eq!(q.pop_front().unwrap().time, 0);
    assert_eq!(q.pop_front().unwrap().time, 30);
    assert!(q.pop_front().is_none());
}

#[test]
fn quit_event_is_signalled() {
    let mut events = SysEvents::new();
    assert_eq!(query_quit_event(&events), SignalState::Cleared);
    set_quit_event(&mut events);
    assert_eq!(query_quit_event(&events), SignalState::Signaled);
    assert_eq!(opent5::sys::query_render_completed_event(&events), SignalState::Signaled);
}

#[test]
fn thread_table_names_threads() {
    let mut t = ThreadTable::new();
    t.init_main_thread(42);
    assert!(t.is_main_thread(42));
    assert!(!t.is_main_thread(7));
    assert!(!t.is_render_thread(42));
    assert_eq!(t.get_current_thread_name(42), "Main");
}

#[test]
fn semaphore_names_and_cd_path() {
    assert_eq!(get_semaphore_file_name(BuildOs::Linux, "game"), ".__game");
    assert_eq!(get_semaphore_file_name(BuildOs::Windows, "game"), "__game");
    assert_eq!(default_cd_path(), "");
}

#[test]
fn close_request_queues_quit() {
    let mut ctx = context();
    let mut dvars = opent5::dvar::DvarRegistry::new();
    let out = handle_main_window_event(WindowEvent::CloseRequested, &mut ctx, &mut dvars, 0);
    assert_eq!(out, vec!["cbuf::add_text: (0) quit\n".to_string()]);
    assert_eq!(query_quit_event(&ctx.events), SignalState::Signaled);
}

#[test]
fn key_presses_are_queued() {
    let mut ctx = context();
    ctx.platform.sys_msg_time = 55;
    let mut dvars = opent5::dvar::DvarRegistry::new();
    let ev = WindowEvent::KeyDown { logical_scancode: KeyboardScancode::A, physical_scancode: None };
    let out = handle_main_window_event(ev, &mut ctx, &mut dvars, 0);
    assert!(out.is_empty());
    let e = ctx.queue.pop_front().unwrap();
    assert_eq!(e.time, 55);
    assert!(matches!(e.event_type, EventType::Key(KeyboardScancode::A, true)));
}

#[test]
fn modifier_changes_become_key_events() {
    let mut ctx = context();
    ctx.platform.sys_msg_time = 9;
    let mut dvars = opent5::dvar::DvarRegistry::new();
    let new = Modifiers { bits: Modifiers::LALT | Modifiers::LSHIFT };
    handle_main_window_event(WindowEvent::ModifiersChanged { modifiers: new }, &mut ctx, &mut dvars, 0);
    assert_eq!(ctx.modifiers.bits, new.bits);
    // the left shift is not reported
    assert_eq!(ctx.queue.len(), 1);
    let e = ctx.queue.pop_front().unwrap();
    assert!(matches!(e.event_type, EventType::Key(KeyboardScancode::LAlt, true)));
}

#[test]
fn moving_the_window_records_its_place() {
    let mut ctx = context();
    let mut dvars = opent5::dvar::DvarRegistry::new();
    let f = opent5::dvar::DvarFlags::empty();
    opent5::dvar::register::register_bool(&mut dvars, "r_fullscreen", false, f, None).unwrap();
    opent5::dvar::register::register_int(&mut dvars, "vid_xpos", 0, None, None, f, None).unwrap();
    opent5::dvar::register::register_int(&mut dvars, "vid_ypos", 0, None, None, f, None).unwrap();
    handle_main_window_event(WindowEvent::Moved { x: 30, y: 40 }, &mut ctx, &mut dvars, 0);
    assert_eq!(opent5::dvar::get::get_int(&dvars, "vid_xpos"), Some(30));
    assert_eq!(opent5::dvar::get::get_int(&dvars, "vid_ypos"), Some(40));
    assert!(!opent5::dvar::find(&dvars, "vid_xpos").unwrap().modified);
    assert!(ctx.input.app_active);
}

#[test]
fn command_line_from_arguments() {
    let args = vec!["  opent5".to_string(), "+set".to_string(), "fs_game ".to_string(), " ".to_string()];
    assert_eq!(opent5::sys::get_cmdline(&args), "opent5+setfs_game");
    assert_eq!(opent5::sys::get_cmdline(&Vec::new()), "");
    assert_eq!(opent5::sys::get_application_name(), "Call of Duty(R) Singleplayer - Ship");
}

#[test]
fn renderer_wait_steps() {
    let mut events = SysEvents::new();
    // the device is fine at start: nobody waits
    assert_eq!(wait_renderer(&events, true, true, false), RendererWait::Done);
    assert_eq!(wait_renderer(&events, false, true, false), RendererWait::Done);
    events.render_device_ok.state = SignalState::Cleared;
    events.render_completed.state = SignalState::Cleared;
    assert_eq!(wait_renderer(&events, false, true, false), RendererWait::Done);
    assert_eq!(wait_renderer(&events, true, true, true), RendererWait::SleepThenDone);
    assert_eq!(wait_renderer(&events, true, true, false), RendererWait::Done);
    events.render_device_ok.state = SignalState::Signaled;
    assert_eq!(wait_renderer(&events, true, false, false), RendererWait::Poll);
    events.render_completed.state = SignalState::Signaled;
    assert_eq!(wait_renderer(&events, true, false, false), RendererWait::Done);
}

#[test]
fn system_start_lines_and_commands() {
    let mut cmds: opent5::cmd::CmdRegistry<opent5::sys::SysCommand> = opent5::cmd::CmdRegistry::new();
    let info = opent5::sys::SysInfo {
        gpu_description: "Card".to_string(),
        logical_cpu_count: 8,
        physical_cpu_count: 1,
        sys_mb: 16384,
        cpu_vendor: "Vendor".to_string(),
        cpu_name: "Name".to_string(),
    };
    let lines = opent5::sys::init(&mut cmds, &info);
    assert_eq!(
        lines,
        vec![
            "(16) - CPU vendor is \"Vendor\"\n".to_string(),
            "(16) - CPU name is \"Name\"\n".to_string(),
            "(16) - 8 logical CPUs reported\n".to_string(),
            "(16) - 1 physical CPU detected\n".to_string(),
            "(16) - System memory is 16384 MB (capped at 1 GB)\n".to_string(),
            "(16) - Video card is \"Card\"\n".to_string(),
            "(16) - \n".to_string(),
        ]
    );
    assert_eq!(opent5::cmd::find(&cmds, "net_connect").unwrap().function(), opent5::sys::SysCommand::NetConnect);
    assert_eq!(opent5::cmd::find(&cmds, "in_restart").unwrap().function(), opent5::sys::SysCommand::InRestart);
    assert!(opent5::cmd::cmd_exists(&cmds, "movie_stop"));
}

#[test]
fn startup_options_from_command_line() {
    let o = opent5::sys::startup_options("");
    assert_eq!(o, opent5::sys::StartupOptions { minidump: None, check_crash: true, no_sound: false });
    assert!(!opent5::sys::startup_options("allowdupe").check_crash);
    assert!(!opent5::sys::startup_options("allowdupe +set x").check_crash);
    assert!(opent5::sys::startup_options("allowdupex").check_crash);
    assert!(opent5::sys::startup_options("allow").check_crash);
    assert!(!opent5::sys::startup_options("+set g_connectpaths 3").check_crash);
    assert_eq!(opent5::sys::startup_options("autominidump").minidump, Some(false));
    assert_eq!(opent5::sys::startup_options("x minidump").minidump, Some(true));
    assert!(opent5::sys::startup_options("nosnd").no_sound);
}

#[test]
fn modifier_difference_twice() {
    let a = Modifiers { bits: Modifiers::LCTRL | Modifiers::CAPSLOCK };
    let b = Modifiers { bits: Modifiers::CAPSLOCK | Modifiers::RALT };
    let d = a.symmetric_difference(b);
    assert_eq!(d.bits, Modifiers::LCTRL | Modifiers::RALT);
    assert_eq!(d.symmetric_difference(b).bits, a.bits);
    assert!(a.symmetric_difference(a).is_empty());
    assert_eq!(a.symmetric_difference(Modifiers::empty()).bits, a.bits);
}

#[test]
fn quit_event_stays_signalled() {
    let mut ctx = context();
    let mut dvars = opent5::dvar::DvarRegistry::new();
    handle_main_window_event(WindowEvent::CloseRequested, &mut ctx, &mut dvars, 0);
    handle_main_window_event(WindowEvent::Destroyed, &mut ctx, &mut dvars, 0);
    handle_main_window_event(WindowEvent::ModifiersChanged { modifiers: Modifiers::empty() }, &mut ctx, &mut dvars, 0);
    assert_eq!(query_quit_event(&ctx.events), SignalState::Signaled);
}
