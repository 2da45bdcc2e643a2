use opent5::fs::{classify_iwd, IwdFile, MAX_IWD_FILES_IN_GAME_DIRECTORY, dir_file_readable, files_are_loaded_globally, is_global_extension, pure_ignore_file_name, pure_ignore_files};
use opent5::cbuf::{add_text, add_textln};
use opent5::com::{
    error, errorln, filter, get_build_arch, get_build_os, get_official_build_name_r, print, warn, warnln,
    BuildArch, BuildOs, ComState, ErrorParm,
};
use opent5::console::{is_channel_visible, Channel, ConsoleBuffer, MessageBuffer, PrintChannel, PrintChannelGlob, PrintMessageDest};
use opent5::fs::{get_os_folder_path, handle_for_file, iwd_file_language, use_searchpath, FileHandles, OsFolder, Thread};
use opent5::locale::Language;
use opent5::platform::{clear_active_app, get_active_app, get_minimized, set_active_app, set_minimized, PlatformVars};

#[test]
fn printed_lines() {
    assert_eq!(print(Channel::new(3), "hi"), Some("(3) - hi".to_string()));
    assert_eq!(print(Channel::new(33), "hi"), None);
    assert_eq!(opent5::com::println(Channel::new(0), "hi"), Some("(0) - hi\n".to_string()));
    assert_eq!(warn(Channel::new(1), "w"), Some("(1) - ^3w".to_string()));
    assert_eq!(warnln(Channel::new(1), "w"), Some("(1) - ^3w\n".to_string()));
}

#[test]
fn printed_errors_are_counted() {
    let mut com = ComState::new();
    assert_eq!(com.print_error(Channel::new(2), "an error occurred"), Some("(2) - ^1Error: an error occurred".to_string()));
    assert_eq!(com.print_error(Channel::new(2), "oops"), Some("(2) - ^1oops".to_string()));
    assert_eq!(com.error_prints_count(), 2);
    assert!(!com.safe_mode());
    com.force_safe_mode();
    assert!(com.safe_mode());
}

#[test]
fn thrown_error_texts() {
    assert_eq!(error(ErrorParm::FATAL, "boom"), "boom (FATAL)");
    assert_eq!(errorln(ErrorParm::DROP, "boom"), "boom\n (DROP)");
    assert!(filter("x", "y", true));
}

#[test]
fn build_names() {
    assert_eq!(get_build_arch(BuildArch::X86_64), "x86_64");
    assert_eq!(get_build_os(BuildOs::Linux), "linux");
    assert_eq!(get_official_build_name_r(), "Call of Duty: BlackOps");
}

#[test]
fn common_init_registers_dvars() {
    let mut dvars = opent5::dvar::DvarRegistry::new();
    let mut fs_commands: opent5::cmd::CmdRegistry<opent5::fs::FsCommand> = opent5::cmd::CmdRegistry::new();
    let lines = opent5::com::init(&mut dvars, &mut fs_commands, BuildArch::X86_64, BuildOs::Linux, 4);
    assert_eq!(
        lines,
        vec![
            "(14) - 7.0.61 CL(794515) CODPCAB-V6 Fri Nov 05 11:33:52 2010 COD_T5_R SP build linux-x86_64 Nov  5 2010\n"
                .to_string(),
            "(16) - ----- fs::startup -----\n".to_string(),
            "(16) - -----------------------\n".to_string(),
            "(14) - --- Common Initialization Complete ---\n".to_string(),
        ]
    );
    assert_eq!(opent5::dvar::get::get_bool(&dvars, "sys_smp_allowed"), Some(true));
    assert_eq!(opent5::dvar::get::get_bool(&dvars, "wideScreen"), Some(true));
    assert_eq!(opent5::dvar::get::get_bool(&dvars, "fs_ignoreLocalized"), Some(false));
    assert_eq!(
        opent5::dvar::find(&dvars, "fs_ignoreLocalized").unwrap().flags.bits,
        opent5::dvar::DvarFlags::LATCHED | opent5::dvar::DvarFlags::CHEAT_PROTECTED
    );
    for name in ["path", "fullpath", "dir", "fdir", "touchFile"] {
        assert!(opent5::cmd::cmd_exists(&fs_commands, name));
    }
    assert_eq!(opent5::cmd::find(&fs_commands, "fdir").unwrap().function(), opent5::fs::FsCommand::NewDir);
    let mut single = opent5::dvar::DvarRegistry::new();
    let mut other_commands: opent5::cmd::CmdRegistry<opent5::fs::FsCommand> = opent5::cmd::CmdRegistry::new();
    opent5::com::init(&mut single, &mut other_commands, BuildArch::X86_64, BuildOs::Linux, 1);
    assert_eq!(opent5::dvar::get::get_bool(&single, "sys_smp_allowed"), Some(false));
}

#[test]
fn command_buffer_lines() {
    assert_eq!(add_text(0, "quit"), "cbuf::add_text: (0) quit");
    assert_eq!(add_textln(-1, "x"), "cbuf::add_text: (-1) x\n");
}

#[test]
fn channel_visibility() {
    let mut glob = PrintChannelGlob::new();
    for _ in 0..8 {
        glob.open_channels.push(PrintChannel::new());
    }
    // a channel without a name is never shown
    assert!(!is_channel_visible(&glob, PrintMessageDest::Console, Channel::new(0), 0));
    for c in glob.open_channels.iter_mut() {
        c.name = arrayvec::ArrayString::from("open").unwrap();
    }
    assert!(is_channel_visible(&glob, PrintMessageDest::Console, Channel::new(0), 0));
    assert!(is_channel_visible(&glob, PrintMessageDest::Minicon, Channel::new(0), 0));
    assert!(!is_channel_visible(&glob, PrintMessageDest::Minicon, Channel::new(3), 0));
    assert!(!is_channel_visible(&glob, PrintMessageDest::Error, Channel::new(1), 0));
    glob.filters[2][0] = 0b10;
    assert!(is_channel_visible(&glob, PrintMessageDest::Error, Channel::new(1), 0));
    // a message of kind 2 or 3 in the extra argument shows unless the filter says otherwise
    assert!(is_channel_visible(&glob, PrintMessageDest::Game1, Channel::new(5), 3 << 5));
}

#[test]
fn console_text_from_main_thread_only() {
    let mut t = opent5::sys::ThreadTable::new();
    t.init_main_thread(1);
    assert_eq!(opent5::conbuf::append_text_in_main_thread(true, &t, 1, "x"), Some("x".to_string()));
    assert_eq!(opent5::conbuf::append_text_in_main_thread(true, &t, 2, "x"), None);
    assert_eq!(opent5::conbuf::append_text_in_main_thread(false, &t, 1, "x"), None);
}

#[test]
fn platform_flags() {
    let mut p = PlatformVars::new(false, false);
    set_active_app(&mut p);
    assert!(get_active_app(&p));
    set_minimized(&mut p);
    assert!(p.is_minimized);
    // the minimised query reads the active flag
    clear_active_app(&mut p);
    assert!(!get_minimized(&p));
}

#[test]
fn file_system_names() {
    assert_eq!(get_os_folder_path(OsFolder::UserData, Some("/home/u"), None), Some("/home/u/.local/share".to_string()));
    assert_eq!(get_os_folder_path(OsFolder::Documents, Some("/home/u"), Some("/docs")), Some("/docs".to_string()));
    assert_eq!(get_os_folder_path(OsFolder::Home, None, None), None);
    assert!(use_searchpath(None, true, Language::ENGLISH));
    assert!(!use_searchpath(Some(Language::GERMAN), false, Language::ENGLISH));
    assert!(use_searchpath(Some(Language::GERMAN), false, Language::GERMAN));
    assert!(!use_searchpath(Some(Language::GERMAN), true, Language::GERMAN));
}

#[test]
fn client_game_developer_dvar() {
    let mut dvars = opent5::dvar::DvarRegistry::new();
    opent5::cg::register_dvars(&mut dvars);
    assert_eq!(opent5::dvar::get::get_int(&dvars, "developer"), Some(0));
    let uis = opent5::cl::ClientUiActives::new();
    assert_eq!(opent5::cl::get_local_client_connection_state(&uis, 0), opent5::cl::Connstate::DISCONNECTED);
}

#[test]
fn localized_archive_languages() {
    assert_eq!(iwd_file_language("localized_english_iw00.iwd"), Some("english".to_string()));
    assert_eq!(iwd_file_language("localized_GERMAN_iw07.iwd"), Some("german".to_string()));
    assert_eq!(iwd_file_language("localized_klingon_iw00.iwd"), None);
    assert_eq!(iwd_file_language("iw_00.iwd"), None);
    assert_eq!(iwd_file_language("localized_english_iw00.zip"), None);
}

#[test]
fn file_handles_by_thread() {
    let mut threads = opent5::sys::ThreadTable::new();
    threads.init_main_thread(5);
    let mut handles = FileHandles::new();
    let fd = handle_for_file(&handles, Thread::Main, &threads, 5);
    assert_eq!(fd.as_usize(), 1);
    handles.occupy(&fd);
    let fd2 = handle_for_file(&handles, Thread::Main, &threads, 5);
    assert_eq!(fd2.as_usize(), 2);
    handles.release(fd);
    assert_eq!(handle_for_file(&handles, Thread::Main, &threads, 5).as_usize(), 1);
}

#[test]
fn console_buffer_lines() {
    let mut b = ConsoleBuffer::new();
    assert!(b.buf.is_empty());
    for _ in 0..3 {
        b.buf.push(arrayvec::ArrayString::new());
    }
    let first = arrayvec::ArrayString::from("first").unwrap();
    let second = arrayvec::ArrayString::from("second").unwrap();
    b.append_line(&first);
    b.append_line(&second);
    assert_eq!(b.buf[0].as_str(), "first");
    assert_eq!(b.buf[1].as_str(), "second");
    assert_eq!(b.buf[2].as_str(), "");
    let third = arrayvec::ArrayString::from("third").unwrap();
    b.set_line(0, &third);
    assert_eq!(b.buf[0].as_str(), "third");
    b.append_line(&first);
    assert_eq!(b.buf[2].as_str(), "first");
    let m = MessageBuffer::default();
    assert!(m.minicon_text.is_empty());
}

#[test]
fn pure_check_file_names() {
    assert!(pure_ignore_files("ban.txt"));
    assert!(pure_ignore_files("autoexec.cfg"));
    assert!(pure_ignore_files("players/config.cfg"));
    assert!(!pure_ignore_files("readme.txt"));
    assert!(!pure_ignore_files("x.dm_NETWORK_PROTOCOL_VERSION"));
    assert!(!pure_ignore_files("cfg"));
    assert!(pure_ignore_files("ban.txt/"));
    assert!(!pure_ignore_files("./ban.txt"));
    assert!(!pure_ignore_files("xban.txt"));
    assert!(pure_ignore_file_name(false, Some(".dm_NETWORK_PROTOCOL_VERSION")));
    assert!(pure_ignore_file_name(false, Some("cfg")));
    assert!(pure_ignore_file_name(true, None));
    assert!(!pure_ignore_file_name(false, None));
    assert!(is_global_extension(".menu"));
    assert!(!is_global_extension("menu"));
    assert!(!files_are_loaded_globally("ui/main.menu"));
    assert!(!files_are_loaded_globally("shader.hlsl"));
    assert!(dir_file_readable(false, false, false, false, 0, false));
    assert!(!dir_file_readable(false, false, false, true, 0, false));
    assert!(!dir_file_readable(true, false, false, false, 0, false));
    assert!(!dir_file_readable(false, false, false, false, 2, false));
    assert!(dir_file_readable(true, false, true, true, 2, false));
    assert!(dir_file_readable(true, true, false, true, 2, false));
    assert!(dir_file_readable(true, false, false, true, 2, true));
}

#[test]
fn archive_kinds() {
    assert_eq!(classify_iwd("localized_english_iw00.iwd", false, false), IwdFile::Localized(Language::ENGLISH));
    assert_eq!(classify_iwd("localized_german_iw01.iwd", true, true), IwdFile::Localized(Language::AUSTRIAN));
    assert_eq!(classify_iwd("localized_german_iw01.iwd", false, true), IwdFile::Localized(Language::GERMAN));
    assert_eq!(classify_iwd("localized_GERMAN_iw01.iwd", false, false), IwdFile::Localized(Language::GERMAN));
    assert_eq!(classify_iwd("localized_klingon_iw00.iwd", false, false), IwdFile::NoLanguage);
    assert_eq!(classify_iwd("localized_x.iwd", false, false), IwdFile::NoLanguage);
    assert_eq!(classify_iwd("iw_00_patch.iwd", false, true), IwdFile::Plain);
    assert_eq!(classify_iwd("mod_assets.iwd", false, true), IwdFile::InvalidInMain);
    assert_eq!(classify_iwd("mod_assets.iwd", false, false), IwdFile::Plain);
    assert_eq!(MAX_IWD_FILES_IN_GAME_DIRECTORY, 1024);
}

#[test]
fn console_window_text() {
    let mut d = opent5::conbuf::ConsoleData::default();
    assert_eq!(d.window_width, 620);
    assert_eq!(d.window_height, 450);
    assert!(d.window.is_none() && d.buffer_window.is_none() && d.buffer_font.is_none());
    assert!(d.console_text.is_empty() && d.returned_text.is_empty() && d.error_string.is_empty());
    d.append_console_text("abc".to_string());
    assert_eq!(d.console_text.as_str(), "abc\n");
    assert!(!d.try_append_console_text("x".repeat(600)));
    assert_eq!(d.console_text.as_str(), "abc\n");
    assert!(d.try_append_console_text("y".repeat(506)));
    assert_eq!(d.console_text.len(), 511);
    assert!(!d.try_append_console_text("z".to_string()));
    assert!(d.try_append_console_text(String::new()));
    assert_eq!(d.console_text.len(), 512);
    let mut e = opent5::conbuf::ConsoleData::default();
    // a character of two bytes counts twice
    assert!(!e.try_append_console_text("é".repeat(256)));
    assert!(e.try_append_console_text("é".repeat(255)));
    assert_eq!(e.console_text.len(), 511);
}

#[test]
fn key_states_cleared() {
    let mut s = opent5::key::PlayerKeyState::default();
    s.any_key_down = 3;
    s.char_team = 2;
    s.keys.push(opent5::key::KeyState { down: true, repeats: 1, binding: "+attack".to_string(), binding2: String::new() });
    opent5::key::clear_states(&mut s, 0);
    assert_eq!(s.any_key_down, 0);
    assert_eq!(s.char_team, 2);
    assert!(s.keys[0].down);
    assert_eq!(s.loc_sel_input_state, opent5::key::LocSelInputState::Nothing);
}

#[test]
fn activating_the_application() {
    let mut keys = opent5::key::PlayerKeyState::default();
    keys.any_key_down = 1;
    let mut vars = PlatformVars::new(false, false);
    let mut input = opent5::input::InputState::new();
    opent5::vid::app_activate(&mut keys, &mut vars, &mut input, true, false);
    assert_eq!(keys.any_key_down, 0);
    assert!(vars.active_app && !vars.is_minimized);
    assert!(input.app_active);
    opent5::vid::app_activate(&mut keys, &mut vars, &mut input, false, true);
    assert!(!vars.active_app && vars.is_minimized);
    assert!(!input.app_active);
}

#[test]
fn archive_language_by_bytes() {
    // the language lies between the prefix and the last nine bytes
    assert_eq!(iwd_file_language("localized_englishaé__.iwd"), Some("english".to_string()));
    assert_eq!(iwd_file_language("localized_french_iw00.iwd"), Some("french".to_string()));
    assert_eq!(iwd_file_language("localized_é.iwd"), None);
    assert_eq!(classify_iwd("localized_englishaé__.iwd", false, false), IwdFile::Localized(Language::ENGLISH));
}
