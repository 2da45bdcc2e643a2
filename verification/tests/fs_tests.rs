use opent5::fs::gamedir::{plan_game_directory, DirSearchPath, GameDirPlan};
use opent5::fs::open::{
    open_read_begin, open_read_step, OpenReadAction, OpenReadConfig, OpenReadEvent, OpenReadOutcome, PathKind,
};
use opent5::locale::Language;
use opent5::fs::{build_os_path, build_os_path_for_thread, check_os_path, resolve_gamedir, Thread};
use opent5::com::ComState;

fn config() -> OpenReadConfig {
    OpenReadConfig {
        restrict: false,
        num_server_iwds: 0,
        pure_ignored: false,
        copy_files: false,
        debug: false,
        main_thread: true,
    }
}

fn dir(ignore: bool, is_cd_path: bool) -> OpenReadEvent {
    OpenReadEvent::Path {
        usable: true,
        kind: PathKind::Dir { ignore, localized: false, ignore_pure_check: false, is_cd_path },
    }
}

#[test]
fn open_read_finds_a_file_in_an_archive() {
    let cfg = config();
    let s = open_read_begin();
    let (s, a) = open_read_step(&cfg, &s, OpenReadEvent::Path { usable: false, kind: PathKind::Iwd { loaded: true } });
    assert_eq!(a, OpenReadAction::NextPath);
    let (s, a) = open_read_step(&cfg, &s, OpenReadEvent::Path { usable: true, kind: PathKind::Iwd { loaded: true } });
    assert_eq!(a, OpenReadAction::LookInIwd { report: false });
    let (_, a) = open_read_step(&cfg, &s, OpenReadEvent::InIwd(Some(12)));
    assert_eq!(a, OpenReadAction::Finish(OpenReadOutcome::FromIwd(12)));
}

#[test]
fn open_read_opens_and_copies_from_the_cd_path() {
    let cfg = OpenReadConfig { copy_files: true, ..config() };
    let s = open_read_begin();
    let (s, a) = open_read_step(&cfg, &s, dir(false, true));
    assert_eq!(a, OpenReadAction::OpenFromDir { copy: true, report: false });
    let (s, a) = open_read_step(&cfg, &s, OpenReadEvent::Opened(true));
    assert_eq!(a, OpenReadAction::CopyToBase);
    let (_, a) = open_read_step(&cfg, &s, OpenReadEvent::Copied(Some(99)));
    assert_eq!(a, OpenReadAction::Finish(OpenReadOutcome::Copied(99)));
    // a failed open ends the walk
    let (s2, _) = open_read_step(&cfg, &open_read_begin(), dir(false, false));
    let (_, a) = open_read_step(&cfg, &s2, OpenReadEvent::Opened(false));
    assert_eq!(a, OpenReadAction::Finish(OpenReadOutcome::OpenFailed));
}

#[test]
fn open_read_reports_a_forbidden_directory() {
    let cfg = OpenReadConfig { restrict: true, debug: true, ..config() };
    let s = open_read_begin();
    let (s, a) = open_read_step(&cfg, &s, dir(false, false));
    assert_eq!(a, OpenReadAction::ProbeDir);
    let (s, a) = open_read_step(&cfg, &s, OpenReadEvent::Probed(true));
    assert_eq!(a, OpenReadAction::NextPath);
    // once found, further directories are not probed
    let (s, a) = open_read_step(&cfg, &s, dir(false, false));
    assert_eq!(a, OpenReadAction::NextPath);
    let (_, a) = open_read_step(&cfg, &s, OpenReadEvent::NoMorePaths);
    assert_eq!(a, OpenReadAction::Finish(OpenReadOutcome::MustBeInIwd { report_missing: true }));
    let (_, a) = open_read_step(&config(), &open_read_begin(), OpenReadEvent::NoMorePaths);
    assert_eq!(a, OpenReadAction::Finish(OpenReadOutcome::NotFound { report_missing: false }));
    let ignored = OpenReadConfig { pure_ignored: true, ..cfg };
    let (_, a) = open_read_step(&ignored, &open_read_begin(), dir(true, false));
    assert_eq!(a, OpenReadAction::OpenFromDir { copy: false, report: true });
}

#[test]
fn game_directory_plans() {
    let mut paths: Vec<DirSearchPath> = Vec::new();
    match plan_game_directory(&paths, "/base", "main", Some(Language::ENGLISH), false) {
        GameDirPlan::Add { path } => {
            assert_eq!(path.base, "/base");
            assert_eq!(path.gamedir, "main");
            assert_eq!(path.language, Some(Language::ENGLISH));
            assert!(path.ignore);
            assert!(!path.ignore_pure_check);
            paths.push(path);
        },
        GameDirPlan::Duplicate { .. } => panic!("not a duplicate"),
    }
    match plan_game_directory(&paths, "/base", "players", Some(Language::ENGLISH), false) {
        GameDirPlan::Add { path } => {
            assert!(!path.ignore);
            assert!(path.ignore_pure_check);
        },
        GameDirPlan::Duplicate { .. } => panic!("not a duplicate"),
    }
    match plan_game_directory(&paths, "/base", "main", Some(Language::FRENCH), true) {
        GameDirPlan::Duplicate { both, other_language } => {
            assert!(both);
            assert!(other_language);
        },
        GameDirPlan::Add { .. } => panic!("a duplicate"),
    }
    match plan_game_directory(&paths, "/other", "main", Some(Language::FRENCH), true) {
        GameDirPlan::Add { path } => {
            assert!(!path.ignore);
            assert!(path.ignore_pure_check);
        },
        GameDirPlan::Duplicate { .. } => panic!("not a duplicate"),
    }
}

#[test]
fn opening_a_file_records_an_access() {
    let mut com = ComState::new();
    assert_eq!(com.file_accessed(), 0);
    let s = opent5::fs::open::open_file_read(&mut com);
    assert_eq!(com.file_accessed(), 1);
    assert_eq!(s, open_read_begin());
}

#[test]
fn os_paths_are_built_and_checked() {
    assert_eq!(resolve_gamedir(None, "cur"), "");
    assert_eq!(resolve_gamedir(Some(""), "cur"), "cur");
    assert_eq!(resolve_gamedir(Some("main"), "cur"), "main");
    assert_eq!(check_os_path("abc".to_string(), 3, Thread::Main), Ok("abc".to_string()));
    assert_eq!(check_os_path("abcd".to_string(), 3, Thread::Stream), Ok(String::new()));
    assert_eq!(
        check_os_path("abcd".to_string(), 3, Thread::Main),
        Err("\u{15}fs::build_os_path: os path length exceeded\n (FATAL)".to_string())
    );
    assert_eq!(build_os_path("/base", Some("main"), "cur", "x.cfg", 4096), Ok("/base/main/x.cfg".to_string()));
    assert_eq!(build_os_path("/base", Some(""), "cur", "x.cfg", 4096), Ok("/base/cur/x.cfg".to_string()));
    assert_eq!(build_os_path_for_thread("/base", Some("main"), "cur", "x.cfg", Thread::Server, 5), Ok(String::new()));
    assert!(build_os_path("/base", Some("main"), "cur", "x.cfg", 5).is_err());
}

#[test]
fn os_paths_join_their_parts_on_unix() {
    assert_eq!(build_os_path("/game", Some("main"), "", "config.cfg", 4096), Ok("/game/main/config.cfg".to_string()));
    assert_eq!(build_os_path("/game", None, "", "players/x.txt", 4096), Ok("/game/players/x.txt".to_string()));
    assert_eq!(build_os_path("/game/", Some("main"), "", "a", 4096), Ok("/game/main/a".to_string()));
}

#[test]
fn iwd_files_are_kept_up_to_the_limit() {
    let names = vec!["iw_00_patch.iwd".to_string(), "mod_assets.iwd".to_string(), "localized_german_iw01.iwd".to_string()];
    let (kinds, exceeded) = opent5::fs::plan_iwd_files(&names, true, true);
    assert!(!exceeded);
    assert_eq!(
        kinds,
        vec![opent5::fs::IwdFile::Plain, opent5::fs::IwdFile::InvalidInMain, opent5::fs::IwdFile::Localized(Language::AUSTRIAN)]
    );
    let many: Vec<String> = (0..1030).map(|i| format!("iw_{:04}_x.iwd", i)).collect();
    let (kinds, exceeded) = opent5::fs::plan_iwd_files(&many, false, true);
    assert!(exceeded);
    assert_eq!(kinds.len(), opent5::fs::MAX_IWD_FILES_IN_GAME_DIRECTORY);
}
