//! The decisions of opening a file for reading: the search paths are walked
//! in order, and for each one the caller performs what
//! [`open_read_step`] asks (open or probe the file in a directory, look it
//! up in an archive, copy it) and reports what came of it.

use vstd::prelude::*;

verus! {

/// What the walk knows of the file system's settings and of the file.
#[derive(Clone, Copy, PartialEq, Eq, Structural, Debug)]
pub struct OpenReadConfig {
    /// Whether "fs_restrict" is on.
    pub restrict: bool,
    /// How many archives the server declared.
    pub num_server_iwds: usize,
    /// Whether the file is let through the pure check by its name (see
    /// [`super::pure_ignore_files`]).
    pub pure_ignored: bool,
    /// Whether "fs_copyfiles" is on.
    pub copy_files: bool,
    /// Whether "fs_debug" is not zero.
    pub debug: bool,
    /// Whether the calling thread is the main thread.
    pub main_thread: bool,
}

/// A search path, as far as the walk reads it.
#[derive(Clone, Copy, PartialEq, Eq, Structural, Debug)]
pub enum PathKind {
    /// A directory: whether the path is ignored, localized, exempt from the
    /// pure check, and whether its base is the CD path.
    Dir { ignore: bool, localized: bool, ignore_pure_check: bool, is_cd_path: bool },
    /// An archive, and whether it is loaded.
    Iwd { loaded: bool },
}

/// What the caller reports.
#[derive(Clone, Copy, PartialEq, Eq, Structural, Debug)]
pub enum OpenReadEvent {
    /// The next search path, and whether it is in use (see
    /// [`super::use_searchpath`]).
    Path { usable: bool, kind: PathKind },
    /// Whether the file could be opened in the directory.
    Opened(bool),
    /// Whether the file could be opened, when only probed.
    Probed(bool),
    /// The size copied to the base path, or none where the copy failed.
    Copied(Option<u64>),
    /// The file's size in the archive, or none where it is not there.
    InIwd(Option<u64>),
    /// Every search path has been walked.
    NoMorePaths,
}

/// How a walk ends.
#[derive(Clone, Copy, PartialEq, Eq, Structural, Debug)]
pub enum OpenReadOutcome {
    /// The file was copied to the base path; its size.
    Copied(u64),
    /// The file was found in an archive; its size.
    FromIwd(u64),
    /// Opening the file in a directory failed.
    OpenFailed,
    /// Copying the file failed.
    CopyFailed,
    /// The file is nowhere; `report_missing` asks for the line "Can't find"
    /// and the file name.
    NotFound { report_missing: bool },
    /// The file is only in a directory that the settings forbid, while no
    /// archive is declared and nothing is restricted: it must be in an
    /// archive or not in the main directory.
    MustBeInIwdOrNotMain { report_missing: bool },
    /// The file is only in a directory that the settings forbid: it must be
    /// in an archive.
    MustBeInIwd { report_missing: bool },
}

/// What the caller is asked to do next.
#[derive(Clone, Copy, PartialEq, Eq, Structural, Debug)]
pub enum OpenReadAction {
    /// Report the next search path (or that there is none).
    NextPath,
    /// Open the file in the directory and keep its handle; `report` asks
    /// for the debug line; the open is followed by a copy where `copy`.
    OpenFromDir { copy: bool, report: bool },
    /// Try to open the file in the directory, only to learn whether it is
    /// there.
    ProbeDir,
    /// Copy the file to the base path.
    CopyToBase,
    /// Look the file up in the archive; `report` asks for the debug line.
    LookInIwd { report: bool },
    /// Stop with this outcome.
    Finish(OpenReadOutcome),
}

/// What the walk remembers between steps.
#[derive(Clone, Copy, PartialEq, Eq, Structural, Debug)]
pub struct OpenReadState {
    /// Whether a probe found the file in a directory.
    pub found_in_dir: bool,
    /// Whether a copy follows the open under way.
    pub copy_pending: bool,
}

/// The state a walk starts in.
pub open spec fn open_read_start() -> OpenReadState {
    OpenReadState { found_in_dir: false, copy_pending: false }
}

/// Whether a directory may serve the file: an unignored one while nothing is
/// restricted and no archive is declared, or a localized one, one exempt
/// from the pure check, or any where the file is exempt by its name.
pub open spec fn dir_serves(cfg: OpenReadConfig, ignore: bool, localized: bool, ignore_pure_check: bool) -> bool {
    ||| (!ignore && !cfg.restrict && cfg.num_server_iwds == 0)
    ||| localized
    ||| ignore_pure_check
    ||| cfg.pure_ignored
}

/// How a walk that met no archive holding the file ends.
pub open spec fn open_read_end(cfg: OpenReadConfig, s: OpenReadState) -> OpenReadOutcome {
    let report_missing = cfg.debug && cfg.main_thread;
    if !s.found_in_dir {
        OpenReadOutcome::NotFound { report_missing }
    } else if cfg.num_server_iwds == 0 && !cfg.restrict {
        OpenReadOutcome::MustBeInIwdOrNotMain { report_missing }
    } else {
        OpenReadOutcome::MustBeInIwd { report_missing }
    }
}

/// One step of the walk: from state `s` and what the caller reported, the
/// next state and what the caller is to do. A search path not in use is
/// passed over; a directory that may serve the file is opened (and the file
/// copied where "fs_copyfiles" is on and the directory is the CD path);
/// another directory is probed until one probe found the file; a loaded
/// archive is searched. An open that fails ends the walk; an open that is
/// not followed by a copy goes on with the next path. A copy ends the walk,
/// as does an archive that holds the file. At the end of the paths, see
/// [`open_read_end`]. A report that answers no request goes on with the
/// next path.
pub open spec fn open_read_step_spec(cfg: OpenReadConfig, s: OpenReadState, ev: OpenReadEvent) -> (
    OpenReadState,
    OpenReadAction,
) {
    match ev {
        OpenReadEvent::Path { usable, kind } => if !usable {
            (s, OpenReadAction::NextPath)
        } else {
            match kind {
                PathKind::Dir { ignore, localized, ignore_pure_check, is_cd_path } => {
                    if dir_serves(cfg, ignore, localized, ignore_pure_check) {
                        let copy = cfg.copy_files && is_cd_path;
                        (
                            OpenReadState { copy_pending: copy, ..s },
                            OpenReadAction::OpenFromDir { copy, report: cfg.debug },
                        )
                    } else if !s.found_in_dir {
                        (s, OpenReadAction::ProbeDir)
                    } else {
                        (s, OpenReadAction::NextPath)
                    }
                },
                PathKind::Iwd { loaded } => if loaded {
                    (s, OpenReadAction::LookInIwd { report: cfg.debug })
                } else {
                    (s, OpenReadAction::NextPath)
                },
            }
        },
        OpenReadEvent::Opened(ok) => if !ok {
            (OpenReadState { copy_pending: false, ..s }, OpenReadAction::Finish(OpenReadOutcome::OpenFailed))
        } else if s.copy_pending {
            (OpenReadState { copy_pending: false, ..s }, OpenReadAction::CopyToBase)
        } else {
            (s, OpenReadAction::NextPath)
        },
        OpenReadEvent::Probed(ok) => (OpenReadState { found_in_dir: ok, ..s }, OpenReadAction::NextPath),
        OpenReadEvent::Copied(r) => match r {
            Some(size) => (s, OpenReadAction::Finish(OpenReadOutcome::Copied(size))),
            None => (s, OpenReadAction::Finish(OpenReadOutcome::CopyFailed)),
        },
        OpenReadEvent::InIwd(r) => match r {
            Some(size) => (s, OpenReadAction::Finish(OpenReadOutcome::FromIwd(size))),
            None => (s, OpenReadAction::NextPath),
        },
        OpenReadEvent::NoMorePaths => (s, OpenReadAction::Finish(open_read_end(cfg, s))),
    }
}

/// The state a walk starts in (see [`open_read_start`]).
pub fn open_read_begin() -> (r: OpenReadState)
    ensures
        r == open_read_start(),
{
    OpenReadState { found_in_dir: false, copy_pending: false }
}

/// Starts opening a file for reading: records in `com` that a file was
/// accessed, and returns the state the walk starts in (see
/// [`open_read_step`] for the walk).
pub fn open_file_read(com: &mut crate::com::ComState) -> (r: OpenReadState)
    ensures
        final(com)@ == (crate::com::ComStateView { file_accessed: 1, ..old(com)@ }),
        r == open_read_start(),
{
    com.mark_file_accessed();
    open_read_begin()
}

/// One step of the walk (see [`open_read_step_spec`]).
pub fn open_read_step(cfg: &OpenReadConfig, state: &OpenReadState, ev: OpenReadEvent) -> (r: (
    OpenReadState,
    OpenReadAction,
))
    ensures
        r == open_read_step_spec(*cfg, *state, ev),
{
    let s = *state;
    match ev {
        OpenReadEvent::Path { usable, kind } => {
            if !usable {
                return (s, OpenReadAction::NextPath);
            }
            match kind {
                PathKind::Dir { ignore, localized, ignore_pure_check, is_cd_path } => {
                    let serves = (!ignore && !cfg.restrict && cfg.num_server_iwds == 0) || localized
                        || ignore_pure_check || cfg.pure_ignored;
                    if serves {
                        let copy = cfg.copy_files && is_cd_path;
                        (
                            OpenReadState { found_in_dir: s.found_in_dir, copy_pending: copy },
                            OpenReadAction::OpenFromDir { copy, report: cfg.debug },
                        )
                    } else if !s.found_in_dir {
                        (s, OpenReadAction::ProbeDir)
                    } else {
                        (s, OpenReadAction::NextPath)
                    }
                },
                PathKind::Iwd { loaded } => {
                    if loaded {
                        (s, OpenReadAction::LookInIwd { report: cfg.debug })
                    } else {
                        (s, OpenReadAction::NextPath)
                    }
                },
            }
        },
        OpenReadEvent::Opened(ok) => {
            let cleared = OpenReadState { found_in_dir: s.found_in_dir, copy_pending: false };
            if !ok {
                (cleared, OpenReadAction::Finish(OpenReadOutcome::OpenFailed))
            } else if s.copy_pending {
                (cleared, OpenReadAction::CopyToBase)
            } else {
                (s, OpenReadAction::NextPath)
            }
        },
        OpenReadEvent::Probed(ok) => (
            OpenReadState { found_in_dir: ok, copy_pending: s.copy_pending },
            OpenReadAction::NextPath,
        ),
        OpenReadEvent::Copied(r) => match r {
            Some(size) => (s, OpenReadAction::Finish(OpenReadOutcome::Copied(size))),
            None => (s, OpenReadAction::Finish(OpenReadOutcome::CopyFailed)),
        },
        OpenReadEvent::InIwd(r) => match r {
            Some(size) => (s, OpenReadAction::Finish(OpenReadOutcome::FromIwd(size))),
            None => (s, OpenReadAction::NextPath),
        },
        OpenReadEvent::NoMorePaths => {
            let report_missing = cfg.debug && cfg.main_thread;
            let outcome = if !s.found_in_dir {
                OpenReadOutcome::NotFound { report_missing }
            } else if cfg.num_server_iwds == 0 && !cfg.restrict {
                OpenReadOutcome::MustBeInIwdOrNotMain { report_missing }
            } else {
                OpenReadOutcome::MustBeInIwd { report_missing }
            };
            (s, OpenReadAction::Finish(outcome))
        },
    }
}

/// Once a probe found the file, a further directory that may not serve it
/// is passed over, and the end of the paths reports the file as forbidden
/// rather than missing.
pub proof fn law_probe_found_is_kept(cfg: OpenReadConfig, s: OpenReadState, ignore: bool, localized: bool, ignore_pure_check: bool, is_cd_path: bool)
    requires
        s.found_in_dir,
        !dir_serves(cfg, ignore, localized, ignore_pure_check),
    ensures
        open_read_step_spec(
            cfg,
            s,
            OpenReadEvent::Path { usable: true, kind: PathKind::Dir { ignore, localized, ignore_pure_check, is_cd_path } },
        ) == (s, OpenReadAction::NextPath),
        !(open_read_end(cfg, s) is NotFound),
{
}

} // verus!
