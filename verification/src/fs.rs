//! The file system's names and rules: where the user's folders are, which
//! thread asks, how a file is opened, and which search paths are used.

pub mod gamedir;
pub mod open;

use vstd::prelude::*;
use crate::com::printed;
use crate::console::Channel;
use crate::dvar::{DvarFlags, DvarRegistry, DvarLimitsView, DvarValueView};
use crate::dvar::register::{fresh_dvar, register_bool};
use crate::locale::{get_str_from_lang, lang_from_str, lang_name, lang_name_round_trip, lang_of_name, Language};
use vstd::utf8::{decode_utf8, encode_utf8, is_char_boundary};
use vstd::string::StringSliceAdditionalSpecFns;
use crate::sys::ThreadTable;
use crate::text::{ascii_lowercase, to_ascii_lowercase};
use vstd::string::StrSliceExecFns;
use crate::text::{concat, has_substring};
use crate::cmd::{add_internal, after_add, CmdRegistry, CmdRegistryView};

verus! {

/// A folder of the user's that the operating system knows.
#[derive(Copy, Clone, Debug, PartialEq, Eq, Structural)]
pub enum OsFolder {
    UserConfig,
    UserData,
    Documents,
    Home,
}

/// The environment variable that names a folder on Unix.
pub open spec fn folder_variable(f: OsFolder) -> Seq<char> {
    match f {
        OsFolder::UserData => "XDG_DATA_HOME"@,
        OsFolder::UserConfig => "XDG_CONFIG_HOME"@,
        OsFolder::Documents => "XDG_DOCUMENTS_DIR"@,
        OsFolder::Home => "HOME"@,
    }
}

/// The environment variable that names `os_folder` on Unix.
pub fn os_folder_variable(os_folder: OsFolder) -> (r: &'static str)
    ensures
        r@ == folder_variable(os_folder),
{
    match os_folder {
        OsFolder::UserData => "XDG_DATA_HOME",
        OsFolder::UserConfig => "XDG_CONFIG_HOME",
        OsFolder::Documents => "XDG_DOCUMENTS_DIR",
        OsFolder::Home => "HOME",
    }
}

/// Where a folder is on Unix when its variable is not set, given the home
/// folder.
pub open spec fn folder_default(f: OsFolder, home: Seq<char>) -> Seq<char> {
    match f {
        OsFolder::UserData => home + "/.local/share"@,
        OsFolder::UserConfig => home + "/.config"@,
        OsFolder::Documents => home + "/Documents"@,
        OsFolder::Home => home,
    }
}

/// Where `os_folder` is on Unix, given the values of the variables "HOME"
/// (`home`) and of the folder's own variable (`variable`): none without a
/// home folder, the variable's value where it is set, and otherwise the
/// folder's place under the home folder.
pub fn get_os_folder_path(os_folder: OsFolder, home: Option<&str>, variable: Option<&str>) -> (r: Option<String>)
    ensures
        home is None ==> r is None,
        home matches Some(h) ==> (r matches Some(p) && p@ == match variable {
            Some(v) => v@,
            None => folder_default(os_folder, h@),
        }),
{
    let h = match home {
        Some(h) => h,
        None => return None,
    };
    match variable {
        Some(v) => Some(v.to_owned()),
        None => Some(
            match os_folder {
                OsFolder::UserData => concat(h, "/.local/share"),
                OsFolder::UserConfig => concat(h, "/.config"),
                OsFolder::Documents => concat(h, "/Documents"),
                OsFolder::Home => h.to_owned(),
            },
        ),
    }
}

/// The dvar "fs_ignoreLocalized" as it is first registered.
pub open spec fn ignore_localized_dvar() -> crate::dvar::DvarView {
    fresh_dvar(
        "fs_ignoreLocalized"@,
        "Ignore localized files"@,
        DvarFlags::LATCHED | DvarFlags::CHEAT_PROTECTED,
        DvarLimitsView::Bool,
        DvarValueView::Bool(false),
    )
}

/// The file system's console commands.
#[derive(Copy, Clone, Debug, PartialEq, Eq, Structural)]
pub enum FsCommand {
    /// "path": shows the search paths.
    Path,
    /// "fullpath": shows the search paths in full.
    FullPath,
    /// "dir": lists a directory.
    Dir,
    /// "fdir": lists the files that match a filter.
    NewDir,
    /// "touchFile": touches a file.
    TouchFile,
}

/// The command registry `c` with the file system's commands added: "path",
/// "fullpath", "dir", "fdir" and "touchFile", in that order.
pub open spec fn with_fs_commands(c: CmdRegistryView<FsCommand>) -> CmdRegistryView<FsCommand> {
    after_add(
        after_add(
            after_add(after_add(after_add(c, "path"@, FsCommand::Path), "fullpath"@, FsCommand::FullPath), "dir"@, FsCommand::Dir),
            "fdir"@,
            FsCommand::NewDir,
        ),
        "touchFile"@,
        FsCommand::TouchFile,
    )
}

/// Whether none of the file system's command names is taken in `cmds`.
pub open spec fn fs_commands_free(cmds: &CmdRegistry<FsCommand>) -> bool {
    &&& !cmds.has("path"@)
    &&& !cmds.has("fullpath"@)
    &&& !cmds.has("dir"@)
    &&& !cmds.has("fdir"@)
    &&& !cmds.has("touchFile"@)
}

/// Adds the file system's commands (see [`with_fs_commands`]); a name that
/// is taken is a fatal error, which `requires` rules out.
pub fn add_commands(cmds: &mut CmdRegistry<FsCommand>)
    requires
        old(cmds).wf(),
        fs_commands_free(old(cmds)),
    ensures
        final(cmds).wf(),
        final(cmds)@ == with_fs_commands(old(cmds)@),
{
    proof {
        reveal_strlit("path");
        reveal_strlit("fullpath");
        reveal_strlit("dir");
        reveal_strlit("fdir");
        reveal_strlit("touchFile");
        assert("path"@[0] == 'p' && "fullpath"@[0] == 'f' && "dir"@[0] == 'd' && "fdir"@[0] == 'f'
            && "touchFile"@[0] == 't');
        assert("fullpath"@.len() != "fdir"@.len());
    }
    let _ = add_internal(cmds, "path", FsCommand::Path);
    let _ = add_internal(cmds, "fullpath", FsCommand::FullPath);
    let _ = add_internal(cmds, "dir", FsCommand::Dir);
    let _ = add_internal(cmds, "fdir", FsCommand::NewDir);
    let _ = add_internal(cmds, "touchFile", FsCommand::TouchFile);
}

/// Starts the file system: registers "fs_ignoreLocalized" (latched and
/// cheat-protected, false; or registers it again) and adds the file
/// system's commands (see [`add_commands`]), between two banner lines on
/// the system channel, which are returned.
pub fn init_filesystem(dvars: &mut DvarRegistry, cmds: &mut CmdRegistry<FsCommand>, dev: bool) -> (r: (String, String))
    requires
        old(dvars).wf(),
        old(dvars).can_register("fs_ignoreLocalized"@),
        old(cmds).wf(),
        fs_commands_free(old(cmds)),
    ensures
        final(dvars).wf(),
        final(dvars)@ == old(dvars).after_register(ignore_localized_dvar()),
        final(cmds).wf(),
        final(cmds)@ == with_fs_commands(old(cmds)@),
        printed(Channel(16), "----- fs::startup -----"@ + "\n"@) == Some(r.0@),
        printed(Channel(16), "-----------------------"@ + "\n"@) == Some(r.1@),
{
    let first = match crate::com::println(Channel::new(16), "----- fs::startup -----") {
        Some(s) => s,
        None => String::new(),
    };
    let flags = DvarFlags::from_bits(DvarFlags::LATCHED | DvarFlags::CHEAT_PROTECTED);
    let _ = register_bool(dvars, "fs_ignoreLocalized", false, flags, Some("Ignore localized files"));
    add_commands(cmds);
    let last = match crate::com::println(Channel::new(16), "-----------------------") {
        Some(s) => s,
        None => String::new(),
    };
    (first, last)
}

/// A thread that may use the file system.
#[derive(Copy, Clone, Debug, PartialEq, Eq, Structural)]
pub enum Thread {
    Main,
    Stream,
    Database,
    Backend,
    Server,
    Invalid,
}

/// The thread that asks: every request is taken as the main thread's.
pub fn get_current_thread() -> (r: Thread)
    ensures
        r == Thread::Main,
{
    Thread::Main
}

/// The game folder a path is built with: none gives the empty folder, an
/// empty one the current game folder `current`, any other itself.
pub open spec fn resolved_gamedir(gamedir: Option<Seq<char>>, current: Seq<char>) -> Seq<char> {
    match gamedir {
        None => Seq::empty(),
        Some(g) => if g.len() == 0 {
            current
        } else {
            g
        },
    }
}

/// The game folder a path is built with (see [`resolved_gamedir`]).
pub fn resolve_gamedir(gamedir: Option<&str>, current: &str) -> (r: String)
    ensures
        r@ == resolved_gamedir(opt_text(gamedir), current@),
{
    match gamedir {
        None => String::new(),
        Some(g) => {
            if g.unicode_len() == 0 {
                current.to_owned()
            } else {
                g.to_owned()
            }
        },
    }
}

/// Whether `c` separates path components on some platform.
pub open spec fn is_sep(c: char) -> bool {
    c == '/' || c == '\\'
}

/// Whether `p` is a path that `Path::join` extends in the same way on every
/// platform: it is not empty, holds no ':' (so no drive), does not begin
/// with '\\' nor with '/' and another separator (so no network or
/// verbatim prefix).
pub open spec fn plain_base(p: Seq<char>) -> bool {
    &&& p.len() > 0
    &&& !p.contains(':')
    &&& p[0] != '\\'
    &&& !(p.len() >= 2 && p[0] == '/' && is_sep(p[1]))
}

/// Whether `q` is a relative part that is appended as it is on every
/// platform: it holds no ':' and does not begin with a separator.
pub open spec fn relative_part(q: Seq<char>) -> bool {
    &&& !q.contains(':')
    &&& (q.len() == 0 || !is_sep(q[0]))
}

/// Whether `r` is `q` joined to `p` by `Path::join` on some platform: after
/// a final '/' nothing is put between them; after a final '\\' nothing (where
/// it separates) or a '/'; otherwise the platform's separator, '/' or '\\'.
pub open spec fn joined(p: Seq<char>, q: Seq<char>, r: Seq<char>) -> bool {
    if p.last() == '/' {
        r == p + q
    } else if p.last() == '\\' {
        r == p + q || r == p + seq!['/'] + q
    } else {
        r == p + seq!['/'] + q || r == p + seq!['\\'] + q
    }
}

/// Calls `Path::join`: `rest` appended to `path` after the platform's
/// separator where `path` does not end in one, or in place of `path` where
/// `rest` is absolute. Which separator is used and which paths count as
/// absolute or prefixed depend on the platform; what holds on every
/// platform is stated (see [`joined`]) for a plain path and a relative part
/// (see [`plain_base`] and [`relative_part`]); other joins are left unsaid
/// beyond the result's length in bytes being a `usize`.
#[verifier::external_body]
fn path_join(path: &str, rest: &str) -> (r: String)
    ensures
        encode_utf8(r@).len() <= usize::MAX,
        plain_base(path@) && relative_part(rest@) ==> joined(path@, rest@, r@),
{
    std::path::Path::new(path).join(rest).to_string_lossy().into_owned()
}

/// What a built path `ospath` comes to, where `max_len` is the platform's
/// longest path in bytes: a path no longer than that stays; a longer one is
/// the empty path for a thread other than the main one, and a fatal error
/// on the main thread, whose message is the error.
pub fn check_os_path(ospath: String, max_len: usize, thread: Thread) -> (r: Result<String, String>)
    requires
        encode_utf8(ospath@).len() <= usize::MAX,
    ensures
        encode_utf8(ospath@).len() <= max_len ==> r == Ok::<String, String>(ospath),
        encode_utf8(ospath@).len() > max_len && thread != Thread::Main ==> r is Ok && r->Ok_0@ == Seq::<char>::empty(),
        encode_utf8(ospath@).len() > max_len && thread == Thread::Main ==> r is Err && r->Err_0@
            == crate::com::fatal_text("\u{15}fs::build_os_path: os path length exceeded"@),
{
    let n = ospath.as_str().len();
    assert(n == encode_utf8(ospath@).len());
    if n <= max_len {
        return Ok(ospath);
    }
    if thread != Thread::Main {
        return Ok(String::new());
    }
    Err(crate::com::errorln(crate::com::ErrorParm::FATAL, "\u{15}fs::build_os_path: os path length exceeded"))
}

/// Whether `p` is `base`, then the game folder `g`, then `q`, each joined
/// to the last as `Path::join` does on some platform (see [`joined`]).
pub open spec fn os_path_of(base: Seq<char>, g: Seq<char>, q: Seq<char>, p: Seq<char>) -> bool {
    exists|mid: Seq<char>| joined(base, g, mid) && #[trigger] joined(mid, q, p)
}

/// What checking the built path `p` gives (see [`check_os_path`]).
pub open spec fn os_path_outcome(p: Seq<char>, max_len: usize, thread: Thread, r: Result<String, String>) -> bool {
    if encode_utf8(p).len() <= max_len {
        r matches Ok(x) && x@ == p
    } else if thread != Thread::Main {
        r matches Ok(x) && x@ == Seq::<char>::empty()
    } else {
        r matches Err(e) && e@ == crate::com::fatal_text("\u{15}fs::build_os_path: os path length exceeded"@)
    }
}

/// Joining a relative part to a plain path gives a plain path.
proof fn lemma_joined_plain(p: Seq<char>, q: Seq<char>, r: Seq<char>)
    requires
        plain_base(p),
        relative_part(q),
        joined(p, q, r),
    ensures
        plain_base(r),
{
    assert(r[0] == p[0]);
    if p.len() >= 2 {
        assert(r[1] == p[1]);
    } else if p[0] == '/' {
        assert(r =~= p + q);
        if r.len() >= 2 {
            assert(r[1] == q[0]);
        }
    }
    assert(!r.contains(':')) by {
        if r.contains(':') {
            let i = choose|i: int| 0 <= i < r.len() && r[i] == ':';
            if i < p.len() {
                assert(p[i] == ':');
            } else if r == p + q {
                assert(q[i - p.len()] == ':');
            } else {
                if i > p.len() {
                    assert(q[i - p.len() - 1] == ':');
                }
            }
        }
    }
}

/// Builds the path of `qpath` in the game folder `gamedir` (see
/// [`resolve_gamedir`], with `current_gamedir` for an empty one) under
/// `base` for `thread`, and checks its length (see [`check_os_path`]).
/// The joining follows the platform's path rules (see [`path_join`]): for a
/// plain base and relative parts, the path is the three joined (see
/// [`os_path_of`]).
pub fn build_os_path_for_thread(
    base: &str,
    gamedir: Option<&str>,
    current_gamedir: &str,
    qpath: &str,
    thread: Thread,
    max_len: usize,
) -> (r: Result<String, String>)
    ensures
        r matches Ok(p) ==> encode_utf8(p@).len() <= max_len,
        thread != Thread::Main ==> r is Ok,
        r matches Err(e) ==> thread == Thread::Main && e@
            == crate::com::fatal_text("\u{15}fs::build_os_path: os path length exceeded"@),
        ({
            let g = resolved_gamedir(opt_text(gamedir), current_gamedir@);
            plain_base(base@) && relative_part(g) && relative_part(qpath@) ==> exists|p: Seq<char>|
                #[trigger] os_path_of(base@, g, qpath@, p) && os_path_outcome(p, max_len, thread, r)
        }),
{
    let g = resolve_gamedir(gamedir, current_gamedir);
    let dir = path_join(base, g.as_str());
    let ospath = path_join(dir.as_str(), qpath);
    let ghost p = ospath@;
    proof {
        if plain_base(base@) && relative_part(g@) && relative_part(qpath@) {
            lemma_joined_plain(base@, g@, dir@);
            assert(joined(dir@, qpath@, p));
            assert(os_path_of(base@, g@, qpath@, p));
        }
    }
    let r = check_os_path(ospath, max_len, thread);
    proof {
        if plain_base(base@) && relative_part(g@) && relative_part(qpath@) {
            assert(os_path_outcome(p, max_len, thread, r));
        }
    }
    r
}

/// Builds a path for the main thread (see [`build_os_path_for_thread`]).
pub fn build_os_path(base: &str, gamedir: Option<&str>, current_gamedir: &str, qpath: &str, max_len: usize) -> (r: Result<String, String>)
    ensures
        r matches Ok(p) ==> encode_utf8(p@).len() <= max_len,
        r matches Err(e) ==> e@ == crate::com::fatal_text("\u{15}fs::build_os_path: os path length exceeded"@),
        ({
            let g = resolved_gamedir(opt_text(gamedir), current_gamedir@);
            plain_base(base@) && relative_part(g) && relative_part(qpath@) ==> exists|p: Seq<char>|
                #[trigger] os_path_of(base@, g, qpath@, p) && os_path_outcome(p, max_len, Thread::Main, r)
        }),
{
    build_os_path_for_thread(base, gamedir, current_gamedir, qpath, Thread::Main, max_len)
}

/// The thread that asks, given which of the known threads it is: the first
/// of main, database, stream, render and server that it is, else none.
pub fn thread_of(is_main: bool, is_database: bool, is_stream: bool, is_render: bool, is_server: bool) -> (r: Option<Thread>)
    ensures
        r == if is_main {
            Some(Thread::Main)
        } else if is_database {
            Some(Thread::Database)
        } else if is_stream {
            Some(Thread::Stream)
        } else if is_render {
            Some(Thread::Backend)
        } else if is_server {
            Some(Thread::Server)
        } else {
            None::<Thread>
        },
{
    if is_main {
        Some(Thread::Main)
    } else if is_database {
        Some(Thread::Database)
    } else if is_stream {
        Some(Thread::Stream)
    } else if is_render {
        Some(Thread::Backend)
    } else if is_server {
        Some(Thread::Server)
    } else {
        None
    }
}

/// How a file is opened.
#[derive(Copy, Clone, Debug, PartialEq, Eq, Structural)]
pub enum Mode {
    Read,
    Write,
    Append,
    AppendSync,
}

/// Whether a file opened in `mode` is flushed after each write.
pub fn handle_sync(mode: Mode) -> (r: bool)
    ensures
        r == (mode == Mode::AppendSync),
{
    mode == Mode::AppendSync
}

/// A file handle: a slot of the table of open files.
#[derive(Debug, PartialEq, Eq, Structural)]
pub struct Fd(pub u8);

impl Fd {
    /// The slot of the handle.
    pub fn as_usize(&self) -> (r: usize)
        ensures
            r == self.0,
    {
        self.0 as usize
    }
}

/// The contents of a file that was read.
pub struct ReadFile(pub Vec<u8>);

/// Whether a search path restricted to `language` (none where it holds
/// every language) is used: a path for another language than `current` is
/// left out unless localized files are ignored, and then every localized
/// path is left out.
pub open spec fn searchpath_used(language: Option<Language>, ignore_localized: bool, current: Language) -> bool {
    if language is None || !ignore_localized {
        match language {
            Some(l) => l == current,
            None => true,
        }
    } else {
        false
    }
}

/// A search path with no language is always used; one restricted to a
/// language is used, while localized files are not ignored, exactly when
/// that language is the current one, and never while they are ignored.
pub proof fn law_searchpath_use(l: Language, ignore_localized: bool, current: Language)
    ensures
        searchpath_used(None, ignore_localized, current),
        !ignore_localized ==> (searchpath_used(Some(l), ignore_localized, current) <==> l == current),
        ignore_localized ==> !searchpath_used(Some(l), ignore_localized, current),
{
}

/// Whether a search path is used (see [`searchpath_used`]).
pub fn use_searchpath(language: Option<Language>, ignore_localized: bool, current: Language) -> (r: bool)
    ensures
        r == searchpath_used(language, ignore_localized, current),
{
    if language.is_none() || !ignore_localized {
        match language {
            Some(l) => l == current,
            None => true,
        }
    } else {
        false
    }
}


/// The handles a thread may use: the first and last slot of its range.
pub open spec fn fd_range(thread: Thread) -> (int, int) {
    match thread {
        Thread::Main => (1, 49),
        Thread::Stream => (50, 61),
        Thread::Database => (61, 61),
        Thread::Backend => (62, 62),
        Thread::Server => (63, 64),
        Thread::Invalid => (1, 0),
    }
}

fn fd_bounds(thread: Thread) -> (r: (usize, usize))
    ensures
        r.0 == fd_range(thread).0 && r.1 == fd_range(thread).1 || thread == Thread::Invalid,
        thread != Thread::Invalid ==> r.1 < FILE_HANDLE_COUNT,
{
    match thread {
        Thread::Main => (1, 49),
        Thread::Stream => (50, 61),
        Thread::Database => (61, 61),
        Thread::Backend => (62, 62),
        Thread::Server => (63, 64),
        Thread::Invalid => (1, 0),
    }
}

/// How many file handles there are.
pub const FILE_HANDLE_COUNT: usize = 70;

/// The table of file handles: whether each slot holds an open file.
pub struct FileHandles {
    open: Vec<bool>,
}

impl View for FileHandles {
    type V = Seq<bool>;

    closed spec fn view(&self) -> Seq<bool> {
        self.open@
    }
}

impl FileHandles {
    /// One slot per handle.
    pub open spec fn wf(&self) -> bool {
        self@.len() == FILE_HANDLE_COUNT
    }

    /// No file open.
    pub fn new() -> (r: Self)
        ensures
            r.wf(),
            forall|i: int| 0 <= i < FILE_HANDLE_COUNT ==> !r@[i],
    {
        let mut open: Vec<bool> = Vec::new();
        let mut i: usize = 0;
        while i < FILE_HANDLE_COUNT
            invariant
                i <= FILE_HANDLE_COUNT,
                open@.len() == i,
                forall|j: int| 0 <= j < i ==> !open@[j],
            decreases FILE_HANDLE_COUNT - i,
        {
            open.push(false);
            i = i + 1;
        }
        Self { open }
    }

    /// Marks the slot of `fd` open.
    pub fn occupy(&mut self, fd: &Fd)
        requires
            old(self).wf(),
            (fd.0 as int) < FILE_HANDLE_COUNT,
        ensures
            final(self).wf(),
            final(self)@ == old(self)@.update(fd.0 as int, true),
    {
        self.open.set(fd.as_usize(), true);
    }

    /// Frees the slot of `fd`: the handle is given back.
    pub fn release(&mut self, fd: Fd)
        requires
            old(self).wf(),
            (fd.0 as int) < FILE_HANDLE_COUNT,
        ensures
            final(self).wf(),
            final(self)@ == old(self)@.update(fd.0 as int, false),
    {
        self.open.set(fd.as_usize(), false);
    }
}

/// Releasing a handle that was free and has just been taken gives the
/// table of handles back as it was.
pub proof fn law_occupy_then_release(open: Seq<bool>, fd: int)
    requires
        0 <= fd < open.len(),
        !open[fd],
    ensures
        open.update(fd, true).update(fd, false) == open,
{
    assert(open.update(fd, true).update(fd, false) =~= open);
}

/// Whether the thread table says `current` is the thread `thread`.
pub open spec fn is_thread(threads: &ThreadTable, current: u64, thread: Thread) -> bool {
    match thread {
        Thread::Main => threads.is_in_slot(current, 0),
        Thread::Stream => threads.is_in_slot(current, 14),
        Thread::Database => threads.is_in_slot(current, 13),
        Thread::Backend => threads.is_in_slot(current, 1),
        Thread::Server => threads.is_in_slot(current, 10),
        Thread::Invalid => false,
    }
}

/// Whether `thread` has a free handle in its range.
pub open spec fn has_free_handle(handles: &FileHandles, thread: Thread) -> bool {
    exists|i: int| fd_range(thread).0 <= i <= fd_range(thread).1 && !handles@[i]
}

/// A free handle for the thread `thread`, which `current` must be: the
/// first free slot of the thread's range (main: 1 to 49, stream: 50 to 61,
/// database: 61, render: 62, server: 63 and 64). Running out of handles is
/// a fatal error, so one must be free.
pub fn handle_for_file(handles: &FileHandles, thread: Thread, threads: &ThreadTable, current: u64) -> (r: Fd)
    requires
        handles.wf(),
        threads.wf(),
        is_thread(threads, current, thread),
        has_free_handle(handles, thread),
    ensures
        fd_range(thread).0 <= r.0 <= fd_range(thread).1,
        !handles@[r.0 as int],
        forall|i: int| fd_range(thread).0 <= i < r.0 ==> handles@[i],
{
    let (first, last) = fd_bounds(thread);
    let mut fd = first;
    while fd <= last
        invariant
            handles.wf(),
            first == fd_range(thread).0,
            last == fd_range(thread).1,
            last < FILE_HANDLE_COUNT,
            first <= fd,
            has_free_handle(handles, thread),
            forall|i: int| first <= i < fd ==> handles@[i],
        decreases last + 1 - fd,
    {
        if !handles.open[fd] {
            return Fd(fd as u8);
        }
        fd = fd + 1;
    }
    proof {
        let i = choose|i: int| fd_range(thread).0 <= i <= fd_range(thread).1 && !handles@[i];
        assert(handles@[i]);
    }
    Fd(0)
}

/// The bytes of "localized_".
pub open spec fn localized_prefix() -> Seq<u8> {
    seq![108u8, 111u8, 99u8, 97u8, 108u8, 105u8, 122u8, 101u8, 100u8, 95u8]
}

/// The bytes of ".iwd".
pub open spec fn iwd_suffix() -> Seq<u8> {
    seq![46u8, 105u8, 119u8, 100u8]
}

/// Whether a file name, encoded as `bytes`, is shaped as a localized
/// archive's: longer than 20 bytes, beginning "localized_" and ending
/// ".iwd". The language is then the bytes between the prefix and the last
/// nine ("_iw", two digits and ".iwd").
pub open spec fn localized_shape(bytes: Seq<u8>) -> bool {
    &&& bytes.len() > 20
    &&& bytes.subrange(0, 10) == localized_prefix()
    &&& bytes.subrange(bytes.len() - 4, bytes.len() as int) == iwd_suffix()
}

/// The language of a localized archive whose file name is encoded as
/// `bytes`: the text between "localized_" and the last nine bytes, read in
/// lower case. None for a name of another shape or an unknown language.
pub open spec fn iwd_language(bytes: Seq<u8>) -> Option<Language> {
    if localized_shape(bytes) {
        lang_of_name(ascii_lowercase(decode_utf8(bytes.subrange(10, bytes.len() - 9))))
    } else {
        None
    }
}

/// The name of the language of the localized archive named `file_name`
/// (see [`iwd_language`]). The name is cut after its tenth byte and before
/// its last nine, so where it has the shape of a localized archive's name a
/// character must end at both places.
pub fn iwd_file_language(file_name: &str) -> (r: Option<String>)
    requires
        localized_shape(file_name.spec_bytes()) ==> is_char_boundary(file_name.spec_bytes(), 10)
            && is_char_boundary(file_name.spec_bytes(), file_name.spec_bytes().len() - 9),
    ensures
        match iwd_language(file_name.spec_bytes()) {
            Some(l) => r matches Some(s) && s@ == lang_name(l),
            None => r is None,
        },
{
    let ghost bytes = file_name.spec_bytes();
    proof {
        vstd::utf8::encode_utf8_valid_utf8(file_name@);
    }
    let b = file_name.as_bytes();
    let n = b.len();
    if n <= 20 {
        return None;
    }
    let prefix = b[0] == 108u8 && b[1] == 111u8 && b[2] == 99u8 && b[3] == 97u8 && b[4] == 108u8
        && b[5] == 105u8 && b[6] == 122u8 && b[7] == 101u8 && b[8] == 100u8 && b[9] == 95u8;
    if !prefix {
        assert(bytes.subrange(0, 10) != localized_prefix()) by {
            if bytes.subrange(0, 10) == localized_prefix() {
                assert forall|i: int| 0 <= i < 10 implies bytes[i] == localized_prefix()[i] by {
                    assert(bytes.subrange(0, 10)[i] == bytes[i]);
                }
            }
        };
        return None;
    }
    assert(bytes.subrange(0, 10) =~= localized_prefix());
    let suffix = b[n - 4] == 46u8 && b[n - 3] == 105u8 && b[n - 2] == 119u8 && b[n - 1] == 100u8;
    if !suffix {
        assert(bytes.subrange(n - 4, n as int) != iwd_suffix()) by {
            if bytes.subrange(n - 4, n as int) == iwd_suffix() {
                assert forall|i: int| 0 <= i < 4 implies bytes[n - 4 + i] == iwd_suffix()[i] by {
                    assert(bytes.subrange(n - 4, n as int)[i] == bytes[n - 4 + i]);
                }
            }
        };
        return None;
    }
    assert(bytes.subrange(n - 4, n as int) =~= iwd_suffix());
    let ghost rest_bytes = bytes.subrange(10, n as int);
    proof {
        vstd::utf8::valid_utf8_split(bytes, 10);
        vstd::utf8::is_char_boundary_iff_not_is_continuation_byte(bytes, n - 9);
        vstd::utf8::is_char_boundary_iff_not_is_continuation_byte(rest_bytes, n - 19);
        assert(rest_bytes[n - 19] == bytes[n - 9]);
    }
    let (_, rest) = file_name.split_at(10);
    let (middle, _) = rest.split_at(n - 19);
    proof {
        assert(middle.spec_bytes() =~= bytes.subrange(10, n - 9));
        vstd::utf8::encode_utf8_decode_utf8(middle@);
    }
    let lower = to_ascii_lowercase(middle);
    match lang_from_str(lower.as_str()) {
        Some(l) => Some(get_str_from_lang(l).to_owned()),
        None => None,
    }
}

/// Whether `s` is a bare file name of more than four characters that ends
/// in ".cfg": it holds no '/', '\\' or ':', so that on every platform the
/// whole of it is the file name, and a character comes before the dot.
pub open spec fn plain_cfg_name(s: Seq<char>) -> bool {
    &&& s.len() > 4
    &&& s.subrange(s.len() - 4, s.len() as int) == ".cfg"@
    &&& !s.contains('/')
    &&& !s.contains('\\')
    &&& !s.contains(':')
}

/// Calls `Path::extension` on `path`: the part of the file name after its
/// last dot, where the name has a dot that does not begin it. Which
/// characters end the file name depends on the platform's separators, so
/// only what holds on every platform is stated: an extension holds no dot,
/// the path holds it right after a dot, and a bare name that ends in ".cfg"
/// (see [`plain_cfg_name`]) has the extension "cfg". What the extension is
/// for other paths is left unsaid.
#[verifier::external_body]
fn path_extension(path: &str) -> (r: Option<String>)
    ensures
        r matches Some(e) ==> !e@.contains('.') && has_substring(path@, seq!['.'] + e@),
        plain_cfg_name(path@) ==> r is Some && r->0@ == "cfg"@,
{
    match std::path::Path::new(path).extension() {
        Some(e) => Some(e.to_string_lossy().into_owned()),
        None => None,
    }
}

/// The text an optional string holds.
pub open spec fn opt_text(o: Option<&str>) -> Option<Seq<char>> {
    match o {
        Some(t) => Some(t@),
        None => None,
    }
}

/// Whether `b` is a single plain name: not empty, no separator, no ':',
/// and neither "." nor "..".
pub open spec fn single_name(b: Seq<char>) -> bool {
    &&& b.len() > 0
    &&& !b.contains('/')
    &&& !b.contains('\\')
    &&& !b.contains(':')
    &&& b != "."@
    &&& b != ".."@
}

/// Calls `Path::eq` on `Path::new(a)` and `Path::new(b)`: whether the two
/// paths have the same components. Which characters separate components
/// and which prefixes exist depend on the platform; what holds on every
/// platform is stated: equal texts are equal paths; against a single plain
/// name (see [`single_name`]), a path with no separator is equal only when
/// its text is that name, an equal path holds the name, and the name with
/// a trailing '/' is equal to it. Other comparisons are left unsaid.
#[verifier::external_body]
fn paths_equal(a: &str, b: &str) -> (r: bool)
    ensures
        a@ == b@ ==> r,
        single_name(b@) && !a@.contains('/') && !a@.contains('\\') ==> (r <==> a@ == b@),
        single_name(b@) && r ==> has_substring(a@, b@),
        single_name(b@) && a@ == b@ + seq!['/'] ==> r,
{
    std::path::Path::new(a) == std::path::Path::new(b)
}

/// Whether a file is let through the pure check: where it is the path
/// "ban.txt" (`is_ban`), and where its extension reads "cfg" or
/// ".dm_NETWORK_PROTOCOL_VERSION".
pub open spec fn pure_ignored(is_ban: bool, extension: Option<Seq<char>>) -> bool {
    ||| is_ban
    ||| extension == Some("cfg"@)
    ||| extension == Some(".dm_NETWORK_PROTOCOL_VERSION"@)
}

/// Whether a file, which is the path "ban.txt" where `is_ban` and whose
/// extension is `extension`, is let through the pure check.
pub fn pure_ignore_file_name(is_ban: bool, extension: Option<&str>) -> (r: bool)
    ensures
        r == pure_ignored(is_ban, opt_text(extension)),
{
    if is_ban {
        return true;
    }
    match extension {
        Some(e) => e.to_owned() == "cfg".to_owned() || e.to_owned() == ".dm_NETWORK_PROTOCOL_VERSION".to_owned(),
        None => false,
    }
}

/// Whether the file `filename` is let through the pure check. It is
/// compared with the path "ban.txt" by components, and its extension comes
/// from the platform's path rules; an extension never holds a dot, so the
/// one that is compared with a leading dot never matches. What is let
/// through is "ban.txt" (also with a trailing '/'), every bare name that
/// ends in ".cfg", and only names that hold "ban.txt" or ".cfg"; a name
/// with no separator and no ".cfg" is let through exactly when it is
/// "ban.txt".
pub fn pure_ignore_files(filename: &str) -> (r: bool)
    ensures
        filename@ == "ban.txt"@ ==> r,
        filename@ == "ban.txt/"@ ==> r,
        plain_cfg_name(filename@) ==> r,
        r ==> has_substring(filename@, "ban.txt"@) || has_substring(filename@, ".cfg"@),
        !filename@.contains('/') && !filename@.contains('\\') && !has_substring(filename@, ".cfg"@) ==> (r
            <==> filename@ == "ban.txt"@),
{
    let is_ban = paths_equal(filename, "ban.txt");
    let ext = path_extension(filename);
    proof {
        reveal_strlit("ban.txt");
        reveal_strlit("ban.txt/");
        reveal_strlit("cfg");
        reveal_strlit(".cfg");
        reveal_strlit(".dm_NETWORK_PROTOCOL_VERSION");
        assert(seq!['.'] + "cfg"@ =~= ".cfg"@);
        assert(".dm_NETWORK_PROTOCOL_VERSION"@[0] == '.');
        assert("ban.txt"@ + seq!['/'] =~= "ban.txt/"@);
        reveal_strlit(".");
        reveal_strlit("..");
        let b = "ban.txt"@;
        assert(b.len() == 7 && "."@.len() == 1 && ".."@.len() == 2);
        assert forall|i: int| 0 <= i < b.len() implies b[i] != '/' && b[i] != '\\' && b[i] != ':' by {
            assert(b[0] == 'b' && b[1] == 'a' && b[2] == 'n' && b[3] == '.' && b[4] == 't' && b[5] == 'x' && b[6] == 't');
        }
        assert(single_name(b));
    }
    match ext {
        Some(e) => pure_ignore_file_name(is_ban, Some(e.as_str())),
        None => pure_ignore_file_name(is_ban, None),
    }
}

/// The extensions of the files that every search path shares, each written
/// with its leading dot.
pub open spec fn global_extension(e: Seq<char>) -> bool {
    ||| e == ".hlsl"@
    ||| e == ".txt"@
    ||| e == ".cfg"@
    ||| e == ".levelshots"@
    ||| e == ".menu"@
    ||| e == ".arena"@
    ||| e == ".str"@
}

/// Whether `extension` is one of the extensions of the files that every
/// search path shares.
pub fn is_global_extension(extension: &str) -> (r: bool)
    ensures
        r == global_extension(extension@),
{
    let e = extension.to_owned();
    e == ".hlsl".to_owned() || e == ".txt".to_owned() || e == ".cfg".to_owned()
        || e == ".levelshots".to_owned() || e == ".menu".to_owned() || e == ".arena".to_owned()
        || e == ".str".to_owned()
}

/// Whether the file `filename` is loaded for every search path, by its
/// extension. The extensions it is compared with are written with a leading
/// dot, which an extension never holds, so no file is.
pub fn files_are_loaded_globally(filename: &str) -> (r: bool)
    ensures
        !r,
{
    let ext = path_extension(filename);
    proof {
        reveal_strlit(".hlsl");
        reveal_strlit(".txt");
        reveal_strlit(".cfg");
        reveal_strlit(".levelshots");
        reveal_strlit(".menu");
        reveal_strlit(".arena");
        reveal_strlit(".str");
    }
    match ext {
        Some(e) => {
            proof {
                if global_extension(e@) {
                    assert(e@[0] == '.');
                    assert(e@.contains('.'));
                }
            }
            is_global_extension(e.as_str())
        },
        None => false,
    }
}

/// Whether a file of a directory search path may be read where it lies:
/// the search path is neither ignored nor restricted while no server
/// archive is loaded, or it is localized, skips the pure check, or the file
/// is let through the pure check.
pub fn dir_file_readable(
    ignore: bool,
    ignore_pure_check: bool,
    localized: bool,
    restrict: bool,
    server_iwds: usize,
    pure_ignored: bool,
) -> (r: bool)
    ensures
        r == ((!ignore && !restrict && server_iwds == 0) || localized || ignore_pure_check || pure_ignored),
{
    (!ignore && !restrict && server_iwds == 0) || (localized || ignore_pure_check || pure_ignored)
}

/// The most archives a game directory may hold; those past it are dropped.
pub const MAX_IWD_FILES_IN_GAME_DIRECTORY: usize = 1024;

/// What an archive found in a game directory is taken for.
#[derive(Copy, Clone, Debug, PartialEq, Eq, Structural)]
pub enum IwdFile {
    /// A localized archive of this language.
    Localized(Language),
    /// Named as localized, with no known language in its name.
    NoLanguage,
    /// In the main directory with a name that does not begin "iw_": refused.
    InvalidInMain,
    /// An ordinary archive.
    Plain,
}

/// The bytes of "iw_".
pub open spec fn iw_prefix() -> Seq<u8> {
    seq![105u8, 119u8, 95u8]
}

/// What an archive whose file name is `name`, encoded as `bytes`, is taken
/// for: a name whose first ten bytes read "localized_" is localized, in
/// the language its name gives (German read as Austrian where the game's
/// language is Austrian); in the main directory a name whose first three
/// bytes do not read "iw_" is refused; any other archive is ordinary.
pub open spec fn iwd_kind(bytes: Seq<u8>, austrian: bool, dir_is_main: bool) -> IwdFile {
    if bytes.subrange(0, 10) == localized_prefix() {
        match iwd_language(bytes) {
            Some(l) => IwdFile::Localized(
                if l == Language::GERMAN && austrian {
                    Language::AUSTRIAN
                } else {
                    l
                },
            ),
            None => IwdFile::NoLanguage,
        }
    } else if dir_is_main && bytes.subrange(0, 3) != iw_prefix() {
        IwdFile::InvalidInMain
    } else {
        IwdFile::Plain
    }
}

/// What the archive named `file_name` is taken for, in the main directory
/// or not, where the game's language is Austrian or not. The name is cut
/// after its tenth byte, in the main directory after its third, and where
/// it has the shape of a localized archive's name before its last nine
/// (see [`iwd_file_language`]), so a character must end at each.
pub fn classify_iwd(file_name: &str, lang_is_austrian: bool, dir_is_main: bool) -> (r: IwdFile)
    requires
        is_char_boundary(file_name.spec_bytes(), 10),
        dir_is_main && file_name.spec_bytes().subrange(0, 10) != localized_prefix()
            ==> is_char_boundary(file_name.spec_bytes(), 3),
        localized_shape(file_name.spec_bytes()) ==> is_char_boundary(
            file_name.spec_bytes(),
            file_name.spec_bytes().len() - 9,
        ),
    ensures
        r == iwd_kind(file_name.spec_bytes(), lang_is_austrian, dir_is_main),
{
    proof {
        vstd::utf8::encode_utf8_valid_utf8(file_name@);
    }
    let b = file_name.as_bytes();
    let localized = b[0] == 108u8 && b[1] == 111u8 && b[2] == 99u8 && b[3] == 97u8 && b[4] == 108u8
        && b[5] == 105u8 && b[6] == 122u8 && b[7] == 101u8 && b[8] == 100u8 && b[9] == 95u8;
    proof {
        if localized {
            assert(b@.subrange(0, 10) =~= localized_prefix());
        } else {
            assert(b@.subrange(0, 10) != localized_prefix()) by {
                if b@.subrange(0, 10) == localized_prefix() {
                    assert(b@.subrange(0, 10)[0] == b@[0]);
                    assert(b@.subrange(0, 10)[9] == b@[9]);
                }
            };
        }
    }
    if localized {
        match iwd_file_language(file_name) {
            Some(name) => {
                match lang_from_str(name.as_str()) {
                    Some(l) => {
                        proof {
                            lang_name_round_trip(l);
                        }
                        if l == Language::GERMAN && lang_is_austrian {
                            IwdFile::Localized(Language::AUSTRIAN)
                        } else {
                            IwdFile::Localized(l)
                        }
                    },
                    None => IwdFile::NoLanguage,
                }
            },
            None => IwdFile::NoLanguage,
        }
    } else if dir_is_main {
        let iw = b[0] == 105u8 && b[1] == 119u8 && b[2] == 95u8;
        if iw {
            assert(b@.subrange(0, 3) =~= iw_prefix());
            IwdFile::Plain
        } else {
            assert(b@.subrange(0, 3) != iw_prefix()) by {
                if b@.subrange(0, 3) == iw_prefix() {
                    assert(b@.subrange(0, 3)[0] == b@[0]);
                    assert(b@.subrange(0, 3)[1] == b@[1]);
                    assert(b@.subrange(0, 3)[2] == b@[2]);
                }
            };
            IwdFile::InvalidInMain
        }
    } else {
        IwdFile::Plain
    }
}

/// Whether `classify_iwd` can take a name of these bytes (see its
/// `requires`): characters end where the name is cut.
pub open spec fn iwd_name_ok(bytes: Seq<u8>, dir_is_main: bool) -> bool {
    &&& is_char_boundary(bytes, 10)
    &&& dir_is_main && bytes.subrange(0, 10) != localized_prefix() ==> is_char_boundary(bytes, 3)
    &&& localized_shape(bytes) ==> is_char_boundary(bytes, bytes.len() - 9)
}

/// The archives of a game directory, named `names`, as they are taken: only
/// the first [`MAX_IWD_FILES_IN_GAME_DIRECTORY`] are kept, each classified
/// (see [`classify_iwd`]), and the flag tells whether names were dropped
/// (which asks for a warning).
pub fn plan_iwd_files(names: &Vec<String>, lang_is_austrian: bool, dir_is_main: bool) -> (r: (Vec<IwdFile>, bool))
    requires
        forall|i: int| 0 <= i < names@.len() && i < MAX_IWD_FILES_IN_GAME_DIRECTORY ==> iwd_name_ok(
            encode_utf8(#[trigger] names@[i]@),
            dir_is_main,
        ),
    ensures
        r.1 == (names@.len() > MAX_IWD_FILES_IN_GAME_DIRECTORY),
        r.0@.len() == if r.1 { MAX_IWD_FILES_IN_GAME_DIRECTORY as int } else { names@.len() as int },
        forall|i: int| 0 <= i < r.0@.len() ==> #[trigger] r.0@[i] == iwd_kind(
            encode_utf8(names@[i]@),
            lang_is_austrian,
            dir_is_main,
        ),
{
    let exceeded = names.len() > MAX_IWD_FILES_IN_GAME_DIRECTORY;
    let n = if exceeded { MAX_IWD_FILES_IN_GAME_DIRECTORY } else { names.len() };
    let mut out: Vec<IwdFile> = Vec::new();
    let mut i: usize = 0;
    while i < n
        invariant
            n <= names@.len(),
            n <= MAX_IWD_FILES_IN_GAME_DIRECTORY,
            i <= n,
            out@.len() == i,
            forall|k: int| 0 <= k < names@.len() && k < MAX_IWD_FILES_IN_GAME_DIRECTORY ==> iwd_name_ok(
                encode_utf8(#[trigger] names@[k]@),
                dir_is_main,
            ),
            forall|k: int| 0 <= k < i ==> #[trigger] out@[k] == iwd_kind(
                encode_utf8(names@[k]@),
                lang_is_austrian,
                dir_is_main,
            ),
        decreases n - i,
    {
        let name = names[i].as_str();
        assert(iwd_name_ok(encode_utf8(names@[i as int]@), dir_is_main));
        out.push(classify_iwd(name, lang_is_austrian, dir_is_main));
        i = i + 1;
    }
    (out, exceeded)
}

} // verus!
