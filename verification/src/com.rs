//! Common services: the texts that are printed, fatal error messages, build
//! names, and the common dvars.

#![allow(non_camel_case_types)]

use vstd::prelude::*;
use crate::console::Channel;
use crate::dvar::{DvarFlags, DvarRegistry, DvarRegistryView};
use crate::fs::{ignore_localized_dvar, init_filesystem};
use crate::dvar::register::register_bool;
use crate::dvar::register::{description_of, fresh_dvar};
use crate::dvar::{DvarLimitsView, DvarValueView, DvarView};
use crate::text::{concat, contains_text, decimal_isize, has_substring, isize_to_string};

verus! {

/// How severe a thrown error is.
#[derive(Copy, Clone, PartialEq, Eq, Debug, Structural)]
pub enum ErrorParm {
    FATAL,
    DROP,
    SERVERDISCONNECT,
    DISCONNECT,
    SCRIPT,
    SCRIPT_DROP,
    LOCALIZATION,
}

/// The kind of a parsed token.
#[derive(Copy, Clone, PartialEq, Eq, Debug, Structural)]
pub enum ParseTokenType {
    UNKNOWN,
    NUMBER,
    STRING,
    NAME,
    HASH,
    PUNCTUATION,
}

/// The kind of a printed message.
#[derive(Copy, Clone, PartialEq, Eq, Debug, Structural)]
pub enum MessageType {
    Print,
    Warn,
    Error,
}

/// The state of one parse.
#[allow(dead_code)]
struct ParseInfo {
    token: String,
    token_type: ParseTokenType,
    lines: i32,
    unget_token: bool,
    space_delimited: bool,
    keep_string_quotes: bool,
    csv: bool,
    negative_numbers: bool,
    error_prefix: String,
    warning_prefix: String,
    backup_lines: i32,
    backup_text: String,
    parse_file: String,
}

impl ParseInfo {
    /// A parse at its first line, splitting at spaces, with no token yet.
    #[allow(dead_code)]
    fn new() -> (r: Self)
        ensures
            r.token@.len() == 0,
            r.token_type == ParseTokenType::UNKNOWN,
            r.lines == 1,
            r.space_delimited,
            !r.unget_token && !r.keep_string_quotes && !r.csv && !r.negative_numbers,
            r.backup_lines == 0,
    {
        Self {
            token: String::new(),
            token_type: ParseTokenType::UNKNOWN,
            lines: 1,
            unget_token: false,
            space_delimited: true,
            keep_string_quotes: false,
            csv: false,
            negative_numbers: false,
            error_prefix: String::new(),
            warning_prefix: String::new(),
            backup_lines: 0,
            backup_text: String::new(),
            parse_file: String::new(),
        }
    }
}

/// The parses of one thread.
#[allow(dead_code)]
struct ParseThreadInfo {
    parse_info: Vec<ParseInfo>,
    parse_info_num: isize,
    token_pos: isize,
    prev_token_pos: isize,
    line: String,
}

impl ParseThreadInfo {
    /// No parse under way.
    #[allow(dead_code)]
    fn new() -> (r: Self)
        ensures
            r.parse_info@.len() == 0,
            r.parse_info_num == 0 && r.token_pos == 0 && r.prev_token_pos == 0,
            r.line@.len() == 0,
    {
        Self { parse_info: Vec::new(), parse_info_num: 0, token_pos: 0, prev_token_pos: 0, line: String::new() }
    }
}

/// The decimal text of a channel's number.
pub open spec fn channel_text(channel: Channel) -> Seq<char> {
    decimal_isize(channel.0 as isize)
}

/// The line printed for `message` on `channel`: nothing above channel 32,
/// otherwise the channel's number in brackets, a dash and the message.
pub open spec fn printed(channel: Channel, message: Seq<char>) -> Option<Seq<char>> {
    if channel.0 > 32 {
        None
    } else {
        Some("("@ + channel_text(channel) + ") - "@ + message)
    }
}

/// The text printed for `message` on `channel`, or none where the channel
/// prints nothing.
pub fn print(channel: Channel, message: &str) -> (r: Option<String>)
    ensures
        match r {
            Some(s) => printed(channel, message@) == Some(s@),
            None => printed(channel, message@) is None,
        },
{
    if channel.get() > 32 {
        return None;
    }
    let number = isize_to_string(channel.get() as isize);
    let a = concat("(", number.as_str());
    let b = concat(a.as_str(), ") - ");
    Some(concat(b.as_str(), message))
}

/// The text printed for `message` and a line break on `channel`.
pub fn println(channel: Channel, message: &str) -> (r: Option<String>)
    ensures
        match r {
            Some(s) => printed(channel, message@ + "\n"@) == Some(s@),
            None => printed(channel, message@ + "\n"@) is None,
        },
{
    let line = concat(message, "\n");
    print(channel, line.as_str())
}

/// The text printed for a warning: the message in the warning colour.
pub fn warn(channel: Channel, message: &str) -> (r: Option<String>)
    ensures
        match r {
            Some(s) => printed(channel, "^3"@ + message@) == Some(s@),
            None => printed(channel, "^3"@ + message@) is None,
        },
{
    let text = concat("^3", message);
    print(channel, text.as_str())
}

/// The text printed for a warning and a line break.
pub fn warnln(channel: Channel, message: &str) -> (r: Option<String>)
    ensures
        match r {
            Some(s) => printed(channel, "^3"@ + (message@ + "\n"@)) == Some(s@),
            None => printed(channel, "^3"@ + (message@ + "\n"@)) is None,
        },
{
    let line = concat(message, "\n");
    warn(channel, line.as_str())
}

/// The name a derived `Debug` gives an error kind.
pub open spec fn error_parm_name(e: ErrorParm) -> Seq<char> {
    match e {
        ErrorParm::FATAL => "FATAL"@,
        ErrorParm::DROP => "DROP"@,
        ErrorParm::SERVERDISCONNECT => "SERVERDISCONNECT"@,
        ErrorParm::DISCONNECT => "DISCONNECT"@,
        ErrorParm::SCRIPT => "SCRIPT"@,
        ErrorParm::SCRIPT_DROP => "SCRIPT_DROP"@,
        ErrorParm::LOCALIZATION => "LOCALIZATION"@,
    }
}

fn error_parm_text(e: ErrorParm) -> (r: &'static str)
    ensures
        r@ == error_parm_name(e),
{
    match e {
        ErrorParm::FATAL => "FATAL",
        ErrorParm::DROP => "DROP",
        ErrorParm::SERVERDISCONNECT => "SERVERDISCONNECT",
        ErrorParm::DISCONNECT => "DISCONNECT",
        ErrorParm::SCRIPT => "SCRIPT",
        ErrorParm::SCRIPT_DROP => "SCRIPT_DROP",
        ErrorParm::LOCALIZATION => "LOCALIZATION",
    }
}

/// The message a thrown error carries: the text, then the kind in
/// brackets. Throwing ends the program, which the caller does.
pub fn error(err_type: ErrorParm, err: &str) -> (r: String)
    ensures
        r@ == err@ + " ("@ + error_parm_name(err_type) + ")"@,
{
    let a = concat(err, " (");
    let b = concat(a.as_str(), error_parm_text(err_type));
    concat(b.as_str(), ")")
}

/// The text of a fatal error with message `err`, ended by a new line (see
/// [`errorln`]).
pub open spec fn fatal_text(err: Seq<char>) -> Seq<char> {
    (err + "\n"@) + " ("@ + error_parm_name(ErrorParm::FATAL) + ")"@
}

/// The message of a thrown error whose text ends the line.
pub fn errorln(err_type: ErrorParm, err: &str) -> (r: String)
    ensures
        r@ == (err@ + "\n"@) + " ("@ + error_parm_name(err_type) + ")"@,
{
    let line = concat(err, "\n");
    error(err_type, line.as_str())
}

/// Whether `string` passes the filter `name`. Every string passes.
pub fn filter(string: &str, name: &str, case_sensitive: bool) -> (r: bool)
    ensures
        r,
{
    true
}

/// Dumps the dvars to a channel; nothing is dumped.
pub fn dvar_dump(channel: i32, param_2: &str) {
}

/// The official name of the build.
pub fn get_official_build_name_r() -> (r: &'static str)
    ensures
        r@ == "Call of Duty: BlackOps"@,
{
    "Call of Duty: BlackOps"
}

/// The name of the build that is displayed.
pub fn get_build_display_name() -> (r: &'static str)
    ensures
        r@ == "Call of Duty Singleplayer - Ship"@,
{
    "Call of Duty Singleplayer - Ship"
}

/// The version text of the build.
pub fn get_build_version() -> (r: &'static str)
    ensures
        r@ == "7.0.61 CL(794515) CODPCAB-V6 Fri Nov 05 11:33:52 2010"@,
{
    "7.0.61 CL(794515) CODPCAB-V6 Fri Nov 05 11:33:52 2010"
}

/// The short name of the build.
pub fn get_build_name() -> (r: &'static str)
    ensures
        r@ == "COD_T5_R SP"@,
{
    "COD_T5_R SP"
}

/// The date of the build.
pub fn get_build_date() -> (r: &'static str)
    ensures
        r@ == "Nov  5 2010"@,
{
    "Nov  5 2010"
}

/// The processor architectures the program is built for.
#[derive(Copy, Clone, PartialEq, Eq, Debug, Structural)]
pub enum BuildArch {
    I686,
    X86_64,
    Aarch64,
    Wasm32,
}

/// The operating systems the program is built for.
#[derive(Copy, Clone, PartialEq, Eq, Debug, Structural)]
pub enum BuildOs {
    Windows,
    MacOs,
    Linux,
    FreeBsd,
    OpenBsd,
    DragonflyBsd,
    NetBsd,
    OtherUnix,
    Unknown,
}

/// The name of an architecture in the build banner.
pub open spec fn arch_name(arch: BuildArch) -> Seq<char> {
    match arch {
        BuildArch::I686 => "x86"@,
        BuildArch::X86_64 => "x86_64"@,
        BuildArch::Aarch64 => "aarch64"@,
        BuildArch::Wasm32 => "wasm32"@,
    }
}

/// The name of an operating system in the build banner.
pub open spec fn os_name(os: BuildOs) -> Seq<char> {
    match os {
        BuildOs::Windows => "win"@,
        BuildOs::MacOs => "macOS"@,
        BuildOs::Linux => "linux"@,
        BuildOs::FreeBsd => "FreeBSD"@,
        BuildOs::OpenBsd => "OpenBSD"@,
        BuildOs::DragonflyBsd => "DragonflyBSD"@,
        BuildOs::NetBsd => "NetBSD"@,
        BuildOs::OtherUnix => "unix"@,
        BuildOs::Unknown => "unknown"@,
    }
}

/// The name of the architecture `arch` (the target the program is built
/// for is chosen by its caller).
pub fn get_build_arch(arch: BuildArch) -> (r: &'static str)
    ensures
        r@ == arch_name(arch),
{
    match arch {
        BuildArch::I686 => "x86",
        BuildArch::X86_64 => "x86_64",
        BuildArch::Aarch64 => "aarch64",
        BuildArch::Wasm32 => "wasm32",
    }
}

/// The name of the operating system `os` (the target the program is built
/// for is chosen by its caller).
pub fn get_build_os(os: BuildOs) -> (r: &'static str)
    ensures
        r@ == os_name(os),
{
    match os {
        BuildOs::Windows => "win",
        BuildOs::MacOs => "macOS",
        BuildOs::Linux => "linux",
        BuildOs::FreeBsd => "FreeBSD",
        BuildOs::OpenBsd => "OpenBSD",
        BuildOs::DragonflyBsd => "DragonflyBSD",
        BuildOs::NetBsd => "NetBSD",
        BuildOs::OtherUnix => "unix",
        BuildOs::Unknown => "unknown",
    }
}

/// The program's icon as RGBA bytes; there is none yet.
pub fn get_icon_rgba() -> (r: Option<Vec<u8>>)
    ensures
        r is None,
{
    None
}

/// What is printed for a startup variable.
pub fn startup_variable(name: &str) -> (r: Option<String>)
    ensures
        match r {
            Some(s) => printed(Channel(16), "com::startup_variable: "@ + name@ + "\n"@) == Some(s@),
            None => false,
        },
{
    let text = concat("com::startup_variable: ", name);
    println(Channel::new(16), text.as_str())
}

/// The prefix of a printed error: with the word "error" in the message it
/// says so, otherwise it only sets the colour.
pub open spec fn error_prefix(message: Seq<char>) -> Seq<char> {
    if has_substring(message, "error"@) {
        "^1Error: "@
    } else {
        "^1"@
    }
}

/// Common state: safe mode, the frame time, counters of accessed files and
/// printed errors, and whether a log file is open. Safe mode, once on,
/// stays on: every operation keeps it.
pub struct ComState {
    safe_mode: bool,
    frame_time_ms: u64,
    file_accessed: usize,
    error_prints_count: usize,
    error_entered: bool,
    log_file: bool,
}

/// The mathematical model of a [`ComState`].
pub struct ComStateView {
    pub safe_mode: bool,
    pub frame_time_ms: u64,
    pub file_accessed: usize,
    pub error_prints_count: usize,
    pub error_entered: bool,
    pub log_file: bool,
}

impl View for ComState {
    type V = ComStateView;

    closed spec fn view(&self) -> ComStateView {
        ComStateView {
            safe_mode: self.safe_mode,
            frame_time_ms: self.frame_time_ms,
            file_accessed: self.file_accessed,
            error_prints_count: self.error_prints_count,
            error_entered: self.error_entered,
            log_file: self.log_file,
        }
    }
}

impl ComState {
    /// Everything off and every counter at zero.
    pub fn new() -> (r: Self)
        ensures
            !r@.safe_mode,
            r@.frame_time_ms == 0,
            r@.file_accessed == 0,
            r@.error_prints_count == 0,
            !r@.error_entered,
            !r@.log_file,
    {
        Self {
            safe_mode: false,
            frame_time_ms: 0,
            file_accessed: 0,
            error_prints_count: 0,
            error_entered: false,
            log_file: false,
        }
    }

    /// Records that a file was opened for reading.
    pub fn mark_file_accessed(&mut self)
        ensures
            old(self)@.safe_mode ==> final(self)@.safe_mode,
            final(self)@ == (ComStateView { file_accessed: 1, ..old(self)@ }),
    {
        self.file_accessed = 1;
    }

    /// Whether a log file is open.
    pub fn log_file_open(&self) -> (r: bool)
        ensures
            r == self@.log_file,
    {
        self.log_file
    }

    /// Whether the program runs in safe mode.
    pub fn safe_mode(&self) -> (r: bool)
        ensures
            r == self@.safe_mode,
    {
        self.safe_mode
    }

    /// Turns safe mode on; nothing else changes.
    pub fn force_safe_mode(&mut self)
        ensures
            old(self)@.safe_mode ==> final(self)@.safe_mode,
            final(self)@ == (ComStateView { safe_mode: true, ..old(self)@ }),
    {
        self.safe_mode = true;
    }

    /// The time of the last frame, in milliseconds.
    pub fn frame_time(&self) -> (r: u64)
        ensures
            r == self@.frame_time_ms,
    {
        self.frame_time_ms
    }

    /// How many files have been accessed.
    pub fn file_accessed(&self) -> (r: usize)
        ensures
            r == self@.file_accessed,
    {
        self.file_accessed
    }

    /// Whether an error has been thrown.
    pub fn error_entered(&self) -> (r: bool)
        ensures
            r == self@.error_entered,
    {
        self.error_entered
    }

    /// Records that an error was thrown.
    pub fn enter_error(&mut self)
        ensures
            old(self)@.safe_mode ==> final(self)@.safe_mode,
            final(self)@ == (ComStateView { error_entered: true, ..old(self)@ }),
    {
        self.error_entered = true;
    }

    /// How many errors have been printed (counting on from zero after the
    /// largest count).
    pub fn error_prints_count(&self) -> (r: usize)
        ensures
            r == self@.error_prints_count,
    {
        self.error_prints_count
    }

    /// The text printed for the error `message` on `channel`, with its
    /// prefix (see [`error_prefix`]); the count of printed errors goes up by
    /// one, wrapping.
    pub fn print_error(&mut self, channel: Channel, message: &str) -> (r: Option<String>)
        ensures
            old(self)@.safe_mode ==> final(self)@.safe_mode,
            final(self)@ == (ComStateView {
                error_prints_count: if old(self)@.error_prints_count == usize::MAX {
                    0
                } else {
                    (old(self)@.error_prints_count + 1) as usize
                },
                ..old(self)@
            }),
            match r {
                Some(s) => printed(channel, error_prefix(message@) + message@) == Some(s@),
                None => printed(channel, error_prefix(message@) + message@) is None,
            },
    {
        let prefix = if contains_text(message, "error") {
            "^1Error: "
        } else {
            "^1"
        };
        self.error_prints_count = if self.error_prints_count == usize::MAX {
            0
        } else {
            self.error_prints_count + 1
        };
        let text = concat(prefix, message);
        print(channel, text.as_str())
    }

    /// Ends a frame; nothing happens yet.
    pub fn frame(&self) {
    }
}

/// The banner printed when the common services start: version, name, the
/// target, and the build date.
pub open spec fn banner(arch: BuildArch, os: BuildOs) -> Seq<char> {
    "7.0.61 CL(794515) CODPCAB-V6 Fri Nov 05 11:33:52 2010"@ + " "@ + "COD_T5_R SP"@ + " build "@ + os_name(os) + "-"@
        + arch_name(arch) + " "@ + "Nov  5 2010"@
}

/// The registry `r` with the common dvars registered (see [`init_dvars`]),
/// for `logical_cpu_count` logical processors.
pub open spec fn with_common_dvars(r: DvarRegistryView, logical_cpu_count: usize) -> DvarRegistryView {
    r.registered(
        fresh_dvar(
            "wideScreen"@,
            "True if the game video is running in 16x9 aspect, false if 4x3."@,
            DvarFlags::READ_ONLY,
            DvarLimitsView::Bool,
            DvarValueView::Bool(true),
        ),
    ).registered(
        fresh_dvar(
            "onlinegame"@,
            "Current game is an online game with stats, custom classes, unlocks"@,
            DvarFlags::READ_ONLY,
            DvarLimitsView::Bool,
            DvarValueView::Bool(true),
        ),
    ).registered(
        fresh_dvar(
            "useFastFile"@,
            "Enables loading data from fast files."@,
            DvarFlags::WRITE_PROTECTED,
            DvarLimitsView::Bool,
            DvarValueView::Bool(true),
        ),
    ).registered(
        fresh_dvar(
            "sys_smp_allowed"@,
            "Allow multi-threading"@,
            DvarFlags::WRITE_PROTECTED,
            DvarLimitsView::Bool,
            DvarValueView::Bool(1 < logical_cpu_count),
        ),
    )
}

/// Registers the common dvars: the read-only "wideScreen" and "onlinegame"
/// (both true), the write-protected "useFastFile" (true), and the
/// write-protected "sys_smp_allowed", true when there is more than one
/// logical processor. A dvar of one of these names is registered again.
pub fn init_dvars(dvars: &mut DvarRegistry, logical_cpu_count: usize)
    requires
        old(dvars).wf(),
        old(dvars)@.count + 4 <= crate::dvar::DVAR_COUNT_MAX,
    ensures
        final(dvars).wf(),
        final(dvars)@ == with_common_dvars(old(dvars)@, logical_cpu_count),
{
    let _ = register_bool(
        dvars,
        "wideScreen",
        true,
        DvarFlags::from_bits(DvarFlags::READ_ONLY),
        Some("True if the game video is running in 16x9 aspect, false if 4x3."),
    );
    let _ = register_bool(
        dvars,
        "onlinegame",
        true,
        DvarFlags::from_bits(DvarFlags::READ_ONLY),
        Some("Current game is an online game with stats, custom classes, unlocks"),
    );
    let _ = register_bool(
        dvars,
        "useFastFile",
        true,
        DvarFlags::from_bits(DvarFlags::WRITE_PROTECTED),
        Some("Enables loading data from fast files."),
    );
    let _ = register_bool(
        dvars,
        "sys_smp_allowed",
        1 < logical_cpu_count,
        DvarFlags::from_bits(DvarFlags::WRITE_PROTECTED),
        Some("Allow multi-threading"),
    );
}

/// The registry `r` after the common services start (see [`init`]).
pub open spec fn after_init(r: DvarRegistryView, logical_cpu_count: usize) -> DvarRegistryView {
    with_common_dvars(r, logical_cpu_count).registered(ignore_localized_dvar())
}

/// Starts the common services and returns the lines they print: the
/// banner on the system channel, the common dvars registered (see
/// [`init_dvars`]), the file system started (see [`init_filesystem`]),
/// and the closing line on the system channel. A dvar already registered
/// under one of their names is registered again.
pub fn init(
    dvars: &mut DvarRegistry,
    fs_commands: &mut crate::cmd::CmdRegistry<crate::fs::FsCommand>,
    arch: BuildArch,
    os: BuildOs,
    logical_cpu_count: usize,
) -> (r: Vec<String>)
    requires
        old(dvars).wf(),
        old(dvars)@.count + 5 <= crate::dvar::DVAR_COUNT_MAX,
        old(fs_commands).wf(),
        crate::fs::fs_commands_free(old(fs_commands)),
    ensures
        final(dvars).wf(),
        final(dvars)@ == after_init(old(dvars)@, logical_cpu_count),
        final(fs_commands).wf(),
        final(fs_commands)@ == crate::fs::with_fs_commands(old(fs_commands)@),
        r@.len() == 4,
        printed(Channel(14), banner(arch, os) + "\n"@) == Some(r@[0]@),
        printed(Channel(16), "----- fs::startup -----"@ + "\n"@) == Some(r@[1]@),
        printed(Channel(16), "-----------------------"@ + "\n"@) == Some(r@[2]@),
        printed(Channel(14), "--- Common Initialization Complete ---"@ + "\n"@) == Some(r@[3]@),
{
    let t1 = concat(get_build_version(), " ");
    let t2 = concat(t1.as_str(), get_build_name());
    let t3 = concat(t2.as_str(), " build ");
    let t4 = concat(t3.as_str(), get_build_os(os));
    let t5 = concat(t4.as_str(), "-");
    let t6 = concat(t5.as_str(), get_build_arch(arch));
    let t7 = concat(t6.as_str(), " ");
    let line = concat(t7.as_str(), get_build_date());
    let mut lines: Vec<String> = Vec::new();
    lines.push(printed_line(Channel::new(14), line.as_str()));
    init_dvars(dvars, logical_cpu_count);
    let (first, last) = init_filesystem(dvars, fs_commands, true);
    lines.push(first);
    lines.push(last);
    lines.push(printed_line(Channel::new(14), "--- Common Initialization Complete ---"));
    lines
}

/// The line printed for `message` on `channel`, which prints.
fn printed_line(channel: Channel, message: &str) -> (r: String)
    requires
        channel.0 <= 32,
    ensures
        printed(channel, message@ + "\n"@) == Some(r@),
{
    match println(channel, message) {
        Some(s) => s,
        None => String::new(),
    }
}

} // verus!
