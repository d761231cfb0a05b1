//! Where the watcher keeps its settings and its logs, when a log is
//! rotated, and what the logger is set up with.
//!
//! Nothing here touches the file system. A path is described as a base
//! directory of the platform and the components below it; whoever runs the
//! watcher resolves the base and creates what is missing.

use vstd::prelude::*;
use vstd::string::*;
use crate::text::{replace_all, replaced, same_text};

verus! {

/// The platform directories that paths start from.
#[derive(Clone, Copy, Debug, PartialEq, Eq, Structural)]
pub enum BaseDir {
    /// The user's configuration directory.
    Config,
    /// The user's cache directory.
    Cache,
    /// The user's home directory.
    Home,
    /// The user's local data directory.
    DataLocal,
}

/// The platforms that keep their logs in different places.
#[derive(Clone, Copy, Debug, PartialEq, Eq, Structural)]
pub enum Platform {
    Windows,
    MacOs,
    Linux,
}

/// A path below a platform directory.
#[derive(Debug, PartialEq, Eq)]
pub struct AppPath {
    pub base: BaseDir,
    pub parts: Vec<String>,
}

/// The mathematical value of an [`AppPath`].
pub struct AppPathView {
    pub base: BaseDir,
    pub parts: Seq<Seq<char>>,
}

impl View for AppPath {
    type V = AppPathView;

    open spec fn view(&self) -> AppPathView {
        AppPathView { base: self.base, parts: self.parts@.map_values(|p: String| p@) }
    }
}

/// The directory of the watcher's settings: `activitywatch` and then
/// `aw-watcher-lastfm`, below the configuration directory.
pub open spec fn spec_config_dir() -> AppPathView {
    AppPathView { base: BaseDir::Config, parts: seq!["activitywatch"@, "aw-watcher-lastfm"@] }
}

/// The directory of the watcher's logs on each platform.
pub open spec fn spec_log_dir(platform: Platform) -> AppPathView {
    match platform {
        Platform::Windows => AppPathView {
            base: BaseDir::DataLocal,
            parts: seq!["activitywatch"@, "activitywatch"@, "aw-watcher-lastfm"@],
        },
        Platform::MacOs => AppPathView {
            base: BaseDir::Home,
            parts: seq!["Library"@, "Logs"@, "activitywatch"@, "aw-watcher-lastfm"@],
        },
        Platform::Linux => AppPathView {
            base: BaseDir::Cache,
            parts: seq!["activitywatch"@, "log"@, "aw-watcher-lastfm"@],
        },
    }
}

impl AppPath {
    /// The path of the base directory itself.
    pub fn new(base: BaseDir) -> (r: AppPath)
        ensures
            r@ == (AppPathView { base, parts: Seq::empty() }),
    {
        let r = AppPath { base, parts: Vec::new() };
        assert(r@.parts =~= Seq::<Seq<char>>::empty());
        r
    }

    /// Goes one component down.
    pub fn push(&mut self, part: &str)
        ensures
            final(self)@ == (AppPathView {
                base: old(self)@.base,
                parts: old(self)@.parts.push(part@),
            }),
    {
        self.parts.push(part.to_owned());
        assert(self@.parts =~= old(self)@.parts.push(part@));
    }
}

/// The directory that holds the watcher's settings.
pub fn get_config_dir() -> (r: AppPath)
    ensures
        r@ == spec_config_dir(),
{
    let mut dir = AppPath::new(BaseDir::Config);
    dir.push("activitywatch");
    dir.push("aw-watcher-lastfm");
    assert(dir@.parts =~= spec_config_dir().parts);
    dir
}

/// The directory that holds the watcher's logs on `platform`.
pub fn get_log_dir(platform: Platform) -> (r: AppPath)
    ensures
        r@ == spec_log_dir(platform),
{
    match platform {
        Platform::Windows => {
            let mut dir = AppPath::new(BaseDir::DataLocal);
            dir.push("activitywatch");
            dir.push("activitywatch");
            dir.push("aw-watcher-lastfm");
            assert(dir@.parts =~= spec_log_dir(platform).parts);
            dir
        },
        Platform::MacOs => {
            let mut dir = AppPath::new(BaseDir::Home);
            dir.push("Library");
            dir.push("Logs");
            dir.push("activitywatch");
            dir.push("aw-watcher-lastfm");
            assert(dir@.parts =~= spec_log_dir(platform).parts);
            dir
        },
        Platform::Linux => {
            let mut dir = AppPath::new(BaseDir::Cache);
            dir.push("activitywatch");
            dir.push("log");
            dir.push("aw-watcher-lastfm");
            assert(dir@.parts =~= spec_log_dir(platform).parts);
            dir
        },
    }
}

/// The settings file: `config.yaml` in the settings directory, where that
/// directory could be had.
pub fn get_config_path(config_dir: Option<AppPath>) -> (r: Option<AppPath>)
    ensures
        match config_dir {
            Some(dir) => r matches Some(path) && path@ == (AppPathView {
                base: dir@.base,
                parts: dir@.parts.push("config.yaml"@),
            }),
            None => r is None,
        },
{
    match config_dir {
        Some(dir) => {
            let mut path = dir;
            path.push("config.yaml");
            Some(path)
        },
        None => None,
    }
}

/// The size above which a log file is rotated: 32 MiB.
pub const MAX_LOG_SIZE: u64 = 32 * 1024 * 1024;

/// Decides whether a log file is rotated, from its name and its size
/// (nothing where the file does not exist). A file larger than
/// [`MAX_LOG_SIZE`] is to be moved to the name that comes back, its own name
/// with every `.log` turned into `-old.log`, in place of whatever is there.
pub fn rotate_log_if_needed(file_name: &str, size: Option<u64>) -> (r: Option<String>)
    ensures
        match r {
            Some(old_name) => size matches Some(n) && n > MAX_LOG_SIZE && old_name@ == replaced(
                file_name@,
                ".log"@,
                "-old.log"@,
            ),
            None => size matches Some(n) ==> n <= MAX_LOG_SIZE,
        },
{
    match size {
        Some(n) => if n > MAX_LOG_SIZE {
            Some(replace_all(file_name, ".log", "-old.log"))
        } else {
            None
        },
        None => None,
    }
}

/// How much is logged, from nothing to everything.
#[derive(Clone, Copy, Debug, PartialEq, Eq, Structural)]
pub enum LogLevel {
    Off,
    Error,
    Warn,
    Info,
    Debug,
    Trace,
}

/// What the logger is set up with.
#[derive(Debug, PartialEq, Eq)]
pub struct LoggerSetup {
    /// The name of the log file inside the log directory.
    pub file_name: String,
    /// The level of what goes to the console. The file takes everything.
    pub console_level: LogLevel,
}

/// The console level where nothing else is asked for.
pub open spec fn default_level(testing: bool, verbose: bool) -> LogLevel {
    if testing || verbose {
        LogLevel::Debug
    } else {
        LogLevel::Info
    }
}

/// The level that a lower-case name stands for, and `fallback` for every
/// other string.
pub open spec fn level_named(name: Seq<char>, fallback: LogLevel) -> LogLevel {
    if name == "trace"@ {
        LogLevel::Trace
    } else if name == "debug"@ {
        LogLevel::Debug
    } else if name == "info"@ {
        LogLevel::Info
    } else if name == "warn"@ {
        LogLevel::Warn
    } else if name == "error"@ {
        LogLevel::Error
    } else {
        fallback
    }
}

/// The name of the log file of `module`.
pub open spec fn log_file_name(module: Seq<char>, testing: bool) -> Seq<char> {
    if testing {
        module + "-testing.log"@
    } else {
        module + ".log"@
    }
}

/// The lower-case form of a string as `str::to_lowercase` gives it.
pub uninterp spec fn lowercase(s: Seq<char>) -> Seq<char>;

/// `str::to_lowercase` of the standard library. The contract only names the
/// result: it is the lower-case form of the argument, the same for the same
/// characters.
#[verifier::external_body]
fn to_lowercase(s: &str) -> (r: String)
    ensures
        r@ == lowercase(s@),
{
    s.to_lowercase()
}

/// Reads a level from its lower-case name.
pub fn level_from_name(name: &str, fallback: LogLevel) -> (r: LogLevel)
    ensures
        r == level_named(name@, fallback),
{
    if same_text(name, "trace") {
        LogLevel::Trace
    } else if same_text(name, "debug") {
        LogLevel::Debug
    } else if same_text(name, "info") {
        LogLevel::Info
    } else if same_text(name, "warn") {
        LogLevel::Warn
    } else if same_text(name, "error") {
        LogLevel::Error
    } else {
        fallback
    }
}

/// Decides what the logger is set up with: the log file's name, and the
/// console level, which is the one that `level_var` names in any case of
/// letters, or else debug when testing or verbose, or else info.
pub fn setup_logger(module: &str, testing: bool, verbose: bool, level_var: Option<&str>) -> (r:
    LoggerSetup)
    ensures
        r.file_name@ == log_file_name(module@, testing),
        r.console_level == match level_var {
            Some(v) => level_named(lowercase(v@), default_level(testing, verbose)),
            None => default_level(testing, verbose),
        },
{
    let mut file_name = module.to_owned();
    if testing {
        file_name.append("-testing.log");
    } else {
        file_name.append(".log");
    }
    let fallback = if testing || verbose {
        LogLevel::Debug
    } else {
        LogLevel::Info
    };
    let console_level = match level_var {
        Some(v) => {
            let lowered = to_lowercase(v);
            level_from_name(lowered.as_str(), fallback)
        },
        None => fallback,
    };
    LoggerSetup { file_name, console_level }
}

} // verus!
