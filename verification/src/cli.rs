//! The command line: which port, whether to backfill first, and what was
//! not understood.

use vstd::prelude::*;
use vstd::string::*;
use crate::text::{decimal_u16, parse_u16, same_text};
use crate::window::{parse_time_spec, parse_time_string, TimeSpan};

verus! {

/// The port of the event store.
pub const DEFAULT_PORT: u16 = 5600;

/// The port of an event store that runs for testing.
pub const TESTING_PORT: u16 = 5699;

/// What the command line asks for.
#[derive(Debug, PartialEq, Eq)]
pub struct CliOptions {
    pub port: u16,
    /// How far back to backfill before polling starts, if at all.
    pub sync: Option<TimeSpan>,
    /// Whether the usage was asked for.
    pub help: bool,
    /// The arguments that were not understood, in their order.
    pub unknown: Vec<String>,
}

/// The mathematical value of [`CliOptions`].
pub struct CliOptionsView {
    pub port: u16,
    pub sync: Option<TimeSpan>,
    pub help: bool,
    pub unknown: Seq<Seq<char>>,
}

impl View for CliOptions {
    type V = CliOptionsView;

    open spec fn view(&self) -> CliOptionsView {
        CliOptionsView {
            port: self.port,
            sync: self.sync,
            help: self.help,
            unknown: self.unknown@.map_values(|s: String| s@),
        }
    }
}

/// Why a command line is refused.
#[derive(Clone, Copy, Debug, PartialEq, Eq, Structural)]
pub enum CliError {
    /// `--port` is the last argument.
    PortWithoutValue,
    /// What follows `--port` is no port number.
    InvalidPort,
    /// `--sync` is the last argument.
    SyncWithoutValue,
    /// What follows `--sync` is no window token.
    InvalidSyncDuration,
}

impl CliError {
    /// What is wrong with the command line, in words.
    pub open spec fn spec_describe(self) -> Seq<char> {
        match self {
            CliError::PortWithoutValue => "--port requires a value"@,
            CliError::InvalidPort => "Invalid port number"@,
            CliError::SyncWithoutValue => "--sync requires a duration value (e.g., 7d, 24h, 30m)"@,
            CliError::InvalidSyncDuration =>
                "Invalid sync duration format. Use format: 7d, 24h, or 30m"@,
        }
    }

    /// What is wrong with the command line, in words.
    pub fn describe(&self) -> (r: &'static str)
        ensures
            r@ == self.spec_describe(),
    {
        match self {
            CliError::PortWithoutValue => "--port requires a value",
            CliError::InvalidPort => "Invalid port number",
            CliError::SyncWithoutValue => "--sync requires a duration value (e.g., 7d, 24h, 30m)",
            CliError::InvalidSyncDuration =>
                "Invalid sync duration format. Use format: 7d, 24h, or 30m",
        }
    }
}

/// The characters of each argument.
pub open spec fn arg_views(args: Seq<String>) -> Seq<Seq<char>> {
    args.map_values(|s: String| s@)
}

/// What is asked for where the command line says nothing.
pub open spec fn default_options() -> CliOptionsView {
    CliOptionsView { port: DEFAULT_PORT, sync: None, help: false, unknown: Seq::empty() }
}

/// Reads the arguments from position `at` on, starting from what the
/// arguments before it have asked for. A later argument overrides an
/// earlier one, an argument that is not understood is noted and passed
/// over, and the first error ends the reading.
pub open spec fn spec_parse_from(args: Seq<Seq<char>>, at: int, so_far: CliOptionsView) -> Result<
    CliOptionsView,
    CliError,
>
    decreases args.len() - at,
{
    if at < 0 || at >= args.len() {
        Ok(so_far)
    } else if args[at] == "--port"@ {
        if at + 1 < args.len() {
            match decimal_u16(args[at + 1]) {
                Some(port) => spec_parse_from(args, at + 2, CliOptionsView { port, ..so_far }),
                None => Err(CliError::InvalidPort),
            }
        } else {
            Err(CliError::PortWithoutValue)
        }
    } else if args[at] == "--testing"@ {
        spec_parse_from(args, at + 1, CliOptionsView { port: TESTING_PORT, ..so_far })
    } else if args[at] == "--sync"@ {
        if at + 1 < args.len() {
            match parse_time_spec(args[at + 1]) {
                Some(span) => spec_parse_from(
                    args,
                    at + 2,
                    CliOptionsView { sync: Some(span), ..so_far },
                ),
                None => Err(CliError::InvalidSyncDuration),
            }
        } else {
            Err(CliError::SyncWithoutValue)
        }
    } else if args[at] == "--help"@ {
        spec_parse_from(args, at + 1, CliOptionsView { help: true, ..so_far })
    } else {
        spec_parse_from(
            args,
            at + 1,
            CliOptionsView { unknown: so_far.unknown.push(args[at]), ..so_far },
        )
    }
}

/// What a command line asks for. The first argument is the program's own
/// name and is passed over.
pub open spec fn spec_parse_args(args: Seq<Seq<char>>) -> Result<CliOptionsView, CliError> {
    spec_parse_from(args, 1, default_options())
}

/// The usage, as `--help` shows it.
pub fn usage() -> (r: &'static str)
    ensures
        r@
            == "Usage: aw-watcher-lastfm-rust [--testing] [--port PORT] [--sync DURATION] [--help]\n\nOptions:\n  --testing         Use testing port (5699)\n  --port PORT       Specify custom port\n  --sync DURATION   Sync historical data (format: 7d, 24h, 30m)\n  --help            Show this help message"@,
{
    "Usage: aw-watcher-lastfm-rust [--testing] [--port PORT] [--sync DURATION] [--help]\n\nOptions:\n  --testing         Use testing port (5699)\n  --port PORT       Specify custom port\n  --sync DURATION   Sync historical data (format: 7d, 24h, 30m)\n  --help            Show this help message"
}

/// Reads the command line.
pub fn parse_args(args: &Vec<String>) -> (r: Result<CliOptions, CliError>)
    ensures
        match r {
            Ok(options) => spec_parse_args(arg_views(args@)) == Ok::<CliOptionsView, CliError>(
                options@,
            ),
            Err(e) => spec_parse_args(arg_views(args@)) == Err::<CliOptionsView, CliError>(e),
        },
        r matches Ok(options) ==> (options.sync matches Some(span) ==> span.wf()),
{
    let mut options = CliOptions { port: DEFAULT_PORT, sync: None, help: false, unknown: Vec::new() };
    assert(options@.unknown =~= Seq::<Seq<char>>::empty());
    let ghost views = arg_views(args@);
    let n = args.len();
    let mut at: usize = 1;
    while at < n
        invariant
            1 <= at,
            n == args.len(),
            views == arg_views(args@),
            spec_parse_from(views, at as int, options@) == spec_parse_args(views),
            options.sync matches Some(span) ==> span.wf(),
        decreases n - at,
    {
        let arg = args[at].as_str();
        assert(views[at as int] == arg@);
        let ghost before = options@;
        if same_text(arg, "--port") {
            if at + 1 < n {
                assert(views[at + 1] == args@[at + 1]@);
                match parse_u16(args[at + 1].as_str()) {
                    Some(port) => {
                        options.port = port;
                        at += 2;
                    },
                    None => {
                        return Err(CliError::InvalidPort);
                    },
                }
            } else {
                return Err(CliError::PortWithoutValue);
            }
        } else if same_text(arg, "--testing") {
            options.port = TESTING_PORT;
            at += 1;
        } else if same_text(arg, "--sync") {
            if at + 1 < n {
                assert(views[at + 1] == args@[at + 1]@);
                match parse_time_string(args[at + 1].as_str()) {
                    Some(span) => {
                        options.sync = Some(span);
                        at += 2;
                    },
                    None => {
                        return Err(CliError::InvalidSyncDuration);
                    },
                }
            } else {
                return Err(CliError::SyncWithoutValue);
            }
        } else if same_text(arg, "--help") {
            options.help = true;
            at += 1;
        } else {
            options.unknown.push(arg.to_owned());
            assert(options@.unknown =~= before.unknown.push(arg@));
            at += 1;
        }
    }
    Ok(options)
}

} // verus!
