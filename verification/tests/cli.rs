use aw_watcher_lastfm::cli::{parse_args, usage, CliError, CliOptions, DEFAULT_PORT, TESTING_PORT};
use aw_watcher_lastfm::window::TimeSpan;

fn args(list: &[&str]) -> Vec<String> {
    let mut v = vec!["aw-watcher-lastfm-rust".to_string()];
    v.extend(list.iter().map(|s| s.to_string()));
    v
}

fn options(port: u16, sync: Option<i64>, help: bool, unknown: &[&str]) -> CliOptions {
    CliOptions {
        port,
        sync: sync.map(|secs| TimeSpan { secs }),
        help,
        unknown: unknown.iter().map(|s| s.to_string()).collect(),
    }
}

#[test]
fn empty_command_line_gives_the_defaults() {
    assert_eq!(parse_args(&args(&[])), Ok(options(5600, None, false, &[])));
    assert_eq!(parse_args(&vec![]), Ok(options(5600, None, false, &[])));
    assert_eq!((DEFAULT_PORT, TESTING_PORT), (5600, 5699));
}

#[test]
fn program_name_is_passed_over() {
    assert_eq!(parse_args(&vec!["--testing".to_string()]), Ok(options(5600, None, false, &[])));
}

#[test]
fn port_takes_the_next_argument() {
    assert_eq!(parse_args(&args(&["--port", "5666"])), Ok(options(5666, None, false, &[])));
    assert_eq!(parse_args(&args(&["--port", "+80"])), Ok(options(80, None, false, &[])));
    assert_eq!(parse_args(&args(&["--port", "0"])), Ok(options(0, None, false, &[])));
    assert_eq!(parse_args(&args(&["--port", "65535"])), Ok(options(65535, None, false, &[])));
    assert_eq!(parse_args(&args(&["--port", "--testing"])), Err(CliError::InvalidPort));
    assert_eq!(parse_args(&args(&["--port", "65536"])), Err(CliError::InvalidPort));
    assert_eq!(parse_args(&args(&["--port", "-1"])), Err(CliError::InvalidPort));
    assert_eq!(parse_args(&args(&["--port", ""])), Err(CliError::InvalidPort));
    assert_eq!(parse_args(&args(&["--port"])), Err(CliError::PortWithoutValue));
}

#[test]
fn testing_uses_the_testing_port() {
    assert_eq!(parse_args(&args(&["--testing"])), Ok(options(5699, None, false, &[])));
}

#[test]
fn sync_takes_a_window_token() {
    assert_eq!(parse_args(&args(&["--sync", "7d"])), Ok(options(5600, Some(604_800), false, &[])));
    assert_eq!(parse_args(&args(&["--sync", "24h"])), Ok(options(5600, Some(86_400), false, &[])));
    assert_eq!(parse_args(&args(&["--sync", "30m"])), Ok(options(5600, Some(1_800), false, &[])));
    assert_eq!(parse_args(&args(&["--sync", "30s"])), Err(CliError::InvalidSyncDuration));
    assert_eq!(parse_args(&args(&["--sync", "-1d"])), Err(CliError::InvalidSyncDuration));
    assert_eq!(parse_args(&args(&["--sync", "--testing"])), Err(CliError::InvalidSyncDuration));
    assert_eq!(parse_args(&args(&["--sync"])), Err(CliError::SyncWithoutValue));
}

#[test]
fn later_argument_overrides_an_earlier_one() {
    assert_eq!(parse_args(&args(&["--port", "1", "--testing"])), Ok(options(5699, None, false, &[])));
    assert_eq!(parse_args(&args(&["--testing", "--port", "1"])), Ok(options(1, None, false, &[])));
    assert_eq!(
        parse_args(&args(&["--sync", "1d", "--sync", "2h"])),
        Ok(options(5600, Some(7_200), false, &[]))
    );
}

#[test]
fn unknown_arguments_are_noted_and_passed_over() {
    assert_eq!(
        parse_args(&args(&["--verbose", "--port", "5666", "extra", "", "--PORT"])),
        Ok(options(5666, None, false, &["--verbose", "extra", "", "--PORT"]))
    );
}

#[test]
fn help_is_noted_and_reading_goes_on() {
    assert_eq!(parse_args(&args(&["--help", "--testing"])), Ok(options(5699, None, true, &[])));
    assert!(usage().starts_with("Usage: aw-watcher-lastfm-rust"));
    assert_eq!(usage().lines().count(), 7);
}

#[test]
fn first_error_ends_the_reading() {
    assert_eq!(parse_args(&args(&["--port", "x", "--sync"])), Err(CliError::InvalidPort));
    assert_eq!(parse_args(&args(&["--sync", "x", "--port"])), Err(CliError::InvalidSyncDuration));
    assert_eq!(parse_args(&args(&["--bogus", "--port"])), Err(CliError::PortWithoutValue));
}

#[test]
fn command_line_errors_say_what_is_wrong() {
    assert_eq!(CliError::InvalidPort.describe(), "Invalid port number");
    assert_eq!(CliError::PortWithoutValue.describe(), "--port requires a value");
    assert_eq!(
        CliError::InvalidSyncDuration.describe(),
        "Invalid sync duration format. Use format: 7d, 24h, or 30m"
    );
    assert_eq!(
        CliError::SyncWithoutValue.describe(),
        "--sync requires a duration value (e.g., 7d, 24h, 30m)"
    );
}
