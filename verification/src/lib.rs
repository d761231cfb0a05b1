//! Tracking engine of a watcher that polls a remote "now playing" service and
//! reports what it finds as time-stamped activity events.
//!
//! Everything here is pure: the engine decides, the surrounding program
//! fetches, sends and waits. Each decision carries a contract that Verus
//! proves.
//!
//! - [`window`]: time spans and the tokens that name them
//! - [`document`]: the structured documents that responses parse to
//! - [`event`]: activity events
//! - [`nowplaying`]: one poll tick, from document to heartbeat
//! - [`history`]: the one-shot backfill of past tracks
//! - [`poll`]: the poll loop between ticks, and its shutdown
//! - [`remote`]: the addresses that are fetched
//! - [`config`], [`cli`], [`logging`]: settings, command line, logs
//! - [`text`]: numbers and strings

pub mod cli;
pub mod config;
pub mod document;
pub mod event;
pub mod history;
pub mod logging;
pub mod nowplaying;
pub mod poll;
pub mod remote;
pub mod text;
pub mod window;
