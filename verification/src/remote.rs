//! Requests to the remote service: the two addresses that are fetched, and
//! the instant from which a backfill asks for tracks.

use vstd::prelude::*;
use vstd::string::*;
use crate::event::{MAX_INSTANT_SECS, MIN_INSTANT_SECS};
use crate::text::{render_signed, signed_text};
use crate::window::TimeSpan;

verus! {

/// How long a request may take before it is given up, in seconds.
pub const REQUEST_TIMEOUT_SECS: u64 = 5;

/// The product that requests are sent in the name of: the watcher's name, a
/// slash and its version.
pub fn user_agent(version: &str) -> (r: String)
    ensures
        r@ == "aw-watcher-lastfm/"@ + version@,
{
    let mut r = String::from_str("aw-watcher-lastfm/");
    r.append(version);
    r
}

/// The address of the live poll for a user: the most recent track only.
pub open spec fn spec_live_url(username: Seq<char>, apikey: Seq<char>) -> Seq<char> {
    "https://ws.audioscrobbler.com/2.0/?method=user.getrecenttracks&user="@ + username
        + "&api_key="@ + apikey + "&format=json&limit=1"@
}

/// The address of one page of a user's past tracks: up to 200 tracks at or
/// after the second `from`.
pub open spec fn spec_history_url(username: Seq<char>, apikey: Seq<char>, from: int) -> Seq<
    char,
> {
    "https://ws.audioscrobbler.com/2.0/?method=user.getrecenttracks&user="@ + username
        + "&api_key="@ + apikey + "&format=json&limit=200&from="@ + signed_text(from)
}

/// Writes the address of the live poll.
pub fn live_url(username: &str, apikey: &str) -> (r: String)
    ensures
        r@ == spec_live_url(username@, apikey@),
{
    let mut r = String::from_str(
        "https://ws.audioscrobbler.com/2.0/?method=user.getrecenttracks&user=",
    );
    r.append(username);
    r.append("&api_key=");
    r.append(apikey);
    r.append("&format=json&limit=1");
    r
}

/// Writes the address of one page of past tracks.
pub fn history_url(username: &str, apikey: &str, from: i64) -> (r: String)
    ensures
        r@ == spec_history_url(username@, apikey@, from as int),
{
    let mut r = String::from_str(
        "https://ws.audioscrobbler.com/2.0/?method=user.getrecenttracks&user=",
    );
    r.append(username);
    r.append("&api_key=");
    r.append(apikey);
    r.append("&format=json&limit=200&from=");
    let from_text = render_signed(from);
    r.append(from_text.as_str());
    r
}

/// The second from which a backfill asks for tracks: `lookback` before
/// `now_secs`. Nothing where that second lies before the first or after the
/// last instant that an event can be stored at.
pub fn history_start(now_secs: i64, lookback: TimeSpan) -> (r: Option<i64>)
    ensures
        r == (if MIN_INSTANT_SECS <= now_secs - lookback.secs <= MAX_INSTANT_SECS {
            Some((now_secs - lookback.secs) as i64)
        } else {
            None
        }),
{
    match now_secs.checked_sub(lookback.secs) {
        Some(start) => if MIN_INSTANT_SECS <= start && start <= MAX_INSTANT_SECS {
            Some(start)
        } else {
            None
        },
        None => None,
    }
}

} // verus!
