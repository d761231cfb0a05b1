//! One poll tick: from the fetched document to the heartbeat, if any.

use vstd::prelude::*;
use crate::document::Json;
use crate::event::{
    spec_title, spec_track_info, text_view, track_info, ActivityEvent, ActivityEventView,
    Timestamp, TrackInfo, TrackInfoView,
};
use crate::window::{TimeSpan, MAX_SPAN_SECS};

verus! {

/// Why a fetch produced no document.
#[derive(Clone, Copy, Debug, PartialEq, Eq, Structural)]
pub enum FetchError {
    /// The request did not complete.
    Transport,
    /// The body was not a structured document.
    Parse,
}

/// What one look at the remote service found.
#[derive(Debug, PartialEq, Eq)]
pub struct NowPlayingSnapshot {
    pub title: Option<String>,
    pub artist: Option<String>,
    pub album: Option<String>,
    pub is_playing: bool,
}

/// The mathematical value of a [`NowPlayingSnapshot`].
pub struct NowPlayingView {
    pub title: Option<Seq<char>>,
    pub artist: Option<Seq<char>>,
    pub album: Option<Seq<char>>,
    pub is_playing: bool,
}

impl View for NowPlayingSnapshot {
    type V = NowPlayingView;

    open spec fn view(&self) -> NowPlayingView {
        NowPlayingView {
            title: text_view(self.title),
            artist: text_view(self.artist),
            album: text_view(self.album),
            is_playing: self.is_playing,
        }
    }
}

/// A heartbeat ready to send: the event, and the window in seconds within
/// which the store merges it with the heartbeat before it.
#[derive(Debug, PartialEq, Eq)]
pub struct Heartbeat {
    pub event: ActivityEvent,
    pub merge_window: u64,
}

/// The mathematical value of a [`Heartbeat`].
pub struct HeartbeatView {
    pub event: ActivityEventView,
    pub merge_window: u64,
}

impl View for Heartbeat {
    type V = HeartbeatView;

    open spec fn view(&self) -> HeartbeatView {
        HeartbeatView { event: self.event@, merge_window: self.merge_window }
    }
}

/// What a tick decided.
#[derive(Debug, PartialEq, Eq)]
pub enum TickOutcome {
    /// No document came back; the tick is skipped.
    FetchFailed(FetchError),
    /// The document names no track that is playing now.
    NothingPlaying,
    /// A track is playing: send this heartbeat.
    Heartbeat(Heartbeat),
}

/// The first entry of `recenttracks.track`, where that is an array with at
/// least one entry.
pub open spec fn first_track(doc: Json) -> Option<Json> {
    match doc.spec_get("recenttracks"@) {
        Some(recent) => match recent.spec_get("track"@) {
            Some(tracks) => tracks.spec_at(0),
            None => None,
        },
        None => None,
    }
}

/// Whether the first track carries the now-playing mark: the text `true`
/// at `@attr.nowplaying`, and nothing else.
pub open spec fn is_now_playing(doc: Json) -> bool {
    first_track(doc) matches Some(track) && track.spec_nested_str("@attr"@, "nowplaying"@) == Some(
        "true"@,
    )
}

/// The snapshot that a document gives: the first track's fields where it is
/// playing now, and an empty snapshot where nothing is.
pub open spec fn spec_now_playing(doc: Json) -> NowPlayingView {
    if is_now_playing(doc) {
        let info = spec_track_info(first_track(doc)->0);
        NowPlayingView {
            title: info.title,
            artist: info.artist,
            album: info.album,
            is_playing: true,
        }
    } else {
        NowPlayingView { title: None, artist: None, album: None, is_playing: false }
    }
}

/// The heartbeat for a playing snapshot taken at `now`: an event without an
/// id that starts at `now`, lasts one polling interval and carries the
/// snapshot's fields, to be merged within one polling interval.
pub open spec fn spec_heartbeat(
    snapshot: NowPlayingView,
    now: Timestamp,
    polling_interval: u64,
) -> HeartbeatView {
    HeartbeatView {
        event: ActivityEventView {
            id: None,
            timestamp: now,
            duration: TimeSpan { secs: polling_interval as i64 },
            data: TrackInfoView {
                title: snapshot.title,
                artist: snapshot.artist,
                album: snapshot.album,
            },
        },
        merge_window: polling_interval,
    }
}

/// A first track with the now-playing mark is reported as playing, with
/// exactly its own title, artist and album. A track without an album is
/// reported all the same, with no album.
pub proof fn lemma_marked_track_is_playing(doc: Json, track: Json)
    requires
        first_track(doc) == Some(track),
        track.spec_nested_str("@attr"@, "nowplaying"@) == Some("true"@),
    ensures
        spec_now_playing(doc) == (NowPlayingView {
            title: spec_title(track),
            artist: track.spec_nested_str("artist"@, "#text"@),
            album: track.spec_nested_str("album"@, "#text"@),
            is_playing: true,
        }),
        track.spec_get("album"@) is None ==> spec_now_playing(doc).album is None,
{
}

/// Where the first track's mark is missing, or is anything but the text
/// `true`, nothing is playing: the snapshot is empty, whatever else the
/// document holds.
pub proof fn lemma_unmarked_track_is_not_playing(doc: Json)
    requires
        first_track(doc) matches Some(track) ==> track.spec_nested_str("@attr"@, "nowplaying"@)
            != Some("true"@),
    ensures
        !is_now_playing(doc),
        spec_now_playing(doc) == (NowPlayingView {
            title: None,
            artist: None,
            album: None,
            is_playing: false,
        }),
{
}

/// Finds the first track entry of a document.
fn find_first_track(doc: &Json) -> (r: Option<&Json>)
    ensures
        match r {
            Some(t) => first_track(*doc) == Some(*t),
            None => first_track(*doc) is None,
        },
{
    match doc.get("recenttracks") {
        Some(recent) => match recent.get("track") {
            Some(tracks) => tracks.at(0),
            None => None,
        },
        None => None,
    }
}

/// Decides from a fetched document whether a track is playing now and, if
/// so, which. Missing title, artist or album are recorded as absent; only
/// the now-playing mark decides.
pub fn extract_now_playing(doc: &Json) -> (r: NowPlayingSnapshot)
    ensures
        r@ == spec_now_playing(*doc),
        r.is_playing == is_now_playing(*doc),
{
    let nothing = NowPlayingSnapshot { title: None, artist: None, album: None, is_playing: false };
    match find_first_track(doc) {
        Some(track) => {
            let playing = match track.nested_str("@attr", "nowplaying") {
                Some(mark) => crate::text::same_text(mark, "true"),
                None => false,
            };
            if playing {
                let info: TrackInfo = track_info(track);
                NowPlayingSnapshot {
                    title: info.title,
                    artist: info.artist,
                    album: info.album,
                    is_playing: true,
                }
            } else {
                nothing
            }
        },
        None => nothing,
    }
}

/// Turns a snapshot into the heartbeat to send, if a track is playing.
pub fn heartbeat_for(snapshot: NowPlayingSnapshot, now: Timestamp, polling_interval: u64) -> (r:
    Option<Heartbeat>)
    requires
        polling_interval <= MAX_SPAN_SECS,
    ensures
        match r {
            Some(hb) => snapshot.is_playing && hb@ == spec_heartbeat(
                snapshot@,
                now,
                polling_interval,
            ) && hb.event.duration.wf() && (now.wf() ==> hb.event.timestamp.wf()),
            None => !snapshot.is_playing,
        },
{
    if snapshot.is_playing {
        Some(
            Heartbeat {
                event: ActivityEvent {
                    id: None,
                    timestamp: now,
                    duration: TimeSpan { secs: polling_interval as i64 },
                    data: TrackInfo {
                        title: snapshot.title,
                        artist: snapshot.artist,
                        album: snapshot.album,
                    },
                },
                merge_window: polling_interval,
            },
        )
    } else {
        None
    }
}

/// One tick of the live poll, given what the fetch brought back: a failed
/// fetch is skipped, a document without a playing track yields nothing, and
/// a playing track yields the heartbeat for it, at `now`. Where `now` is an
/// instant that the event store can hold, so is the heartbeat's.
pub fn handle_lastfm_update(
    fetched: &Result<Json, FetchError>,
    now: Timestamp,
    polling_interval: u64,
) -> (r: TickOutcome)
    requires
        polling_interval <= MAX_SPAN_SECS,
    ensures
        match r {
            TickOutcome::FetchFailed(e) => *fetched == Err::<Json, FetchError>(e),
            TickOutcome::NothingPlaying => *fetched matches Ok(doc) && !is_now_playing(doc),
            TickOutcome::Heartbeat(hb) => *fetched matches Ok(doc) && is_now_playing(doc) && hb@
                == spec_heartbeat(spec_now_playing(doc), now, polling_interval)
                && hb.event.duration.wf() && (now.wf() ==> hb.event.timestamp.wf()),
        },
{
    match fetched {
        Err(e) => TickOutcome::FetchFailed(*e),
        Ok(doc) => {
            let snapshot = extract_now_playing(doc);
            match heartbeat_for(snapshot, now, polling_interval) {
                Some(hb) => TickOutcome::Heartbeat(hb),
                None => TickOutcome::NothingPlaying,
            }
        },
    }
}

} // verus!
