//! Activity events: what the engine hands to the event store.

use vstd::prelude::*;
use crate::document::Json;
use crate::poll::NANOS_PER_SEC;
use crate::window::TimeSpan;

verus! {

/// The first second that an event can be stored at, counted from the Unix
/// epoch: midnight at the start of the year -262143 of the proleptic
/// Gregorian calendar, which is 96465292 days before the epoch.
pub const MIN_INSTANT_SECS: i64 = -8_334_601_228_800;

/// The last second that an event can be stored at: the one before midnight
/// at the end of the year 262142, which is 95026237 days after the epoch.
pub const MAX_INSTANT_SECS: i64 = 8_210_266_876_799;

/// An instant in UTC: seconds since the Unix epoch and the nanoseconds
/// into that second.
#[derive(Clone, Copy, Debug, PartialEq, Eq, Structural)]
pub struct Timestamp {
    pub secs: i64,
    pub nanos: u32,
}

impl Timestamp {
    /// An instant is well formed when the event store can hold it: its
    /// second lies from [`MIN_INSTANT_SECS`] to [`MAX_INSTANT_SECS`], and
    /// its nanoseconds stay within that second.
    pub open spec fn wf(&self) -> bool {
        &&& MIN_INSTANT_SECS <= self.secs <= MAX_INSTANT_SECS
        &&& self.nanos < NANOS_PER_SEC
    }

    /// Whether this instant lies strictly before `other`.
    pub open spec fn before(self, other: Timestamp) -> bool {
        self.secs < other.secs || (self.secs == other.secs && self.nanos < other.nanos)
    }

    /// The instant `nanos` nanoseconds into the second `secs`, if the store
    /// can hold it.
    pub fn new(secs: i64, nanos: u32) -> (r: Option<Timestamp>)
        ensures
            r == (if (Timestamp { secs, nanos }).wf() {
                Some(Timestamp { secs, nanos })
            } else {
                None
            }),
    {
        if MIN_INSTANT_SECS <= secs && secs <= MAX_INSTANT_SECS && nanos < NANOS_PER_SEC {
            Some(Timestamp { secs, nanos })
        } else {
            None
        }
    }

    /// The start of the second `secs`, where that is an instant the store
    /// can hold; nothing for a second before the first or after the last.
    pub open spec fn spec_at_second(secs: int) -> Option<Timestamp> {
        if MIN_INSTANT_SECS <= secs <= MAX_INSTANT_SECS {
            Some(Timestamp { secs: secs as i64, nanos: 0 })
        } else {
            None
        }
    }

    /// The start of the second `secs`, if the store can hold it.
    pub fn at_second(secs: i64) -> (r: Option<Timestamp>)
        ensures
            r == Timestamp::spec_at_second(secs as int),
            r matches Some(t) ==> t.wf(),
    {
        if MIN_INSTANT_SECS <= secs && secs <= MAX_INSTANT_SECS {
            Some(Timestamp { secs, nanos: 0 })
        } else {
            None
        }
    }
}

/// What is known of a track. A field that the source does not give as text
/// is absent.
#[derive(Debug, PartialEq, Eq)]
pub struct TrackInfo {
    pub title: Option<String>,
    pub artist: Option<String>,
    pub album: Option<String>,
}

/// The mathematical value of a [`TrackInfo`].
pub struct TrackInfoView {
    pub title: Option<Seq<char>>,
    pub artist: Option<Seq<char>>,
    pub album: Option<Seq<char>>,
}

/// The characters of an optional string.
pub open spec fn text_view(s: Option<String>) -> Option<Seq<char>> {
    match s {
        Some(t) => Some(t@),
        None => None,
    }
}

impl View for TrackInfo {
    type V = TrackInfoView;

    open spec fn view(&self) -> TrackInfoView {
        TrackInfoView {
            title: text_view(self.title),
            artist: text_view(self.artist),
            album: text_view(self.album),
        }
    }
}

/// The unit that is stored: an instant, a duration from there, and the
/// track it speaks of.
#[derive(Debug, PartialEq, Eq)]
pub struct ActivityEvent {
    /// Assigned by the store; absent on every event made here.
    pub id: Option<i64>,
    pub timestamp: Timestamp,
    pub duration: TimeSpan,
    pub data: TrackInfo,
}

/// The mathematical value of an [`ActivityEvent`].
pub struct ActivityEventView {
    pub id: Option<i64>,
    pub timestamp: Timestamp,
    pub duration: TimeSpan,
    pub data: TrackInfoView,
}

impl View for ActivityEvent {
    type V = ActivityEventView;

    open spec fn view(&self) -> ActivityEventView {
        ActivityEventView {
            id: self.id,
            timestamp: self.timestamp,
            duration: self.duration,
            data: self.data@,
        }
    }
}

/// The text of member `name` of `track`, where it is text.
pub open spec fn spec_title(track: Json) -> Option<Seq<char>> {
    match track.spec_get("name"@) {
        Some(v) => v.spec_str(),
        None => None,
    }
}

/// What a track entry of the remote service says of the track: its `name`,
/// and the `#text` of its `artist` and of its `album`.
pub open spec fn spec_track_info(track: Json) -> TrackInfoView {
    TrackInfoView {
        title: spec_title(track),
        artist: track.spec_nested_str("artist"@, "#text"@),
        album: track.spec_nested_str("album"@, "#text"@),
    }
}

/// An owned copy of an optional string slice.
fn owned_text(s: Option<&str>) -> (r: Option<String>)
    ensures
        match s {
            Some(t) => r matches Some(o) && o@ == t@,
            None => r is None,
        },
{
    match s {
        Some(t) => Some(t.to_owned()),
        None => None,
    }
}

/// Reads title, artist and album from a track entry. A missing field, or
/// one that is not text, is recorded as absent.
pub fn track_info(track: &Json) -> (r: TrackInfo)
    ensures
        r@ == spec_track_info(*track),
{
    let title = match track.get("name") {
        Some(v) => owned_text(v.as_str()),
        None => None,
    };
    let artist = owned_text(track.nested_str("artist", "#text"));
    let album = owned_text(track.nested_str("album", "#text"));
    TrackInfo { title, artist, album }
}

} // verus!
