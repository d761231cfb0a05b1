//! Backfill: from one page of past tracks to the events to insert, oldest
//! first, and the bookkeeping of the inserts.

use vstd::prelude::*;
use vstd::string::*;
use crate::document::Json;
use crate::event::{
    spec_track_info, track_info, ActivityEvent, ActivityEventView, Timestamp, TrackInfoView,
};
use crate::nowplaying::FetchError;
use crate::text::{decimal_i64, parse_i64};
use crate::window::TimeSpan;

verus! {

/// How long a past listen is taken to have lasted, in seconds; the remote
/// service does not say.
pub const NOMINAL_LISTEN_SECS: i64 = 30;

/// Why a backfill produced no events.
#[derive(Debug, PartialEq, Eq)]
pub enum SyncError {
    /// No document came back.
    Fetch(FetchError),
    /// The remote service answered with an error of its own.
    RemoteApi { message: String },
}

impl SyncError {
    /// What went wrong, in words.
    pub open spec fn spec_describe(self) -> Seq<char> {
        match self {
            SyncError::Fetch(FetchError::Transport) => "last.fm could not be reached"@,
            SyncError::Fetch(FetchError::Parse) => "last.fm sent no structured document"@,
            SyncError::RemoteApi { message } => "last.fm API error: "@ + message@,
        }
    }

    /// What went wrong, in words.
    pub fn describe(&self) -> (r: String)
        ensures
            r@ == self.spec_describe(),
    {
        match self {
            SyncError::Fetch(FetchError::Transport) => "last.fm could not be reached".to_owned(),
            SyncError::Fetch(FetchError::Parse) => "last.fm sent no structured document".to_owned(),
            SyncError::RemoteApi { message } => {
                let mut r = "last.fm API error: ".to_owned();
                r.append(message.as_str());
                r
            },
        }
    }
}

/// When a past track was listened to: the text at `date.uts` read as a
/// signed decimal number of seconds. Nothing where the entry has no such
/// text or it is no such number.
pub open spec fn track_time(track: Json) -> Option<i64> {
    match track.spec_nested_str("date"@, "uts"@) {
        Some(t) => decimal_i64(t),
        None => None,
    }
}

/// The instant of a past track: the start of the second that the track
/// names, where the event store can hold that instant. Nothing for a track
/// without a time, and nothing for one whose time lies before the first or
/// after the last instant of the store.
pub open spec fn track_instant(track: Json) -> Option<Timestamp> {
    match track_time(track) {
        Some(secs) => Timestamp::spec_at_second(secs as int),
        None => None,
    }
}

/// The event for a past track: without an id, at the track's own instant,
/// of nominal length, with the track's fields. Nothing for a track without
/// an instant.
pub open spec fn track_event(track: Json) -> Option<ActivityEventView> {
    match track_instant(track) {
        Some(timestamp) => Some(
            ActivityEventView {
                id: None,
                timestamp,
                duration: TimeSpan { secs: NOMINAL_LISTEN_SECS },
                data: spec_track_info(track),
            },
        ),
        None => None,
    }
}

/// The events for a page of tracks, in the reverse of the page's order:
/// the page comes newest first, the events go oldest first. Tracks without
/// an instant are left out.
pub open spec fn events_oldest_first(tracks: Seq<Json>) -> Seq<ActivityEventView>
    decreases tracks.len(),
{
    if tracks.len() == 0 {
        Seq::empty()
    } else {
        let older = events_oldest_first(tracks.drop_first());
        match track_event(tracks[0]) {
            Some(e) => older.push(e),
            None => older,
        }
    }
}

/// The message of the remote service's own error, where the document
/// carries an `error` member: the text at `message`, or `unknown error`
/// where there is none.
pub open spec fn api_error(doc: Json) -> Option<Seq<char>> {
    if doc.spec_get("error"@) is Some {
        match doc.spec_get("message"@) {
            Some(m) => match m.spec_str() {
                Some(text) => Some(text),
                None => Some("unknown error"@),
            },
            None => Some("unknown error"@),
        }
    } else {
        None
    }
}

/// The page of tracks in a document: the array at `recenttracks.track`, and
/// no tracks where there is no such array.
pub open spec fn history_tracks(doc: Json) -> Seq<Json> {
    match doc.spec_get("recenttracks"@) {
        Some(recent) => match recent.spec_get("track"@) {
            Some(tracks) => match tracks.spec_array() {
                Some(items) => items,
                None => Seq::empty(),
            },
            None => Seq::empty(),
        },
        None => Seq::empty(),
    }
}

/// The mathematical values of a list of events.
pub open spec fn event_views(events: Seq<ActivityEvent>) -> Seq<ActivityEventView> {
    events.map_values(|e: ActivityEvent| e@)
}

/// No page yields more events than it has tracks, and every event made
/// from a page is without an id, of nominal length, and at the start of a
/// second that the event store can hold.
pub proof fn lemma_history_events_shape(tracks: Seq<Json>)
    ensures
        events_oldest_first(tracks).len() <= tracks.len(),
        forall|k: int|
            0 <= k < events_oldest_first(tracks).len() ==> {
                let e = #[trigger] events_oldest_first(tracks)[k];
                e.id is None && e.duration == (TimeSpan { secs: NOMINAL_LISTEN_SECS })
                    && e.duration.wf() && e.timestamp.wf() && e.timestamp.nanos == 0
            },
    decreases tracks.len(),
{
    if tracks.len() > 0 {
        lemma_history_events_shape(tracks.drop_first());
    }
}

/// A page in which every track carries an instant yields one event per
/// track, in the reverse of the page's order, each of nominal length, at
/// the second that its track names and with its track's fields.
pub proof fn lemma_history_complete(tracks: Seq<Json>)
    requires
        forall|i: int| 0 <= i < tracks.len() ==> track_instant(#[trigger] tracks[i]) is Some,
    ensures
        events_oldest_first(tracks).len() == tracks.len(),
        forall|k: int|
            0 <= k < tracks.len() ==> #[trigger] events_oldest_first(tracks)[k] == track_event(
                tracks[tracks.len() - 1 - k],
            )->0,
        forall|k: int|
            0 <= k < tracks.len() ==> {
                let e = #[trigger] events_oldest_first(tracks)[k];
                &&& e.timestamp.secs == track_time(tracks[tracks.len() - 1 - k])->0
                &&& e.timestamp.nanos == 0
                &&& e.duration.secs == NOMINAL_LISTEN_SECS
            },
    decreases tracks.len(),
{
    if tracks.len() > 0 {
        let rest = tracks.drop_first();
        assert forall|i: int| 0 <= i < rest.len() implies track_instant(#[trigger] rest[i])
            is Some by {
            assert(rest[i] == tracks[i + 1]);
        }
        lemma_history_complete(rest);
        assert(track_instant(tracks[0]) is Some);
        let events = events_oldest_first(tracks);
        assert(events == events_oldest_first(rest).push(track_event(tracks[0])->0));
        assert forall|k: int| 0 <= k < tracks.len() implies #[trigger] events[k] == track_event(
            tracks[tracks.len() - 1 - k],
        )->0 by {
            if k < rest.len() {
                assert(events[k] == events_oldest_first(rest)[k]);
                assert(rest[rest.len() - 1 - k] == tracks[tracks.len() - 1 - k]);
            }
        }
    }
}

/// A page that comes newest first, every track with an instant and no two
/// at the same second, yields as many events as it has tracks, in strictly
/// increasing order of time.
pub proof fn lemma_history_strictly_increasing(tracks: Seq<Json>)
    requires
        forall|i: int| 0 <= i < tracks.len() ==> track_instant(#[trigger] tracks[i]) is Some,
        forall|i: int, j: int|
            0 <= i < j < tracks.len() ==> track_time(#[trigger] tracks[i])->0 > track_time(
                #[trigger] tracks[j],
            )->0,
    ensures
        events_oldest_first(tracks).len() == tracks.len(),
        forall|a: int, b: int|
            0 <= a < b < tracks.len() ==> (#[trigger] events_oldest_first(
                tracks,
            )[a]).timestamp.before((#[trigger] events_oldest_first(tracks)[b]).timestamp),
{
    lemma_history_complete(tracks);
    let events = events_oldest_first(tracks);
    let n = tracks.len() as int;
    assert forall|a: int, b: int| 0 <= a < b < n implies (#[trigger] events[a]).timestamp.before(
        (#[trigger] events[b]).timestamp,
    ) by {
        assert(events[a] == track_event(tracks[n - 1 - a])->0);
        assert(events[b] == track_event(tracks[n - 1 - b])->0);
        assert(track_time(tracks[n - 1 - b])->0 > track_time(tracks[n - 1 - a])->0);
    }
}

/// The events of a page in two parts are the events of the later part of
/// the page followed by those of the earlier part.
pub proof fn lemma_history_of_parts(newer: Seq<Json>, older: Seq<Json>)
    ensures
        events_oldest_first(newer + older) == events_oldest_first(older) + events_oldest_first(
            newer,
        ),
    decreases newer.len(),
{
    if newer.len() == 0 {
        assert(newer + older =~= older);
        assert(events_oldest_first(older) + events_oldest_first(newer) =~= events_oldest_first(
            older,
        ));
    } else {
        let rest = newer.drop_first();
        lemma_history_of_parts(rest, older);
        assert((newer + older).drop_first() =~= rest + older);
        assert((newer + older)[0] == newer[0]);
        match track_event(newer[0]) {
            Some(e) => {
                assert((events_oldest_first(older) + events_oldest_first(rest)).push(e)
                    =~= events_oldest_first(older) + events_oldest_first(rest).push(e));
            },
            None => {},
        }
    }
}

/// A track without an instant costs the page nothing but itself: be it
/// without a time or with one that the event store cannot hold, the events
/// of the page are those of the page without that track, all of them and
/// in the same order.
pub proof fn lemma_track_without_instant_is_left_out(tracks: Seq<Json>, i: int)
    requires
        0 <= i < tracks.len(),
        track_instant(tracks[i]) is None,
    ensures
        events_oldest_first(tracks) == events_oldest_first(tracks.remove(i)),
{
    let newer = tracks.take(i);
    let older = tracks.skip(i + 1);
    let alone = seq![tracks[i]];
    assert(tracks =~= newer + (alone + older));
    assert(tracks.remove(i) =~= newer + older);
    lemma_history_of_parts(newer, alone + older);
    lemma_history_of_parts(alone, older);
    lemma_history_of_parts(newer, older);
    assert(alone.drop_first() =~= Seq::<Json>::empty());
    assert(events_oldest_first(alone.drop_first()) =~= Seq::<ActivityEventView>::empty());
    assert(track_event(alone[0]) is None);
    assert(events_oldest_first(alone) =~= Seq::<ActivityEventView>::empty());
    assert(events_oldest_first(older) + events_oldest_first(alone) =~= events_oldest_first(older));
}

/// The inserts of one backfill: the events in the order they go to the
/// store, how far the run has come, and how the inserts so far have ended.
/// A failed insert is counted and the run goes on with the next event.
#[derive(Debug, PartialEq, Eq)]
pub struct SyncRun {
    pub events: Vec<ActivityEvent>,
    /// How many events have been handed out and answered for.
    pub next: usize,
    pub stored: usize,
    pub failed: usize,
}

impl SyncRun {
    /// The run has not gone past its events, and every event behind it was
    /// either stored or failed.
    pub open spec fn wf(&self) -> bool {
        &&& self.next <= self.events.len()
        &&& self.stored + self.failed == self.next
    }

    /// Whether every event has been answered for.
    pub open spec fn spec_finished(&self) -> bool {
        self.next >= self.events.len()
    }

    /// The run after the store has answered for the pending event.
    pub open spec fn spec_record(self, stored: bool) -> SyncRun {
        SyncRun {
            events: self.events,
            next: (self.next + 1) as usize,
            stored: if stored {
                (self.stored + 1) as usize
            } else {
                self.stored
            },
            failed: if stored {
                self.failed
            } else {
                (self.failed + 1) as usize
            },
        }
    }

    /// A run that has all of `events` before it.
    pub open spec fn spec_new(events: Vec<ActivityEvent>) -> SyncRun {
        SyncRun { events, next: 0, stored: 0, failed: 0 }
    }

    /// A run that has all of `events` before it.
    #[verifier::when_used_as_spec(spec_new)]
    pub fn new(events: Vec<ActivityEvent>) -> (r: SyncRun)
        ensures
            r == SyncRun::spec_new(events),
            r.wf(),
    {
        SyncRun { events, next: 0, stored: 0, failed: 0 }
    }

    /// Whether every event has been answered for.
    #[verifier::when_used_as_spec(spec_finished)]
    pub fn finished(&self) -> (r: bool)
        ensures
            r == self.spec_finished(),
    {
        self.next >= self.events.len()
    }

    /// The event to insert next, until the run is finished.
    pub fn pending(&self) -> (r: Option<&ActivityEvent>)
        ensures
            match r {
                Some(e) => !self.spec_finished() && *e == self.events@[self.next as int],
                None => self.spec_finished(),
            },
    {
        if self.next < self.events.len() {
            Some(&self.events[self.next])
        } else {
            None
        }
    }

    /// Takes the store's answer for the pending event and moves on to the
    /// next one, whatever the answer was.
    pub fn record(&mut self, stored: bool)
        requires
            old(self).wf(),
            !old(self).spec_finished(),
        ensures
            *final(self) == old(self).spec_record(stored),
            final(self).wf(),
    {
        self.next = self.next + 1;
        if stored {
            self.stored = self.stored + 1;
        } else {
            self.failed = self.failed + 1;
        }
    }
}

/// The run after the store has answered for its first events, one answer
/// each, in order.
pub open spec fn replay(run: SyncRun, answers: Seq<bool>) -> SyncRun
    decreases answers.len(),
{
    if answers.len() == 0 {
        run
    } else {
        replay(run, answers.drop_last()).spec_record(answers.last())
    }
}

/// How many of the answers report a failure.
pub open spec fn count_failed(answers: Seq<bool>) -> nat
    decreases answers.len(),
{
    if answers.len() == 0 {
        0
    } else {
        count_failed(answers.drop_last()) + if answers.last() {
            0nat
        } else {
            1nat
        }
    }
}

/// Failures do not end a run. Whatever the store answers, a fresh run
/// hands out its events one after the other in their order: after `k`
/// answers the pending event is the one at `k`, the failures are counted,
/// and every other event so far was stored.
pub proof fn lemma_failures_are_isolated(events: Vec<ActivityEvent>, answers: Seq<bool>)
    requires
        answers.len() <= events.len(),
    ensures
        ({
            let run = replay(SyncRun::spec_new(events), answers);
            &&& run.wf()
            &&& run.events == events
            &&& run.next == answers.len()
            &&& run.failed == count_failed(answers)
            &&& run.stored == answers.len() - count_failed(answers)
            &&& run.spec_finished() <==> answers.len() == events.len()
        }),
    decreases answers.len(),
{
    if answers.len() > 0 {
        lemma_failures_are_isolated(events, answers.drop_last());
    }
}

/// Where exactly one insert of a whole run fails, all the others are
/// stored.
pub proof fn lemma_one_failure_loses_one_event(events: Vec<ActivityEvent>, answers: Seq<bool>)
    requires
        answers.len() == events.len(),
        count_failed(answers) == 1,
    ensures
        replay(SyncRun::spec_new(events), answers).stored == events.len()
            - 1,
        replay(SyncRun::spec_new(events), answers).spec_finished(),
{
    lemma_failures_are_isolated(events, answers);
}

/// Reads the error that the remote service reports in a document, if any.
pub fn remote_error(doc: &Json) -> (r: Option<String>)
    ensures
        match r {
            Some(m) => api_error(*doc) == Some(m@),
            None => api_error(*doc) is None,
        },
{
    match doc.get("error") {
        Some(_) => {
            let text = match doc.get("message") {
                Some(m) => m.as_str(),
                None => None,
            };
            match text {
                Some(t) => Some(t.to_owned()),
                None => Some("unknown error".to_owned()),
            }
        },
        None => None,
    }
}

/// Makes the event for one past track, if the track carries a time and
/// the event store can hold it.
pub fn event_for_track(track: &Json) -> (r: Option<ActivityEvent>)
    ensures
        match r {
            Some(e) => track_event(*track) == Some(e@) && e.timestamp.wf() && e.duration.wf(),
            None => track_event(*track) is None,
        },
{
    let time = match track.nested_str("date", "uts") {
        Some(t) => parse_i64(t),
        None => None,
    };
    let instant = match time {
        Some(secs) => Timestamp::at_second(secs),
        None => None,
    };
    match instant {
        Some(timestamp) => Some(
            ActivityEvent {
                id: None,
                timestamp,
                duration: TimeSpan { secs: NOMINAL_LISTEN_SECS },
                data: track_info(track),
            },
        ),
        None => None,
    }
}

/// Makes the events for a page of tracks, oldest first.
pub fn events_for_page(tracks: &Vec<Json>) -> (r: Vec<ActivityEvent>)
    ensures
        event_views(r@) == events_oldest_first(tracks@),
        r@.len() <= tracks@.len(),
        forall|k: int|
            0 <= k < r@.len() ==> (#[trigger] r@[k]).timestamp.wf() && r@[k].duration.wf(),
{
    let mut events: Vec<ActivityEvent> = Vec::new();
    let mut i: usize = tracks.len();
    assert(tracks@.skip(i as int) =~= Seq::<Json>::empty());
    assert(event_views(events@) =~= Seq::<ActivityEventView>::empty());
    while i > 0
        invariant
            i <= tracks.len(),
            event_views(events@) == events_oldest_first(tracks@.skip(i as int)),
            events@.len() <= tracks@.len() - i,
            forall|k: int|
                0 <= k < events@.len() ==> (#[trigger] events@[k]).timestamp.wf()
                    && events@[k].duration.wf(),
        decreases i,
    {
        i -= 1;
        let ghost before = events@;
        let ghost rest = tracks@.skip(i as int);
        assert(rest[0] == tracks@[i as int]);
        assert(rest.drop_first() =~= tracks@.skip(i + 1));
        match event_for_track(&tracks[i]) {
            Some(e) => {
                events.push(e);
                assert(event_views(events@) =~= event_views(before).push(e@));
            },
            None => {},
        }
    }
    assert(tracks@.skip(0) =~= tracks@);
    events
}

/// The backfill, given what the fetch of one page brought back: a failed
/// fetch and an error of the remote service each end it with no events;
/// otherwise every track that carries an instant becomes one event, oldest
/// first, and every other track is left out. Each event is one that the
/// event store can hold.
pub fn sync_historical_data(fetched: &Result<Json, FetchError>) -> (r: Result<
    Vec<ActivityEvent>,
    SyncError,
>)
    ensures
        match r {
            Ok(events) => *fetched matches Ok(doc) && api_error(doc) is None && event_views(
                events@,
            ) == events_oldest_first(history_tracks(doc)) && forall|k: int|
                0 <= k < events@.len() ==> (#[trigger] events@[k]).timestamp.wf()
                    && events@[k].duration.wf(),
            Err(SyncError::Fetch(e)) => *fetched == Err::<Json, FetchError>(e),
            Err(SyncError::RemoteApi { message }) => *fetched matches Ok(doc) && api_error(doc)
                == Some(message@),
        },
{
    match fetched {
        Err(e) => Err(SyncError::Fetch(*e)),
        Ok(doc) => {
            match remote_error(doc) {
                Some(message) => Err(SyncError::RemoteApi { message }),
                None => {
                    let page = match doc.get("recenttracks") {
                        Some(recent) => match recent.get("track") {
                            Some(tracks) => tracks.as_array(),
                            None => None,
                        },
                        None => None,
                    };
                    match page {
                        Some(tracks) => Ok(events_for_page(tracks)),
                        None => {
                            let none: Vec<ActivityEvent> = Vec::new();
                            assert(event_views(none@) =~= Seq::<ActivityEventView>::empty());
                            Ok(none)
                        },
                    }
                },
            }
        },
    }
}

} // verus!
