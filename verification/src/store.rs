//! The event-sourced session store: an append-only log of lifecycle and
//! transition events, and the read-time derivation of "how long was each
//! posture held" for the current session.
//!
//! The derivation pairs each event with its immediate predecessor, keeps the
//! pairs whose elapsed time exceeds a small noise floor, and reports them
//! newest first.  It always scopes to the most recent `Start` event, so
//! earlier sessions never leak into the summary.

use vstd::prelude::*;
use crate::postures::{Posture, code_of};

verus! {

/// A transition pair held for at most this many seconds is classification
/// jitter, not a reportable posture hold.
pub const NOISE_FLOOR_SECONDS: u64 = 3;

/// The kind of a session event.
#[derive(Debug, Clone, Copy, PartialEq, Eq, Structural)]
pub enum EventKind {
    Start,
    Stop,
    Change,
}

/// One durable, append-only record of a lifecycle or transition occurrence.
/// Identifiers are assigned by the store on insert and strictly increase.
#[derive(Debug, Clone, Copy)]
pub struct SessionEvent {
    pub id: u64,
    pub timestamp_secs: u64,
    pub kind: EventKind,
    pub posture: Posture,
    pub previous_posture: Option<Posture>,
}

/// One derived log entry: the posture's code and how long it was held
/// between two consecutive events of the current session.
#[derive(Debug, Clone, PartialEq)]
pub struct PostureLog {
    pub posture: String,
    pub duration_secs: u64,
}

/// The append-only store of session events.  Events can be appended and
/// read, never changed or removed.
#[derive(Debug)]
pub struct SessionStore {
    events: Vec<SessionEvent>,
}

/// The index of the most recent `Start` event, the current session's
/// boundary.
pub open spec fn last_start_index(events: Seq<SessionEvent>) -> Option<int>
    decreases events.len(),
{
    if events.len() == 0 {
        None
    } else if events.last().kind == EventKind::Start {
        Some(events.len() - 1)
    } else {
        last_start_index(events.drop_last())
    }
}

/// Whether the pair of event `i` and its predecessor survives derivation:
/// the later event is no `Start`, and the elapsed time between the two
/// exceeds the noise floor.
pub open spec fn kept_pair(events: Seq<SessionEvent>, i: int) -> bool {
    events[i].kind != EventKind::Start && events[i].timestamp_secs > events[i
        - 1].timestamp_secs + NOISE_FLOOR_SECONDS
}

/// The log entry a surviving pair reports: the predecessor's posture code
/// and the elapsed seconds.
pub open spec fn pair_entry(events: Seq<SessionEvent>, i: int) -> (Seq<char>, int) {
    (code_of(events[i - 1].posture), events[i].timestamp_secs - events[i - 1].timestamp_secs)
}

/// The surviving pairs with later index in `(b, i]`, newest first.
pub open spec fn logs_down_from(events: Seq<SessionEvent>, i: int, b: int) -> Seq<(Seq<char>, int)>
    decreases i - b,
{
    if i <= b {
        Seq::empty()
    } else {
        let rest = logs_down_from(events, i - 1, b);
        if kept_pair(events, i) {
            seq![pair_entry(events, i)] + rest
        } else {
            rest
        }
    }
}

/// The derived summary of the current session: `None` before any session
/// was started and when no pair survives, the surviving pairs newest first
/// otherwise.
pub open spec fn current_session_logs_spec(events: Seq<SessionEvent>) -> Option<
    Seq<(Seq<char>, int)>,
> {
    match last_start_index(events) {
        None => None,
        Some(b) => {
            let entries = logs_down_from(events, events.len() - 1, b);
            if entries.len() == 0 {
                None
            } else {
                Some(entries)
            }
        },
    }
}

/// The code strings and durations a vector of log entries carries.
pub open spec fn log_views(v: Seq<PostureLog>) -> Seq<(Seq<char>, int)> {
    Seq::new(v.len(), |i: int| (v[i].posture@, v[i].duration_secs as int))
}

impl View for SessionStore {
    type V = Seq<SessionEvent>;

    closed spec fn view(&self) -> Seq<SessionEvent> {
        self.events@
    }
}

impl SessionStore {
    /// Identifiers are the insert positions, counted from one.
    pub open spec fn wf(&self) -> bool {
        forall|i: int| 0 <= i < self@.len() ==> #[trigger] self@[i].id == i + 1
    }

    /// An empty store.
    pub fn new() -> (s: SessionStore)
        ensures
            s@ =~= Seq::<SessionEvent>::empty(),
            s.wf(),
    {
        SessionStore { events: Vec::new() }
    }

    /// Appends one event.  The store assigns the next identifier in
    /// sequence and returns it; nothing already inserted changes.
    pub fn append(
        &mut self,
        timestamp_secs: u64,
        kind: EventKind,
        posture: Posture,
        previous_posture: Option<Posture>,
    ) -> (id: u64)
        requires
            old(self).wf(),
            old(self)@.len() < usize::MAX,
        ensures
            final(self).wf(),
            final(self)@ == old(self)@.push(
                SessionEvent {
                    id: (old(self)@.len() + 1) as u64,
                    timestamp_secs,
                    kind,
                    posture,
                    previous_posture,
                },
            ),
            id == old(self)@.len() + 1,
    {
        let id = self.events.len() as u64 + 1;
        self.events.push(
            SessionEvent { id, timestamp_secs, kind, posture, previous_posture },
        );
        id
    }

    /// Opens a session: appends a `Start` event carrying `Unknown` and no
    /// previous posture.
    pub fn log_session_start(&mut self, timestamp_secs: u64) -> (id: u64)
        requires
            old(self).wf(),
            old(self)@.len() < usize::MAX,
        ensures
            final(self).wf(),
            final(self)@ == old(self)@.push(
                SessionEvent {
                    id: (old(self)@.len() + 1) as u64,
                    timestamp_secs,
                    kind: EventKind::Start,
                    posture: Posture::Unknown,
                    previous_posture: None,
                },
            ),
            id == old(self)@.len() + 1,
    {
        self.append(timestamp_secs, EventKind::Start, Posture::Unknown, None)
    }

    /// Closes a session: appends a `Stop` event carrying the last observed
    /// posture.
    pub fn log_session_end(&mut self, timestamp_secs: u64, last_posture: Posture) -> (id: u64)
        requires
            old(self).wf(),
            old(self)@.len() < usize::MAX,
        ensures
            final(self).wf(),
            final(self)@ == old(self)@.push(
                SessionEvent {
                    id: (old(self)@.len() + 1) as u64,
                    timestamp_secs,
                    kind: EventKind::Stop,
                    posture: last_posture,
                    previous_posture: Some(last_posture),
                },
            ),
            id == old(self)@.len() + 1,
    {
        self.append(timestamp_secs, EventKind::Stop, last_posture, Some(last_posture))
    }

    /// Records a posture transition: appends a `Change` event carrying both
    /// the new and the previous posture.
    pub fn log_posture_change(
        &mut self,
        timestamp_secs: u64,
        current_posture: Posture,
        previous_posture: Posture,
    ) -> (id: u64)
        requires
            old(self).wf(),
            old(self)@.len() < usize::MAX,
        ensures
            final(self).wf(),
            final(self)@ == old(self)@.push(
                SessionEvent {
                    id: (old(self)@.len() + 1) as u64,
                    timestamp_secs,
                    kind: EventKind::Change,
                    posture: current_posture,
                    previous_posture: Some(previous_posture),
                },
            ),
            id == old(self)@.len() + 1,
    {
        self.append(timestamp_secs, EventKind::Change, current_posture, Some(previous_posture))
    }

    /// How many events the store holds.
    pub fn event_count(&self) -> (n: usize)
        ensures
            n == self@.len(),
    {
        self.events.len()
    }

    /// Reads back the event at one position.
    pub fn event_at(&self, i: usize) -> (e: SessionEvent)
        requires
            i < self@.len(),
        ensures
            e == self@[i as int],
    {
        self.events[i]
    }

    /// Derives the current session's summary: `None` before any `Start`
    /// event and when every pair falls at or under the noise floor, the
    /// surviving `(posture code, seconds held)` entries newest first
    /// otherwise.
    pub fn get_session_logs(&self) -> (r: Option<Vec<PostureLog>>)
        ensures
            match current_session_logs_spec(self@) {
                None => r is None,
                Some(entries) => r matches Some(v) && log_views(v@) == entries,
            },
    {
        let n = self.events.len();
        let boundary = match find_last_start(&self.events) {
            None => {
                return None;
            },
            Some(b) => b,
        };
        let ghost total = logs_down_from(self@, n - 1, boundary as int);
        let mut out: Vec<PostureLog> = Vec::new();
        let mut k: usize = n;
        proof {
            assert(log_views(out@) =~~= total.take(0));
            assert(log_views(out@) + logs_down_from(self@, k - 1, boundary as int) =~~= total);
        }
        while k > boundary + 1
            invariant
                boundary < n,
                n == self@.len(),
                boundary + 1 <= k <= n,
                total == logs_down_from(self@, n - 1, boundary as int),
                log_views(out@) + logs_down_from(self@, k - 1, boundary as int) =~~= total,
            decreases k,
        {
            let i = k - 1;
            let later = &self.events[i];
            let earlier = &self.events[i - 1];
            let ghost old_out = out@;
            let is_start = match later.kind {
                EventKind::Start => true,
                _ => false,
            };
            if !is_start && later.timestamp_secs > earlier.timestamp_secs
                && later.timestamp_secs - earlier.timestamp_secs > NOISE_FLOOR_SECONDS {
                let entry = PostureLog {
                    posture: earlier.posture.get_posture_value(),
                    duration_secs: later.timestamp_secs - earlier.timestamp_secs,
                };
                out.push(entry);
                proof {
                    assert(kept_pair(self@, i as int));
                    assert(log_views(out@) =~~= log_views(old_out) + seq![
                        pair_entry(self@, i as int),
                    ]);
                }
            } else {
                proof {
                    assert(!kept_pair(self@, i as int));
                }
            }
            k = k - 1;
        }
        proof {
            assert(logs_down_from(self@, k - 1, boundary as int) =~~= Seq::<(Seq<char>, int)>::empty());
            assert(log_views(out@) =~~= total);
        }
        if out.len() == 0 {
            proof {
                assert(total.len() == 0);
            }
            None
        } else {
            Some(out)
        }
    }
}

/// Scans backwards for the most recent `Start` event.
fn find_last_start(events: &Vec<SessionEvent>) -> (r: Option<usize>)
    ensures
        match r {
            Some(b) => last_start_index(events@) == Some(b as int) && b < events@.len(),
            None => last_start_index(events@) == None::<int>,
        },
{
    let n = events.len();
    let mut i: usize = n;
    proof {
        assert(events@.take(n as int) =~= events@);
    }
    while i > 0
        invariant
            i <= n,
            n == events@.len(),
            last_start_index(events@) == last_start_index(events@.take(i as int)),
        decreases i,
    {
        let is_start = match events[i - 1].kind {
            EventKind::Start => true,
            _ => false,
        };
        proof {
            assert(events@.take(i as int).last() == events@[i - 1]);
            assert(events@.take(i as int).drop_last() =~= events@.take(i as int - 1));
        }
        if is_start {
            return Some(i - 1);
        }
        i = i - 1;
    }
    proof {
        assert(events@.take(0) =~= Seq::<SessionEvent>::empty());
    }
    None
}

/// Appending a `Start` event empties the derived summary: the log always
/// scopes to the most recent session start, so a freshly started session
/// reports nothing, however many sessions came before.
pub proof fn lemma_new_start_resets_log(events: Seq<SessionEvent>, e: SessionEvent)
    requires
        e.kind == EventKind::Start,
    ensures
        current_session_logs_spec(events.push(e)) is None,
{
    let evs = events.push(e);
    assert(evs.last() == e);
    assert(last_start_index(evs) == Some(evs.len() - 1));
}

/// Derivation reads only the events at and after the boundary index.
proof fn lemma_logs_down_depend_on_suffix(
    e1: Seq<SessionEvent>,
    e2: Seq<SessionEvent>,
    i: int,
    b: int,
)
    requires
        e1.len() == e2.len(),
        0 <= b,
        i < e1.len(),
        forall|j: int| b <= j < e1.len() ==> e1[j] == e2[j],
    ensures
        logs_down_from(e1, i, b) == logs_down_from(e2, i, b),
    decreases i - b,
{
    if i > b {
        lemma_logs_down_depend_on_suffix(e1, e2, i - 1, b);
        assert(e1[i] == e2[i]);
        assert(e1[i - 1] == e2[i - 1]);
    }
}

/// Earlier sessions never leak into the summary: two event logs of equal
/// length that agree from the current session's `Start` on derive the same
/// summary, whatever stood before the boundary.
pub proof fn lemma_log_scoped_to_current_session(e1: Seq<SessionEvent>, e2: Seq<SessionEvent>, b: int)
    requires
        e1.len() == e2.len(),
        0 <= b < e1.len(),
        forall|j: int| b <= j < e1.len() ==> e1[j] == e2[j],
        last_start_index(e1) == Some(b),
        last_start_index(e2) == Some(b),
    ensures
        current_session_logs_spec(e1) == current_session_logs_spec(e2),
{
    lemma_logs_down_depend_on_suffix(e1, e2, e1.len() - 1, b);
}

/// A pair whose elapsed time exceeds the noise floor is reported, with
/// exactly its elapsed time as the duration.
pub proof fn lemma_kept_pair_reported(events: Seq<SessionEvent>, i: int, hi: int, b: int)
    requires
        b < i <= hi < events.len(),
        kept_pair(events, i),
    ensures
        logs_down_from(events, hi, b).contains(pair_entry(events, i)),
    decreases hi - i,
{
    if i == hi {
        assert(logs_down_from(events, hi, b)[0] == pair_entry(events, i));
    } else {
        lemma_kept_pair_reported(events, i, hi - 1, b);
        let rest = logs_down_from(events, hi - 1, b);
        let idx = choose|idx: int| 0 <= idx < rest.len() && rest[idx] == pair_entry(events, i);
        if kept_pair(events, hi) {
            assert(logs_down_from(events, hi, b)[idx + 1] == pair_entry(events, i));
        }
    }
}

/// Every reported entry stems from a surviving pair: its duration is that
/// pair's elapsed time and its posture the predecessor's.
pub proof fn lemma_reported_is_kept(
    events: Seq<SessionEvent>,
    hi: int,
    b: int,
    entry: (Seq<char>, int),
)
    requires
        logs_down_from(events, hi, b).contains(entry),
    ensures
        exists|i: int|
            b < i <= hi && #[trigger] kept_pair(events, i) && entry == pair_entry(events, i),
    decreases hi - b,
{
    if hi <= b {
        assert(false);
    } else {
        let rest = logs_down_from(events, hi - 1, b);
        if kept_pair(events, hi) && entry == pair_entry(events, hi) {
            assert(b < hi <= hi && kept_pair(events, hi) && entry == pair_entry(events, hi));
        } else {
            if kept_pair(events, hi) {
                let idx = choose|idx: int|
                    0 <= idx < logs_down_from(events, hi, b).len() && logs_down_from(events, hi, b)[idx]
                        == entry;
                assert(rest[idx - 1] == entry);
            }
            lemma_reported_is_kept(events, hi - 1, b, entry);
        }
    }
}

/// No entry at or under the noise floor appears: every reported duration
/// lies strictly above it.
pub proof fn lemma_noise_floor_filtered(
    events: Seq<SessionEvent>,
    hi: int,
    b: int,
    entry: (Seq<char>, int),
)
    requires
        logs_down_from(events, hi, b).contains(entry),
    ensures
        entry.1 > NOISE_FLOOR_SECONDS,
{
    lemma_reported_is_kept(events, hi, b, entry);
}

/// The same, said of the summary itself: whatever the derived summary
/// reports was held strictly longer than the noise floor, and stems from a
/// pair of consecutive events of the current session.
pub proof fn lemma_summary_entries_exceed_noise_floor(
    events: Seq<SessionEvent>,
    entry: (Seq<char>, int),
)
    requires
        current_session_logs_spec(events) matches Some(entries) && entries.contains(entry),
    ensures
        entry.1 > NOISE_FLOOR_SECONDS,
        exists|i: int|
            0 < i < events.len() && #[trigger] kept_pair(events, i) && entry == pair_entry(
                events,
                i,
            ),
{
    let b = last_start_index(events)->Some_0;
    lemma_noise_floor_filtered(events, events.len() - 1, b, entry);
    lemma_reported_is_kept(events, events.len() - 1, b, entry);
    lemma_last_start_in_range(events);
}

/// The boundary the derivation scopes to lies inside the log.
proof fn lemma_last_start_in_range(events: Seq<SessionEvent>)
    requires
        last_start_index(events) is Some,
    ensures
        0 <= last_start_index(events)->Some_0 < events.len(),
    decreases events.len(),
{
    if events.len() > 0 && events.last().kind != EventKind::Start {
        lemma_last_start_in_range(events.drop_last());
    }
}

} // verus!
