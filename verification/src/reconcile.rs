//! The change-event reconciliation engine: a state machine that correlates
//! the raw, advisory filesystem event stream with scan results through a
//! marker-file fast-forward protocol with exponential backoff.
//!
//! The surrounding process performs the effects (creating and deleting marker
//! files, running rescans, publishing notifications) and feeds every raw
//! event and every elapsed timeout back into the machine; every decision is
//! made here.

use vstd::prelude::*;
use vstd::slice::slice_to_vec;
use vstd::string::StringSliceAdditionalSpecFns;
use crate::util::{bytes_eq, copy_bytes, extend_bytes};

verus! {

/// How long the engine waits for the first sighting of a freshly created
/// marker file before it retries with a new marker, in milliseconds.
pub const INITIAL_TIMEOUT_MS: u64 = 30_000;

/// The upper bound that the exponential backoff never exceeds: ten minutes,
/// in milliseconds.
pub const TIMEOUT_CAP_MS: u64 = 600_000;

/// The kind of a raw filesystem event, as the watcher reports it.
#[derive(Debug, Clone, Copy, PartialEq, Eq, Structural)]
pub enum RawEventKind {
    Create,
    Write,
    Remove,
    Move,
    Other,
}

/// A raw event from the watcher: opaque, advisory, never deduplicated.
#[derive(Debug, Clone, PartialEq, Eq)]
pub struct RawFsEvent {
    /// Path the event speaks of, as the watcher delivered it.
    pub path: Vec<u8>,
    /// What reportedly happened at that path.
    pub kind: RawEventKind,
    /// When the event was received, in milliseconds of a monotonic clock.
    pub observed_at: u64,
}

/// Mathematical model of a raw filesystem event.
pub struct EventModel {
    pub path: Seq<u8>,
    pub kind: RawEventKind,
    pub observed_at: u64,
}

impl View for RawFsEvent {
    type V = EventModel;

    open spec fn view(&self) -> EventModel {
        EventModel { path: self.path@, kind: self.kind, observed_at: self.observed_at }
    }
}

/// The phase a reconciliation session is in.
#[derive(Debug, Clone, Copy, PartialEq, Eq, Structural)]
pub enum Phase {
    /// Fast-forwarding past queued noise until the startup marker's creation
    /// event is seen.
    AwaitingMarker,
    /// Every event is real and is turned into a change notification, except
    /// moves, which force a rescan, and straggling events on the most
    /// recently deleted marker, which are protocol echoes and are discarded.
    SteadyState,
    /// Like `AwaitingMarker`, after a move forced a rescan.
    RescanningForMove,
}

/// A reconciled, public-facing change event handed to the fan-out.
#[derive(Debug, Clone, PartialEq, Eq)]
pub struct ChangeNotification {
    /// Position of this notification in production order.
    pub sequence_number: u64,
    /// Human-readable summary: the event kind's label, a space, the path.
    pub summary: Vec<u8>,
}

/// Mathematical model of a change notification.
pub struct NotificationModel {
    pub sequence_number: u64,
    pub summary: Seq<u8>,
}

impl View for ChangeNotification {
    type V = NotificationModel;

    open spec fn view(&self) -> NotificationModel {
        NotificationModel { sequence_number: self.sequence_number, summary: self.summary@ }
    }
}

/// What the engine asks of its caller after taking one raw event.
pub enum Outcome {
    /// The event was noise inside a fast-forward window; do nothing.
    Discarded,
    /// The current marker's creation event was seen: delete the marker file;
    /// the session is in steady state.
    FastForwarded,
    /// A real change: publish this notification to the fan-out.
    Notified(ChangeNotification),
    /// A move was seen: create a new marker file, trigger a full rescan, and
    /// report the marker with `marker_created`.
    RescanNeeded,
}

/// Mathematical model of an outcome.
pub enum OutcomeModel {
    Discarded,
    FastForwarded,
    Notified(NotificationModel),
    RescanNeeded,
}

impl View for Outcome {
    type V = OutcomeModel;

    open spec fn view(&self) -> OutcomeModel {
        match self {
            Outcome::Discarded => OutcomeModel::Discarded,
            Outcome::FastForwarded => OutcomeModel::FastForwarded,
            Outcome::Notified(n) => OutcomeModel::Notified(n@),
            Outcome::RescanNeeded => OutcomeModel::RescanNeeded,
        }
    }
}

/// The one active reconciliation session.
#[derive(Debug)]
pub struct ReconciliationSession {
    /// The phase the session is in.
    pub phase: Phase,
    /// Path of the transient marker file the session waits for; `None` in
    /// steady state, and `None` in the moment between a move and the caller's
    /// `marker_created` report.
    pub marker_path: Option<Vec<u8>>,
    /// Path of the most recently deleted marker. Marker-file events are a
    /// protocol artifact, never a real change: an event on this path that
    /// straggles in after the fast-forward is discarded, not notified.
    pub last_marker_path: Option<Vec<u8>>,
    /// When the current marker was created, milliseconds on the caller's
    /// monotonic clock.
    pub created_at: u64,
    /// How long after `created_at` the caller should report a timeout,
    /// in milliseconds.
    pub timeout: u64,
    /// How many markers in a row went unseen in the current waiting phase.
    pub retry_count: u64,
    /// Sequence number the next change notification will carry.
    pub next_sequence: u64,
}

/// Mathematical model of a reconciliation session.
pub struct SessionModel {
    pub phase: Phase,
    pub marker_path: Option<Seq<u8>>,
    pub last_marker_path: Option<Seq<u8>>,
    pub created_at: u64,
    pub timeout: u64,
    pub retry_count: u64,
    pub next_sequence: u64,
}

impl View for ReconciliationSession {
    type V = SessionModel;

    open spec fn view(&self) -> SessionModel {
        SessionModel {
            phase: self.phase,
            marker_path: match self.marker_path {
                Some(p) => Some(p@),
                None => None,
            },
            last_marker_path: match self.last_marker_path {
                Some(p) => Some(p@),
                None => None,
            },
            created_at: self.created_at,
            timeout: self.timeout,
            retry_count: self.retry_count,
            next_sequence: self.next_sequence,
        }
    }
}

/// Well-formedness of a session: the timeout is positive and never above the
/// cap, and steady state holds no marker.
pub open spec fn session_wf(s: SessionModel) -> bool {
    &&& 0 < s.timeout <= TIMEOUT_CAP_MS
    &&& s.phase is SteadyState ==> s.marker_path is None
}

/// The label of an event kind, as bytes.
pub open spec fn kind_label(k: RawEventKind) -> Seq<u8> {
    match k {
        RawEventKind::Create => "create".spec_bytes(),
        RawEventKind::Write => "write".spec_bytes(),
        RawEventKind::Remove => "remove".spec_bytes(),
        RawEventKind::Move => "move".spec_bytes(),
        RawEventKind::Other => "other".spec_bytes(),
    }
}

/// The summary a notification carries for a raw event: the kind's label, one
/// space, and the path.
pub open spec fn summary_of(e: EventModel) -> Seq<u8> {
    kind_label(e.kind) + seq![32u8] + e.path
}

/// The timeout that follows `t` in the backoff: exactly double, capped.
pub open spec fn next_timeout(t: u64) -> u64 {
    if 2 * t <= TIMEOUT_CAP_MS {
        (2 * t) as u64
    } else {
        TIMEOUT_CAP_MS
    }
}

/// What taking one raw event does to a session: the next session and the
/// outcome the caller must act on.
///
/// In a waiting phase, the creation event of the session's own marker
/// completes the fast-forward; everything else is discarded. In steady
/// state, an event on the most recently deleted marker is a protocol echo
/// and is discarded, a move starts a rescan cycle with timeout and retries
/// reset, and anything else is a real change, numbered in production order.
pub open spec fn handle_event_spec(s: SessionModel, e: EventModel) -> (SessionModel, OutcomeModel) {
    match s.phase {
        Phase::SteadyState => {
            if s.last_marker_path == Some(e.path) {
                (s, OutcomeModel::Discarded)
            } else if e.kind is Move {
                (
                    SessionModel {
                        phase: Phase::RescanningForMove,
                        marker_path: None,
                        timeout: INITIAL_TIMEOUT_MS,
                        retry_count: 0,
                        ..s
                    },
                    OutcomeModel::RescanNeeded,
                )
            } else {
                (
                    SessionModel { next_sequence: (s.next_sequence + 1) as u64, ..s },
                    OutcomeModel::Notified(
                        NotificationModel {
                            sequence_number: s.next_sequence,
                            summary: summary_of(e),
                        },
                    ),
                )
            }
        },
        _ => {
            if e.kind is Create && s.marker_path == Some(e.path) {
                (
                    SessionModel {
                        phase: Phase::SteadyState,
                        marker_path: None,
                        last_marker_path: s.marker_path,
                        ..s
                    },
                    OutcomeModel::FastForwarded,
                )
            } else {
                (s, OutcomeModel::Discarded)
            }
        },
    }
}

/// What an elapsed timeout does to a session waiting for a marker: the
/// freshly created replacement marker is adopted, the retry count steps up,
/// and the timeout doubles, capped.
pub open spec fn handle_timeout_spec(s: SessionModel, marker: Seq<u8>, now: u64) -> SessionModel {
    SessionModel {
        marker_path: Some(marker),
        created_at: now,
        timeout: next_timeout(s.timeout),
        retry_count: (s.retry_count + 1) as u64,
        ..s
    }
}

impl ReconciliationSession {
    /// Starts the one session: awaiting the startup marker just created at
    /// `now`, with the initial timeout and no retries.
    pub fn new(marker_path: Vec<u8>, now: u64) -> (s: Self)
        ensures
            s@ == (SessionModel {
                phase: Phase::AwaitingMarker,
                marker_path: Some(marker_path@),
                last_marker_path: None,
                created_at: now,
                timeout: INITIAL_TIMEOUT_MS,
                retry_count: 0,
                next_sequence: 0,
            }),
            session_wf(s@),
    {
        ReconciliationSession {
            phase: Phase::AwaitingMarker,
            marker_path: Some(marker_path),
            last_marker_path: None,
            created_at: now,
            timeout: INITIAL_TIMEOUT_MS,
            retry_count: 0,
            next_sequence: 0,
        }
    }

    /// Takes the next raw event off the watcher stream and decides what it
    /// means.
    pub fn handle_event(&mut self, ev: &RawFsEvent) -> (r: Outcome)
        requires
            session_wf(old(self)@),
            old(self)@.next_sequence < u64::MAX,
        ensures
            (final(self)@, r@) == handle_event_spec(old(self)@, ev@),
            session_wf(final(self)@),
    {
        match self.phase {
            Phase::SteadyState => {
                let marker_echo = match &self.last_marker_path {
                    Some(m) => bytes_eq(m.as_slice(), ev.path.as_slice()),
                    None => false,
                };
                if marker_echo {
                    Outcome::Discarded
                } else if let RawEventKind::Move = ev.kind {
                    self.phase = Phase::RescanningForMove;
                    self.marker_path = None;
                    self.timeout = INITIAL_TIMEOUT_MS;
                    self.retry_count = 0;
                    Outcome::RescanNeeded
                } else {
                    let n = ChangeNotification {
                        sequence_number: self.next_sequence,
                        summary: build_summary(ev),
                    };
                    self.next_sequence = self.next_sequence + 1;
                    Outcome::Notified(n)
                }
            },
            _ => {
                let matches_marker = match (&ev.kind, &self.marker_path) {
                    (RawEventKind::Create, Some(m)) => bytes_eq(
                        m.as_slice(),
                        ev.path.as_slice(),
                    ),
                    _ => false,
                };
                if matches_marker {
                    self.phase = Phase::SteadyState;
                    self.last_marker_path = self.marker_path.take();
                    Outcome::FastForwarded
                } else {
                    Outcome::Discarded
                }
            },
        }
    }

    /// The timeout elapsed with the marker unseen: the caller created a new
    /// marker file at `now`; adopt it and back off.
    pub fn handle_timeout(&mut self, new_marker_path: Vec<u8>, now: u64)
        requires
            session_wf(old(self)@),
            !(old(self)@.phase is SteadyState),
            old(self)@.retry_count < u64::MAX,
        ensures
            final(self)@ == handle_timeout_spec(old(self)@, new_marker_path@, now),
            session_wf(final(self)@),
    {
        self.marker_path = Some(new_marker_path);
        self.created_at = now;
        self.timeout = if self.timeout <= TIMEOUT_CAP_MS / 2 {
            2 * self.timeout
        } else {
            TIMEOUT_CAP_MS
        };
        self.retry_count = self.retry_count + 1;
    }

    /// How many milliseconds are left, at `now`, before the current marker
    /// goes unseen for the whole timeout; zero when the timeout has elapsed.
    pub fn remaining_ms(&self, now: u64) -> (r: u64)
        ensures
            r == (if now >= self.created_at && now - self.created_at < self.timeout {
                self.timeout - (now - self.created_at)
            } else if now < self.created_at {
                self.timeout as int
            } else {
                0
            }),
    {
        if now < self.created_at {
            self.timeout
        } else {
            let elapsed = now - self.created_at;
            if elapsed < self.timeout {
                self.timeout - elapsed
            } else {
                0
            }
        }
    }

    /// After a move forced a rescan, the caller reports the marker file it
    /// created at `now`.
    pub fn marker_created(&mut self, marker_path: Vec<u8>, now: u64)
        requires
            session_wf(old(self)@),
            old(self)@.phase is RescanningForMove,
            old(self)@.marker_path is None,
        ensures
            final(self)@ == (SessionModel {
                marker_path: Some(marker_path@),
                created_at: now,
                ..old(self)@
            }),
            session_wf(final(self)@),
    {
        self.marker_path = Some(marker_path);
        self.created_at = now;
    }
}

/// The timeout in force after `n` consecutive unanswered markers.
pub open spec fn timeout_after_retries(t: u64, n: nat) -> u64
    decreases n,
{
    if n == 0 {
        t
    } else {
        next_timeout(timeout_after_retries(t, (n - 1) as nat))
    }
}

/// Backoff law: when a timeout elapses, the next timeout is exactly double
/// the previous one, up to the cap, and never exceeds the cap.
pub proof fn lemma_backoff_doubles(s: SessionModel, marker: Seq<u8>, now: u64)
    requires
        session_wf(s),
    ensures
        handle_timeout_spec(s, marker, now).timeout == next_timeout(s.timeout),
        2 * s.timeout <= TIMEOUT_CAP_MS ==> handle_timeout_spec(s, marker, now).timeout == 2
            * s.timeout,
        handle_timeout_spec(s, marker, now).timeout <= TIMEOUT_CAP_MS,
{
}

/// Backoff law, iterated: however many retries elapse, the timeout stays
/// positive and never exceeds the cap.
pub proof fn lemma_backoff_never_exceeds_cap(t: u64, n: nat)
    requires
        0 < t <= TIMEOUT_CAP_MS,
    ensures
        0 < timeout_after_retries(t, n) <= TIMEOUT_CAP_MS,
    decreases n,
{
    if n > 0 {
        lemma_backoff_never_exceeds_cap(t, (n - 1) as nat);
    }
}

/// A move seen in steady state forces a rescan cycle equivalent to awaiting
/// a fresh marker, and produces no change notification. A move reported on
/// the most recently deleted marker's own path is a protocol echo and is
/// discarded instead, so it is left out here.
pub proof fn lemma_move_forces_rescan(s: SessionModel, e: EventModel)
    requires
        session_wf(s),
        s.phase is SteadyState,
        e.kind is Move,
        s.last_marker_path != Some(e.path),
    ensures
        handle_event_spec(s, e).0.phase is RescanningForMove,
        handle_event_spec(s, e).0.timeout == INITIAL_TIMEOUT_MS,
        handle_event_spec(s, e).0.retry_count == 0,
        handle_event_spec(s, e).1 is RescanNeeded,
        !(handle_event_spec(s, e).1 is Notified),
{
}

/// Fast-forward law: from a session awaiting its marker, a sequence of an
/// unrelated write, the creation of the session's own marker, and a relevant
/// write discards the first event, completes the fast-forward into steady
/// state on the second, and emits exactly one change notification, for the
/// third.
pub proof fn lemma_fast_forward_sequence(
    s: SessionModel,
    e1: EventModel,
    e2: EventModel,
    e3: EventModel,
)
    requires
        session_wf(s),
        s.phase is AwaitingMarker,
        s.marker_path is Some,
        e1.kind is Write,
        e2.kind is Create,
        s.marker_path == Some(e2.path),
        e3.kind is Write,
        e3.path != e2.path,
    ensures
        handle_event_spec(s, e1) == (s, OutcomeModel::Discarded),
        handle_event_spec(s, e2).0.phase is SteadyState,
        handle_event_spec(s, e2).1 is FastForwarded,
        (handle_event_spec(handle_event_spec(s, e2).0, e3).1 matches OutcomeModel::Notified(n)
            && n.sequence_number == s.next_sequence && n.summary == summary_of(e3)),
{
}

/// Marker-protocol law: no marker-file event and no event taken during a
/// fast-forward window is ever turned into a change notification. This
/// covers the session's current marker, the most recently deleted marker's
/// straggling events in steady state, and everything consumed while a
/// waiting phase fast-forwards.
pub proof fn lemma_marker_events_never_notified(s: SessionModel, e: EventModel)
    requires
        session_wf(s),
        !(s.phase is SteadyState) || s.marker_path == Some(e.path) || s.last_marker_path == Some(
            e.path,
        ),
    ensures
        !(handle_event_spec(s, e).1 is Notified),
{
}

/// Builds the summary bytes for a raw event.
fn build_summary(ev: &RawFsEvent) -> (r: Vec<u8>)
    ensures
        r@ == summary_of(ev@),
{
    let label: &str = match ev.kind {
        RawEventKind::Create => "create",
        RawEventKind::Write => "write",
        RawEventKind::Remove => "remove",
        RawEventKind::Move => "move",
        RawEventKind::Other => "other",
    };
    let mut r = slice_to_vec(label.as_bytes());
    r.push(32);
    proof {
        assert(r@ =~= kind_label(ev@.kind) + seq![32u8]);
    }
    extend_bytes(&mut r, ev.path.as_slice());
    proof {
        assert(r@ =~= summary_of(ev@));
    }
    r
}

} // verus!
