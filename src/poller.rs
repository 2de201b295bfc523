//! The decisions of the backend poller, as a state machine.
//!
//! The caller owns the socket and the timers. It performs each `Action`
//! that the poller asks for and hands back what happened as an `Event`.
//! The poller holds the only writer of the shared cell and publishes every
//! reply line into it, trimmed of trailing whitespace.
use vstd::prelude::*;
use crate::cell::{LatestCell, SharedData};

verus! {

/// Period of the request ticker while connected, in milliseconds.
pub const TICK_MILLIS: u64 = 20;

/// How long one reply may take before the cycle is given up, in milliseconds.
pub const READ_DEADLINE_MILLIS: u64 = 50;

/// Pause before reconnecting after a failed or closed connection, in
/// milliseconds.
pub const BACKOFF_MILLIS: u64 = 2000;

/// The request sent to the backend on each tick.
pub const REQUEST: &'static str = "GET\n";

/// What `str::trim_end` makes of a line.
pub uninterp spec fn trimmed_end(s: Seq<char>) -> Seq<char>;

/// Relies on `str::trim_end`: the result is `s` without its trailing
/// whitespace, so a prefix of `s`.
#[verifier::external_body]
fn trim_end_of(s: &str) -> (r: String)
    ensures
        r@ == trimmed_end(s@),
        r@.len() <= s@.len(),
        r@ == s@.subrange(0, r@.len() as int),
{
    s.trim_end().to_string()
}

/// Where the poller stands.
#[derive(PartialEq, Eq, Structural, Clone, Copy, Debug)]
pub enum Phase {
    /// No connection; the next step is to connect.
    Disconnected,
    /// Waiting out the pause before the next connection attempt.
    Backoff,
    /// Connected; one request and one bounded read per tick.
    Connected,
}

/// The outcome of one bounded read of a reply line.
pub enum ReadOutcome {
    /// A line of one or more bytes, as read, its newline included.
    Line(String),
    /// The backend closed the connection: nothing was read.
    Closed,
    /// No line came within the deadline.
    TimedOut,
    /// The read failed.
    Failed,
}

/// What happened when the caller performed the last action.
pub enum Event {
    /// The connection attempt succeeded.
    ConnectOk,
    /// The connection attempt failed.
    ConnectFailed,
    /// The pause before reconnecting has passed.
    BackoffElapsed,
    /// Writing or flushing the request failed.
    RequestFailed,
    /// The request went out; this is what reading the reply gave.
    Reply(ReadOutcome),
}

/// What the caller is to do next.
#[derive(PartialEq, Eq, Structural, Clone, Copy, Debug)]
pub enum Action {
    /// Open a connection to the backend.
    Connect,
    /// Drop any connection and wait this long.
    Sleep { millis: u64 },
    /// Wait for the next tick, send `REQUEST`, flush, and read one line
    /// with this deadline.
    Poll { deadline_millis: u64 },
}

/// The action that each phase asks for. Every phase has one: the poller
/// never stops.
pub open spec fn action_for(p: Phase) -> Action {
    match p {
        Phase::Disconnected => Action::Connect,
        Phase::Backoff => Action::Sleep { millis: BACKOFF_MILLIS as u64 },
        Phase::Connected => Action::Poll { deadline_millis: READ_DEADLINE_MILLIS as u64 },
    }
}

/// The phase after `e` in phase `p`. An event that does not belong to the
/// phase changes nothing.
pub open spec fn next_phase(p: Phase, e: Event) -> Phase {
    match p {
        Phase::Disconnected => match e {
            Event::ConnectOk => Phase::Connected,
            Event::ConnectFailed => Phase::Backoff,
            _ => p,
        },
        Phase::Backoff => match e {
            Event::BackoffElapsed => Phase::Disconnected,
            _ => p,
        },
        Phase::Connected => match e {
            Event::RequestFailed => Phase::Backoff,
            Event::Reply(ReadOutcome::Closed) => Phase::Backoff,
            Event::Reply(ReadOutcome::Failed) => Phase::Backoff,
            _ => p,
        },
    }
}

/// Whether `e` is a reply line that the poller publishes in phase `p`.
pub open spec fn publishes(p: Phase, e: Event) -> bool {
    p == Phase::Connected && e matches Event::Reply(ReadOutcome::Line(_))
}

/// The shared value after `e` in phase `p`, when it held `v`: a reply line
/// read while connected replaces it, trimmed; nothing else touches it.
pub open spec fn next_value(p: Phase, v: Seq<char>, e: Event) -> Seq<char> {
    if publishes(p, e) {
        match e {
            Event::Reply(ReadOutcome::Line(s)) => trimmed_end(s@),
            _ => v,
        }
    } else {
        v
    }
}

/// The poller: its phase, and the writing end of the shared cell.
pub struct Poller {
    phase: Phase,
    cell: LatestCell,
}

impl Poller {
    /// The current phase.
    pub closed spec fn phase_view(&self) -> Phase {
        self.phase
    }

    /// The value that viewers currently see.
    pub closed spec fn latest(&self) -> Seq<char> {
        self.cell@
    }

    /// A poller with no connection, publishing into `cell`.
    pub fn new(cell: LatestCell) -> (r: Poller)
        ensures
            r.phase_view() == Phase::Disconnected,
            r.latest() == cell@,
    {
        Poller { phase: Phase::Disconnected, cell }
    }

    /// A poller with no connection whose cell holds the placeholder.
    pub fn start() -> (r: Poller)
        ensures
            r.phase_view() == Phase::Disconnected,
            r.latest() == crate::cell::NO_DATA@,
    {
        Poller::new(LatestCell::empty())
    }

    /// The current phase.
    pub fn phase(&self) -> (r: Phase)
        ensures
            r == self.phase_view(),
    {
        self.phase
    }

    /// What the caller is to do now.
    pub fn action(&self) -> (r: Action)
        ensures
            r == action_for(self.phase_view()),
    {
        match self.phase {
            Phase::Disconnected => Action::Connect,
            Phase::Backoff => Action::Sleep { millis: BACKOFF_MILLIS },
            Phase::Connected => Action::Poll { deadline_millis: READ_DEADLINE_MILLIS },
        }
    }

    /// Takes in what happened, publishes a reply line if one came while
    /// connected, and says what to do next.
    pub fn on_event(&mut self, e: Event) -> (r: Action)
        ensures
            final(self).phase_view() == next_phase(old(self).phase_view(), e),
            final(self).latest() == next_value(old(self).phase_view(), old(self).latest(), e),
            r == action_for(final(self).phase_view()),
    {
        let next = match self.phase {
            Phase::Disconnected => match e {
                Event::ConnectOk => Phase::Connected,
                Event::ConnectFailed => Phase::Backoff,
                _ => Phase::Disconnected,
            },
            Phase::Backoff => match e {
                Event::BackoffElapsed => Phase::Disconnected,
                _ => Phase::Backoff,
            },
            Phase::Connected => match e {
                Event::RequestFailed => Phase::Backoff,
                Event::Reply(ReadOutcome::Closed) => Phase::Backoff,
                Event::Reply(ReadOutcome::Failed) => Phase::Backoff,
                Event::Reply(ReadOutcome::Line(line)) => {
                    let payload = trim_end_of(line.as_str());
                    self.cell.publish(payload);
                    Phase::Connected
                },
                _ => Phase::Connected,
            },
        };
        self.phase = next;
        self.action()
    }

    /// A snapshot of the value that viewers currently see.
    pub fn snapshot(&self) -> (r: SharedData)
        ensures
            r.latest@ == self.latest(),
    {
        self.cell.snapshot()
    }

    /// A read handle on the shared cell for a viewer.
    pub fn subscribe(&self) -> tokio::sync::watch::Receiver<String> {
        self.cell.subscribe()
    }
}

/// The phase after the events `evs`, in order, starting from `p`.
pub open spec fn run_phase(p: Phase, evs: Seq<Event>) -> Phase
    decreases evs.len(),
{
    if evs.len() == 0 {
        p
    } else {
        next_phase(run_phase(p, evs.drop_last()), evs.last())
    }
}

/// The shared value after the events `evs`, in order, starting from phase
/// `p` and value `v`.
pub open spec fn run_value(p: Phase, v: Seq<char>, evs: Seq<Event>) -> Seq<char>
    decreases evs.len(),
{
    if evs.len() == 0 {
        v
    } else {
        next_value(run_phase(p, evs.drop_last()), run_value(p, v, evs.drop_last()), evs.last())
    }
}

/// Whether `e` carries a reply line.
pub open spec fn is_line(e: Event) -> bool {
    e matches Event::Reply(ReadOutcome::Line(_))
}

/// Events that carry no reply line (timeouts, failures, closes, connection
/// attempts) leave the shared value as it was, however many of them come.
pub proof fn lemma_no_line_keeps_value(p: Phase, v: Seq<char>, evs: Seq<Event>)
    requires
        forall|i: int| 0 <= i < evs.len() ==> !is_line(#[trigger] evs[i]),
    ensures
        run_value(p, v, evs) == v,
    decreases evs.len(),
{
    if evs.len() > 0 {
        lemma_no_line_keeps_value(p, v, evs.drop_last());
        assert(!is_line(evs[evs.len() - 1]));
    }
}

/// Events that carry no reply line, appended to any sequence, leave the
/// value where that sequence left it.
proof fn lemma_quiet_suffix(p: Phase, v: Seq<char>, xs: Seq<Event>, after: Seq<Event>)
    requires
        forall|i: int| 0 <= i < after.len() ==> !is_line(#[trigger] after[i]),
    ensures
        run_value(p, v, xs + after) == run_value(p, v, xs),
    decreases after.len(),
{
    if after.len() == 0 {
        assert(xs + after =~= xs);
    } else {
        let shorter = after.drop_last();
        assert((xs + after).drop_last() =~= xs + shorter);
        assert((xs + after).last() == after.last());
        assert(!is_line(after[after.len() - 1]));
        lemma_quiet_suffix(p, v, xs, shorter);
    }
}

/// Before the first reply line the viewers see the placeholder, whatever
/// else happens.
pub proof fn lemma_placeholder_until_first_line(evs: Seq<Event>)
    requires
        forall|i: int| 0 <= i < evs.len() ==> !is_line(#[trigger] evs[i]),
    ensures
        run_value(Phase::Disconnected, crate::cell::NO_DATA@, evs) == crate::cell::NO_DATA@,
{
    lemma_no_line_keeps_value(Phase::Disconnected, crate::cell::NO_DATA@, evs);
}

/// A reply line read while connected is what viewers see, trimmed, until
/// the next reply line: no later event of another kind brings back an older
/// value.
pub proof fn lemma_last_line_wins(
    p: Phase,
    v: Seq<char>,
    before: Seq<Event>,
    line: String,
    after: Seq<Event>,
)
    requires
        run_phase(p, before) == Phase::Connected,
        forall|i: int| 0 <= i < after.len() ==> !is_line(#[trigger] after[i]),
    ensures
        run_value(p, v, before.push(Event::Reply(ReadOutcome::Line(line))) + after)
            == trimmed_end(line@),
{
    let xs = before.push(Event::Reply(ReadOutcome::Line(line)));
    lemma_quiet_suffix(p, v, xs, after);
    assert(xs.drop_last() =~= before);
}

/// A connection that the backend closes is followed by a pause of
/// `BACKOFF_MILLIS` and then a new connection attempt; no phase is final.
pub proof fn lemma_close_leads_to_reconnect()
    ensures
        next_phase(Phase::Connected, Event::Reply(ReadOutcome::Closed)) == Phase::Backoff,
        action_for(Phase::Backoff) == (Action::Sleep { millis: 2000 }),
        next_phase(Phase::Backoff, Event::BackoffElapsed) == Phase::Disconnected,
        action_for(Phase::Disconnected) == Action::Connect,
        next_phase(Phase::Disconnected, Event::ConnectOk) == Phase::Connected,
{
}

} // verus!
