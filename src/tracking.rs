//! The tracking loop's decisions, as a state machine driven by events.
//!
//! The caller polls the prediction engine and the clock, hands each result
//! in as an [`Event::Poll`], and carries out the returned [`Action`]: it
//! logs the fix on a report and sends the command bytes on a send. A failed
//! send is handed back as [`Event::SendFailed`], after which the machine
//! only ever answers [`Action::Halt`].

use vstd::prelude::*;
use crate::clock::now_ns;
use crate::command::{command_text, format_command};

verus! {

/// Least time between two reported fixes, in nanoseconds.
pub const REPORT_INTERVAL_NS: i64 = 1_000_000_000;

/// Process exit status after a fatal transmit failure.
pub const FATAL_EXIT_STATUS: i32 = 1;

/// The angles of one fix from the prediction engine, in microdegrees.
#[derive(Clone, Copy, Debug, PartialEq, Eq)]
pub struct Fix {
    pub azimuth_udeg: i64,
    pub elevation_udeg: i64,
}

/// What the tracking loop learns between two decisions.
#[derive(Clone, Copy, Debug, PartialEq, Eq)]
pub enum Event {
    /// A fresh fix, computed when the clock read `now_ns` (nanoseconds).
    Poll { now_ns: i64, fix: Fix },
    /// The rotor link could not deliver the last command.
    SendFailed,
}

/// What the caller is to do after an event.
#[derive(Debug, PartialEq, Eq)]
pub enum Action {
    /// Nothing is due: poll again.
    Wait,
    /// Log the fix; the target is below the horizon, so send nothing.
    Report,
    /// Log the fix and send these bytes over the rotor link.
    ReportAndSend(Vec<u8>),
    /// A transmit failure was seen: stop with [`FATAL_EXIT_STATUS`].
    Halt,
}

/// [`Action`] with the command as a sequence of bytes.
pub enum Outcome {
    Wait,
    Report,
    Send(Seq<u8>),
    Halt,
}

impl View for Action {
    type V = Outcome;

    open spec fn view(&self) -> Outcome {
        match self {
            Action::Wait => Outcome::Wait,
            Action::Report => Outcome::Report,
            Action::ReportAndSend(c) => Outcome::Send(c@),
            Action::Halt => Outcome::Halt,
        }
    }
}

/// The state the tracking loop keeps across iterations.
#[derive(Clone, Copy, Debug, PartialEq, Eq)]
pub struct TrackingState {
    /// Clock reading of the last reported fix; `None` until one is reported.
    pub last_report_ns: Option<i64>,
    /// Set once a transmit failure has been seen.
    pub halted: bool,
}

/// A fix polled at `now` is due when nothing was reported yet, or when at
/// least the report interval has passed since the last report.
pub open spec fn due(last: Option<i64>, now: int) -> bool {
    match last {
        None => true,
        Some(t) => now - t >= REPORT_INTERVAL_NS,
    }
}

/// The target is above the local horizon.
pub open spec fn visible(fix: Fix) -> bool {
    fix.elevation_udeg > 0
}

/// The next state and outcome of the tracking loop after `e`.
pub open spec fn step_spec(s: TrackingState, e: Event) -> (TrackingState, Outcome) {
    if s.halted {
        (s, Outcome::Halt)
    } else {
        match e {
            Event::SendFailed => (TrackingState { halted: true, ..s }, Outcome::Halt),
            Event::Poll { now_ns, fix } => {
                if !due(s.last_report_ns, now_ns as int) {
                    (s, Outcome::Wait)
                } else {
                    let s2 = TrackingState { last_report_ns: Some(now_ns), ..s };
                    if visible(fix) {
                        (
                            s2,
                            Outcome::Send(
                                command_text(fix.azimuth_udeg as int, fix.elevation_udeg as int),
                            ),
                        )
                    } else {
                        (s2, Outcome::Report)
                    }
                }
            },
        }
    }
}

/// The state after the first `i` events of `es`, starting from `s`.
pub open spec fn state_at(s: TrackingState, es: Seq<Event>, i: nat) -> TrackingState
    decreases i,
{
    if i == 0 {
        s
    } else {
        step_spec(state_at(s, es, (i - 1) as nat), es[i - 1]).0
    }
}

/// The outcome of event `i` of `es`, starting from `s`.
pub open spec fn outcome_at(s: TrackingState, es: Seq<Event>, i: nat) -> Outcome {
    step_spec(state_at(s, es, i), es[i as int]).1
}

/// The fix was acted upon: reported, with or without a command.
pub open spec fn acted(o: Outcome) -> bool {
    o is Report || o is Send
}

/// The clock reading carried by a poll.
pub open spec fn poll_time(e: Event) -> int {
    match e {
        Event::Poll { now_ns, .. } => now_ns as int,
        Event::SendFailed => 0,
    }
}

/// `a` is no later than `b`, where "never reported" comes before any time.
pub open spec fn not_after(a: Option<i64>, b: Option<i64>) -> bool {
    match (a, b) {
        (None, _) => true,
        (Some(_), None) => false,
        (Some(x), Some(y)) => x <= y,
    }
}

/// The time of the last report never moves back, whatever clock readings
/// the polls carry.
pub proof fn lemma_last_report_monotonic(s: TrackingState, es: Seq<Event>, i: nat, j: nat)
    requires
        i <= j <= es.len(),
    ensures
        not_after(state_at(s, es, i).last_report_ns, state_at(s, es, j).last_report_ns),
    decreases j,
{
    if i < j {
        lemma_last_report_monotonic(s, es, i, (j - 1) as nat);
        let prev = state_at(s, es, (j - 1) as nat);
        assert(not_after(prev.last_report_ns, state_at(s, es, j).last_report_ns));
    } else {
        assert(not_after(state_at(s, es, i).last_report_ns, state_at(s, es, j).last_report_ns))
            by {
            match state_at(s, es, i).last_report_ns {
                None => {},
                Some(_) => {},
            }
        }
    }
}

/// An acted-upon event is a due poll, and its clock reading becomes the
/// time of the last report.
pub proof fn lemma_acted_is_recorded(s: TrackingState, es: Seq<Event>, i: nat)
    requires
        i < es.len(),
        acted(outcome_at(s, es, i)),
    ensures
        es[i as int] is Poll,
        !state_at(s, es, i).halted,
        due(state_at(s, es, i).last_report_ns, poll_time(es[i as int])),
        state_at(s, es, i + 1).last_report_ns == Some(es[i as int]->Poll_now_ns),
{
}

/// Any two acted-upon polls, however fast the polling and however the clock
/// moves, carry clock readings at least the report interval apart: no window
/// of one interval holds two reports.
pub proof fn lemma_reports_spaced(s: TrackingState, es: Seq<Event>, i: nat, j: nat)
    requires
        i < j < es.len(),
        acted(outcome_at(s, es, i)),
        acted(outcome_at(s, es, j)),
    ensures
        poll_time(es[j as int]) >= poll_time(es[i as int]) + REPORT_INTERVAL_NS,
{
    lemma_acted_is_recorded(s, es, i);
    lemma_acted_is_recorded(s, es, j);
    lemma_last_report_monotonic(s, es, i + 1, j);
}

/// Once a transmit failure has been handed in, every later event is
/// answered with a halt: nothing further is reported or sent.
pub proof fn lemma_halt_is_final(s: TrackingState, es: Seq<Event>, i: nat, j: nat)
    requires
        i < j < es.len(),
        es[i as int] is SendFailed,
    ensures
        state_at(s, es, j).halted,
        outcome_at(s, es, j) is Halt,
    decreases j,
{
    if j > i + 1 {
        lemma_halt_is_final(s, es, i, (j - 1) as nat);
    }
}

/// A poll that comes at least one report interval after the last report
/// (or before any report) is acted upon unless the loop has halted.
pub proof fn lemma_due_poll_is_acted(s: TrackingState, es: Seq<Event>, i: nat)
    requires
        i < es.len(),
        es[i as int] is Poll,
        !state_at(s, es, i).halted,
        due(state_at(s, es, i).last_report_ns, poll_time(es[i as int])),
    ensures
        acted(outcome_at(s, es, i)),
{
}

/// A command is sent for an event exactly when it is a due poll of a target
/// above the horizon and the loop has not halted; the command is then the
/// one for that fix. A poll of a target at or below the horizon never sends.
pub proof fn lemma_visibility_gate(s: TrackingState, es: Seq<Event>, i: nat)
    requires
        i < es.len(),
    ensures
        outcome_at(s, es, i) is Send <==> (es[i as int] is Poll && !state_at(s, es, i).halted
            && due(state_at(s, es, i).last_report_ns, poll_time(es[i as int])) && visible(
            es[i as int]->Poll_fix,
        )),
        outcome_at(s, es, i) is Send ==> outcome_at(s, es, i)->Send_0 == command_text(
            es[i as int]->Poll_fix.azimuth_udeg as int,
            es[i as int]->Poll_fix.elevation_udeg as int,
        ),
{
}

impl TrackingState {
    /// A loop that has reported nothing yet.
    pub fn new() -> (r: TrackingState)
        ensures
            r.last_report_ns is None,
            !r.halted,
    {
        TrackingState { last_report_ns: None, halted: false }
    }

    /// Decides what to do about `event`. A poll is acted upon when it is due
    /// (the clock reading is then recorded before anything is reported);
    /// a command is sent for it only when the target is above the horizon.
    /// A transmit failure halts the loop for good.
    pub fn step(&mut self, event: &Event) -> (r: Action)
        ensures
            (*final(self), r@) == step_spec(*old(self), *event),
    {
        if self.halted {
            return Action::Halt;
        }
        match event {
            Event::SendFailed => {
                self.halted = true;
                Action::Halt
            },
            Event::Poll { now_ns, fix } => {
                let is_due = match self.last_report_ns {
                    None => true,
                    Some(t) => (*now_ns as i128) - (t as i128) >= REPORT_INTERVAL_NS as i128,
                };
                if !is_due {
                    Action::Wait
                } else {
                    self.last_report_ns = Some(*now_ns);
                    if fix.elevation_udeg > 0 {
                        Action::ReportAndSend(format_command(fix.azimuth_udeg, fix.elevation_udeg))
                    } else {
                        Action::Report
                    }
                }
            },
        }
    }

    /// Reads the wall clock and decides about `fix` as polled now: the
    /// outcome is that of [`TrackingState::step`] for some clock reading.
    pub fn poll(&mut self, fix: Fix) -> (r: Action)
        ensures
            exists|now: i64|
                (*final(self), r@) == #[trigger] step_spec(
                    *old(self),
                    (Event::Poll { now_ns: now, fix }),
                ),
    {
        let now = now_ns();
        let r = self.step(&Event::Poll { now_ns: now, fix });
        assert((*self, r@) == step_spec(*old(self), Event::Poll { now_ns: now, fix }));
        r
    }
}

} // verus!
