//! The cadence of the polling loop.
//!
//! Cycles start no sooner than one interval apart. The time that a cycle
//! took is taken off the pause that follows it; a cycle that took longer than
//! the interval is followed by the next one at once. Whether a cycle failed
//! has no bearing on the pause.

use vstd::prelude::*;
use crate::error::ClientError;
use crate::reconcile::{Outcome, OutcomeView};

verus! {

/// The number of seconds between two checks where none is configured.
pub const DEFAULT_INTERVAL_SECS: u64 = 300;

/// The number of nanoseconds in a second.
pub const NANOS_PER_SEC: u128 = 1_000_000_000;

/// The pause that follows a cycle, in nanoseconds, given the interval and
/// the time that the cycle took. `None` where the next cycle starts at once.
pub open spec fn pause_after(interval: nat, elapsed: nat) -> Option<nat> {
    if elapsed < interval {
        Some((interval - elapsed) as nat)
    } else {
        None
    }
}

/// The time from the start of a cycle that took `elapsed` to the start of
/// the next cycle.
pub open spec fn gap_between_starts(interval: nat, elapsed: nat) -> nat {
    match pause_after(interval, elapsed) {
        Some(pause) => elapsed + pause,
        None => elapsed,
    }
}

/// The failure that a cycle's outcome reports, if any.
pub open spec fn failure_of(outcome: OutcomeView) -> Option<ClientError> {
    match outcome {
        OutcomeView::Failed(e) => Some(e),
        _ => None,
    }
}

/// A time span, split into whole seconds and the nanoseconds beyond them.
#[derive(Clone, Copy, Debug, PartialEq, Eq, Structural)]
pub struct Pause {
    pub secs: u64,
    pub subsec_nanos: u32,
}

impl Pause {
    /// The span in nanoseconds.
    pub open spec fn nanos(self) -> nat {
        (self.secs * NANOS_PER_SEC + self.subsec_nanos) as nat
    }
}

/// What the loop does once a cycle is over. There is no way to stop: the
/// loop goes on whatever the cycle's outcome.
#[derive(Clone, Copy, Debug, PartialEq, Eq, Structural)]
pub struct Resume {
    /// The failure to log, where the cycle failed.
    pub report: Option<ClientError>,
    /// How long to sleep before the next cycle; `None` to start it at once.
    pub pause: Option<Pause>,
}

/// A resumption with its pause in nanoseconds.
pub struct ResumeView {
    pub report: Option<ClientError>,
    pub pause: Option<nat>,
}

impl View for Resume {
    type V = ResumeView;

    open spec fn view(&self) -> ResumeView {
        ResumeView {
            report: self.report,
            pause: match self.pause {
                Some(p) => Some(p.nanos()),
                None => None,
            },
        }
    }
}

/// How the loop goes on after a cycle that ended with `outcome` and took
/// `elapsed` nanoseconds.
pub open spec fn resumption(interval: nat, outcome: OutcomeView, elapsed: nat) -> ResumeView {
    ResumeView { report: failure_of(outcome), pause: pause_after(interval, elapsed) }
}

/// Drives cycles at a fixed nominal interval.
#[derive(Clone, Copy, Debug)]
pub struct Scheduler {
    interval_secs: u64,
}

impl Scheduler {
    /// The interval in nanoseconds.
    pub closed spec fn interval(&self) -> nat {
        (self.interval_secs * NANOS_PER_SEC) as nat
    }

    /// A scheduler that starts a cycle every `interval_secs` seconds.
    pub fn new(interval_secs: u64) -> (scheduler: Self)
        ensures
            scheduler.interval() == interval_secs * NANOS_PER_SEC,
    {
        Scheduler { interval_secs }
    }

    /// The configured interval, in seconds.
    pub fn interval_secs(&self) -> (secs: u64)
        ensures
            secs * NANOS_PER_SEC == self.interval(),
    {
        self.interval_secs
    }

    /// How long to sleep after a cycle that took `elapsed_nanos`
    /// nanoseconds: the rest of the interval, or nothing where the cycle
    /// used the interval up.
    pub fn pause_after_cycle(&self, elapsed_nanos: u128) -> (pause: Option<Pause>)
        ensures
            match pause {
                Some(p) => pause_after(self.interval(), elapsed_nanos as nat) == Some(p.nanos())
                    && p.subsec_nanos < NANOS_PER_SEC,
                None => pause_after(self.interval(), elapsed_nanos as nat) is None,
            },
    {
        let interval: u128 = (self.interval_secs as u128) * NANOS_PER_SEC;
        if elapsed_nanos < interval {
            let rest: u128 = interval - elapsed_nanos;
            let secs: u128 = rest / NANOS_PER_SEC;
            let subsec: u128 = rest % NANOS_PER_SEC;
            Some(Pause { secs: secs as u64, subsec_nanos: subsec as u32 })
        } else {
            None
        }
    }

    /// Decides how the loop goes on after a cycle that ended with `outcome`
    /// and took `elapsed_nanos` nanoseconds. A failure is reported and
    /// changes nothing else.
    pub fn after_cycle(&self, outcome: &Outcome, elapsed_nanos: u128) -> (resume: Resume)
        ensures
            resume@ == resumption(self.interval(), outcome@, elapsed_nanos as nat),
            resume.pause matches Some(p) ==> p.subsec_nanos < NANOS_PER_SEC,
    {
        let report = match outcome {
            Outcome::Failed(e) => Some(*e),
            _ => None,
        };
        Resume { report, pause: self.pause_after_cycle(elapsed_nanos) }
    }
}

/// Two cycles never start less than one interval apart, and exactly one
/// interval apart where the first took no longer than that.
pub proof fn lemma_gap_between_starts(interval: nat, elapsed: nat)
    ensures
        gap_between_starts(interval, elapsed) >= interval,
        gap_between_starts(interval, elapsed) == if elapsed <= interval {
            interval
        } else {
            elapsed
        },
{
}

/// A cycle that failed is followed by the same pause as any other cycle
/// that took as long: a failure is reported and leaves the cadence alone.
pub proof fn lemma_failure_keeps_cadence(
    interval: nat,
    failure: ClientError,
    other: OutcomeView,
    elapsed: nat,
)
    ensures
        resumption(interval, OutcomeView::Failed(failure), elapsed).report == Some(failure),
        resumption(interval, OutcomeView::Failed(failure), elapsed).pause == resumption(
            interval,
            other,
            elapsed,
        ).pause,
{
}

} // verus!
