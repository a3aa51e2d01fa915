//! Monotonic time as the twin sees it: whole nanoseconds since an arbitrary origin.
//!
//! The process that drives the twin reads its monotonic clock once per message and hands the
//! reading in; nothing in the library looks at a clock for the purposes of the state machine.
use vstd::prelude::*;

verus! {

pub const NANOS_PER_SEC: u64 = 1_000_000_000;

pub const NANOS_PER_MILLI: u64 = 1_000_000;

/// A span of time in whole nanoseconds.
#[derive(Clone, Copy, Debug, PartialEq, Eq, Structural)]
pub struct Duration {
    pub nanos: u64,
}

impl Duration {
    /// A span of whole seconds.
    pub fn from_secs(secs: u64) -> (span: Duration)
        requires
            secs * NANOS_PER_SEC <= u64::MAX,
        ensures
            span.nanos == secs * NANOS_PER_SEC,
    {
        Duration { nanos: secs * NANOS_PER_SEC }
    }

    /// A span of whole milliseconds.
    pub fn from_millis(millis: u64) -> (span: Duration)
        requires
            millis * NANOS_PER_MILLI <= u64::MAX,
        ensures
            span.nanos == millis * NANOS_PER_MILLI,
    {
        Duration { nanos: millis * NANOS_PER_MILLI }
    }
}

/// A reading of the monotonic clock.
#[derive(Clone, Copy, Debug, PartialEq, Eq, Structural)]
pub struct Instant {
    pub nanos: u64,
}

impl Instant {
    /// How long after `earlier` this reading lies; zero when it does not lie after it.
    pub open spec fn since(self, earlier: Instant) -> nat {
        if self.nanos >= earlier.nanos {
            (self.nanos - earlier.nanos) as nat
        } else {
            0
        }
    }

    /// The reading `nanos` nanoseconds after the clock's origin.
    pub fn from_nanos(nanos: u64) -> (at: Instant)
        ensures
            at.nanos == nanos,
    {
        Instant { nanos }
    }

    /// The span from `earlier` to this reading, or `None` when `earlier` lies in its future.
    pub fn checked_duration_since(&self, earlier: Instant) -> (span: Option<Duration>)
        ensures
            span is Some <==> self.nanos >= earlier.nanos,
            span matches Some(d) ==> d.nanos == self.nanos - earlier.nanos,
    {
        if self.nanos >= earlier.nanos {
            Some(Duration { nanos: self.nanos - earlier.nanos })
        } else {
            None
        }
    }

    /// The span from `earlier` to this reading, or zero when `earlier` lies in its future.
    pub fn saturating_duration_since(&self, earlier: Instant) -> (span: Duration)
        ensures
            span.nanos == self.since(earlier),
    {
        if self.nanos >= earlier.nanos {
            Duration { nanos: self.nanos - earlier.nanos }
        } else {
            Duration { nanos: 0 }
        }
    }

    /// The reading `span` later.
    pub fn plus(&self, span: Duration) -> (at: Instant)
        requires
            self.nanos + span.nanos <= u64::MAX,
        ensures
            at.nanos == self.nanos + span.nanos,
    {
        Instant { nanos: self.nanos + span.nanos }
    }
}

} // verus!
