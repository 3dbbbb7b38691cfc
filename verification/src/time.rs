//! Time as plain values: a span of nanoseconds, and an instant counted from the
//! origin of the caller's clock.

use vstd::prelude::*;

verus! {

/// A span of time: whole seconds and the nanoseconds of the last, unfinished one.
#[derive(Debug, Clone, Copy, PartialEq, Eq, Structural)]
pub struct Duration {
    secs: u64,
    nanos: u32,
}

impl View for Duration {
    type V = nat;

    /// The span in nanoseconds.
    closed spec fn view(&self) -> nat {
        (self.secs * 1_000_000_000 + self.nanos) as nat
    }
}

impl Duration {
    #[verifier::type_invariant]
    spec fn wf(self) -> bool {
        self.nanos < 1_000_000_000
    }

    /// The longest span that can be represented, in nanoseconds.
    pub open spec fn max_nanos() -> nat {
        (u64::MAX * 1_000_000_000 + 999_999_999) as nat
    }

    /// A span of `secs` seconds.
    pub fn from_secs(secs: u64) -> (span: Duration)
        ensures
            span@ == secs * 1_000_000_000,
    {
        Duration { secs, nanos: 0 }
    }

    /// A span of `millis` milliseconds.
    pub fn from_millis(millis: u64) -> (span: Duration)
        ensures
            span@ == millis * 1_000_000,
    {
        Duration { secs: millis / 1000, nanos: ((millis % 1000) as u32) * 1_000_000 }
    }

    /// A span of `nanos` nanoseconds.
    pub fn from_nanos(nanos: u64) -> (span: Duration)
        ensures
            span@ == nanos,
    {
        Duration { secs: nanos / 1_000_000_000, nanos: (nanos % 1_000_000_000) as u32 }
    }

    /// The whole seconds of the span.
    pub fn as_secs(&self) -> (secs: u64)
        ensures
            secs == self@ / 1_000_000_000,
    {
        proof {
            use_type_invariant(self);
        }
        self.secs
    }

    /// The span in nanoseconds.
    pub fn as_nanos(&self) -> (nanos: u128)
        ensures
            nanos == self@,
            self@ <= Self::max_nanos(),
    {
        proof {
            use_type_invariant(self);
        }
        (self.secs as u128) * 1_000_000_000 + (self.nanos as u128)
    }

    /// The span of `nanos` nanoseconds, for spans longer than `from_nanos` takes.
    pub(crate) fn of_nanos(nanos: u128) -> (span: Duration)
        requires
            nanos <= Self::max_nanos(),
        ensures
            span@ == nanos,
    {
        Duration {
            secs: (nanos / 1_000_000_000) as u64,
            nanos: (nanos % 1_000_000_000) as u32,
        }
    }
}

/// A moment, given by how long after the origin of the clock it lies.
#[derive(Debug, Clone, Copy, PartialEq, Eq, Structural)]
pub struct Instant {
    since_origin: Duration,
}

impl View for Instant {
    type V = nat;

    /// Nanoseconds since the origin of the clock.
    closed spec fn view(&self) -> nat {
        self.since_origin@
    }
}

impl Instant {
    /// The last instant that can be represented, in nanoseconds since the origin.
    pub open spec fn max_nanos() -> nat {
        Duration::max_nanos()
    }

    /// The moment `since_origin` after the origin of the clock.
    pub fn at(since_origin: Duration) -> (instant: Instant)
        ensures
            instant@ == since_origin@,
    {
        Instant { since_origin }
    }

    /// How long after the origin of the clock this moment lies.
    pub fn since_origin(&self) -> (span: Duration)
        ensures
            span@ == self@,
            self@ <= Self::max_nanos(),
    {
        let _ = self.since_origin.as_nanos();
        self.since_origin
    }

    /// The time from `earlier` to this moment, and zero where `earlier` is later.
    pub fn saturating_duration_since(&self, earlier: Instant) -> (span: Duration)
        ensures
            span@ == if self@ >= earlier@ { (self@ - earlier@) as nat } else { 0 },
    {
        let end: u128 = self.since_origin.as_nanos();
        let begin: u128 = earlier.since_origin.as_nanos();
        if end >= begin {
            Duration::of_nanos(end - begin)
        } else {
            Duration::from_nanos(0)
        }
    }

    /// The moment `span` after this one. It must be one that can be represented.
    pub fn plus(&self, span: Duration) -> (later: Instant)
        requires
            self@ + span@ <= Self::max_nanos(),
        ensures
            later@ == self@ + span@,
    {
        let begin: u128 = self.since_origin.as_nanos();
        let length: u128 = span.as_nanos();
        Instant { since_origin: Duration::of_nanos(begin + length) }
    }
}

} // verus!
