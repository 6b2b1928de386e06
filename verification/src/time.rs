//! Spans of time and points in time.

use vstd::prelude::*;

verus! {

/// A span of time: whole seconds and the nanoseconds beyond them, fewer than a second's.
#[derive(Debug, Clone, Copy, PartialEq, Eq, Structural)]
pub struct Duration {
    pub secs: u64,
    pub nanos: u32,
}

/// Microseconds since an epoch that all points in time share.
pub type Timestamp = u64;

impl Duration {
    /// The nanoseconds make no whole second.
    pub open spec fn is_normal(self) -> bool {
        self.nanos < 1_000_000_000
    }

    pub fn from_secs(secs: u64) -> (r: Duration)
        ensures
            r == (Duration { secs, nanos: 0 }),
            r.is_normal(),
    {
        Duration { secs, nanos: 0 }
    }

    pub fn from_millis(millis: u64) -> (r: Duration)
        ensures
            r.secs == millis / 1000,
            r.nanos == millis % 1000 * 1_000_000,
            r.micros() == millis * 1000,
            r.is_normal(),
    {
        Duration { secs: millis / 1000, nanos: ((millis % 1000) * 1_000_000) as u32 }
    }

    /// The whole microseconds of the span.
    pub open spec fn micros(self) -> nat {
        (self.secs * 1_000_000 + self.nanos as int / 1000) as nat
    }

    /// The span is a whole number of microseconds, and the number is one of 63 bits: the database
    /// has an interval for it.
    pub open spec fn is_interval(self) -> bool {
        self.is_whole_micros() && self.micros() <= i64::MAX
    }

    /// No part of a microsecond is left over.
    pub open spec fn is_whole_micros(self) -> bool {
        self.nanos % 1000 == 0
    }

    /// Is no part of a microsecond left over?
    pub fn whole_micros(&self) -> (r: bool)
        ensures
            r == self.is_whole_micros(),
    {
        self.nanos % 1000 == 0
    }

    /// The whole microseconds of the span.
    pub fn as_micros(&self) -> (r: u128)
        ensures
            r == self.micros(),
            r < 0x1_0000_0000_0000_0000_0000_0000,
    {
        self.secs as u128 * 1_000_000 + (self.nanos / 1000) as u128
    }
}

} // verus!
