//! Lengths of time in whole nanoseconds.
use vstd::prelude::*;

verus! {

/// Nanoseconds in one millisecond.
pub const NANOS_PER_MILLI: u128 = 1_000_000;

/// Nanoseconds in one second.
pub const NANOS_PER_SECOND: u128 = 1_000_000_000;

/// The longest span: `u64::MAX` seconds and one nanosecond short of another.
pub const MAX_NANOS: u128 = 18_446_744_073_709_551_615_999_999_999;

/// A length of time.
#[derive(Debug, Clone, Copy, PartialEq, Eq, Structural)]
pub struct TimeSpan {
    nanos: u128,
}

impl View for TimeSpan {
    type V = nat;

    closed spec fn view(&self) -> nat {
        self.nanos as nat
    }
}

impl TimeSpan {
    /// A span is at most the longest one.
    #[verifier::type_invariant]
    spec fn wf(&self) -> bool {
        self.nanos <= MAX_NANOS
    }

    /// A span of so many nanoseconds, unless it would be longer than the longest span.
    pub fn from_nanos(nanos: u128) -> (r: Option<Self>)
        ensures
            match r {
                Some(span) => span@ == nanos && nanos <= MAX_NANOS,
                None => nanos > MAX_NANOS,
            },
    {
        if nanos > MAX_NANOS {
            None
        } else {
            Some(TimeSpan { nanos })
        }
    }

    pub fn from_millis(millis: u64) -> (r: Self)
        ensures
            r@ == millis * NANOS_PER_MILLI,
    {
        TimeSpan { nanos: millis as u128 * NANOS_PER_MILLI }
    }

    pub fn from_secs(seconds: u64) -> (r: Self)
        ensures
            r@ == seconds * NANOS_PER_SECOND,
    {
        TimeSpan { nanos: seconds as u128 * NANOS_PER_SECOND }
    }

    pub fn as_nanos(self) -> (r: u128)
        ensures
            r == self@,
            r <= MAX_NANOS,
    {
        proof {
            use_type_invariant(&self);
        }
        self.nanos
    }

    /// Whole milliseconds of the span.
    pub fn as_millis(self) -> (r: u128)
        ensures
            r == self@ / (NANOS_PER_MILLI as nat),
    {
        self.nanos / NANOS_PER_MILLI
    }

    pub fn is_zero(self) -> (r: bool)
        ensures
            r == (self@ == 0),
    {
        self.nanos == 0
    }
}

} // verus!
