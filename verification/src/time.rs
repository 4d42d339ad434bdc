//! Spans of time, as whole seconds and a nanosecond remainder.

use vstd::prelude::*;

verus! {

/// Nanoseconds in one second.
pub const NANOS_PER_SEC: u32 = 1_000_000_000;

/// Nanoseconds in one millisecond.
pub const NANOS_PER_MILLI: u32 = 1_000_000;

/// Milliseconds in one second.
pub const MILLIS_PER_SEC: u64 = 1_000;

/// A span of time: whole seconds and a remainder of less than one second,
/// counted in nanoseconds.
#[derive(Clone, Copy, Debug, PartialEq, Eq, Structural)]
pub struct Duration {
    secs: u64,
    nanos: u32,
}

impl Duration {
    /// The whole seconds of the span.
    pub closed spec fn secs_spec(self) -> u64 {
        self.secs
    }

    /// The remainder below one second, in nanoseconds.
    pub closed spec fn nanos_spec(self) -> u32 {
        self.nanos
    }

    /// The remainder is less than one second.
    pub open spec fn wf(self) -> bool {
        self.nanos_spec() < NANOS_PER_SEC
    }

    /// The whole span in nanoseconds.
    pub open spec fn total_nanos(self) -> nat {
        (self.secs_spec() * NANOS_PER_SEC + self.nanos_spec()) as nat
    }

    /// The whole span in milliseconds, what is left below one millisecond
    /// dropped.
    pub open spec fn total_millis(self) -> nat {
        (self.secs_spec() * MILLIS_PER_SEC + self.nanos_spec() / NANOS_PER_MILLI) as nat
    }

    #[verifier::type_invariant]
    spec fn remainder_in_range(self) -> bool {
        self.nanos < NANOS_PER_SEC
    }

    /// The span of `secs` seconds and `nanos` nanoseconds. Nanoseconds from
    /// one second upwards are carried into the seconds.
    pub fn new(secs: u64, nanos: u32) -> (d: Duration)
        requires
            secs + nanos / NANOS_PER_SEC <= u64::MAX,
        ensures
            d.secs_spec() == secs + nanos / NANOS_PER_SEC,
            d.nanos_spec() == nanos % NANOS_PER_SEC,
            d.wf(),
    {
        let carry: u32 = nanos / NANOS_PER_SEC;
        Duration { secs: secs + carry as u64, nanos: nanos % NANOS_PER_SEC }
    }

    /// The span of `millis` milliseconds.
    pub fn from_millis(millis: u64) -> (d: Duration)
        ensures
            d.secs_spec() == millis / MILLIS_PER_SEC,
            d.nanos_spec() == (millis % MILLIS_PER_SEC) * NANOS_PER_MILLI,
            d.wf(),
            d.total_millis() == millis,
    {
        let rest: u32 = (millis % MILLIS_PER_SEC) as u32;
        let d = Duration { secs: millis / MILLIS_PER_SEC, nanos: rest * NANOS_PER_MILLI };
        assert(d.total_millis() == millis) by {
            assert((rest * NANOS_PER_MILLI) / (NANOS_PER_MILLI as int) == rest) by (nonlinear_arith)
                requires
                    0 <= rest < 1000,
                    NANOS_PER_MILLI == 1_000_000,
            ;
        }
        d
    }

    /// The whole seconds of the span.
    pub fn as_secs(&self) -> (s: u64)
        ensures
            s == self.secs_spec(),
    {
        self.secs
    }

    /// The remainder below one second, in nanoseconds.
    pub fn subsec_nanos(&self) -> (n: u32)
        ensures
            n == self.nanos_spec(),
            n < NANOS_PER_SEC,
            self.wf(),
    {
        proof {
            use_type_invariant(self);
        }
        self.nanos
    }

    /// The remainder below one second, in whole milliseconds.
    pub fn subsec_millis(&self) -> (m: u32)
        ensures
            m == self.nanos_spec() / NANOS_PER_MILLI,
            m < MILLIS_PER_SEC,
            self.wf(),
    {
        proof {
            use_type_invariant(self);
        }
        self.nanos / NANOS_PER_MILLI
    }
}

} // verus!
