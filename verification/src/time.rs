//! A span of time with nanosecond precision, kept as whole seconds plus a
//! sub-second count of nanoseconds.
use vstd::prelude::*;

verus! {

/// Nanoseconds in one second.
pub const NANOS_PER_SEC: u32 = 1_000_000_000;

/// Nanoseconds in one millisecond.
pub const NANOS_PER_MILLI: u32 = 1_000_000;

/// Milliseconds in one second.
pub const MILLIS_PER_SEC: u64 = 1_000;

/// The largest number of nanoseconds a [`Duration`] can hold.
pub open spec fn max_nanos() -> nat {
    u64::MAX as nat * NANOS_PER_SEC as nat + (NANOS_PER_SEC - 1) as nat
}

/// The smaller of two naturals.
pub open spec fn min_nat(a: nat, b: nat) -> nat {
    if a <= b {
        a
    } else {
        b
    }
}

/// A span of time: `secs` whole seconds plus `nanos` nanoseconds, with
/// `nanos` always below one second.
#[derive(Debug, Clone, Copy, PartialEq, Eq, Structural)]
pub struct Duration {
    secs: u64,
    nanos: u32,
}

impl Duration {
    #[verifier::type_invariant]
    closed spec fn wf(self) -> bool {
        self.nanos < NANOS_PER_SEC
    }

    /// The length of the span in nanoseconds.
    pub closed spec fn spec_nanos(self) -> nat {
        self.secs as nat * NANOS_PER_SEC as nat + (self.nanos % NANOS_PER_SEC) as nat
    }

    /// Every span is at most the longest representable one.
    pub proof fn lemma_bounded(self)
        ensures
            self@ <= max_nanos(),
    {
    }

    /// The whole seconds of the span.
    pub closed spec fn spec_secs(self) -> nat {
        self.secs as nat
    }

    /// The nanoseconds beyond the whole seconds.
    pub closed spec fn spec_subsec_nanos(self) -> nat {
        self.nanos as nat
    }

    /// The span of `secs` seconds and `nanos` nanoseconds; nanoseconds past a
    /// whole second carry into the seconds.
    pub fn new(secs: u64, nanos: u32) -> (d: Duration)
        requires
            secs + nanos / NANOS_PER_SEC <= u64::MAX,
        ensures
            d@ == secs * NANOS_PER_SEC + nanos,
    {
        let carry: u32 = nanos / NANOS_PER_SEC;
        Duration { secs: secs + carry as u64, nanos: nanos % NANOS_PER_SEC }
    }

    /// The empty span.
    pub fn zero() -> (d: Duration)
        ensures
            d@ == 0,
    {
        Duration { secs: 0, nanos: 0 }
    }

    /// The longest representable span.
    pub fn max() -> (d: Duration)
        ensures
            d@ == max_nanos(),
    {
        Duration { secs: u64::MAX, nanos: NANOS_PER_SEC - 1 }
    }

    /// A span of `secs` whole seconds.
    pub fn from_secs(secs: u64) -> (d: Duration)
        ensures
            d@ == secs * NANOS_PER_SEC,
    {
        Duration { secs, nanos: 0 }
    }

    /// A span of `millis` milliseconds.
    pub fn from_millis(millis: u64) -> (d: Duration)
        ensures
            d@ == millis * NANOS_PER_MILLI,
    {
        let secs: u64 = millis / MILLIS_PER_SEC;
        let rest: u64 = millis % MILLIS_PER_SEC;
        let nanos: u32 = rest as u32 * NANOS_PER_MILLI;
        Duration { secs, nanos }
    }

    /// The whole seconds of the span.
    pub fn as_secs(&self) -> (s: u64)
        ensures
            s == self.spec_secs(),
    {
        self.secs
    }

    /// The nanoseconds beyond the whole seconds, always below one second.
    pub fn subsec_nanos(&self) -> (n: u32)
        ensures
            n == self.spec_subsec_nanos(),
            n < NANOS_PER_SEC,
            self@ == self.spec_secs() * NANOS_PER_SEC + n,
    {
        proof {
            use_type_invariant(self);
        }
        self.nanos
    }

    /// Whether the span is empty.
    pub fn is_zero(&self) -> (b: bool)
        ensures
            b == (self@ == 0),
    {
        proof {
            use_type_invariant(self);
        }
        self.secs == 0 && self.nanos == 0
    }

    /// Whether this span is at least as long as `other`.
    pub fn ge(&self, other: &Duration) -> (b: bool)
        ensures
            b == (self@ >= other@),
    {
        proof {
            use_type_invariant(self);
            use_type_invariant(other);
        }
        if self.secs != other.secs {
            self.secs > other.secs
        } else {
            self.nanos >= other.nanos
        }
    }

    /// `self + rhs`, or the longest representable span where the sum does
    /// not fit.
    pub fn saturating_add(self, rhs: Duration) -> (d: Duration)
        ensures
            d@ == min_nat(self@ + rhs@, max_nanos()),
    {
        proof {
            use_type_invariant(&self);
            use_type_invariant(&rhs);
        }
        match self.secs.checked_add(rhs.secs) {
            Some(secs) => {
                let nanos: u32 = self.nanos + rhs.nanos;
                if nanos >= NANOS_PER_SEC {
                    match secs.checked_add(1) {
                        Some(secs) => Duration { secs, nanos: nanos - NANOS_PER_SEC },
                        None => Duration::max(),
                    }
                } else {
                    Duration { secs, nanos }
                }
            },
            None => Duration::max(),
        }
    }
}

impl View for Duration {
    type V = nat;

    open spec fn view(&self) -> nat {
        self.spec_nanos()
    }
}

} // verus!
