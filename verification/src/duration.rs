//! A span of time, held as whole seconds plus a sub-second nanosecond part.
//!
//! The pool measures timeouts, idle windows and lifetimes with this type, and
//! stamps resources with the time elapsed since the pool was built. Its value in
//! specifications is the total number of nanoseconds.

use vstd::prelude::*;
use vstd::arithmetic::div_mod::lemma_fundamental_div_mod_converse;

verus! {

/// Nanoseconds in one second.
pub const NANOS_PER_SEC: u32 = 1_000_000_000;

/// Nanoseconds in one millisecond.
pub const NANOS_PER_MILLI: u32 = 1_000_000;

/// The largest representable span, in nanoseconds.
pub open spec fn max_nanos() -> nat {
    u64::MAX as nat * 1_000_000_000 + 999_999_999
}

/// A non-negative span of time with nanosecond precision.
#[derive(Clone, Copy, Debug, PartialEq, Eq, Structural, Hash)]
pub struct Duration {
    secs: u64,
    nanos: u32,
}

impl View for Duration {
    type V = nat;

    /// The span in nanoseconds.
    open spec fn view(&self) -> nat {
        self.total_nanos()
    }
}

impl Duration {
    /// The span in nanoseconds.
    pub closed spec fn total_nanos(&self) -> nat {
        self.secs as nat * 1_000_000_000 + self.nanos as nat
    }

    #[verifier::type_invariant]
    spec fn subsec_in_range(self) -> bool {
        self.nanos < 1_000_000_000
    }

    /// The empty span.
    pub fn zero() -> (d: Duration)
        ensures
            d@ == 0,
    {
        Duration { secs: 0, nanos: 0 }
    }

    /// The span of `secs` whole seconds.
    pub closed spec fn spec_from_secs(secs: u64) -> Duration {
        Duration { secs, nanos: 0 }
    }

    /// A span of `secs` whole seconds.
    pub fn from_secs(secs: u64) -> (d: Duration)
        ensures
            d@ == secs as nat * 1_000_000_000,
            d == Duration::spec_from_secs(secs),
    {
        Duration { secs, nanos: 0 }
    }

    /// A span of `millis` milliseconds.
    pub fn from_millis(millis: u64) -> (d: Duration)
        ensures
            d@ == millis as nat * 1_000_000,
    {
        let secs = millis / 1000;
        let rest = millis % 1000;
        let nanos = (rest as u32) * NANOS_PER_MILLI;
        assert(secs * 1_000_000_000 + rest * 1_000_000 == millis * 1_000_000) by (nonlinear_arith)
            requires
                secs == millis / 1000,
                rest == millis % 1000,
        {
        }
        Duration { secs, nanos }
    }

    /// A span of `nanos` nanoseconds.
    pub fn from_nanos(nanos: u64) -> (d: Duration)
        ensures
            d@ == nanos as nat,
    {
        let secs = nanos / 1_000_000_000;
        let rest = (nanos % 1_000_000_000) as u32;
        assert(secs * 1_000_000_000 + (nanos % 1_000_000_000) == nanos) by (nonlinear_arith)
            requires
                secs == nanos / 1_000_000_000,
        {
        }
        Duration { secs, nanos: rest }
    }

    /// A span of `secs` seconds plus `nanos` nanoseconds; a `nanos` of a
    /// second or more carries into the seconds.
    pub fn new(secs: u64, nanos: u32) -> (d: Duration)
        requires
            secs as nat + nanos as nat / 1_000_000_000 <= u64::MAX,
        ensures
            d@ == secs as nat * 1_000_000_000 + nanos as nat,
    {
        let carry = nanos / NANOS_PER_SEC;
        let rest = nanos % NANOS_PER_SEC;
        assert(carry * 1_000_000_000 + rest == nanos) by (nonlinear_arith)
            requires
                carry == nanos / 1_000_000_000,
                rest == nanos % 1_000_000_000,
        {
        }
        Duration { secs: secs + carry as u64, nanos: rest }
    }

    /// The whole seconds of the span.
    pub fn as_secs(&self) -> (s: u64)
        ensures
            s as nat == self@ / 1_000_000_000,
    {
        proof {
            use_type_invariant(self);
            lemma_fundamental_div_mod_converse(
                self@ as int,
                1_000_000_000,
                self.secs as int,
                self.nanos as int,
            );
        }
        self.secs
    }

    /// The part of the span below one second, in nanoseconds.
    pub fn subsec_nanos(&self) -> (n: u32)
        ensures
            n as nat == self@ % 1_000_000_000,
            n < 1_000_000_000,
    {
        proof {
            use_type_invariant(self);
            lemma_fundamental_div_mod_converse(
                self@ as int,
                1_000_000_000,
                self.secs as int,
                self.nanos as int,
            );
        }
        self.nanos
    }

    /// Whether the span is at least as long as `other`.
    pub fn at_least(&self, other: &Duration) -> (b: bool)
        ensures
            b == (self@ >= other@),
    {
        proof {
            use_type_invariant(self);
            use_type_invariant(other);
        }
        self.secs > other.secs || (self.secs == other.secs && self.nanos >= other.nanos)
    }

    /// `self - other`, or zero when `other` is the longer span.
    pub fn saturating_sub(&self, other: &Duration) -> (d: Duration)
        ensures
            d@ == (if self@ >= other@ { (self@ - other@) as nat } else { 0 }),
    {
        proof {
            use_type_invariant(self);
            use_type_invariant(other);
        }
        if !self.at_least(other) {
            Duration::zero()
        } else if self.nanos >= other.nanos {
            Duration { secs: self.secs - other.secs, nanos: self.nanos - other.nanos }
        } else {
            Duration {
                secs: self.secs - other.secs - 1,
                nanos: (self.nanos + (NANOS_PER_SEC - other.nanos)),
            }
        }
    }

    /// `self + other`, or the largest representable span when the sum does
    /// not fit.
    pub fn saturating_add(&self, other: &Duration) -> (d: Duration)
        ensures
            d@ == (if self@ + other@ <= max_nanos() { self@ + other@ } else { max_nanos() }),
    {
        proof {
            use_type_invariant(self);
            use_type_invariant(other);
        }
        let nanos_sum: u32 = self.nanos + other.nanos;
        let (carry, nanos) = if nanos_sum >= NANOS_PER_SEC {
            (1u64, nanos_sum - NANOS_PER_SEC)
        } else {
            (0u64, nanos_sum)
        };
        if self.secs > u64::MAX - other.secs || self.secs + other.secs > u64::MAX - carry {
            Duration { secs: u64::MAX, nanos: NANOS_PER_SEC - 1 }
        } else {
            Duration { secs: self.secs + other.secs + carry, nanos }
        }
    }
}

} // verus!
