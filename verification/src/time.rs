//! Spans of time, as the node's clock counts them.
use vstd::prelude::*;

verus! {

/// The number of nanoseconds in a second.
pub const NANOS_PER_SEC: u32 = 1_000_000_000;

/// The number of nanoseconds in a millisecond.
pub const NANOS_PER_MILLI: u32 = 1_000_000;

/// A span of time: whole seconds and a fraction of a second in nanoseconds.
#[derive(Debug, Clone, Copy, PartialEq, Eq, Hash)]
pub struct Duration {
    secs: u64,
    nanos: u32,
}

/// A point of a node's clock: the time elapsed since the node was created.
pub type NodeTime = Duration;

impl Duration {
    #[verifier::type_invariant]
    closed spec fn well_formed(self) -> bool {
        self.is_valid()
    }

    /// The whole span in nanoseconds.
    pub closed spec fn as_nanos(self) -> nat {
        self.secs as nat * (NANOS_PER_SEC as nat) + self.nanos as nat
    }

    /// The whole span in milliseconds, rounded down.
    pub open spec fn as_millis(self) -> nat {
        self.as_nanos() / (NANOS_PER_MILLI as nat)
    }

    /// The longest span that can be held, in nanoseconds.
    pub open spec fn max_nanos() -> nat {
        u64::MAX as nat * (NANOS_PER_SEC as nat) + (NANOS_PER_SEC as nat - 1) as nat
    }

    /// Whether the parts are those of a span: the fraction is under a second.
    pub closed spec fn is_valid(self) -> bool {
        self.nanos < NANOS_PER_SEC
    }

    /// Two valid spans of the same length are the same span.
    pub proof fn lemma_same_length(a: Duration, b: Duration)
        requires
            a.is_valid(),
            b.is_valid(),
            a.as_nanos() == b.as_nanos(),
        ensures
            a == b,
    {
        assert(a.secs == b.secs && a.nanos == b.nanos) by (nonlinear_arith)
            requires
                a.nanos < 1_000_000_000,
                b.nanos < 1_000_000_000,
                a.secs as nat * 1_000_000_000 + a.nanos as nat == b.secs as nat * 1_000_000_000
                    + b.nanos as nat,
        ;
    }

    /// The zero span.
    pub fn zero() -> (r: Self)
        ensures
            r.as_nanos() == 0,
            r.is_valid(),
    {
        Duration { secs: 0, nanos: 0 }
    }

    /// Makes a span of `secs` whole seconds.
    pub fn from_secs(secs: u64) -> (r: Self)
        ensures
            r.as_nanos() == secs as nat * 1_000_000_000,
            r.is_valid(),
    {
        Duration { secs, nanos: 0 }
    }

    /// Makes a span of `millis` milliseconds.
    pub fn from_millis(millis: u64) -> (r: Self)
        ensures
            r.as_nanos() == millis as nat * 1_000_000,
            r.is_valid(),
    {
        let secs: u64 = millis / 1000;
        let rest: u64 = millis % 1000;
        let nanos: u32 = (rest * 1_000_000) as u32;
        assert(secs as nat * 1_000_000_000 + nanos as nat == millis as nat * 1_000_000) by {
            assert(millis == secs * 1000 + rest);
        }
        Duration { secs, nanos }
    }

    /// Makes a span from whole seconds and a fraction of a second; `None`
    /// where the fraction is a second or more.
    pub fn from_parts(secs: u64, nanos: u32) -> (r: Option<Self>)
        ensures
            r.is_some() <==> nanos < 1_000_000_000,
            r.is_some() ==> r.unwrap().as_nanos() == secs as nat * 1_000_000_000 + nanos as nat
                && r.unwrap().is_valid(),
    {
        if nanos < NANOS_PER_SEC {
            Some(Duration { secs, nanos })
        } else {
            None
        }
    }

    /// Returns the number of whole seconds of the span.
    pub fn as_secs(&self) -> (s: u64)
        ensures
            s == self.as_nanos() / 1_000_000_000,
    {
        proof {
            use_type_invariant(self);
        }
        self.secs
    }

    /// Returns the fraction of a second of the span, in nanoseconds.
    pub fn subsec_nanos(&self) -> (n: u32)
        ensures
            n == self.as_nanos() % 1_000_000_000,
            n < 1_000_000_000,
    {
        proof {
            use_type_invariant(self);
        }
        self.nanos
    }

    /// Returns the fraction of a second of the span, in whole milliseconds.
    pub fn subsec_millis(&self) -> (n: u32)
        ensures
            n == (self.as_nanos() % 1_000_000_000) / 1_000_000,
            n < 1000,
    {
        proof {
            use_type_invariant(self);
        }
        self.nanos / NANOS_PER_MILLI
    }

    /// Returns the whole span in milliseconds, rounded down, or `u64::MAX`
    /// where that does not fit.
    pub fn whole_millis(&self) -> (m: u64)
        ensures
            m == if self.as_millis() <= u64::MAX {
                self.as_millis()
            } else {
                u64::MAX as nat
            },
    {
        proof {
            use_type_invariant(self);
        }
        let sub: u64 = (self.nanos / NANOS_PER_MILLI) as u64;
        assert(self.as_millis() == self.secs as nat * 1000 + sub as nat) by {
            let n: nat = self.nanos as nat;
            let s: nat = self.secs as nat;
            assert((s * 1_000_000_000 + n) / 1_000_000 == s * 1000 + n / 1_000_000) by {
                assert(s * 1_000_000_000 == (s * 1000) * 1_000_000) by (nonlinear_arith);
                vstd::arithmetic::div_mod::lemma_div_multiples_vanish_fancy(
                    (s * 1000) as int,
                    n as int % 1_000_000,
                    1_000_000,
                );
                vstd::arithmetic::div_mod::lemma_fundamental_div_mod(n as int, 1_000_000);
                vstd::arithmetic::div_mod::lemma_hoist_over_denominator(
                    n as int,
                    (s * 1000) as int,
                    1_000_000,
                );
            }
        }
        match self.secs.checked_mul(1000) {
            Some(base) => match base.checked_add(sub) {
                Some(m) => m,
                None => u64::MAX,
            },
            None => u64::MAX,
        }
    }

    /// Adds two spans; the sum stops at the longest span that can be held.
    pub fn saturating_add(self, rhs: Duration) -> (r: Self)
        ensures
            r.is_valid(),
            r.as_nanos() == if self.as_nanos() + rhs.as_nanos() <= Self::max_nanos() {
                self.as_nanos() + rhs.as_nanos()
            } else {
                Self::max_nanos()
            },
            r.as_nanos() >= self.as_nanos(),
            r.as_nanos() >= rhs.as_nanos(),
    {
        proof {
            use_type_invariant(self);
            use_type_invariant(rhs);
        }
        let mut nanos: u32 = self.nanos + rhs.nanos;
        let mut carry: u64 = 0;
        if nanos >= NANOS_PER_SEC {
            nanos = nanos - NANOS_PER_SEC;
            carry = 1;
        }
        let top = Duration { secs: u64::MAX, nanos: NANOS_PER_SEC - 1 };
        match self.secs.checked_add(rhs.secs) {
            Some(s) => match s.checked_add(carry) {
                Some(secs) => Duration { secs, nanos },
                None => top,
            },
            None => top,
        }
    }

    /// Returns `true` if this span is at least as long as `other`.
    pub fn ge(&self, other: &Duration) -> (b: bool)
        ensures
            b == (self.as_nanos() >= other.as_nanos()),
    {
        proof {
            use_type_invariant(self);
            use_type_invariant(other);
        }
        self.secs > other.secs || (self.secs == other.secs && self.nanos >= other.nanos)
    }
}

} // verus!
