//! Spans of media time.

use vstd::arithmetic::power2::{
    lemma2_to64, lemma_pow2_adds, lemma_pow2_pos, lemma_pow2_unfold, pow2,
};
use vstd::prelude::*;

verus! {

/// Nanoseconds in one second.
pub const NANOS_PER_SEC: u128 = 1_000_000_000;

/// Nanoseconds in one millisecond.
pub const NANOS_PER_MILLI: u128 = 1_000_000;

/// The longest span a [`Duration`] stands for: `u64::MAX` seconds and
/// `999_999_999` nanoseconds.
pub const MAX_NANOS: u128 = 18_446_744_073_709_551_615_999_999_999;

/// A span of time in whole nanoseconds, none longer than [`MAX_NANOS`].
#[derive(Debug, Clone, Copy, PartialEq, Eq, Structural)]
pub struct Duration {
    nanos: u128,
}

impl View for Duration {
    type V = nat;

    closed spec fn view(&self) -> nat {
        self.nanos as nat
    }
}

impl Duration {
    /// No span is longer than the longest.
    #[verifier::type_invariant]
    spec fn within_longest(self) -> bool {
        self.nanos <= MAX_NANOS
    }

    /// The span of `nanos` nanoseconds.
    pub closed spec fn spanning(nanos: nat) -> Self {
        Duration { nanos: nanos as u128 }
    }

    /// The empty span.
    pub fn zero() -> (span: Duration)
        ensures
            span@ == 0,
            span == Duration::spanning(0),
    {
        Duration { nanos: 0 }
    }

    pub fn from_secs(secs: u64) -> (span: Duration)
        ensures
            span@ == secs * NANOS_PER_SEC,
    {
        Duration { nanos: secs as u128 * NANOS_PER_SEC }
    }

    pub fn from_millis(millis: u64) -> (span: Duration)
        ensures
            span@ == millis * NANOS_PER_MILLI,
    {
        Duration { nanos: millis as u128 * NANOS_PER_MILLI }
    }

    pub fn from_nanos(nanos: u64) -> (span: Duration)
        ensures
            span@ == nanos,
    {
        Duration { nanos: nanos as u128 }
    }

    /// The span of `nanos` nanoseconds, capped at the longest span.
    pub fn saturating_from_nanos(nanos: u128) -> (span: Duration)
        ensures
            span@ == capped(nanos as nat),
    {
        if nanos <= MAX_NANOS {
            Duration { nanos }
        } else {
            Duration { nanos: MAX_NANOS }
        }
    }

    pub fn as_nanos(&self) -> (nanos: u128)
        ensures
            nanos == self@,
            nanos <= MAX_NANOS,
    {
        proof {
            use_type_invariant(*self);
        }
        self.nanos
    }

    /// The span `factor` times over, capped at the longest span.
    pub fn saturating_mul(self, factor: u32) -> (span: Duration)
        ensures
            span@ == capped(self@ * factor as nat),
    {
        match self.nanos.checked_mul(factor as u128) {
            Some(nanos) => Duration::saturating_from_nanos(nanos),
            None => Duration { nanos: MAX_NANOS },
        }
    }

    /// The two spans one after the other, capped at the longest span.
    pub fn saturating_add(self, other: Duration) -> (span: Duration)
        ensures
            span@ == capped(self@ + other@),
    {
        match self.nanos.checked_add(other.nanos) {
            Some(nanos) => Duration::saturating_from_nanos(nanos),
            None => Duration { nanos: MAX_NANOS },
        }
    }

    /// The span doubled `times` times, capped at the longest span.
    pub fn saturating_double(self, times: u32) -> (span: Duration)
        ensures
            span@ == capped(self@ * pow2(times as nat)),
    {
        proof {
            use_type_invariant(self);
            lemma2_to64();
            assert(self@ * 1 == self@);
        }
        let mut span: Duration = self;
        let mut done: u32 = 0;
        while done < times && 0 < span.nanos && span.nanos < MAX_NANOS
            invariant
                done <= times,
                span@ == capped(self@ * pow2(done as nat)),
            decreases times - done,
        {
            proof {
                lemma_pow2_unfold((done + 1) as nat);
                assert(self@ * (2 * pow2(done as nat)) == 2 * (self@ * pow2(done as nat)))
                    by (nonlinear_arith);
            }
            span = span.saturating_add(span);
            done = done + 1;
        }
        proof {
            let left = (times - done) as nat;
            let before = self@ * pow2(done as nat);
            lemma_pow2_adds(done as nat, left);
            lemma_pow2_pos(done as nat);
            lemma_pow2_pos(left);
            let whole = self@ * pow2(times as nat);
            assert(whole == before * pow2(left)) by (nonlinear_arith)
                requires
                    pow2(times as nat) == pow2(done as nat) * pow2(left),
                    before == self@ * pow2(done as nat),
                    whole == self@ * pow2(times as nat),
            ;
            assert(before * pow2(left) >= before) by (nonlinear_arith)
                requires
                    pow2(left) > 0,
                    before >= 0,
            ;
            if done == times {
                assert(pow2(left) == 1);
                assert(before * 1 == before);
            } else if before == 0 {
                assert(0 * pow2(left) == 0) by (nonlinear_arith);
            }
        }
        span
    }
}

/// A span is told by its length alone.
pub proof fn lemma_span_is_its_nanos(span: Duration)
    ensures
        Duration::spanning(span@) == span,
{
}

/// The span of so many nanoseconds is that long.
pub proof fn lemma_spanning_is_that_long(nanos: nat)
    requires
        nanos <= MAX_NANOS,
    ensures
        Duration::spanning(nanos)@ == nanos,
{
}

/// `nanos`, or the longest span where `nanos` exceeds it.
pub open spec fn capped(nanos: nat) -> nat {
    if nanos <= MAX_NANOS {
        nanos
    } else {
        MAX_NANOS as nat
    }
}

/// A span is as long as it is asked to be up to the longest, which is all the seconds
/// that 64 bits count and the last nanosecond of one more.
pub proof fn lemma_spans_end_at_the_longest(nanos: nat)
    ensures
        nanos <= u64::MAX * 1_000_000_000 + 999_999_999 ==> capped(nanos) == nanos,
        nanos > u64::MAX * 1_000_000_000 + 999_999_999 ==> capped(nanos) == u64::MAX
            * 1_000_000_000 + 999_999_999,
{
}

} // verus!
