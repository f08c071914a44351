//! Radio timeouts: a 24-bit count of 15.625 µs steps of the radio's 64 kHz timer.

use vstd::prelude::*;

use crate::bytes::{be24, be24_bytes};

verus! {

/// Length of one timeout step in nanoseconds.
pub const STEP_NANOS: u64 = 15_625;

/// Largest step count that fits the 24-bit wire encoding.
pub const MAX_BITS: u32 = 0x00FF_FFFF;

/// Longest representable timeout in nanoseconds.
pub const MAX_NANOS: u64 = 262_143_984_375;

/// Step count nearest to `nanos` (no ties: a step is an odd number of nanoseconds).
pub open spec fn round_steps(nanos: nat) -> nat {
    (nanos + 7812) / 15625
}

/// Step count that a duration of `nanos` saturates to.
pub open spec fn sat_steps(nanos: nat) -> nat {
    if round_steps(nanos) > MAX_BITS as nat {
        MAX_BITS as nat
    } else {
        round_steps(nanos)
    }
}

/// A radio timeout, stored as its count of 15.625 µs steps.
#[derive(Clone, Copy, Debug, PartialEq, Eq, Hash)]
pub struct Timeout {
    bits: u32,
}

impl View for Timeout {
    type V = nat;

    closed spec fn view(&self) -> nat {
        self.bits as nat
    }
}

impl Timeout {
    #[verifier::type_invariant]
    spec fn inv(self) -> bool {
        self.bits <= MAX_BITS
    }

    /// The all-zero encoding: the timer is not started at all.
    pub fn disabled() -> (r: Timeout)
        ensures
            r@ == 0,
    {
        Timeout { bits: 0 }
    }

    /// The shortest timeout, a single step.
    pub fn min() -> (r: Timeout)
        ensures
            r@ == 1,
    {
        Timeout { bits: 1 }
    }

    /// The longest timeout, `0xFFFFFF` steps.
    pub fn max() -> (r: Timeout)
        ensures
            r@ == MAX_BITS as nat,
    {
        Timeout { bits: MAX_BITS }
    }

    /// Timeout nearest to a duration in nanoseconds, saturating at the
    /// largest encoding.
    pub fn from_nanos_sat(nanos: u64) -> (r: Timeout)
        ensures
            r@ == sat_steps(nanos as nat),
    {
        if nanos >= MAX_NANOS {
            Timeout { bits: MAX_BITS }
        } else {
            let bits: u64 = (nanos + 7812) / STEP_NANOS;
            Timeout { bits: bits as u32 }
        }
    }

    /// The step count.
    pub fn into_bits(self) -> (r: u32)
        ensures
            r as nat == self@,
            r <= MAX_BITS,
    {
        proof {
            use_type_invariant(&self);
        }
        self.bits
    }

    /// The duration in nanoseconds; exact for every encoding.
    pub fn as_nanos(self) -> (r: u64)
        ensures
            r as nat == self@ * 15625,
    {
        proof {
            use_type_invariant(&self);
        }
        self.bits as u64 * STEP_NANOS
    }

    /// The three wire bytes, most significant first.
    pub fn as_bytes(self) -> (r: [u8; 3])
        ensures
            r@ == be24(self@),
    {
        be24_bytes(self.bits)
    }
}

/// Encoding a duration and decoding it again recovers every duration up to
/// the longest timeout within half a step (less than one step of 15.625 µs),
/// and a longer duration saturates at the largest encoding rather than
/// wrapping.
pub proof fn lemma_timeout_round_trip(nanos: u64)
    ensures
        nanos <= MAX_NANOS ==> sat_steps(nanos as nat) * 15625 <= nanos + 7812,
        nanos <= MAX_NANOS ==> nanos <= sat_steps(nanos as nat) * 15625 + 7812,
        nanos > MAX_NANOS ==> sat_steps(nanos as nat) == MAX_BITS as nat,
        sat_steps(nanos as nat) <= MAX_BITS as nat,
{
    let n = nanos as nat;
    let q = round_steps(n);
    assert(q * 15625 <= n + 7812 && n + 7812 < q * 15625 + 15625) by (nonlinear_arith)
        requires
            q == (n + 7812) / 15625,
    ;
    if nanos <= MAX_NANOS {
        assert(q <= MAX_BITS as nat) by (nonlinear_arith)
            requires
                q * 15625 <= n + 7812,
                n <= 262_143_984_375,
        ;
    } else {
        assert(q >= MAX_BITS as nat) by (nonlinear_arith)
            requires
                n + 7812 < q * 15625 + 15625,
                n > 262_143_984_375,
        ;
    }
}

} // verus!
