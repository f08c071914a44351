//! Received signal strength, as an exact ratio, and the (G)FSK packet status.

use vstd::prelude::*;

use crate::status::Status;

verus! {

/// An exact ratio of two `i16`, in lowest terms with a positive denominator.
#[derive(Clone, Copy, Debug, PartialEq, Eq, Hash, Structural)]
pub struct Rational {
    numer: i16,
    denom: i16,
}

impl View for Rational {
    type V = (int, int);

    closed spec fn view(&self) -> (int, int) {
        (self.numer as int, self.denom as int)
    }
}

impl Rational {
    #[verifier::type_invariant]
    spec fn inv(self) -> bool {
        self.denom > 0
    }

    /// The numerator.
    pub fn numer(&self) -> (r: i16)
        ensures
            r as int == self@.0,
    {
        self.numer
    }

    /// The denominator, always positive.
    pub fn denom(&self) -> (r: i16)
        ensures
            r as int == self@.1,
            r > 0,
    {
        proof {
            use_type_invariant(self);
        }
        self.denom
    }
}

/// Signal strength in dBm of a raw reading `raw`, the ratio `raw / -2` in
/// lowest terms: `(numerator, denominator)`.
pub open spec fn rssi_dbm(raw: u8) -> (int, int) {
    if raw % 2 == 0 {
        (-(raw as int / 2), 1)
    } else {
        (-(raw as int), 2)
    }
}

/// Relies on `num_rational::Ratio::new`: it reduces `numer / denom` to lowest
/// terms with a positive denominator (it panics on a zero denominator, and
/// its `gcd` and negation overflow only on `i16::MIN`).
#[verifier::external_body]
fn ratio_new(numer: i16, denom: i16) -> (r: (i16, i16))
    requires
        denom != 0,
        numer != i16::MIN,
        denom != i16::MIN,
    ensures
        r.1 > 0,
        r.0 as int * denom as int == numer as int * r.1 as int,
        forall|k: int| 1 < k && #[trigger] (r.1 as int % k) == 0 ==> r.0 as int % k != 0,
{
    let q = num_rational::Ratio::new(numer, denom);
    (*q.numer(), *q.denom())
}

/// A ratio in lowest terms with a positive denominator that equals `b / -2`
/// is `-(b / 2) / 1` for even `b`, and `-b / 2` for odd `b`.
proof fn lemma_lowest_terms_of_half(x: int, y: int, b: int)
    requires
        y > 0,
        0 <= b,
        x * -2 == b * y,
        forall|k: int| 1 < k && #[trigger] (y % k) == 0 ==> x % k != 0,
    ensures
        (x, y) == (if b % 2 == 0 { (-(b / 2), 1int) } else { (-b, 2int) }),
{
    if b % 2 == 0 {
        let h = b / 2;
        assert(x == -h * y) by (nonlinear_arith)
            requires
                x * -2 == b * y,
                b == 2 * h,
        ;
        if y > 1 {
            assert(y % y == 0);
            assert(x % y == 0) by (nonlinear_arith)
                requires
                    x == -h * y,
                    y > 1,
            ;
        }
    } else {
        if y % 2 == 1 {
            let p = b / 2;
            let q = y / 2;
            assert(b * y == 4 * (p * q) + 2 * p + 2 * q + 1) by (nonlinear_arith)
                requires
                    b == 2 * p + 1,
                    y == 2 * q + 1,
            ;
        }
        let m = y / 2;
        assert(x == -b * m) by (nonlinear_arith)
            requires
                x * -2 == b * y,
                y == 2 * m,
        ;
        if m > 1 {
            assert(y % m == 0) by (nonlinear_arith)
                requires
                    y == 2 * m,
                    m > 1,
            ;
            assert(x % m == 0) by (nonlinear_arith)
                requires
                    x == -b * m,
                    m > 1,
            ;
        }
    }
}

/// Decodes a raw signal strength reading: `raw / -2` dBm, exactly.
pub fn rssi_from_raw(raw: u8) -> (r: Rational)
    ensures
        r@ == rssi_dbm(raw),
{
    let (n, d) = ratio_new(raw as i16, -2);
    proof {
        lemma_lowest_terms_of_half(n as int, d as int, raw as int);
    }
    Rational { numer: n, denom: d }
}

/// Status of the last (G)FSK packet: the radio status, the RX status flags,
/// and the signal strength on the synchronization word and averaged over the
/// packet.
#[derive(Clone, Copy, Debug, PartialEq, Eq, Hash)]
pub struct GfskPacketStatus {
    buf: [u8; 4],
}

impl View for GfskPacketStatus {
    type V = Seq<u8>;

    closed spec fn view(&self) -> Seq<u8> {
        self.buf@
    }
}

impl GfskPacketStatus {
    /// Wraps the four bytes that the packet status command returns.
    pub fn from_raw(buf: [u8; 4]) -> (r: GfskPacketStatus)
        ensures
            r@ == buf@,
    {
        GfskPacketStatus { buf }
    }

    /// The radio status.
    pub fn status(&self) -> (r: Status)
        ensures
            r@ == self@[0],
    {
        Status::from_raw(self.buf[0])
    }

    /// The RX status flags.
    pub fn rx_status(&self) -> (r: u8)
        ensures
            r == self@[1],
    {
        self.buf[1]
    }

    /// Signal strength on the synchronization word, in dBm.
    pub fn rssi_sync(&self) -> (r: Rational)
        ensures
            r@ == rssi_dbm(self@[2]),
    {
        rssi_from_raw(self.buf[2])
    }

    /// Signal strength averaged over the packet, in dBm.
    pub fn rssi_avg(&self) -> (r: Rational)
        ensures
            r@ == rssi_dbm(self@[3]),
    {
        rssi_from_raw(self.buf[3])
    }
}

} // verus!
