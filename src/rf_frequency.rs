//! The RF frequency word: the carrier frequency in PLL steps.

use vstd::prelude::*;

use crate::bytes::{be32, be32_bytes};
use crate::opcode::OpCode;

verus! {

/// Frequency of the crystal that drives the PLL, in hertz.
pub const XTAL_HZ: u64 = 32_000_000;

/// PLL steps per crystal period.
pub const PLL_STEPS: u64 = 33_554_432;

/// Frequencies below this one, in hertz, have a word that fits 32 bits.
pub const FREQ_LIMIT: u32 = 4_096_000_000;

/// Word nearest to `hz * PLL_STEPS / XTAL_HZ`.
pub open spec fn freq_word(hz: nat) -> nat {
    (hz * 33_554_432 + 16_000_000) / 32_000_000
}

/// Frequency in hertz nearest to `word * XTAL_HZ / PLL_STEPS`.
pub open spec fn word_freq(word: nat) -> nat {
    (word * 32_000_000 + 16_777_216) / 33_554_432
}

/// Frame of the command that sets the frequency word `word`.
pub open spec fn rf_frame(word: nat) -> Seq<u8> {
    seq![0x86u8] + be32(word)
}

/// A carrier frequency, held as the radio's 32-bit frequency word.
#[derive(Clone, Copy, Debug, PartialEq, Eq, Hash)]
pub struct RfFreq {
    word: u32,
    buf: [u8; 5],
}

impl View for RfFreq {
    type V = nat;

    closed spec fn view(&self) -> nat {
        self.word as nat
    }
}

impl RfFreq {
    #[verifier::type_invariant]
    spec fn inv(self) -> bool {
        self.buf@ == rf_frame(self.word as nat)
    }

    /// The frequency word `rf`, taken as it is.
    pub fn from_raw(rf: u32) -> (r: RfFreq)
        ensures
            r@ == rf as nat,
    {
        let b: [u8; 4] = be32_bytes(rf);
        let buf: [u8; 5] = [OpCode::SetRfFrequency.code(), b[0], b[1], b[2], b[3]];
        assert(buf@ =~= rf_frame(rf as nat));
        RfFreq { word: rf, buf }
    }

    /// The frequency word nearest to `freq` hertz.
    pub fn from_frequency(freq: u32) -> (r: RfFreq)
        requires
            freq < FREQ_LIMIT,
        ensures
            r@ == freq_word(freq as nat),
    {
        assert(freq_word(freq as nat) <= u32::MAX) by (nonlinear_arith)
            requires
                freq < 4_096_000_000,
        ;
        let word: u64 = (freq as u64 * PLL_STEPS + XTAL_HZ / 2) / XTAL_HZ;
        RfFreq::from_raw(word as u32)
    }

    /// 915 MHz, for Australia and North America.
    pub fn f915() -> (r: RfFreq)
        ensures
            r@ == 0x3930_0000,
    {
        RfFreq::from_raw(0x3930_0000)
    }

    /// 868 MHz, for Europe.
    pub fn f868() -> (r: RfFreq)
        ensures
            r@ == 0x3640_0000,
    {
        RfFreq::from_raw(0x3640_0000)
    }

    /// 433 MHz, for Asia.
    pub fn f433() -> (r: RfFreq)
        ensures
            r@ == 0x1B10_0000,
    {
        RfFreq::from_raw(0x1B10_0000)
    }

    /// The frequency word.
    pub fn rf(&self) -> (r: u32)
        ensures
            r as nat == self@,
    {
        self.word
    }

    /// The frequency in hertz nearest to the word.
    pub fn freq(&self) -> (r: u32)
        ensures
            r as nat == word_freq(self@),
    {
        let w: u64 = self.word as u64;
        assert(word_freq(w as nat) <= u32::MAX) by (nonlinear_arith)
            requires
                w <= u32::MAX,
        ;
        ((w * XTAL_HZ + PLL_STEPS / 2) / PLL_STEPS) as u32
    }

    /// The frame of the command that sets this frequency.
    pub fn as_slice(&self) -> (r: &[u8])
        ensures
            r@ == rf_frame(self@),
    {
        proof {
            use_type_invariant(self);
        }
        self.buf.as_slice()
    }
}

/// Turning a frequency into its word and back gives the frequency exactly,
/// for every frequency whose word fits 32 bits: the error is below one PLL
/// step.
pub proof fn lemma_rf_round_trip(hz: nat)
    requires
        hz < FREQ_LIMIT,
    ensures
        freq_word(hz) <= u32::MAX,
        word_freq(freq_word(hz)) == hz,
{
    let w = freq_word(hz);
    let a = hz * 33_554_432;
    assert(w * 32_000_000 <= a + 16_000_000 && a + 16_000_000 < w * 32_000_000 + 32_000_000) by (nonlinear_arith)
        requires
            w == (a + 16_000_000) / 32_000_000,
            a >= 0,
    ;
    assert(hz * 33_554_432 <= w * 32_000_000 + 16_777_216 < hz * 33_554_432 + 33_554_432) by (nonlinear_arith)
        requires
            a == hz * 33_554_432,
            w * 32_000_000 <= a + 16_000_000,
            a + 16_000_000 < w * 32_000_000 + 32_000_000,
    ;
    assert(word_freq(w) == hz) by (nonlinear_arith)
        requires
            hz * 33_554_432 <= w * 32_000_000 + 16_777_216 < hz * 33_554_432 + 33_554_432,
    ;
    assert(w <= u32::MAX) by (nonlinear_arith)
        requires
            hz < 4_096_000_000,
            w == (hz * 33_554_432 + 16_000_000) / 32_000_000,
    ;
}

} // verus!
