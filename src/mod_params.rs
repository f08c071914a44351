//! Modulation parameters of the (G)FSK and LoRa packet types.

use vstd::prelude::*;

use crate::bytes::{be24, be24_bytes};
use crate::opcode::OpCode;
use crate::rf_frequency::freq_word;

verus! {

/// Gaussian filter applied to the (G)FSK pulses.
#[derive(Clone, Copy, Debug, PartialEq, Eq, Hash, Structural)]
pub enum GfskPulseShape {
    /// No filter.
    NoFilter,
    /// Gaussian, BT 0.3.
    Bt03,
    /// Gaussian, BT 0.5.
    Bt05,
    /// Gaussian, BT 0.7.
    Bt07,
    /// Gaussian, BT 1.0.
    Bt1,
}

impl GfskPulseShape {
    /// Wire code of the pulse shape.
    pub open spec fn spec_bits(self) -> u8 {
        match self {
            GfskPulseShape::NoFilter => 0x00,
            GfskPulseShape::Bt03 => 0x08,
            GfskPulseShape::Bt05 => 0x09,
            GfskPulseShape::Bt07 => 0x0A,
            GfskPulseShape::Bt1 => 0x0B,
        }
    }

    /// Wire code of the pulse shape.
    #[verifier::when_used_as_spec(spec_bits)]
    pub fn bits(self) -> (r: u8)
        ensures
            r == self.spec_bits(),
    {
        match self {
            GfskPulseShape::NoFilter => 0x00,
            GfskPulseShape::Bt03 => 0x08,
            GfskPulseShape::Bt05 => 0x09,
            GfskPulseShape::Bt07 => 0x0A,
            GfskPulseShape::Bt1 => 0x0B,
        }
    }
}
/// Receiver bandwidth for (G)FSK.
#[derive(Clone, Copy, Debug, PartialEq, Eq, Hash, Structural)]
pub enum GfskBandwidth {
    /// 4.8 kHz double-sided.
    Bw4,
    /// 5.8 kHz double-sided.
    Bw5,
    /// 7.3 kHz double-sided.
    Bw7,
    /// 9.7 kHz double-sided.
    Bw9,
    /// 11.7 kHz double-sided.
    Bw11,
    /// 14.6 kHz double-sided.
    Bw14,
    /// 19.5 kHz double-sided.
    Bw19,
    /// 23.4 kHz double-sided.
    Bw23,
    /// 29.3 kHz double-sided.
    Bw29,
    /// 39.0 kHz double-sided.
    Bw39,
    /// 46.9 kHz double-sided.
    Bw46,
    /// 58.6 kHz double-sided.
    Bw58,
    /// 78.2 kHz double-sided.
    Bw78,
    /// 93.8 kHz double-sided.
    Bw93,
    /// 117.3 kHz double-sided.
    Bw117,
    /// 156.2 kHz double-sided.
    Bw156,
    /// 187.2 kHz double-sided.
    Bw187,
    /// 234.3 kHz double-sided.
    Bw234,
    /// 312.0 kHz double-sided.
    Bw312,
    /// 373.6 kHz double-sided.
    Bw373,
    /// 467.0 kHz double-sided.
    Bw467,
}

impl GfskBandwidth {
    /// Wire code of the bandwidth.
    pub open spec fn spec_bits(self) -> u8 {
        match self {
            GfskBandwidth::Bw4 => 0x1F,
            GfskBandwidth::Bw5 => 0x17,
            GfskBandwidth::Bw7 => 0x0F,
            GfskBandwidth::Bw9 => 0x1E,
            GfskBandwidth::Bw11 => 0x16,
            GfskBandwidth::Bw14 => 0x0E,
            GfskBandwidth::Bw19 => 0x1D,
            GfskBandwidth::Bw23 => 0x15,
            GfskBandwidth::Bw29 => 0x0D,
            GfskBandwidth::Bw39 => 0x1C,
            GfskBandwidth::Bw46 => 0x14,
            GfskBandwidth::Bw58 => 0x0C,
            GfskBandwidth::Bw78 => 0x1B,
            GfskBandwidth::Bw93 => 0x13,
            GfskBandwidth::Bw117 => 0x0B,
            GfskBandwidth::Bw156 => 0x1A,
            GfskBandwidth::Bw187 => 0x12,
            GfskBandwidth::Bw234 => 0x0A,
            GfskBandwidth::Bw312 => 0x19,
            GfskBandwidth::Bw373 => 0x11,
            GfskBandwidth::Bw467 => 0x09,
        }
    }

    /// Wire code of the bandwidth.
    #[verifier::when_used_as_spec(spec_bits)]
    pub fn bits(self) -> (r: u8)
        ensures
            r == self.spec_bits(),
    {
        match self {
            GfskBandwidth::Bw4 => 0x1F,
            GfskBandwidth::Bw5 => 0x17,
            GfskBandwidth::Bw7 => 0x0F,
            GfskBandwidth::Bw9 => 0x1E,
            GfskBandwidth::Bw11 => 0x16,
            GfskBandwidth::Bw14 => 0x0E,
            GfskBandwidth::Bw19 => 0x1D,
            GfskBandwidth::Bw23 => 0x15,
            GfskBandwidth::Bw29 => 0x0D,
            GfskBandwidth::Bw39 => 0x1C,
            GfskBandwidth::Bw46 => 0x14,
            GfskBandwidth::Bw58 => 0x0C,
            GfskBandwidth::Bw78 => 0x1B,
            GfskBandwidth::Bw93 => 0x13,
            GfskBandwidth::Bw117 => 0x0B,
            GfskBandwidth::Bw156 => 0x1A,
            GfskBandwidth::Bw187 => 0x12,
            GfskBandwidth::Bw234 => 0x0A,
            GfskBandwidth::Bw312 => 0x19,
            GfskBandwidth::Bw373 => 0x11,
            GfskBandwidth::Bw467 => 0x09,
        }
    }
}
/// LoRa spreading factor.
#[derive(Clone, Copy, Debug, PartialEq, Eq, Hash, Structural)]
pub enum SpreadingFactor {
    /// 5 chips per symbol, in powers of two.
    Sf5,
    /// 6 chips per symbol, in powers of two.
    Sf6,
    /// 7 chips per symbol, in powers of two.
    Sf7,
    /// 8 chips per symbol, in powers of two.
    Sf8,
    /// 9 chips per symbol, in powers of two.
    Sf9,
    /// 10 chips per symbol, in powers of two.
    Sf10,
    /// 11 chips per symbol, in powers of two.
    Sf11,
    /// 12 chips per symbol, in powers of two.
    Sf12,
}

impl SpreadingFactor {
    /// Wire code of the spreading factor.
    pub open spec fn spec_bits(self) -> u8 {
        match self {
            SpreadingFactor::Sf5 => 5,
            SpreadingFactor::Sf6 => 6,
            SpreadingFactor::Sf7 => 7,
            SpreadingFactor::Sf8 => 8,
            SpreadingFactor::Sf9 => 9,
            SpreadingFactor::Sf10 => 10,
            SpreadingFactor::Sf11 => 11,
            SpreadingFactor::Sf12 => 12,
        }
    }

    /// Wire code of the spreading factor.
    #[verifier::when_used_as_spec(spec_bits)]
    pub fn bits(self) -> (r: u8)
        ensures
            r == self.spec_bits(),
    {
        match self {
            SpreadingFactor::Sf5 => 5,
            SpreadingFactor::Sf6 => 6,
            SpreadingFactor::Sf7 => 7,
            SpreadingFactor::Sf8 => 8,
            SpreadingFactor::Sf9 => 9,
            SpreadingFactor::Sf10 => 10,
            SpreadingFactor::Sf11 => 11,
            SpreadingFactor::Sf12 => 12,
        }
    }
}
/// LoRa bandwidth.
#[derive(Clone, Copy, Debug, PartialEq, Eq, Hash, Structural)]
pub enum LoRaBandwidth {
    /// 7.81 kHz.
    Bw7,
    /// 10.42 kHz.
    Bw10,
    /// 15.63 kHz.
    Bw15,
    /// 20.83 kHz.
    Bw20,
    /// 31.25 kHz.
    Bw31,
    /// 41.67 kHz.
    Bw41,
    /// 62.50 kHz.
    Bw62,
    /// 125 kHz.
    Bw125,
    /// 250 kHz.
    Bw250,
    /// 500 kHz.
    Bw500,
}

impl LoRaBandwidth {
    /// Wire code of the bandwidth.
    pub open spec fn spec_bits(self) -> u8 {
        match self {
            LoRaBandwidth::Bw7 => 0x00,
            LoRaBandwidth::Bw10 => 0x08,
            LoRaBandwidth::Bw15 => 0x01,
            LoRaBandwidth::Bw20 => 0x09,
            LoRaBandwidth::Bw31 => 0x02,
            LoRaBandwidth::Bw41 => 0x0A,
            LoRaBandwidth::Bw62 => 0x03,
            LoRaBandwidth::Bw125 => 0x04,
            LoRaBandwidth::Bw250 => 0x05,
            LoRaBandwidth::Bw500 => 0x06,
        }
    }

    /// Wire code of the bandwidth.
    #[verifier::when_used_as_spec(spec_bits)]
    pub fn bits(self) -> (r: u8)
        ensures
            r == self.spec_bits(),
    {
        match self {
            LoRaBandwidth::Bw7 => 0x00,
            LoRaBandwidth::Bw10 => 0x08,
            LoRaBandwidth::Bw15 => 0x01,
            LoRaBandwidth::Bw20 => 0x09,
            LoRaBandwidth::Bw31 => 0x02,
            LoRaBandwidth::Bw41 => 0x0A,
            LoRaBandwidth::Bw62 => 0x03,
            LoRaBandwidth::Bw125 => 0x04,
            LoRaBandwidth::Bw250 => 0x05,
            LoRaBandwidth::Bw500 => 0x06,
        }
    }
}
/// LoRa forward error correction coding rate.
#[derive(Clone, Copy, Debug, PartialEq, Eq, Hash, Structural)]
pub enum CodingRate {
    /// 4/5.
    Cr45,
    /// 4/6.
    Cr46,
    /// 4/7.
    Cr47,
    /// 4/8.
    Cr48,
}

impl CodingRate {
    /// Wire code of the coding rate.
    pub open spec fn spec_bits(self) -> u8 {
        match self {
            CodingRate::Cr45 => 0x01,
            CodingRate::Cr46 => 0x02,
            CodingRate::Cr47 => 0x03,
            CodingRate::Cr48 => 0x04,
        }
    }

    /// Wire code of the coding rate.
    #[verifier::when_used_as_spec(spec_bits)]
    pub fn bits(self) -> (r: u8)
        ensures
            r == self.spec_bits(),
    {
        match self {
            CodingRate::Cr45 => 0x01,
            CodingRate::Cr46 => 0x02,
            CodingRate::Cr47 => 0x03,
            CodingRate::Cr48 => 0x04,
        }
    }
}
/// Largest value of a 24-bit field.
pub const MAX_24: u32 = 0x00FF_FFFF;

/// Bitrate field for `bps` bits per second: `32 * XTAL_HZ / bps`, saturated
/// at the largest 24-bit value (and taken as that for zero).
pub open spec fn bitrate_bits(bps: nat) -> nat {
    if bps == 0 || 1_024_000_000nat / bps > MAX_24 as nat {
        MAX_24 as nat
    } else {
        1_024_000_000nat / bps
    }
}

/// Frequency deviation field for `hz` hertz: the nearest count of PLL steps,
/// saturated at the largest 24-bit value.
pub open spec fn fdev_bits(hz: nat) -> nat {
    if freq_word(hz) > MAX_24 as nat {
        MAX_24 as nat
    } else {
        freq_word(hz)
    }
}

/// (G)FSK bitrate, as the radio's 24-bit field.
#[derive(Clone, Copy, Debug, PartialEq, Eq, Hash)]
pub struct GfskBitrate {
    bits: u32,
}

impl View for GfskBitrate {
    type V = nat;

    closed spec fn view(&self) -> nat {
        self.bits as nat
    }
}

impl GfskBitrate {
    #[verifier::type_invariant]
    spec fn inv(self) -> bool {
        self.bits <= MAX_24
    }

    /// The field for `bps` bits per second.
    pub fn from_bps(bps: u32) -> (r: GfskBitrate)
        ensures
            r@ == bitrate_bits(bps as nat),
    {
        if bps == 0 || 1_024_000_000 / bps > MAX_24 {
            GfskBitrate { bits: MAX_24 }
        } else {
            GfskBitrate { bits: 1_024_000_000 / bps }
        }
    }

    /// The field.
    pub fn into_bits(self) -> (r: u32)
        ensures
            r as nat == self@,
            r <= MAX_24,
    {
        proof {
            use_type_invariant(&self);
        }
        self.bits
    }
}

/// (G)FSK frequency deviation, as the radio's 24-bit field.
#[derive(Clone, Copy, Debug, PartialEq, Eq, Hash)]
pub struct GfskFdev {
    bits: u32,
}

impl View for GfskFdev {
    type V = nat;

    closed spec fn view(&self) -> nat {
        self.bits as nat
    }
}

impl GfskFdev {
    #[verifier::type_invariant]
    spec fn inv(self) -> bool {
        self.bits <= MAX_24
    }

    /// The field for a deviation of `hz` hertz.
    pub fn from_hertz(hz: u32) -> (r: GfskFdev)
        ensures
            r@ == fdev_bits(hz as nat),
    {
        let steps: u64 = (hz as u64 * 33_554_432 + 16_000_000) / 32_000_000;
        if steps > MAX_24 as u64 {
            GfskFdev { bits: MAX_24 }
        } else {
            GfskFdev { bits: steps as u32 }
        }
    }

    /// The field.
    pub fn into_bits(self) -> (r: u32)
        ensures
            r as nat == self@,
            r <= MAX_24,
    {
        proof {
            use_type_invariant(&self);
        }
        self.bits
    }
}

/// Frame of the modulation parameters command for (G)FSK: bitrate, pulse
/// shape, bandwidth and frequency deviation.
#[derive(Clone, Copy, Debug, PartialEq, Eq, Hash)]
pub struct GfskModParams {
    buf: [u8; 9],
}

impl View for GfskModParams {
    type V = Seq<u8>;

    closed spec fn view(&self) -> Seq<u8> {
        self.buf@
    }
}

impl GfskModParams {
    /// Bitrate and deviation zero, no filter, 467 kHz bandwidth.
    pub fn new() -> (r: GfskModParams)
        ensures
            r@ == seq![0x8Bu8, 0x00, 0x00, 0x00, 0x00, 0x09, 0x00, 0x00, 0x00],
    {
        GfskModParams {
            buf: [
                OpCode::SetModulationParams.code(),
                0x00,
                0x00,
                0x00,
                GfskPulseShape::NoFilter.bits(),
                GfskBandwidth::Bw467.bits(),
                0x00,
                0x00,
                0x00,
            ],
        }
    }

    /// Sets the bitrate.
    pub fn set_bitrate(self, bitrate: GfskBitrate) -> (r: GfskModParams)
        ensures
            r@ == self@.subrange(0, 1) + be24(bitrate@) + self@.subrange(4, 9),
    {
        let b: [u8; 3] = be24_bytes(bitrate.into_bits());
        let mut r = self;
        r.buf[1] = b[0];
        r.buf[2] = b[1];
        r.buf[3] = b[2];
        assert(r.buf@ =~= self@.subrange(0, 1) + be24(bitrate@) + self@.subrange(4, 9));
        r
    }

    /// Sets the pulse shape.
    pub fn set_pulse_shape(self, shape: GfskPulseShape) -> (r: GfskModParams)
        ensures
            r@ == self@.update(4, shape.bits()),
    {
        let mut r = self;
        r.buf[4] = shape.bits();
        r
    }

    /// Sets the bandwidth.
    pub fn set_bandwidth(self, bw: GfskBandwidth) -> (r: GfskModParams)
        ensures
            r@ == self@.update(5, bw.bits()),
    {
        let mut r = self;
        r.buf[5] = bw.bits();
        r
    }

    /// Sets the frequency deviation.
    pub fn set_fdev(self, fdev: GfskFdev) -> (r: GfskModParams)
        ensures
            r@ == self@.subrange(0, 6) + be24(fdev@),
    {
        let b: [u8; 3] = be24_bytes(fdev.into_bits());
        let mut r = self;
        r.buf[6] = b[0];
        r.buf[7] = b[1];
        r.buf[8] = b[2];
        assert(r.buf@ =~= self@.subrange(0, 6) + be24(fdev@));
        r
    }

    /// The frame.
    pub fn as_slice(&self) -> (r: &[u8])
        ensures
            r@ == self@,
    {
        self.buf.as_slice()
    }
}

/// Frame of the modulation parameters command for LoRa: spreading factor,
/// bandwidth, coding rate and low data rate optimization.
#[derive(Clone, Copy, Debug, PartialEq, Eq, Hash)]
pub struct LoRaModParams {
    buf: [u8; 5],
}

impl View for LoRaModParams {
    type V = Seq<u8>;

    closed spec fn view(&self) -> Seq<u8> {
        self.buf@
    }
}

impl LoRaModParams {
    /// Spreading factor 5, 7.81 kHz bandwidth, coding rate 4/5, no low data
    /// rate optimization.
    pub fn new() -> (r: LoRaModParams)
        ensures
            r@ == seq![0x8Bu8, 0x05, 0x00, 0x01, 0x00],
    {
        LoRaModParams {
            buf: [
                OpCode::SetModulationParams.code(),
                SpreadingFactor::Sf5.bits(),
                LoRaBandwidth::Bw7.bits(),
                CodingRate::Cr45.bits(),
                0x00,
            ],
        }
    }

    /// Sets the spreading factor.
    pub fn set_sf(self, sf: SpreadingFactor) -> (r: LoRaModParams)
        ensures
            r@ == self@.update(1, sf.bits()),
    {
        let mut r = self;
        r.buf[1] = sf.bits();
        r
    }

    /// Sets the bandwidth.
    pub fn set_bw(self, bw: LoRaBandwidth) -> (r: LoRaModParams)
        ensures
            r@ == self@.update(2, bw.bits()),
    {
        let mut r = self;
        r.buf[2] = bw.bits();
        r
    }

    /// Sets the coding rate.
    pub fn set_cr(self, cr: CodingRate) -> (r: LoRaModParams)
        ensures
            r@ == self@.update(3, cr.bits()),
    {
        let mut r = self;
        r.buf[3] = cr.bits();
        r
    }

    /// Enables or disables low data rate optimization.
    pub fn set_ldro_en(self, en: bool) -> (r: LoRaModParams)
        ensures
            r@ == self@.update(4, if en { 1u8 } else { 0u8 }),
    {
        let mut r = self;
        r.buf[4] = if en { 1 } else { 0 };
        r
    }

    /// The frame.
    pub fn as_slice(&self) -> (r: &[u8])
        ensures
            r@ == self@,
    {
        self.buf.as_slice()
    }
}

} // verus!
