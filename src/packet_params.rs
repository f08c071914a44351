//! Generic packet parameters, shared by the (G)FSK and MSK packet types.

use vstd::prelude::*;

use crate::bytes::{be16, be16_bytes};
use crate::opcode::OpCode;

verus! {

/// Length of preamble that the receiver must detect.
#[derive(Clone, Copy, Debug, PartialEq, Eq, Hash, Structural)]
pub enum PreambleDetection {
    /// Detection disabled.
    Disabled,
    /// 8 bits.
    Bit8,
    /// 16 bits.
    Bit16,
    /// 24 bits.
    Bit24,
    /// 32 bits.
    Bit32,
}

impl PreambleDetection {
    /// Wire code of the detection length.
    pub open spec fn spec_bits(self) -> u8 {
        match self {
            PreambleDetection::Disabled => 0x00,
            PreambleDetection::Bit8 => 0x04,
            PreambleDetection::Bit16 => 0x05,
            PreambleDetection::Bit24 => 0x06,
            PreambleDetection::Bit32 => 0x07,
        }
    }

    /// Wire code of the detection length.
    #[verifier::when_used_as_spec(spec_bits)]
    pub fn bits(self) -> (r: u8)
        ensures
            r == self.spec_bits(),
    {
        match self {
            PreambleDetection::Disabled => 0x00,
            PreambleDetection::Bit8 => 0x04,
            PreambleDetection::Bit16 => 0x05,
            PreambleDetection::Bit24 => 0x06,
            PreambleDetection::Bit32 => 0x07,
        }
    }
}
/// Address comparison applied to received packets.
#[derive(Clone, Copy, Debug, PartialEq, Eq, Hash, Structural)]
pub enum AddrComp {
    /// No comparison.
    Disabled,
    /// Node address only.
    Node,
    /// Node or broadcast address.
    Broadcast,
}

impl AddrComp {
    /// Wire code of the comparison.
    pub open spec fn spec_bits(self) -> u8 {
        match self {
            AddrComp::Disabled => 0x00,
            AddrComp::Node => 0x01,
            AddrComp::Broadcast => 0x02,
        }
    }

    /// Wire code of the comparison.
    #[verifier::when_used_as_spec(spec_bits)]
    pub fn bits(self) -> (r: u8)
        ensures
            r == self.spec_bits(),
    {
        match self {
            AddrComp::Disabled => 0x00,
            AddrComp::Node => 0x01,
            AddrComp::Broadcast => 0x02,
        }
    }
}
/// Whether the packet length is fixed or sent in a header.
#[derive(Clone, Copy, Debug, PartialEq, Eq, Hash, Structural)]
pub enum PayloadType {
    /// Fixed length, no header.
    Fixed,
    /// Variable length, sent in a header.
    Variable,
}

impl PayloadType {
    /// Wire code of the length mode.
    pub open spec fn spec_bits(self) -> u8 {
        match self {
            PayloadType::Fixed => 0x00,
            PayloadType::Variable => 0x01,
        }
    }

    /// Wire code of the length mode.
    #[verifier::when_used_as_spec(spec_bits)]
    pub fn bits(self) -> (r: u8)
        ensures
            r == self.spec_bits(),
    {
        match self {
            PayloadType::Fixed => 0x00,
            PayloadType::Variable => 0x01,
        }
    }
}
/// CRC appended to packets.
#[derive(Clone, Copy, Debug, PartialEq, Eq, Hash, Structural)]
pub enum CrcType {
    /// One byte.
    Byte1,
    /// No CRC.
    Disabled,
    /// Two bytes.
    Byte2,
    /// One byte, inverted.
    Byte1Inverted,
    /// Two bytes, inverted.
    Byte2Inverted,
}

impl CrcType {
    /// Wire code of the CRC type.
    pub open spec fn spec_bits(self) -> u8 {
        match self {
            CrcType::Byte1 => 0x00,
            CrcType::Disabled => 0x01,
            CrcType::Byte2 => 0x02,
            CrcType::Byte1Inverted => 0x04,
            CrcType::Byte2Inverted => 0x06,
        }
    }

    /// Wire code of the CRC type.
    #[verifier::when_used_as_spec(spec_bits)]
    pub fn bits(self) -> (r: u8)
        ensures
            r == self.spec_bits(),
    {
        match self {
            CrcType::Byte1 => 0x00,
            CrcType::Disabled => 0x01,
            CrcType::Byte2 => 0x02,
            CrcType::Byte1Inverted => 0x04,
            CrcType::Byte2Inverted => 0x06,
        }
    }
}
/// Longest synchronization word, in bits.
pub const MAX_SYNC_WORD_BITS: u8 = 0x40;

/// Frame of the generic packet parameters command: preamble length, preamble
/// detection, synchronization word length, address comparison, length mode,
/// payload length, CRC type and whitening.
#[derive(Clone, Copy, Debug, PartialEq, Eq, Hash)]
pub struct GenericPacketParams {
    buf: [u8; 10],
}

impl View for GenericPacketParams {
    type V = Seq<u8>;

    closed spec fn view(&self) -> Seq<u8> {
        self.buf@
    }
}

impl GenericPacketParams {
    /// A one-bit preamble without detection, no synchronization word, no
    /// address comparison, fixed length of 255 bytes, no CRC, no whitening.
    pub fn new() -> (r: GenericPacketParams)
        ensures
            r@ == seq![0x8Cu8, 0x00, 0x01, 0x00, 0x00, 0x00, 0x00, 0xFF, 0x01, 0x00],
    {
        GenericPacketParams {
            buf: [
                OpCode::SetPacketParams.code(),
                0x00,
                0x01,
                PreambleDetection::Disabled.bits(),
                0x00,
                AddrComp::Disabled.bits(),
                PayloadType::Fixed.bits(),
                0xFF,
                CrcType::Disabled.bits(),
                0x00,
            ],
        }
    }

    /// Sets the preamble length in bits.
    pub fn set_preamble_len(self, len: u16) -> (r: GenericPacketParams)
        ensures
            r@ == self@.subrange(0, 1) + be16(len as nat) + self@.subrange(3, 10),
    {
        let b: [u8; 2] = be16_bytes(len);
        let mut r = self;
        r.buf[1] = b[0];
        r.buf[2] = b[1];
        assert(r.buf@ =~= self@.subrange(0, 1) + be16(len as nat) + self@.subrange(3, 10));
        r
    }

    /// Sets the preamble detection length.
    pub fn set_preamble_detection(self, pb_det: PreambleDetection) -> (r: GenericPacketParams)
        ensures
            r@ == self@.update(3, pb_det.bits()),
    {
        let mut r = self;
        r.buf[3] = pb_det.bits();
        r
    }

    /// Sets the synchronization word length in bits, saturating at 64.
    pub fn set_sync_word_len(self, len: u8) -> (r: GenericPacketParams)
        ensures
            r@ == self@.update(4, if len > MAX_SYNC_WORD_BITS { MAX_SYNC_WORD_BITS } else { len }),
    {
        let mut r = self;
        r.buf[4] = if len > MAX_SYNC_WORD_BITS { MAX_SYNC_WORD_BITS } else { len };
        r
    }

    /// Sets the address comparison.
    pub fn set_addr_comp(self, addr_comp: AddrComp) -> (r: GenericPacketParams)
        ensures
            r@ == self@.update(5, addr_comp.bits()),
    {
        let mut r = self;
        r.buf[5] = addr_comp.bits();
        r
    }

    /// Sets whether the length is fixed or variable.
    pub fn set_payload_type(self, payload_type: PayloadType) -> (r: GenericPacketParams)
        ensures
            r@ == self@.update(6, payload_type.bits()),
    {
        let mut r = self;
        r.buf[6] = payload_type.bits();
        r
    }

    /// Sets the payload length in bytes.
    pub fn set_payload_len(self, len: u8) -> (r: GenericPacketParams)
        ensures
            r@ == self@.update(7, len),
    {
        let mut r = self;
        r.buf[7] = len;
        r
    }

    /// Sets the CRC type.
    pub fn set_crc_type(self, crc_type: CrcType) -> (r: GenericPacketParams)
        ensures
            r@ == self@.update(8, crc_type.bits()),
    {
        let mut r = self;
        r.buf[8] = crc_type.bits();
        r
    }

    /// Enables or disables whitening.
    pub fn set_whitening_enable(self, en: bool) -> (r: GenericPacketParams)
        ensures
            r@ == self@.update(9, if en { 1u8 } else { 0u8 }),
    {
        let mut r = self;
        r.buf[9] = if en { 1 } else { 0 };
        r
    }

    /// The frame.
    pub fn as_slice(&self) -> (r: &[u8])
        ensures
            r@ == self@,
    {
        self.buf.as_slice()
    }
}

} // verus!
