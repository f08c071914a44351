//! Packet type, the modulation family that the radio uses.

use vstd::prelude::*;

verus! {
/// Modulation family.
#[derive(Clone, Copy, Debug, PartialEq, Eq, Hash, Structural)]
pub enum PacketType {
    /// (G)FSK.
    Fsk,
    /// LoRa.
    LoRa,
    /// BPSK, transmit only.
    Bpsk,
    /// MSK.
    Msk,
}

impl PacketType {
    /// Wire code of the packet type.
    pub open spec fn spec_bits(self) -> u8 {
        match self {
            PacketType::Fsk => 0,
            PacketType::LoRa => 1,
            PacketType::Bpsk => 2,
            PacketType::Msk => 3,
        }
    }

    /// Wire code of the packet type.
    #[verifier::when_used_as_spec(spec_bits)]
    pub fn bits(self) -> (r: u8)
        ensures
            r == self.spec_bits(),
    {
        match self {
            PacketType::Fsk => 0,
            PacketType::LoRa => 1,
            PacketType::Bpsk => 2,
            PacketType::Msk => 3,
        }
    }
}
impl PacketType {
    /// Packet type for a wire code; an unknown code is returned as the error.
    pub open spec fn spec_from_bits(bits: u8) -> Result<PacketType, u8> {
        match bits {
            0 => Ok(PacketType::Fsk),
            1 => Ok(PacketType::LoRa),
            2 => Ok(PacketType::Bpsk),
            3 => Ok(PacketType::Msk),
            _ => Err(bits),
        }
    }

    /// Decodes a packet type code; an unknown code is returned as the error.
    #[verifier::when_used_as_spec(spec_from_bits)]
    pub fn from_bits(bits: u8) -> (r: Result<PacketType, u8>)
        ensures
            r == PacketType::spec_from_bits(bits),
    {
        match bits {
            0 => Ok(PacketType::Fsk),
            1 => Ok(PacketType::LoRa),
            2 => Ok(PacketType::Bpsk),
            3 => Ok(PacketType::Msk),
            _ => Err(bits),
        }
    }
}

} // verus!
