//! Packet statistics, read as one seven-byte block and decoded by the packet
//! type that was active when they were counted.

use vstd::prelude::*;

use crate::bytes::{from_be16, u16_from_be};
use crate::status::Status;

verus! {

/// Marks statistics decoded for (G)FSK.
#[derive(Clone, Copy, Debug, PartialEq, Eq, Hash)]
pub struct FskStats;

/// Marks statistics decoded for LoRa.
#[derive(Clone, Copy, Debug, PartialEq, Eq, Hash)]
pub struct LoRaStats;

/// Packet statistics: packets received, CRC errors, and length errors
/// (for (G)FSK) or header errors (for LoRa).
#[derive(Debug, PartialEq, Eq, Hash)]
pub struct Stats<ModType> {
    status: Status,
    pkt_rx: u16,
    pkt_crc: u16,
    pkt_len_or_hdr_err: u16,
    ty: ModType,
}

/// The three counters of a raw block, decoded big-endian after the status.
pub open spec fn counters(data: Seq<u8>) -> (u16, u16, u16) {
    (from_be16(data[1], data[2]), from_be16(data[3], data[4]), from_be16(data[5], data[6]))
}

impl<ModType> Stats<ModType> {
    /// The status byte, followed by the three counters.
    pub closed spec fn spec_fields(&self) -> (u8, u16, u16, u16) {
        (self.status@, self.pkt_rx, self.pkt_crc, self.pkt_len_or_hdr_err)
    }

    /// The radio status read with the statistics.
    pub fn status(&self) -> (r: Status)
        ensures
            r@ == self.spec_fields().0,
    {
        self.status
    }

    /// Packets received.
    pub fn pkt_rx(&self) -> (r: u16)
        ensures
            r == self.spec_fields().1,
    {
        self.pkt_rx
    }

    /// Packets received with a CRC error.
    pub fn pkt_crc(&self) -> (r: u16)
        ensures
            r == self.spec_fields().2,
    {
        self.pkt_crc
    }
}

impl Stats<FskStats> {
    /// Decodes a raw block as (G)FSK statistics; every block decodes.
    pub fn from_raw_fsk(data: [u8; 7]) -> (r: Stats<FskStats>)
        ensures
            r.spec_fields() == (data@[0], counters(data@).0, counters(data@).1, counters(data@).2),
    {
        Stats {
            status: Status::from_raw(data[0]),
            pkt_rx: u16_from_be(data[1], data[2]),
            pkt_crc: u16_from_be(data[3], data[4]),
            pkt_len_or_hdr_err: u16_from_be(data[5], data[6]),
            ty: FskStats,
        }
    }

    /// Packets received with a length error.
    pub fn pkt_len_err(&self) -> (r: u16)
        ensures
            r == self.spec_fields().3,
    {
        self.pkt_len_or_hdr_err
    }
}

impl Stats<LoRaStats> {
    /// Decodes a raw block as LoRa statistics; every block decodes.
    pub fn from_raw_lora(data: [u8; 7]) -> (r: Stats<LoRaStats>)
        ensures
            r.spec_fields() == (data@[0], counters(data@).0, counters(data@).1, counters(data@).2),
    {
        Stats {
            status: Status::from_raw(data[0]),
            pkt_rx: u16_from_be(data[1], data[2]),
            pkt_crc: u16_from_be(data[3], data[4]),
            pkt_len_or_hdr_err: u16_from_be(data[5], data[6]),
            ty: LoRaStats,
        }
    }

    /// Packets received with a header error.
    pub fn pkt_hdr_err(&self) -> (r: u16)
        ensures
            r == self.spec_fields().3,
    {
        self.pkt_len_or_hdr_err
    }
}

} // verus!
