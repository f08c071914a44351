//! Big-endian byte layouts shared by the frames.

use vstd::prelude::*;

verus! {

/// Two bytes of `v`, most significant first.
pub open spec fn be16(v: nat) -> Seq<u8> {
    seq![((v / 0x100) % 0x100) as u8, (v % 0x100) as u8]
}

/// Three bytes of `v`, most significant first.
pub open spec fn be24(v: nat) -> Seq<u8> {
    seq![((v / 0x10000) % 0x100) as u8, ((v / 0x100) % 0x100) as u8, (v % 0x100) as u8]
}

/// Four bytes of `v`, most significant first.
pub open spec fn be32(v: nat) -> Seq<u8> {
    seq![
        ((v / 0x1000000) % 0x100) as u8,
        ((v / 0x10000) % 0x100) as u8,
        ((v / 0x100) % 0x100) as u8,
        (v % 0x100) as u8,
    ]
}

/// The value of two bytes, most significant first.
pub open spec fn from_be16(hi: u8, lo: u8) -> u16 {
    (hi as nat * 0x100 + lo as nat) as u16
}

/// Splits the low 24 bits of `v` into bytes, most significant first.
pub fn be24_bytes(v: u32) -> (r: [u8; 3])
    ensures
        r@ == be24(v as nat),
{
    [((v / 0x10000) % 0x100) as u8, ((v / 0x100) % 0x100) as u8, (v % 0x100) as u8]
}

/// Splits `v` into bytes, most significant first.
pub fn be32_bytes(v: u32) -> (r: [u8; 4])
    ensures
        r@ == be32(v as nat),
{
    [(v / 0x1000000) as u8, ((v / 0x10000) % 0x100) as u8, ((v / 0x100) % 0x100) as u8, (v % 0x100) as u8]
}

/// Splits `v` into bytes, most significant first.
pub fn be16_bytes(v: u16) -> (r: [u8; 2])
    ensures
        r@ == be16(v as nat),
{
    [(v / 0x100) as u8, (v % 0x100) as u8]
}

/// Joins two bytes, most significant first.
pub fn u16_from_be(hi: u8, lo: u8) -> (r: u16)
    ensures
        r == from_be16(hi, lo),
{
    hi as u16 * 0x100 + lo as u16
}

} // verus!
