//! The status byte that the radio returns on every command that reads.

use vstd::prelude::*;

verus! {

/// Chip mode field of the status byte (bits 6:4).
#[derive(Clone, Copy, Debug, PartialEq, Eq, Hash, Structural)]
pub enum StatusMode {
    /// Standby with the 13 MHz RC oscillator.
    StandbyRc,
    /// Standby with the HSE32 crystal oscillator.
    StandbyHse,
    /// Frequency synthesis.
    Fs,
    /// Receiving.
    Rx,
    /// Transmitting.
    Tx,
    /// A code that the hardware reserves, kept as received.
    Reserved(u8),
}

impl StatusMode {
    /// Chip mode for a three-bit field value.
    pub open spec fn spec_from_bits(bits: u8) -> StatusMode {
        match bits {
            2 => StatusMode::StandbyRc,
            3 => StatusMode::StandbyHse,
            4 => StatusMode::Fs,
            5 => StatusMode::Rx,
            6 => StatusMode::Tx,
            _ => StatusMode::Reserved(bits),
        }
    }

    /// Decodes a three-bit chip mode field; every value decodes.
    #[verifier::when_used_as_spec(spec_from_bits)]
    pub fn from_bits(bits: u8) -> (r: StatusMode)
        ensures
            r == StatusMode::spec_from_bits(bits),
    {
        match bits {
            2 => StatusMode::StandbyRc,
            3 => StatusMode::StandbyHse,
            4 => StatusMode::Fs,
            5 => StatusMode::Rx,
            6 => StatusMode::Tx,
            _ => StatusMode::Reserved(bits),
        }
    }
}

/// Command status field of the status byte (bits 3:1).
#[derive(Clone, Copy, Debug, PartialEq, Eq, Hash, Structural)]
pub enum CmdStatus {
    /// Data is available to the host.
    Available,
    /// The command timed out.
    Timeout,
    /// The command could not be processed.
    ProcessingError,
    /// The command failed to execute.
    ExecutionFailure,
    /// Transmission is complete.
    Complete,
    /// A code that the hardware reserves, kept as received.
    Reserved(u8),
}

impl CmdStatus {
    /// Command status for a three-bit field value.
    pub open spec fn spec_from_bits(bits: u8) -> CmdStatus {
        match bits {
            2 => CmdStatus::Available,
            3 => CmdStatus::Timeout,
            4 => CmdStatus::ProcessingError,
            5 => CmdStatus::ExecutionFailure,
            6 => CmdStatus::Complete,
            _ => CmdStatus::Reserved(bits),
        }
    }

    /// Decodes a three-bit command status field; every value decodes.
    #[verifier::when_used_as_spec(spec_from_bits)]
    pub fn from_bits(bits: u8) -> (r: CmdStatus)
        ensures
            r == CmdStatus::spec_from_bits(bits),
    {
        match bits {
            2 => CmdStatus::Available,
            3 => CmdStatus::Timeout,
            4 => CmdStatus::ProcessingError,
            5 => CmdStatus::ExecutionFailure,
            6 => CmdStatus::Complete,
            _ => CmdStatus::Reserved(bits),
        }
    }
}

/// Chip mode field of a raw status byte.
pub open spec fn mode_field(raw: u8) -> u8 {
    ((raw / 16) % 8) as u8
}

/// Command status field of a raw status byte.
pub open spec fn cmd_field(raw: u8) -> u8 {
    ((raw / 2) % 8) as u8
}

/// A raw status byte.
#[derive(Clone, Copy, Debug, PartialEq, Eq, Hash, Structural)]
pub struct Status {
    raw: u8,
}

impl View for Status {
    type V = u8;

    closed spec fn view(&self) -> u8 {
        self.raw
    }
}

impl Status {
    /// Wraps a raw status byte.
    pub fn from_raw(raw: u8) -> (r: Status)
        ensures
            r@ == raw,
    {
        Status { raw }
    }

    /// The raw status byte.
    pub fn as_bits(self) -> (r: u8)
        ensures
            r == self@,
    {
        self.raw
    }

    /// The chip mode; a reserved code gives `StatusMode::Reserved`.
    pub fn mode(self) -> (r: StatusMode)
        ensures
            r == StatusMode::spec_from_bits(mode_field(self@)),
    {
        StatusMode::from_bits((self.raw / 16) % 8)
    }

    /// The command status; a reserved code gives `CmdStatus::Reserved`.
    pub fn cmd(self) -> (r: CmdStatus)
        ensures
            r == CmdStatus::spec_from_bits(cmd_field(self@)),
    {
        CmdStatus::from_bits((self.raw / 2) % 8)
    }
}

impl From<u8> for Status {
    fn from(raw: u8) -> (r: Status)
        ensures
            r@ == raw,
    {
        Status { raw }
    }
}

impl vstd::std_specs::convert::FromSpecImpl<u8> for Status {
    open spec fn obeys_from_spec() -> bool {
        true
    }

    closed spec fn from_spec(raw: u8) -> Status {
        Status { raw }
    }
}

/// Decoding a status byte never fails: each field decodes to a defined
/// variant exactly when its code is one of the documented ones, and to the
/// reserved variant, carrying the code, otherwise.
pub proof fn lemma_status_decode_total(raw: u8)
    ensures
        mode_field(raw) < 8,
        cmd_field(raw) < 8,
        StatusMode::spec_from_bits(mode_field(raw)) == StatusMode::Reserved(mode_field(raw))
            <==> (mode_field(raw) < 2 || mode_field(raw) == 7),
        CmdStatus::spec_from_bits(cmd_field(raw)) == CmdStatus::Reserved(cmd_field(raw))
            <==> (cmd_field(raw) < 2 || cmd_field(raw) == 7),
{
}

} // verus!
