//! One-byte selectors of the operating mode commands.

use vstd::prelude::*;

verus! {
/// Clock that runs the radio in standby.
#[derive(Clone, Copy, Debug, PartialEq, Eq, Hash, Structural)]
pub enum StandbyClk {
    /// 13 MHz RC oscillator.
    Rc,
    /// HSE32 crystal oscillator.
    Hse32,
}

impl StandbyClk {
    /// Wire code of the clock.
    pub open spec fn spec_bits(self) -> u8 {
        match self {
            StandbyClk::Rc => 0,
            StandbyClk::Hse32 => 1,
        }
    }

    /// Wire code of the clock.
    #[verifier::when_used_as_spec(spec_bits)]
    pub fn bits(self) -> (r: u8)
        ensures
            r == self.spec_bits(),
    {
        match self {
            StandbyClk::Rc => 0,
            StandbyClk::Hse32 => 1,
        }
    }
}
/// Receiver event that stops the RX timeout timer.
#[derive(Clone, Copy, Debug, PartialEq, Eq, Hash, Structural)]
pub enum RxTimeoutStop {
    /// Stop on a synchronization word or header.
    Sync,
    /// Stop on a preamble.
    Preamble,
}

impl RxTimeoutStop {
    /// Wire code of the event.
    pub open spec fn spec_bits(self) -> u8 {
        match self {
            RxTimeoutStop::Sync => 0,
            RxTimeoutStop::Preamble => 1,
        }
    }

    /// Wire code of the event.
    #[verifier::when_used_as_spec(spec_bits)]
    pub fn bits(self) -> (r: u8)
        ensures
            r == self.spec_bits(),
    {
        match self {
            RxTimeoutStop::Sync => 0,
            RxTimeoutStop::Preamble => 1,
        }
    }
}
/// Power supply of the radio.
#[derive(Clone, Copy, Debug, PartialEq, Eq, Hash, Structural)]
pub enum RegMode {
    /// Linear dropout regulator.
    Ldo,
    /// Switch mode power supply.
    Smps,
}

impl RegMode {
    /// Wire code of the regulator.
    pub open spec fn spec_bits(self) -> u8 {
        match self {
            RegMode::Ldo => 0,
            RegMode::Smps => 1,
        }
    }

    /// Wire code of the regulator.
    #[verifier::when_used_as_spec(spec_bits)]
    pub fn bits(self) -> (r: u8)
        ensures
            r == self.spec_bits(),
    {
        match self {
            RegMode::Ldo => 0,
            RegMode::Smps => 1,
        }
    }
}
} // verus!
