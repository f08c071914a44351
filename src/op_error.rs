//! Operational errors that the radio reports.

use vstd::prelude::*;

verus! {
/// An operational error flag of the error command.
#[derive(Clone, Copy, Debug, PartialEq, Eq, Hash, Structural)]
pub enum OpError {
    /// 64 kHz RC calibration failed.
    Rc64kCalibErr,
    /// 13 MHz RC calibration failed.
    Rc13mCalibErr,
    /// PLL calibration failed.
    PllCalibErr,
    /// ADC calibration failed.
    AdcCalibErr,
    /// Image calibration failed.
    ImgCalibErr,
    /// HSE32 failed to start.
    XoscStartErr,
    /// PLL failed to lock.
    PllLockErr,
    /// Power amplifier ramp failed.
    PaRampErr,
}

impl OpError {
    /// Wire code of the error bit.
    pub open spec fn spec_mask(self) -> u16 {
        match self {
            OpError::Rc64kCalibErr => 0x0001,
            OpError::Rc13mCalibErr => 0x0002,
            OpError::PllCalibErr => 0x0004,
            OpError::AdcCalibErr => 0x0008,
            OpError::ImgCalibErr => 0x0010,
            OpError::XoscStartErr => 0x0020,
            OpError::PllLockErr => 0x0040,
            OpError::PaRampErr => 0x0100,
        }
    }

    /// Wire code of the error bit.
    #[verifier::when_used_as_spec(spec_mask)]
    pub fn mask(self) -> (r: u16)
        ensures
            r == self.spec_mask(),
    {
        match self {
            OpError::Rc64kCalibErr => 0x0001,
            OpError::Rc13mCalibErr => 0x0002,
            OpError::PllCalibErr => 0x0004,
            OpError::AdcCalibErr => 0x0008,
            OpError::ImgCalibErr => 0x0010,
            OpError::XoscStartErr => 0x0020,
            OpError::PllLockErr => 0x0040,
            OpError::PaRampErr => 0x0100,
        }
    }
}
} // verus!
