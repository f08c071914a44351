//! Calibration selectors.

use vstd::prelude::*;

verus! {
/// A block that the calibrate command can calibrate.
#[derive(Clone, Copy, Debug, PartialEq, Eq, Hash, Structural)]
pub enum Calibrate {
    /// Image rejection.
    Image,
    /// ADC bulk P-side.
    AdcBulkP,
    /// ADC bulk N-side.
    AdcBulkN,
    /// ADC pulse.
    AdcPulse,
    /// PLL.
    Pll,
    /// 13 MHz RC oscillator.
    Rc13M,
    /// 64 kHz RC oscillator.
    Rc64K,
}

impl Calibrate {
    /// Wire code of the selection bit.
    pub open spec fn spec_mask(self) -> u8 {
        match self {
            Calibrate::Image => 0x40,
            Calibrate::AdcBulkP => 0x20,
            Calibrate::AdcBulkN => 0x10,
            Calibrate::AdcPulse => 0x08,
            Calibrate::Pll => 0x04,
            Calibrate::Rc13M => 0x02,
            Calibrate::Rc64K => 0x01,
        }
    }

    /// Wire code of the selection bit.
    #[verifier::when_used_as_spec(spec_mask)]
    pub fn mask(self) -> (r: u8)
        ensures
            r == self.spec_mask(),
    {
        match self {
            Calibrate::Image => 0x40,
            Calibrate::AdcBulkP => 0x20,
            Calibrate::AdcBulkN => 0x10,
            Calibrate::AdcPulse => 0x08,
            Calibrate::Pll => 0x04,
            Calibrate::Rc13M => 0x02,
            Calibrate::Rc64K => 0x01,
        }
    }
}
/// The pair of frequency bytes that bounds an image calibration band, each in
/// steps of 4 MHz.
#[derive(Clone, Copy, Debug, PartialEq, Eq, Hash, Structural)]
pub struct CalibrateImage(pub u8, pub u8);

impl CalibrateImage {
    /// The band from `f1` to `f2`, in steps of 4 MHz.
    pub fn new(f1: u8, f2: u8) -> (r: CalibrateImage)
        ensures
            r == CalibrateImage(f1, f2),
    {
        CalibrateImage(f1, f2)
    }

    /// The 430 - 440 MHz ISM band.
    pub fn ism_430_440() -> (r: CalibrateImage)
        ensures
            r == CalibrateImage(0x6B, 0x6F),
    {
        CalibrateImage(0x6B, 0x6F)
    }

    /// The 470 - 510 MHz ISM band.
    pub fn ism_470_510() -> (r: CalibrateImage)
        ensures
            r == CalibrateImage(0x75, 0x81),
    {
        CalibrateImage(0x75, 0x81)
    }

    /// The 779 - 787 MHz ISM band.
    pub fn ism_779_787() -> (r: CalibrateImage)
        ensures
            r == CalibrateImage(0xC1, 0xC5),
    {
        CalibrateImage(0xC1, 0xC5)
    }

    /// The 863 - 870 MHz ISM band.
    pub fn ism_863_870() -> (r: CalibrateImage)
        ensures
            r == CalibrateImage(0xD7, 0xDB),
    {
        CalibrateImage(0xD7, 0xDB)
    }

    /// The 902 - 928 MHz ISM band.
    pub fn ism_902_928() -> (r: CalibrateImage)
        ensures
            r == CalibrateImage(0xE1, 0xE9),
    {
        CalibrateImage(0xE1, 0xE9)
    }
}

} // verus!
