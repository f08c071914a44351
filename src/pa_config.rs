//! Power amplifier configuration, over-current protection and ramp time.

use vstd::prelude::*;

use crate::opcode::OpCode;

verus! {
/// Power amplifier selection.
#[derive(Clone, Copy, Debug, PartialEq, Eq, Hash, Structural)]
pub enum PaSel {
    /// High power amplifier.
    Hp,
    /// Low power amplifier.
    Lp,
}

impl PaSel {
    /// Wire code of the amplifier.
    pub open spec fn spec_bits(self) -> u8 {
        match self {
            PaSel::Hp => 0,
            PaSel::Lp => 1,
        }
    }

    /// Wire code of the amplifier.
    #[verifier::when_used_as_spec(spec_bits)]
    pub fn bits(self) -> (r: u8)
        ensures
            r == self.spec_bits(),
    {
        match self {
            PaSel::Hp => 0,
            PaSel::Lp => 1,
        }
    }
}
/// Power amplifier over-current protection limit.
#[derive(Clone, Copy, Debug, PartialEq, Eq, Hash, Structural)]
pub enum Ocp {
    /// 60 mA, for the low power amplifier.
    Max60m,
    /// 140 mA, for the high power amplifier.
    Max140m,
}

impl Ocp {
    /// Wire code of the limit.
    pub open spec fn spec_bits(self) -> u8 {
        match self {
            Ocp::Max60m => 0x18,
            Ocp::Max140m => 0x38,
        }
    }

    /// Wire code of the limit.
    #[verifier::when_used_as_spec(spec_bits)]
    pub fn bits(self) -> (r: u8)
        ensures
            r == self.spec_bits(),
    {
        match self {
            Ocp::Max60m => 0x18,
            Ocp::Max140m => 0x38,
        }
    }
}
/// Power amplifier ramp time.
#[derive(Clone, Copy, Debug, PartialEq, Eq, PartialOrd, Ord, Hash, Structural)]
pub enum RampTime {
    /// 10 µs.
    Micros10,
    /// 20 µs.
    Micros20,
    /// 40 µs.
    Micros40,
    /// 80 µs.
    Micros80,
    /// 200 µs.
    Micros200,
    /// 800 µs.
    Micros800,
    /// 1.7 ms.
    Micros1700,
    /// 3.4 ms.
    Micros3400,
}

impl RampTime {
    /// Wire code of the ramp time.
    pub open spec fn spec_bits(self) -> u8 {
        match self {
            RampTime::Micros10 => 0x00,
            RampTime::Micros20 => 0x01,
            RampTime::Micros40 => 0x02,
            RampTime::Micros80 => 0x03,
            RampTime::Micros200 => 0x04,
            RampTime::Micros800 => 0x05,
            RampTime::Micros1700 => 0x06,
            RampTime::Micros3400 => 0x07,
        }
    }

    /// Wire code of the ramp time.
    #[verifier::when_used_as_spec(spec_bits)]
    pub fn bits(self) -> (r: u8)
        ensures
            r == self.spec_bits(),
    {
        match self {
            RampTime::Micros10 => 0x00,
            RampTime::Micros20 => 0x01,
            RampTime::Micros40 => 0x02,
            RampTime::Micros80 => 0x03,
            RampTime::Micros200 => 0x04,
            RampTime::Micros800 => 0x05,
            RampTime::Micros1700 => 0x06,
            RampTime::Micros3400 => 0x07,
        }
    }
}
impl RampTime {
    /// Duration of the ramp in microseconds.
    pub open spec fn spec_micros(self) -> u32 {
        match self {
            RampTime::Micros10 => 10,
            RampTime::Micros20 => 20,
            RampTime::Micros40 => 40,
            RampTime::Micros80 => 80,
            RampTime::Micros200 => 200,
            RampTime::Micros800 => 800,
            RampTime::Micros1700 => 1700,
            RampTime::Micros3400 => 3400,
        }
    }

    /// Duration of the ramp in microseconds.
    #[verifier::when_used_as_spec(spec_micros)]
    pub fn micros(self) -> (r: u32)
        ensures
            r == self.spec_micros(),
    {
        match self {
            RampTime::Micros10 => 10,
            RampTime::Micros20 => 20,
            RampTime::Micros40 => 40,
            RampTime::Micros80 => 80,
            RampTime::Micros200 => 200,
            RampTime::Micros800 => 800,
            RampTime::Micros1700 => 1700,
            RampTime::Micros3400 => 3400,
        }
    }
}
impl RampTime {
    /// Ramp time for a wire code; a code above seven is returned as the error.
    pub open spec fn spec_from_bits(bits: u8) -> Result<RampTime, u8> {
        match bits {
            0 => Ok(RampTime::Micros10),
            1 => Ok(RampTime::Micros20),
            2 => Ok(RampTime::Micros40),
            3 => Ok(RampTime::Micros80),
            4 => Ok(RampTime::Micros200),
            5 => Ok(RampTime::Micros800),
            6 => Ok(RampTime::Micros1700),
            7 => Ok(RampTime::Micros3400),
            _ => Err(bits),
        }
    }

    /// Decodes a three-bit ramp time code.
    #[verifier::when_used_as_spec(spec_from_bits)]
    pub fn from_bits(bits: u8) -> (r: Result<RampTime, u8>)
        ensures
            r == RampTime::spec_from_bits(bits),
    {
        match bits {
            0 => Ok(RampTime::Micros10),
            1 => Ok(RampTime::Micros20),
            2 => Ok(RampTime::Micros40),
            3 => Ok(RampTime::Micros80),
            4 => Ok(RampTime::Micros200),
            5 => Ok(RampTime::Micros800),
            6 => Ok(RampTime::Micros1700),
            7 => Ok(RampTime::Micros3400),
            _ => Err(bits),
        }
    }

    /// The ramp time that lasts exactly `micros` microseconds, if any.
    pub fn from_micros(micros: u32) -> (r: Option<RampTime>)
        ensures
            r matches Some(t) ==> t.micros() == micros,
            r is None ==> forall|t: RampTime| t.micros() != micros,
    {
        match micros {
            10 => Some(RampTime::Micros10),
            20 => Some(RampTime::Micros20),
            40 => Some(RampTime::Micros40),
            80 => Some(RampTime::Micros80),
            200 => Some(RampTime::Micros200),
            800 => Some(RampTime::Micros800),
            1700 => Some(RampTime::Micros1700),
            3400 => Some(RampTime::Micros3400),
            _ => None,
        }
    }
}

impl From<RampTime> for u8 {
    fn from(rt: RampTime) -> (r: u8) {
        rt.bits()
    }
}

impl vstd::std_specs::convert::FromSpecImpl<RampTime> for u8 {
    open spec fn obeys_from_spec() -> bool {
        true
    }

    open spec fn from_spec(rt: RampTime) -> u8 {
        rt.spec_bits()
    }
}

/// Frame of the power amplifier configuration command.
#[derive(Clone, Copy, Debug, PartialEq, Eq, Hash)]
pub struct PaConfig {
    buf: [u8; 5],
}

impl View for PaConfig {
    type V = Seq<u8>;

    closed spec fn view(&self) -> Seq<u8> {
        self.buf@
    }
}

impl PaConfig {
    /// Duty cycle 1, HP maximum 0, low power amplifier.
    pub fn new() -> (r: PaConfig)
        ensures
            r@ == seq![0x95u8, 0x01, 0x00, 0x01, 0x01],
    {
        PaConfig { buf: [OpCode::SetPaConfig.code(), 0x01, 0x00, PaSel::Lp.bits(), 0x01] }
    }

    /// Sets the duty cycle; only its three low bits are kept.
    pub fn set_pa_duty_cycle(self, pa_duty_cycle: u8) -> (r: PaConfig)
        ensures
            r@ == self@.update(1, (pa_duty_cycle % 8) as u8),
    {
        let mut r = self;
        r.buf[1] = pa_duty_cycle % 8;
        r
    }

    /// Sets the high power amplifier's maximum output; only its three low
    /// bits are kept.
    pub fn set_hp_max(self, hp_max: u8) -> (r: PaConfig)
        ensures
            r@ == self@.update(2, (hp_max % 8) as u8),
    {
        let mut r = self;
        r.buf[2] = hp_max % 8;
        r
    }

    /// Selects the amplifier.
    pub fn set_pa(self, pa: PaSel) -> (r: PaConfig)
        ensures
            r@ == self@.update(3, pa.bits()),
    {
        let mut r = self;
        r.buf[3] = pa.bits();
        r
    }

    /// The frame.
    pub fn as_slice(&self) -> (r: &[u8])
        ensures
            r@ == self@,
    {
        self.buf.as_slice()
    }
}

} // verus!
