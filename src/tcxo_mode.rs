//! TCXO supply voltage and start-up timeout.

use vstd::prelude::*;

use crate::opcode::OpCode;
use crate::bytes::be24;
use crate::timeout::Timeout;

verus! {
/// Supply voltage of the TCXO.
#[derive(Clone, Copy, Debug, PartialEq, Eq, Hash, Structural)]
pub enum TcxoTrim {
    /// 1.6 V.
    Volts1pt6,
    /// 1.7 V.
    Volts1pt7,
    /// 1.8 V.
    Volts1pt8,
    /// 2.2 V.
    Volts2pt2,
    /// 2.4 V.
    Volts2pt4,
    /// 2.7 V.
    Volts2pt7,
    /// 3.0 V.
    Volts3pt0,
    /// 3.3 V.
    Volts3pt3,
}

impl TcxoTrim {
    /// Wire code of the voltage.
    pub open spec fn spec_bits(self) -> u8 {
        match self {
            TcxoTrim::Volts1pt6 => 0x0,
            TcxoTrim::Volts1pt7 => 0x1,
            TcxoTrim::Volts1pt8 => 0x2,
            TcxoTrim::Volts2pt2 => 0x3,
            TcxoTrim::Volts2pt4 => 0x4,
            TcxoTrim::Volts2pt7 => 0x5,
            TcxoTrim::Volts3pt0 => 0x6,
            TcxoTrim::Volts3pt3 => 0x7,
        }
    }

    /// Wire code of the voltage.
    #[verifier::when_used_as_spec(spec_bits)]
    pub fn bits(self) -> (r: u8)
        ensures
            r == self.spec_bits(),
    {
        match self {
            TcxoTrim::Volts1pt6 => 0x0,
            TcxoTrim::Volts1pt7 => 0x1,
            TcxoTrim::Volts1pt8 => 0x2,
            TcxoTrim::Volts2pt2 => 0x3,
            TcxoTrim::Volts2pt4 => 0x4,
            TcxoTrim::Volts2pt7 => 0x5,
            TcxoTrim::Volts3pt0 => 0x6,
            TcxoTrim::Volts3pt3 => 0x7,
        }
    }
}
/// Frame of the TCXO mode command: the supply voltage, and how long the
/// radio waits for the HSE32 to be ready.
#[derive(Clone, Copy, Debug, PartialEq, Eq, Hash)]
pub struct TcxoMode {
    buf: [u8; 5],
}

impl View for TcxoMode {
    type V = Seq<u8>;

    closed spec fn view(&self) -> Seq<u8> {
        self.buf@
    }
}

impl TcxoMode {
    /// 1.6 V, no timeout.
    pub fn new() -> (r: TcxoMode)
        ensures
            r@ == seq![0x97u8, 0x00, 0x00, 0x00, 0x00],
    {
        TcxoMode { buf: [OpCode::SetTcxoMode.code(), TcxoTrim::Volts1pt6.bits(), 0x00, 0x00, 0x00] }
    }

    /// Sets the supply voltage.
    pub fn set_txco_trim(self, tcxo_trim: TcxoTrim) -> (r: TcxoMode)
        ensures
            r@ == self@.update(1, tcxo_trim.bits()),
    {
        let mut r = self;
        r.buf[1] = tcxo_trim.bits();
        r
    }

    /// Sets the timeout.
    pub fn set_timeout(self, timeout: Timeout) -> (r: TcxoMode)
        ensures
            r@ == self@.subrange(0, 2) + be24(timeout@),
    {
        let bytes: [u8; 3] = timeout.as_bytes();
        let mut r = self;
        r.buf[2] = bytes[0];
        r.buf[3] = bytes[1];
        r.buf[4] = bytes[2];
        assert(r.buf@ =~= self@.subrange(0, 2) + be24(timeout@));
        r
    }

    /// The frame.
    pub fn as_slice(&self) -> (r: &[u8])
        ensures
            r@ == self@,
    {
        self.buf.as_slice()
    }
}

} // verus!
