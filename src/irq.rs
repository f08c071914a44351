//! Interrupt sources, and their routing to the radio's IRQ lines.

use vstd::prelude::*;

use crate::bytes::{be16, be16_bytes};
use crate::opcode::OpCode;

verus! {

/// Where an interrupt source is enabled: the global mask, or one of the IRQ lines.
#[derive(Clone, Copy, Debug, PartialEq, Eq, Hash, Structural)]
pub enum IrqLine {
    /// Global mask: the source is reported in the IRQ status.
    Global,
    /// IRQ line 1.
    Line1,
    /// IRQ line 2.
    Line2,
    /// IRQ line 3.
    Line3,
}

impl IrqLine {
    /// Position of the line's mask in the configuration.
    pub open spec fn spec_index(self) -> usize {
        match self {
            IrqLine::Global => 0,
            IrqLine::Line1 => 1,
            IrqLine::Line2 => 2,
            IrqLine::Line3 => 3,
        }
    }

    /// Position of the line's mask in the configuration.
    #[verifier::when_used_as_spec(spec_index)]
    pub fn index(self) -> (r: usize)
        ensures
            r == self.spec_index(),
    {
        match self {
            IrqLine::Global => 0,
            IrqLine::Line1 => 1,
            IrqLine::Line2 => 2,
            IrqLine::Line3 => 3,
        }
    }
}
/// Interrupt source.
#[derive(Clone, Copy, Debug, PartialEq, Eq, Hash, Structural)]
pub enum Irq {
    /// Packet transmission finished.
    TxDone,
    /// Packet reception finished.
    RxDone,
    /// Preamble detected.
    PreambleDetected,
    /// Synchronization word valid.
    SyncDetected,
    /// LoRa header valid.
    HeaderValid,
    /// LoRa header error.
    HeaderErr,
    /// CRC error, or for (G)FSK a length or address error.
    CrcErr,
    /// Channel activity detection finished.
    CadDone,
    /// Channel activity detected.
    CadDetected,
    /// RX or TX timeout.
    Timeout,
}

impl Irq {
    /// Bit of the source in IRQ masks and in the IRQ status.
    pub open spec fn spec_mask(self) -> u16 {
        match self {
            Irq::TxDone => 0x0001,
            Irq::RxDone => 0x0002,
            Irq::PreambleDetected => 0x0004,
            Irq::SyncDetected => 0x0008,
            Irq::HeaderValid => 0x0010,
            Irq::HeaderErr => 0x0020,
            Irq::CrcErr => 0x0040,
            Irq::CadDone => 0x0080,
            Irq::CadDetected => 0x0100,
            Irq::Timeout => 0x0200,
        }
    }

    /// Bit of the source in IRQ masks and in the IRQ status.
    #[verifier::when_used_as_spec(spec_mask)]
    pub fn mask(self) -> (r: u16)
        ensures
            r == self.spec_mask(),
    {
        match self {
            Irq::TxDone => 0x0001,
            Irq::RxDone => 0x0002,
            Irq::PreambleDetected => 0x0004,
            Irq::SyncDetected => 0x0008,
            Irq::HeaderValid => 0x0010,
            Irq::HeaderErr => 0x0020,
            Irq::CrcErr => 0x0040,
            Irq::CadDone => 0x0080,
            Irq::CadDetected => 0x0100,
            Irq::Timeout => 0x0200,
        }
    }
}
/// `masks` with `irq` enabled on `line`.
pub open spec fn enabled(masks: Seq<u16>, line: IrqLine, irq: Irq) -> Seq<u16> {
    masks.update(line.index() as int, masks[line.index() as int] | irq.mask())
}

/// Frame of the IRQ configuration command for the four masks.
pub open spec fn irq_frame(masks: Seq<u16>) -> Seq<u8> {
    seq![0x08u8] + be16(masks[0] as nat) + be16(masks[1] as nat) + be16(masks[2] as nat) + be16(
        masks[3] as nat,
    )
}

/// IRQ configuration: for the global mask and each IRQ line, the set of
/// enabled sources.
#[derive(Clone, Copy, Debug, PartialEq, Eq, Hash)]
pub struct CfgDioIrq {
    masks: [u16; 4],
}

impl View for CfgDioIrq {
    type V = Seq<u16>;

    closed spec fn view(&self) -> Seq<u16> {
        self.masks@
    }
}

impl CfgDioIrq {
    /// Every source disabled everywhere.
    pub fn new() -> (r: CfgDioIrq)
        ensures
            r@ == seq![0u16, 0, 0, 0],
            r@.len() == 4,
    {
        let r = CfgDioIrq { masks: [0, 0, 0, 0] };
        assert(r.masks@ =~= seq![0u16, 0, 0, 0]);
        r
    }

    /// Enables `irq` on `line`, keeping everything else.
    pub fn irq_enable(self, line: IrqLine, irq: Irq) -> (r: CfgDioIrq)
        ensures
            r@ == enabled(self@, line, irq),
            r@.len() == 4,
    {
        let i: usize = line.index();
        let m: u16 = self.masks[i] | irq.mask();
        let mut r = self;
        r.masks[i] = m;
        r
    }

    /// The frame of the command that applies this configuration.
    pub fn as_bytes(&self) -> (r: [u8; 9])
        ensures
            r@ == irq_frame(self@),
    {
        let g: [u8; 2] = be16_bytes(self.masks[0]);
        let l1: [u8; 2] = be16_bytes(self.masks[1]);
        let l2: [u8; 2] = be16_bytes(self.masks[2]);
        let l3: [u8; 2] = be16_bytes(self.masks[3]);
        let r: [u8; 9] = [OpCode::CfgDioIrq.code(), g[0], g[1], l1[0], l1[1], l2[0], l2[1], l3[0], l3[1]];
        assert(r@ =~= irq_frame(self@));
        r
    }
}

/// Every configuration holds four masks: the global one and one per line.
pub proof fn lemma_cfg_has_four_masks(cfg: CfgDioIrq)
    ensures
        cfg@.len() == 4,
{
}

/// Enabling a source is idempotent: enabling it twice on a line gives the
/// same configuration as enabling it once.
pub proof fn lemma_irq_enable_idempotent(cfg: CfgDioIrq, line: IrqLine, irq: Irq)
    ensures
        enabled(enabled(cfg@, line, irq), line, irq) == enabled(cfg@, line, irq),
{
    let masks = cfg@;
    let i = line.index() as int;
    let m = masks[i];
    let x = irq.mask();
    assert((m | x) | x == m | x) by (bit_vector);
    assert(enabled(enabled(masks, line, irq), line, irq) =~= enabled(masks, line, irq));
}

/// Enabling sources commutes: the order of two enables does not matter, and
/// enabling on two different lines sets the bit on each line and leaves the
/// other lines as they were.
pub proof fn lemma_irq_enable_commutes(cfg: CfgDioIrq, l1: IrqLine, i1: Irq, l2: IrqLine, i2: Irq)
    ensures
        enabled(enabled(cfg@, l1, i1), l2, i2) == enabled(enabled(cfg@, l2, i2), l1, i1),
        l1 != l2 ==> ({
            let r = enabled(enabled(cfg@, l1, i1), l2, i2);
            &&& r[l1.index() as int] == cfg@[l1.index() as int] | i1.mask()
            &&& r[l2.index() as int] == cfg@[l2.index() as int] | i2.mask()
            &&& forall|k: int| 0 <= k < 4 && k != l1.index() && k != l2.index() ==> r[k] == cfg@[k]
        }),
{
    let masks = cfg@;
    let a = l1.index() as int;
    let b = l2.index() as int;
    let x = i1.mask();
    let y = i2.mask();
    if a == b {
        let m = masks[a];
        assert((m | x) | y == (m | y) | x) by (bit_vector);
    }
    assert(enabled(enabled(masks, l1, i1), l2, i2) =~= enabled(enabled(masks, l2, i2), l1, i1));
}

} // verus!
