use std::collections::VecDeque;

use stm32wl_hal_subghz::{
    CfgDioIrq, CmdStatus, CodingRate, GenericPacketParams, Irq, IrqLine, LoRaBandwidth,
    LoRaModParams, PacketType, RfFreq, SpreadingFactor, StatusMode, SubGhz, SubGhzError, Timeout,
    Transport,
};

/// A bus that records every transaction and answers from a queue of bytes.
struct MockBus {
    stuck: bool,
    stuck_after_frame: bool,
    busy_left: u32,
    polls: u32,
    selected: bool,
    frames: Vec<Vec<u8>>,
    replies: VecDeque<u8>,
}

impl MockBus {
    fn new() -> MockBus {
        MockBus {
            stuck: false,
            stuck_after_frame: false,
            busy_left: 0,
            polls: 0,
            selected: false,
            frames: Vec::new(),
            replies: VecDeque::new(),
        }
    }

    fn replying(bytes: &[u8]) -> MockBus {
        let mut bus = MockBus::new();
        bus.replies.extend(bytes.iter().copied());
        bus
    }
}

impl Transport for MockBus {
    fn is_busy(&mut self) -> bool {
        self.polls += 1;
        if self.stuck || (self.stuck_after_frame && !self.frames.is_empty()) {
            return true;
        }
        if self.busy_left > 0 {
            self.busy_left -= 1;
            return true;
        }
        false
    }

    fn select(&mut self) {
        assert!(!self.selected);
        self.selected = true;
        self.frames.push(Vec::new());
    }

    fn deselect(&mut self) {
        assert!(self.selected);
        self.selected = false;
    }

    fn shift(&mut self, byte: u8) -> u8 {
        assert!(self.selected);
        self.frames.last_mut().unwrap().push(byte);
        self.replies.pop_front().unwrap_or(0)
    }
}

#[test]
fn end_to_end_lora_transmit_sequence() {
    let mut sg = SubGhz::new(MockBus::new());
    let mod_params = LoRaModParams::new()
        .set_sf(SpreadingFactor::Sf7)
        .set_bw(LoRaBandwidth::Bw125)
        .set_cr(CodingRate::Cr45)
        .set_ldro_en(false);
    let packet_params = GenericPacketParams::new().set_preamble_len(8).set_payload_len(16);
    sg.set_packet_type(PacketType::LoRa).unwrap();
    sg.set_lora_mod_params(&mod_params).unwrap();
    sg.set_packet_params(&packet_params).unwrap();
    sg.set_rf_frequency(&RfFreq::from_frequency(915_000_000)).unwrap();
    sg.set_tx(Timeout::disabled()).unwrap();
    let bus = sg.free();
    assert_eq!(
        bus.frames,
        vec![
            vec![0x8A, 0x01],
            vec![0x8B, 0x07, 0x04, 0x01, 0x00],
            vec![0x8C, 0x00, 0x08, 0x00, 0x00, 0x00, 0x00, 0x10, 0x01, 0x00],
            vec![0x86, 0x39, 0x30, 0x00, 0x00],
            vec![0x83, 0x00, 0x00, 0x00],
        ]
    );
    assert!(!bus.selected);
}

#[test]
fn busy_never_clearing_aborts_without_a_decode() {
    let mut bus = MockBus::replying(&[0x00, 0x2C]);
    bus.stuck = true;
    let mut sg = SubGhz::new(bus);
    assert_eq!(sg.status(), Err(SubGhzError::BusyTimeout));
    assert_eq!(sg.set_standby(stm32wl_hal_subghz::StandbyClk::Rc), Err(SubGhzError::BusyTimeout));
    let bus = sg.free();
    assert!(bus.frames.is_empty());
    assert_eq!(bus.polls, 200_000);
}

#[test]
fn busy_that_clears_within_budget_completes() {
    let mut bus = MockBus::replying(&[0x00, 0x2C]);
    bus.busy_left = 99_999;
    let mut sg = SubGhz::new(bus);
    let s = sg.status().unwrap();
    assert_eq!(s.as_bits(), 0x2C);
    let bus = sg.free();
    assert_eq!(bus.frames, vec![vec![0xC0, 0xFF]]);
    assert_eq!(bus.polls, 100_001);
}

#[test]
fn busy_exhausting_the_budget_exactly_fails() {
    let mut bus = MockBus::new();
    bus.busy_left = 100_000;
    let mut sg = SubGhz::new(bus);
    assert_eq!(sg.set_tx_continuous_wave(), Err(SubGhzError::BusyTimeout));
    assert!(sg.free().frames.is_empty());
}

#[test]
fn status_read_decodes_mode_and_command_status() {
    let mut sg = SubGhz::new(MockBus::replying(&[0x00, 0x2C]));
    let s = sg.status().unwrap();
    assert_eq!(s.mode(), StatusMode::StandbyRc);
    assert_eq!(s.cmd(), CmdStatus::Complete);
}

#[test]
fn rssi_inst_scenario_decodes_minus_twenty_dbm() {
    let mut sg = SubGhz::new(MockBus::replying(&[0x00, 0x54, 0x28]));
    let (status, rssi) = sg.rssi_inst().unwrap();
    assert_eq!(status.as_bits(), 0x54);
    assert_eq!(rssi.numer(), -20);
    assert_eq!(rssi.denom(), 1);
    assert_eq!(sg.free().frames, vec![vec![0x15, 0xFF, 0xFF]]);
}

#[test]
fn irq_enable_twice_equals_once() {
    let once = CfgDioIrq::new().irq_enable(IrqLine::Global, Irq::TxDone);
    let twice = once.irq_enable(IrqLine::Global, Irq::TxDone);
    assert_eq!(once, twice);
    assert_eq!(twice.as_bytes(), [0x08, 0x00, 0x01, 0, 0, 0, 0, 0, 0]);
}

#[test]
fn irq_enable_on_two_lines_sets_both_bits() {
    let cfg = CfgDioIrq::new()
        .irq_enable(IrqLine::Line1, Irq::TxDone)
        .irq_enable(IrqLine::Line2, Irq::TxDone);
    assert_eq!(cfg.as_bytes(), [0x08, 0, 0, 0x00, 0x01, 0x00, 0x01, 0, 0]);
    let other_order = CfgDioIrq::new()
        .irq_enable(IrqLine::Line2, Irq::TxDone)
        .irq_enable(IrqLine::Line1, Irq::TxDone);
    assert_eq!(cfg, other_order);
}

#[test]
fn rf_frequency_round_trip_at_915_mhz() {
    let f = RfFreq::from_frequency(915_000_000);
    assert_eq!(f.rf(), 0x3930_0000);
    let back = f.freq();
    assert!((back as i64 - 915_000_000i64).abs() <= 0);
    assert_eq!(back, 915_000_000);
}

#[test]
fn busy_timeout_after_the_frame_fails_with_the_frame_sent() {
    let mut bus = MockBus::new();
    bus.stuck_after_frame = true;
    let mut sg = SubGhz::new(bus);
    assert_eq!(sg.set_packet_type(PacketType::Fsk), Err(SubGhzError::BusyTimeout));
    let bus = sg.free();
    assert_eq!(bus.frames, vec![vec![0x8A, 0x00]]);
    assert_eq!(bus.polls, 100_001);
}
