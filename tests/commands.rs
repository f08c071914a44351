use std::collections::VecDeque;

use stm32wl_hal_subghz::{
    CalibrateImage, CfgDioIrq, Irq, IrqLine, Ocp, PacketType, RampTime, RegMode, RxTimeoutStop,
    StandbyClk, SubGhz, Timeout, Transport,
};

struct Recorder {
    frames: Vec<Vec<u8>>,
    replies: VecDeque<u8>,
}

impl Transport for Recorder {
    fn is_busy(&mut self) -> bool {
        false
    }

    fn select(&mut self) {
        self.frames.push(Vec::new());
    }

    fn deselect(&mut self) {}

    fn shift(&mut self, byte: u8) -> u8 {
        self.frames.last_mut().unwrap().push(byte);
        self.replies.pop_front().unwrap_or(0)
    }
}

fn radio(replies: &[u8]) -> SubGhz<Recorder> {
    SubGhz::new(Recorder { frames: Vec::new(), replies: replies.iter().copied().collect() })
}

fn frames(sg: SubGhz<Recorder>) -> Vec<Vec<u8>> {
    sg.free().frames
}

#[test]
fn register_writes() {
    let mut sg = radio(&[]);
    sg.set_lora_sync_word(0x1234).unwrap();
    sg.set_pa_ocp(Ocp::Max140m).unwrap();
    sg.set_pa_ocp(Ocp::Max60m).unwrap();
    sg.set_hse_in_trim(0x12).unwrap();
    sg.set_sync_word([1, 2, 3, 4, 5, 6, 7, 8]).unwrap();
    assert_eq!(
        frames(sg),
        vec![
            vec![0x0D, 0x07, 0x40, 0x12, 0x34],
            vec![0x0D, 0x08, 0xE7, 0x38],
            vec![0x0D, 0x08, 0xE7, 0x18],
            vec![0x0D, 0x09, 0x12, 0x12],
            vec![0x0D, 0x06, 0xC0, 1, 2, 3, 4, 5, 6, 7, 8],
        ]
    );
}

#[test]
fn register_read() {
    let mut sg = radio(&[0, 0, 0, 0x5A]);
    assert_eq!(sg.read_register(stm32wl_hal_subghz::Register::PaOcp), Ok(0x5A));
    assert_eq!(frames(sg), vec![vec![0x1D, 0x08, 0xE7, 0xFF]]);
}

#[test]
fn buffer_write_and_read() {
    let mut sg = radio(&[0, 0, 0, 0, 0, 0, 0xA2, 0x11, 0x22, 0x33]);
    sg.write_buffer(0x10, &[0xDE, 0xAD]).unwrap();
    let mut buf = [0u8; 3];
    let status = sg.read_buffer(0x20, &mut buf).unwrap();
    assert_eq!(status.as_bits(), 0xA2);
    assert_eq!(buf, [0x11, 0x22, 0x33]);
    assert_eq!(
        frames(sg),
        vec![vec![0x0E, 0x10, 0xDE, 0xAD], vec![0x1E, 0x20, 0xFF, 0xFF, 0xFF, 0xFF]]
    );
}

#[test]
fn mode_commands() {
    let mut sg = radio(&[]);
    sg.set_standby(StandbyClk::Hse32).unwrap();
    sg.set_rx(Timeout::from_nanos_sat(1_000_000_000)).unwrap();
    sg.set_tx(Timeout::max()).unwrap();
    sg.set_rx_timeout_stop(RxTimeoutStop::Preamble).unwrap();
    sg.set_tx_continuous_wave().unwrap();
    assert_eq!(
        frames(sg),
        vec![
            vec![0x80, 0x01],
            vec![0x82, 0x00, 0xFA, 0x00],
            vec![0x83, 0xFF, 0xFF, 0xFF],
            vec![0x9F, 0x01],
            vec![0xD1],
        ]
    );
}

#[test]
fn configuration_commands() {
    let mut sg = radio(&[]);
    sg.set_tx_params(0x16, RampTime::Micros200).unwrap();
    sg.set_buffer_base_address(0x00, 0x80).unwrap();
    sg.set_regulator_mode(RegMode::Smps).unwrap();
    sg.calibrate(0xFF).unwrap();
    sg.calibrate_image(CalibrateImage::ism_902_928()).unwrap();
    sg.clear_error().unwrap();
    sg.reset_stats().unwrap();
    sg.clear_irq_status(Irq::TxDone.mask() | Irq::Timeout.mask()).unwrap();
    sg.set_irq_cfg(&CfgDioIrq::new().irq_enable(IrqLine::Global, Irq::Timeout)).unwrap();
    assert_eq!(
        frames(sg),
        vec![
            vec![0x8E, 0x16, 0x04],
            vec![0x8F, 0x00, 0x80],
            vec![0x96, 0x01],
            vec![0x89, 0x7F],
            vec![0x98, 0xE1, 0xE9],
            vec![0x07, 0x00],
            vec![0x00, 0, 0, 0, 0, 0, 0],
            vec![0x02, 0x02, 0x01],
            vec![0x08, 0x02, 0x00, 0, 0, 0, 0, 0, 0],
        ]
    );
}

#[test]
fn queries_decode_replies() {
    let mut sg = radio(&[
        0, 0x22, 0x01, // packet type
        0, 0x24, 0x10, 0x80, // rx buffer status
        0, 0x22, 0x02, 0x01, // irq status, big-endian
        0, 0x22, 0x40, 0x01, // op error, little-endian
        0, 0x22, 0x00, 0x05, 0x00, 0x01, 0x00, 0x02, // stats
        0, 0x22, 0x00, 0x05, 0x00, 0x01, 0x00, 0x02, // stats
        0, 0x22, 0x07, 0x50, 0x60, // gfsk packet status
    ]);
    assert_eq!(sg.packet_type(), Ok(Ok(PacketType::LoRa)));
    let (s, len, ptr) = sg.rx_buffer_status().unwrap();
    assert_eq!((s.as_bits(), len, ptr), (0x24, 0x10, 0x80));
    let (_, irq) = sg.irq_status().unwrap();
    assert_eq!(irq, 0x0201);
    let (_, err) = sg.op_error().unwrap();
    assert_eq!(err, 0x0140);
    let fsk = sg.fsk_stats().unwrap();
    assert_eq!((fsk.pkt_rx(), fsk.pkt_crc(), fsk.pkt_len_err()), (5, 1, 2));
    let lora = sg.lora_stats().unwrap();
    assert_eq!((lora.pkt_rx(), lora.pkt_crc(), lora.pkt_hdr_err()), (5, 1, 2));
    let p = sg.gfsk_packet_status().unwrap();
    assert_eq!((p.status().as_bits(), p.rx_status()), (0x22, 0x07));
    assert_eq!((p.rssi_sync().numer(), p.rssi_avg().numer()), (-40, -48));
    assert_eq!(
        frames(sg),
        vec![
            vec![0x11, 0xFF, 0xFF],
            vec![0x13, 0xFF, 0xFF, 0xFF],
            vec![0x12, 0xFF, 0xFF, 0xFF],
            vec![0x17, 0xFF, 0xFF, 0xFF],
            vec![0x10, 0xFF, 0xFF, 0xFF, 0xFF, 0xFF, 0xFF, 0xFF],
            vec![0x10, 0xFF, 0xFF, 0xFF, 0xFF, 0xFF, 0xFF, 0xFF],
            vec![0x14, 0xFF, 0xFF, 0xFF, 0xFF],
        ]
    );
}

#[test]
fn unknown_packet_type_is_reported() {
    let mut sg = radio(&[0, 0x22, 0x09]);
    assert_eq!(sg.packet_type(), Ok(Err(9)));
}

#[test]
fn rfbusys_reads_the_busy_signal() {
    let mut sg = radio(&[]);
    assert!(!sg.rfbusys());
    assert!(frames(sg).is_empty());
}
