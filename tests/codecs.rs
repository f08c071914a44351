use stm32wl_hal_subghz::{
    AddrComp, Calibrate, CalibrateImage, CmdStatus, CrcType, FskStats, GenericPacketParams,
    GfskBandwidth, GfskBitrate, GfskFdev, GfskModParams, GfskPacketStatus, GfskPulseShape, Irq,
    LoRaStats, OpCode, OpError, PaConfig, PaSel, PacketType, PayloadType, PreambleDetection,
    RampTime, Register, RfFreq, Stats, Status, StatusMode, TcxoMode, TcxoTrim, Timeout,
};

#[test]
fn timeout_from_nanos_rounds_to_nearest_step() {
    assert_eq!(Timeout::from_nanos_sat(0).into_bits(), 0);
    assert_eq!(Timeout::from_nanos_sat(7_812).into_bits(), 0);
    assert_eq!(Timeout::from_nanos_sat(7_813).into_bits(), 1);
    assert_eq!(Timeout::from_nanos_sat(15_625).into_bits(), 1);
    assert_eq!(Timeout::from_nanos_sat(1_000_000_000).into_bits(), 64_000);
    assert_eq!(Timeout::from_nanos_sat(10_000_000).as_bytes(), [0x00, 0x02, 0x80]);
}

#[test]
fn timeout_saturates_instead_of_wrapping() {
    assert_eq!(Timeout::from_nanos_sat(u64::MAX).into_bits(), 0x00FF_FFFF);
    assert_eq!(Timeout::from_nanos_sat(262_143_984_375 + 1_000_000).into_bits(), 0x00FF_FFFF);
    assert_eq!(Timeout::max().as_bytes(), [0xFF, 0xFF, 0xFF]);
    assert_eq!(Timeout::max().as_nanos(), 262_143_984_375);
}

#[test]
fn timeout_round_trip_within_half_a_step() {
    for nanos in [0u64, 1, 7_812, 7_813, 15_624, 99_999, 123_456_789, 262_143_984_375] {
        let back = Timeout::from_nanos_sat(nanos).as_nanos();
        assert!((back as i128 - nanos as i128).abs() <= 7_812, "{nanos}");
    }
}

#[test]
fn timeout_sentinels() {
    assert_eq!(Timeout::disabled().into_bits(), 0);
    assert_eq!(Timeout::min().into_bits(), 1);
    assert_eq!(Timeout::min().as_nanos(), 15_625);
}

#[test]
fn rf_frequency_words_of_the_ism_bands() {
    assert_eq!(RfFreq::from_frequency(868_000_000).rf(), 0x3640_0000);
    assert_eq!(RfFreq::from_frequency(433_000_000).rf(), 0x1B10_0000);
    assert_eq!(RfFreq::f868().freq(), 868_000_000);
    assert_eq!(RfFreq::f433().freq(), 433_000_000);
    assert_eq!(RfFreq::f915().as_slice(), &[0x86, 0x39, 0x30, 0x00, 0x00]);
    assert_eq!(RfFreq::from_raw(0x0102_0304).as_slice(), &[0x86, 0x01, 0x02, 0x03, 0x04]);
}

#[test]
fn rf_frequency_rounds_to_nearest_word() {
    // 1 Hz is 1.048576 steps.
    assert_eq!(RfFreq::from_frequency(1).rf(), 1);
    assert_eq!(RfFreq::from_frequency(2).rf(), 2);
    assert_eq!(RfFreq::from_frequency(3).rf(), 3);
    assert_eq!(RfFreq::from_frequency(10).rf(), 10);
    assert_eq!(RfFreq::from_frequency(4_095_999_999).freq(), 4_095_999_999);
}

#[test]
fn status_decode_is_total_and_flags_reserved_codes() {
    for b in 0..=255u8 {
        let s = Status::from(b);
        assert_eq!(s.as_bits(), b);
        let mode = (b >> 4) & 0b111;
        let cmd = (b >> 1) & 0b111;
        match s.mode() {
            StatusMode::Reserved(code) => {
                assert_eq!(code, mode);
                assert!(mode < 2 || mode == 7);
            }
            _ => assert!((2..=6).contains(&mode)),
        }
        match s.cmd() {
            CmdStatus::Reserved(code) => {
                assert_eq!(code, cmd);
                assert!(cmd < 2 || cmd == 7);
            }
            _ => assert!((2..=6).contains(&cmd)),
        }
    }
}

#[test]
fn status_fields_of_each_defined_code() {
    assert_eq!(Status::from_raw(0x20).mode(), StatusMode::StandbyRc);
    assert_eq!(Status::from_raw(0x30).mode(), StatusMode::StandbyHse);
    assert_eq!(Status::from_raw(0x40).mode(), StatusMode::Fs);
    assert_eq!(Status::from_raw(0x50).mode(), StatusMode::Rx);
    assert_eq!(Status::from_raw(0x60).mode(), StatusMode::Tx);
    assert_eq!(Status::from_raw(0x04).cmd(), CmdStatus::Available);
    assert_eq!(Status::from_raw(0x06).cmd(), CmdStatus::Timeout);
    assert_eq!(Status::from_raw(0x08).cmd(), CmdStatus::ProcessingError);
    assert_eq!(Status::from_raw(0x0A).cmd(), CmdStatus::ExecutionFailure);
    assert_eq!(Status::from_raw(0x0C).cmd(), CmdStatus::Complete);
    assert_eq!(Status::from_raw(0x7E).mode(), StatusMode::Reserved(7));
    assert_eq!(Status::from_raw(0x7E).cmd(), CmdStatus::Reserved(7));
    assert_ne!(StatusMode::Reserved(2), StatusMode::StandbyRc);
}

#[test]
fn stats_decode_both_ways() {
    let raw = [0x52, 0x01, 0x02, 0x00, 0x03, 0x10, 0x00];
    let fsk: Stats<FskStats> = Stats::from_raw_fsk(raw);
    assert_eq!(fsk.status().as_bits(), 0x52);
    assert_eq!(fsk.pkt_rx(), 0x0102);
    assert_eq!(fsk.pkt_crc(), 3);
    assert_eq!(fsk.pkt_len_err(), 0x1000);
    let lora: Stats<LoRaStats> = Stats::from_raw_lora(raw);
    assert_eq!(lora.pkt_rx(), 0x0102);
    assert_eq!(lora.pkt_crc(), 3);
    assert_eq!(lora.pkt_hdr_err(), 0x1000);
    let max = Stats::from_raw_lora([0xFF; 7]);
    assert_eq!(max.pkt_rx(), u16::MAX);
}

#[test]
fn gfsk_packet_status_fields() {
    let p = GfskPacketStatus::from_raw([0x54, 0x02, 0x29, 0x00]);
    assert_eq!(p.status().as_bits(), 0x54);
    assert_eq!(p.rx_status(), 0x02);
    let sync = p.rssi_sync();
    assert_eq!((sync.numer(), sync.denom()), (-41, 2));
    let avg = p.rssi_avg();
    assert_eq!((avg.numer(), avg.denom()), (0, 1));
    let max = GfskPacketStatus::from_raw([0, 0, 0xFF, 0xFE]);
    assert_eq!((max.rssi_sync().numer(), max.rssi_sync().denom()), (-255, 2));
    assert_eq!((max.rssi_avg().numer(), max.rssi_avg().denom()), (-127, 1));
}

#[test]
fn gfsk_mod_params_frame() {
    let p = GfskModParams::new()
        .set_bitrate(GfskBitrate::from_bps(32_000))
        .set_pulse_shape(GfskPulseShape::Bt03)
        .set_bandwidth(GfskBandwidth::Bw9)
        .set_fdev(GfskFdev::from_hertz(31_250));
    assert_eq!(p.as_slice(), &[0x8B, 0x00, 0x7D, 0x00, 0x08, 0x1E, 0x00, 0x80, 0x00]);
}

#[test]
fn gfsk_fields_saturate() {
    assert_eq!(GfskBitrate::from_bps(0).into_bits(), 0x00FF_FFFF);
    assert_eq!(GfskBitrate::from_bps(1).into_bits(), 0x00FF_FFFF);
    assert_eq!(GfskBitrate::from_bps(1_024_000_000).into_bits(), 1);
    assert_eq!(GfskFdev::from_hertz(u32::MAX).into_bits(), 0x00FF_FFFF);
    assert_eq!(GfskFdev::from_hertz(0).into_bits(), 0);
}

#[test]
fn generic_packet_params_frame() {
    let p = GenericPacketParams::new()
        .set_preamble_len(0x0120)
        .set_preamble_detection(PreambleDetection::Bit16)
        .set_sync_word_len(200)
        .set_addr_comp(AddrComp::Broadcast)
        .set_payload_type(PayloadType::Variable)
        .set_payload_len(0x40)
        .set_crc_type(CrcType::Byte2Inverted)
        .set_whitening_enable(true);
    assert_eq!(p.as_slice(), &[0x8C, 0x01, 0x20, 0x05, 0x40, 0x02, 0x01, 0x40, 0x06, 0x01]);
    assert_eq!(GenericPacketParams::new().set_sync_word_len(24).as_slice()[4], 24);
}

#[test]
fn pa_config_frame_keeps_three_bits() {
    let p = PaConfig::new().set_pa_duty_cycle(0x0C).set_hp_max(0x0F).set_pa(PaSel::Hp);
    assert_eq!(p.as_slice(), &[0x95, 0x04, 0x07, 0x00, 0x01]);
    assert_eq!(PaConfig::new().as_slice(), &[0x95, 0x01, 0x00, 0x01, 0x01]);
}

#[test]
fn tcxo_mode_frame() {
    let t = TcxoMode::new()
        .set_txco_trim(TcxoTrim::Volts1pt7)
        .set_timeout(Timeout::from_nanos_sat(10_000_000));
    assert_eq!(t.as_slice(), &[0x97, 0x01, 0x00, 0x02, 0x80]);
}

#[test]
fn ramp_time_maps_both_ways() {
    assert_eq!(u8::from(RampTime::Micros3400), 0x07);
    assert_eq!(RampTime::Micros10.bits(), 0x00);
    assert_eq!(RampTime::Micros1700.micros(), 1700);
    assert_eq!(RampTime::from_bits(5), Ok(RampTime::Micros800));
    assert_eq!(RampTime::from_bits(8), Err(8));
    assert_eq!(RampTime::from_micros(200), Some(RampTime::Micros200));
    assert_eq!(RampTime::from_micros(300), None);
}

#[test]
fn packet_type_codes() {
    assert_eq!(PacketType::LoRa.bits(), 1);
    assert_eq!(PacketType::from_bits(3), Ok(PacketType::Msk));
    assert_eq!(PacketType::from_bits(4), Err(4));
}

#[test]
fn masks_and_addresses() {
    assert_eq!(Irq::Timeout.mask(), 0x0200);
    assert_eq!(Irq::TxDone.mask() | Irq::RxDone.mask(), 0x0003);
    assert_eq!(OpError::PaRampErr.mask(), 0x0100);
    assert_eq!(Calibrate::Rc13M.mask() | Calibrate::Pll.mask(), 0x06);
    assert_eq!(Register::PaOcp.address(), 0x08E7);
    assert_eq!(Register::GSync7.address(), 0x06C0);
    assert_eq!(OpCode::GetStatus.code(), 0xC0);
    assert_eq!(CalibrateImage::ism_430_440(), CalibrateImage(0x6B, 0x6F));
    assert_eq!(CalibrateImage::new(1, 2), CalibrateImage(1, 2));
}
