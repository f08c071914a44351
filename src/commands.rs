//! The radio's command surface. Each command is one transaction; each query
//! decodes what the radio returns, starting with its status byte.

use vstd::prelude::*;

use crate::bytes::{be16, be16_bytes, be24, from_be16, u16_from_be};
use crate::calibrate::CalibrateImage;
use crate::irq::{irq_frame, CfgDioIrq};
use crate::mod_params::{GfskModParams, LoRaModParams};
use crate::modes::{RegMode, RxTimeoutStop, StandbyClk};
use crate::opcode::{OpCode, Register};
use crate::pa_config::{Ocp, PaConfig, RampTime};
use crate::packet_params::GenericPacketParams;
use crate::packet_status::{rssi_dbm, rssi_from_raw, GfskPacketStatus, Rational};
use crate::packet_type::PacketType;
use crate::rf_frequency::{rf_frame, RfFreq};
use crate::stats::{counters, FskStats, LoRaStats, Stats};
use crate::status::Status;
use crate::tcxo_mode::TcxoMode;
use crate::timeout::Timeout;
use crate::transport::{
    last_miso, outcome, read_frame, write_register_frame, SubGhz, SubGhzError, Transport,
};

verus! {

/// Value of two bytes, least significant first.
pub open spec fn from_le16(lo: u8, hi: u8) -> u16 {
    (hi as nat * 0x100 + lo as nat) as u16
}

/// Register and configuration commands.
impl<T: Transport> SubGhz<T> {
    /// Sets the HSE32 capacitor trim register.
    pub fn set_hse_in_trim(&mut self, in_trimr: u8) -> (r: Result<(), SubGhzError>)
        ensures
            outcome(r, *old(self), *final(self), write_register_frame(0x0912, seq![in_trimr])),
    {
        let data: [u8; 1] = [in_trimr];
        proof {
            assert(data@ =~= seq![in_trimr]);
        }
        self.write_register(Register::HseOutTrim, data.as_slice())
    }

    /// Sets the LoRa synchronization word.
    pub fn set_lora_sync_word(&mut self, sync_word: u16) -> (r: Result<(), SubGhzError>)
        ensures
            outcome(r, *old(self), *final(self), write_register_frame(0x0740, be16(sync_word as nat))),
    {
        let data: [u8; 2] = be16_bytes(sync_word);
        self.write_register(Register::LSyncH, data.as_slice())
    }

    /// Sets the power amplifier over-current protection.
    pub fn set_pa_ocp(&mut self, ocp: Ocp) -> (r: Result<(), SubGhzError>)
        ensures
            outcome(r, *old(self), *final(self), write_register_frame(0x08E7, seq![ocp.bits()])),
    {
        let data: [u8; 1] = [ocp.bits()];
        proof {
            assert(data@ =~= seq![ocp.bits()]);
        }
        self.write_register(Register::PaOcp, data.as_slice())
    }

    /// Sets the eight generic synchronization word registers.
    pub fn set_sync_word(&mut self, sync_word: [u8; 8]) -> (r: Result<(), SubGhzError>)
        ensures
            outcome(r, *old(self), *final(self), write_register_frame(0x06C0, sync_word@)),
    {
        self.write_register(Register::GSync7, sync_word.as_slice())
    }
}

/// Operating mode commands.
impl<T: Transport> SubGhz<T> {
    /// Puts the radio in standby, running on `standby_clk`.
    pub fn set_standby(&mut self, standby_clk: StandbyClk) -> (r: Result<(), SubGhzError>)
        ensures
            outcome(r, *old(self), *final(self), seq![0x80u8, standby_clk.bits()]),
    {
        let f: [u8; 2] = [OpCode::SetStandby.code(), standby_clk.bits()];
        proof {
            assert(f@ =~= seq![0x80u8, standby_clk.bits()]);
        }
        self.write(f.as_slice())
    }

    /// Puts the radio in transmit mode, with `timeout`.
    pub fn set_tx(&mut self, timeout: Timeout) -> (r: Result<(), SubGhzError>)
        ensures
            outcome(r, *old(self), *final(self), seq![0x83u8] + be24(timeout@)),
    {
        let t: [u8; 3] = timeout.as_bytes();
        let f: [u8; 4] = [OpCode::SetTx.code(), t[0], t[1], t[2]];
        proof {
            assert(f@ =~= seq![0x83u8] + be24(timeout@));
        }
        self.write(f.as_slice())
    }

    /// Puts the radio in receive mode, with `timeout`.
    pub fn set_rx(&mut self, timeout: Timeout) -> (r: Result<(), SubGhzError>)
        ensures
            outcome(r, *old(self), *final(self), seq![0x82u8] + be24(timeout@)),
    {
        let t: [u8; 3] = timeout.as_bytes();
        let f: [u8; 4] = [OpCode::SetRx.code(), t[0], t[1], t[2]];
        proof {
            assert(f@ =~= seq![0x82u8] + be24(timeout@));
        }
        self.write(f.as_slice())
    }

    /// Selects the receiver event that stops the RX timeout timer.
    pub fn set_rx_timeout_stop(&mut self, rx_timeout_stop: RxTimeoutStop) -> (r: Result<(), SubGhzError>)
        ensures
            outcome(r, *old(self), *final(self), seq![0x9Fu8, rx_timeout_stop.bits()]),
    {
        let f: [u8; 2] = [OpCode::SetStopRxTimerOnPreamble.code(), rx_timeout_stop.bits()];
        proof {
            assert(f@ =~= seq![0x9Fu8, rx_timeout_stop.bits()]);
        }
        self.write(f.as_slice())
    }

    /// Transmits a continuous wave.
    pub fn set_tx_continuous_wave(&mut self) -> (r: Result<(), SubGhzError>)
        ensures
            outcome(r, *old(self), *final(self), seq![0xD1u8]),
    {
        let f: [u8; 1] = [OpCode::SetTxContinuousWave.code()];
        proof {
            assert(f@ =~= seq![0xD1u8]);
        }
        self.write(f.as_slice())
    }
}

/// Radio configuration commands.
impl<T: Transport> SubGhz<T> {
    /// Selects the packet type. Commands specific to one packet type must
    /// follow the matching selection; the driver does not check that.
    pub fn set_packet_type(&mut self, packet_type: PacketType) -> (r: Result<(), SubGhzError>)
        ensures
            outcome(r, *old(self), *final(self), seq![0x8Au8, packet_type.bits()]),
    {
        let f: [u8; 2] = [OpCode::SetPacketType.code(), packet_type.bits()];
        proof {
            assert(f@ =~= seq![0x8Au8, packet_type.bits()]);
        }
        self.write(f.as_slice())
    }

    /// Reads the packet type; an unknown code is returned as the inner error.
    pub fn packet_type(&mut self) -> (r: Result<Result<PacketType, u8>, SubGhzError>)
        ensures
            outcome(r, *old(self), *final(self), read_frame(0x11, 2)),
            r matches Ok(t) ==> t == PacketType::spec_from_bits(last_miso(final(self).log())[2]),
    {
        let data: Vec<u8> = self.read(OpCode::GetPacketType, 2)?;
        Ok(PacketType::from_bits(data[1]))
    }

    /// Sets the carrier frequency.
    pub fn set_rf_frequency(&mut self, freq: &RfFreq) -> (r: Result<(), SubGhzError>)
        ensures
            outcome(r, *old(self), *final(self), rf_frame(freq@)),
    {
        self.write(freq.as_slice())
    }

    /// Sets the output power and the power amplifier ramp time.
    pub fn set_tx_params(&mut self, power: u8, ramp_time: RampTime) -> (r: Result<(), SubGhzError>)
        ensures
            outcome(r, *old(self), *final(self), seq![0x8Eu8, power, ramp_time.bits()]),
    {
        let f: [u8; 3] = [OpCode::SetTxParams.code(), power, ramp_time.bits()];
        proof {
            assert(f@ =~= seq![0x8Eu8, power, ramp_time.bits()]);
        }
        self.write(f.as_slice())
    }

    /// Configures the power amplifier.
    pub fn set_pa_config(&mut self, pa_config: &PaConfig) -> (r: Result<(), SubGhzError>)
        ensures
            outcome(r, *old(self), *final(self), pa_config@),
    {
        self.write(pa_config.as_slice())
    }

    /// Sets where packets start in the TX and RX halves of the data buffer.
    pub fn set_buffer_base_address(&mut self, tx: u8, rx: u8) -> (r: Result<(), SubGhzError>)
        ensures
            outcome(r, *old(self), *final(self), seq![0x8Fu8, tx, rx]),
    {
        let f: [u8; 3] = [OpCode::SetBufferBaseAddress.code(), tx, rx];
        proof {
            assert(f@ =~= seq![0x8Fu8, tx, rx]);
        }
        self.write(f.as_slice())
    }

    /// Sets the (G)FSK modulation parameters.
    pub fn set_gfsk_mod_params(&mut self, params: &GfskModParams) -> (r: Result<(), SubGhzError>)
        ensures
            outcome(r, *old(self), *final(self), params@),
    {
        self.write(params.as_slice())
    }

    /// Sets the LoRa modulation parameters.
    pub fn set_lora_mod_params(&mut self, params: &LoRaModParams) -> (r: Result<(), SubGhzError>)
        ensures
            outcome(r, *old(self), *final(self), params@),
    {
        self.write(params.as_slice())
    }

    /// Sets the generic packet parameters.
    pub fn set_packet_params(&mut self, params: &GenericPacketParams) -> (r: Result<(), SubGhzError>)
        ensures
            outcome(r, *old(self), *final(self), params@),
    {
        self.write(params.as_slice())
    }
}

/// Status and information commands.
impl<T: Transport> SubGhz<T> {
    /// Reads the radio status.
    pub fn status(&mut self) -> (r: Result<Status, SubGhzError>)
        ensures
            outcome(r, *old(self), *final(self), read_frame(0xC0, 1)),
            r matches Ok(s) ==> s@ == last_miso(final(self).log())[1],
    {
        let data: Vec<u8> = self.read(OpCode::GetStatus, 1)?;
        Ok(Status::from_raw(data[0]))
    }

    /// Reads the RX buffer status: the radio status, the length of the last
    /// payload, and where it starts in the buffer.
    pub fn rx_buffer_status(&mut self) -> (r: Result<(Status, u8, u8), SubGhzError>)
        ensures
            outcome(r, *old(self), *final(self), read_frame(0x13, 3)),
            r matches Ok(v) ==> ({
                let m = last_miso(final(self).log());
                v.0@ == m[1] && v.1 == m[2] && v.2 == m[3]
            }),
    {
        let data: Vec<u8> = self.read(OpCode::GetRxBufferStatus, 3)?;
        Ok((Status::from_raw(data[0]), data[1], data[2]))
    }

    /// Reads the status of the last (G)FSK packet.
    pub fn gfsk_packet_status(&mut self) -> (r: Result<GfskPacketStatus, SubGhzError>)
        ensures
            outcome(r, *old(self), *final(self), read_frame(0x14, 4)),
            r matches Ok(p) ==> p@ == last_miso(final(self).log()).subrange(1, 5),
    {
        let data: Vec<u8> = self.read(OpCode::GetPacketStatus, 4)?;
        let buf: [u8; 4] = [data[0], data[1], data[2], data[3]];
        proof {
            assert(buf@ =~= last_miso(self.log()).subrange(1, 5));
        }
        Ok(GfskPacketStatus::from_raw(buf))
    }

    /// Reads the instantaneous signal strength, in dBm, with the status.
    pub fn rssi_inst(&mut self) -> (r: Result<(Status, Rational), SubGhzError>)
        ensures
            outcome(r, *old(self), *final(self), read_frame(0x15, 2)),
            r matches Ok(v) ==> ({
                let m = last_miso(final(self).log());
                v.0@ == m[1] && v.1@ == rssi_dbm(m[2])
            }),
    {
        let data: Vec<u8> = self.read(OpCode::GetRssiInst, 2)?;
        Ok((Status::from_raw(data[0]), rssi_from_raw(data[1])))
    }

    /// Reads the packet statistics as (G)FSK statistics.
    pub fn fsk_stats(&mut self) -> (r: Result<Stats<FskStats>, SubGhzError>)
        ensures
            outcome(r, *old(self), *final(self), read_frame(0x10, 7)),
            r matches Ok(s) ==> ({
                let d = last_miso(final(self).log()).drop_first();
                s.spec_fields() == (d[0], counters(d).0, counters(d).1, counters(d).2)
            }),
    {
        let data: Vec<u8> = self.read(OpCode::GetStats, 7)?;
        let raw: [u8; 7] = [data[0], data[1], data[2], data[3], data[4], data[5], data[6]];
        proof {
            assert(raw@ =~= data@);
        }
        Ok(Stats::from_raw_fsk(raw))
    }

    /// Reads the packet statistics as LoRa statistics.
    pub fn lora_stats(&mut self) -> (r: Result<Stats<LoRaStats>, SubGhzError>)
        ensures
            outcome(r, *old(self), *final(self), read_frame(0x10, 7)),
            r matches Ok(s) ==> ({
                let d = last_miso(final(self).log()).drop_first();
                s.spec_fields() == (d[0], counters(d).0, counters(d).1, counters(d).2)
            }),
    {
        let data: Vec<u8> = self.read(OpCode::GetStats, 7)?;
        let raw: [u8; 7] = [data[0], data[1], data[2], data[3], data[4], data[5], data[6]];
        proof {
            assert(raw@ =~= data@);
        }
        Ok(Stats::from_raw_lora(raw))
    }

    /// Resets the packet statistics.
    pub fn reset_stats(&mut self) -> (r: Result<(), SubGhzError>)
        ensures
            outcome(r, *old(self), *final(self), seq![0x00u8, 0, 0, 0, 0, 0, 0]),
    {
        let f: [u8; 7] = [OpCode::ResetStats.code(), 0, 0, 0, 0, 0, 0];
        proof {
            assert(f@ =~= seq![0x00u8, 0, 0, 0, 0, 0, 0]);
        }
        self.write(f.as_slice())
    }
}

/// IRQ commands.
impl<T: Transport> SubGhz<T> {
    /// Applies an IRQ configuration.
    pub fn set_irq_cfg(&mut self, cfg: &CfgDioIrq) -> (r: Result<(), SubGhzError>)
        ensures
            outcome(r, *old(self), *final(self), irq_frame(cfg@)),
    {
        let f: [u8; 9] = cfg.as_bytes();
        self.write(f.as_slice())
    }

    /// Reads the IRQ status: the radio status and the pending sources.
    pub fn irq_status(&mut self) -> (r: Result<(Status, u16), SubGhzError>)
        ensures
            outcome(r, *old(self), *final(self), read_frame(0x12, 3)),
            r matches Ok(v) ==> ({
                let m = last_miso(final(self).log());
                v.0@ == m[1] && v.1 == from_be16(m[2], m[3])
            }),
    {
        let data: Vec<u8> = self.read(OpCode::GetIrqStatus, 3)?;
        Ok((Status::from_raw(data[0]), u16_from_be(data[1], data[2])))
    }

    /// Clears the IRQ sources set in `mask`.
    pub fn clear_irq_status(&mut self, mask: u16) -> (r: Result<(), SubGhzError>)
        ensures
            outcome(r, *old(self), *final(self), seq![0x02u8] + be16(mask as nat)),
    {
        let m: [u8; 2] = be16_bytes(mask);
        let f: [u8; 3] = [OpCode::ClrIrqStatus.code(), m[0], m[1]];
        proof {
            assert(f@ =~= seq![0x02u8] + be16(mask as nat));
        }
        self.write(f.as_slice())
    }
}

/// Miscellaneous commands.
impl<T: Transport> SubGhz<T> {
    /// Calibrates the blocks selected in `cal`, a union of calibration
    /// masks. Bit 7 is reserved and always sent as zero. The radio raises
    /// busy while it calibrates; this call does not wait for the end.
    pub fn calibrate(&mut self, cal: u8) -> (r: Result<(), SubGhzError>)
        ensures
            outcome(r, *old(self), *final(self), seq![0x89u8, (cal % 0x80) as u8]),
    {
        let f: [u8; 2] = [OpCode::Calibrate.code(), cal % 0x80];
        proof {
            assert(f@ =~= seq![0x89u8, (cal % 0x80) as u8]);
        }
        self.write(f.as_slice())
    }

    /// Calibrates the image rejection for a band.
    pub fn calibrate_image(&mut self, cal: CalibrateImage) -> (r: Result<(), SubGhzError>)
        ensures
            outcome(r, *old(self), *final(self), seq![0x98u8, cal.0, cal.1]),
    {
        let f: [u8; 3] = [OpCode::CalibrateImage.code(), cal.0, cal.1];
        proof {
            assert(f@ =~= seq![0x98u8, cal.0, cal.1]);
        }
        self.write(f.as_slice())
    }

    /// Selects the regulator that supplies the radio.
    pub fn set_regulator_mode(&mut self, reg_mode: RegMode) -> (r: Result<(), SubGhzError>)
        ensures
            outcome(r, *old(self), *final(self), seq![0x96u8, reg_mode.bits()]),
    {
        let f: [u8; 2] = [OpCode::SetRegulatorMode.code(), reg_mode.bits()];
        proof {
            assert(f@ =~= seq![0x96u8, reg_mode.bits()]);
        }
        self.write(f.as_slice())
    }

    /// Reads the operational errors: the radio status and a mask of error
    /// flags, which the driver never clears by itself.
    pub fn op_error(&mut self) -> (r: Result<(Status, u16), SubGhzError>)
        ensures
            outcome(r, *old(self), *final(self), read_frame(0x17, 3)),
            r matches Ok(v) ==> ({
                let m = last_miso(final(self).log());
                v.0@ == m[1] && v.1 == from_le16(m[2], m[3])
            }),
    {
        let data: Vec<u8> = self.read(OpCode::GetError, 3)?;
        Ok((Status::from_raw(data[0]), u16_from_be(data[2], data[1])))
    }

    /// Clears every operational error.
    pub fn clear_error(&mut self) -> (r: Result<(), SubGhzError>)
        ensures
            outcome(r, *old(self), *final(self), seq![0x07u8, 0x00]),
    {
        let f: [u8; 2] = [OpCode::ClrError.code(), 0x00];
        proof {
            assert(f@ =~= seq![0x07u8, 0x00]);
        }
        self.write(f.as_slice())
    }

    /// Sets the TCXO supply voltage and start-up timeout.
    pub fn set_tcxo_mode(&mut self, tcxo_mode: &TcxoMode) -> (r: Result<(), SubGhzError>)
        ensures
            outcome(r, *old(self), *final(self), tcxo_mode@),
    {
        self.write(tcxo_mode.as_slice())
    }
}

} // verus!
