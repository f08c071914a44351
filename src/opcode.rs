//! Command opcodes and register addresses of the radio's serial protocol.

use vstd::prelude::*;

verus! {

/// Command opcode, the first byte of every frame.
#[derive(Clone, Copy, Debug, PartialEq, Eq, Hash, Structural)]
pub enum OpCode {
    /// Calibrate internal blocks.
    Calibrate,
    /// Calibrate the image rejection for a band.
    CalibrateImage,
    /// Configure the IRQ masks of each line.
    CfgDioIrq,
    /// Clear the operational errors.
    ClrError,
    /// Clear IRQ status bits.
    ClrIrqStatus,
    /// Read the operational errors.
    GetError,
    /// Read the IRQ status.
    GetIrqStatus,
    /// Read the status of the last packet.
    GetPacketStatus,
    /// Read the packet type.
    GetPacketType,
    /// Read the instantaneous RSSI.
    GetRssiInst,
    /// Read the RX buffer status.
    GetRxBufferStatus,
    /// Read the packet statistics.
    GetStats,
    /// Read the radio status.
    GetStatus,
    /// Read the data buffer.
    ReadBuffer,
    /// Read a register.
    ReadRegister,
    /// Reset the packet statistics.
    ResetStats,
    /// Set the TX and RX buffer base addresses.
    SetBufferBaseAddress,
    /// Start channel activity detection.
    SetCad,
    /// Set the channel activity detection parameters.
    SetCadParams,
    /// Enter frequency synthesis mode.
    SetFs,
    /// Set the LoRa symbol timeout.
    SetLoRaSymbTimeout,
    /// Set the modulation parameters.
    SetModulationParams,
    /// Set the packet parameters.
    SetPacketParams,
    /// Set the packet type.
    SetPacketType,
    /// Configure the power amplifier.
    SetPaConfig,
    /// Select the regulator.
    SetRegulatorMode,
    /// Set the carrier frequency.
    SetRfFrequency,
    /// Enter receive mode.
    SetRx,
    /// Enter receive duty-cycle mode.
    SetRxDutyCycle,
    /// Enter sleep mode.
    SetSleep,
    /// Enter standby mode.
    SetStandby,
    /// Select the event that stops the RX timer.
    SetStopRxTimerOnPreamble,
    /// Configure the TCXO.
    SetTcxoMode,
    /// Enter transmit mode.
    SetTx,
    /// Transmit an infinite preamble.
    SetTxContinuousPreamble,
    /// Transmit a continuous wave.
    SetTxContinuousWave,
    /// Set the output power and ramp time.
    SetTxParams,
    /// Select the mode entered after TX or RX.
    SetTxRxFallbackMode,
    /// Write the data buffer.
    WriteBuffer,
    /// Write a register.
    WriteRegister,
}

impl OpCode {
    /// Wire code of the opcode.
    pub open spec fn spec_code(self) -> u8 {
        match self {
            OpCode::Calibrate => 0x89,
            OpCode::CalibrateImage => 0x98,
            OpCode::CfgDioIrq => 0x08,
            OpCode::ClrError => 0x07,
            OpCode::ClrIrqStatus => 0x02,
            OpCode::GetError => 0x17,
            OpCode::GetIrqStatus => 0x12,
            OpCode::GetPacketStatus => 0x14,
            OpCode::GetPacketType => 0x11,
            OpCode::GetRssiInst => 0x15,
            OpCode::GetRxBufferStatus => 0x13,
            OpCode::GetStats => 0x10,
            OpCode::GetStatus => 0xC0,
            OpCode::ReadBuffer => 0x1E,
            OpCode::ReadRegister => 0x1D,
            OpCode::ResetStats => 0x00,
            OpCode::SetBufferBaseAddress => 0x8F,
            OpCode::SetCad => 0xC5,
            OpCode::SetCadParams => 0x88,
            OpCode::SetFs => 0xC1,
            OpCode::SetLoRaSymbTimeout => 0xA0,
            OpCode::SetModulationParams => 0x8B,
            OpCode::SetPacketParams => 0x8C,
            OpCode::SetPacketType => 0x8A,
            OpCode::SetPaConfig => 0x95,
            OpCode::SetRegulatorMode => 0x96,
            OpCode::SetRfFrequency => 0x86,
            OpCode::SetRx => 0x82,
            OpCode::SetRxDutyCycle => 0x94,
            OpCode::SetSleep => 0x84,
            OpCode::SetStandby => 0x80,
            OpCode::SetStopRxTimerOnPreamble => 0x9F,
            OpCode::SetTcxoMode => 0x97,
            OpCode::SetTx => 0x83,
            OpCode::SetTxContinuousPreamble => 0xD2,
            OpCode::SetTxContinuousWave => 0xD1,
            OpCode::SetTxParams => 0x8E,
            OpCode::SetTxRxFallbackMode => 0x93,
            OpCode::WriteBuffer => 0x0E,
            OpCode::WriteRegister => 0x0D,
        }
    }

    /// Wire code of the opcode.
    #[verifier::when_used_as_spec(spec_code)]
    pub fn code(self) -> (r: u8)
        ensures
            r == self.spec_code(),
    {
        match self {
            OpCode::Calibrate => 0x89,
            OpCode::CalibrateImage => 0x98,
            OpCode::CfgDioIrq => 0x08,
            OpCode::ClrError => 0x07,
            OpCode::ClrIrqStatus => 0x02,
            OpCode::GetError => 0x17,
            OpCode::GetIrqStatus => 0x12,
            OpCode::GetPacketStatus => 0x14,
            OpCode::GetPacketType => 0x11,
            OpCode::GetRssiInst => 0x15,
            OpCode::GetRxBufferStatus => 0x13,
            OpCode::GetStats => 0x10,
            OpCode::GetStatus => 0xC0,
            OpCode::ReadBuffer => 0x1E,
            OpCode::ReadRegister => 0x1D,
            OpCode::ResetStats => 0x00,
            OpCode::SetBufferBaseAddress => 0x8F,
            OpCode::SetCad => 0xC5,
            OpCode::SetCadParams => 0x88,
            OpCode::SetFs => 0xC1,
            OpCode::SetLoRaSymbTimeout => 0xA0,
            OpCode::SetModulationParams => 0x8B,
            OpCode::SetPacketParams => 0x8C,
            OpCode::SetPacketType => 0x8A,
            OpCode::SetPaConfig => 0x95,
            OpCode::SetRegulatorMode => 0x96,
            OpCode::SetRfFrequency => 0x86,
            OpCode::SetRx => 0x82,
            OpCode::SetRxDutyCycle => 0x94,
            OpCode::SetSleep => 0x84,
            OpCode::SetStandby => 0x80,
            OpCode::SetStopRxTimerOnPreamble => 0x9F,
            OpCode::SetTcxoMode => 0x97,
            OpCode::SetTx => 0x83,
            OpCode::SetTxContinuousPreamble => 0xD2,
            OpCode::SetTxContinuousWave => 0xD1,
            OpCode::SetTxParams => 0x8E,
            OpCode::SetTxRxFallbackMode => 0x93,
            OpCode::WriteBuffer => 0x0E,
            OpCode::WriteRegister => 0x0D,
        }
    }
}

/// Register reachable through the register read and write commands.
#[derive(Clone, Copy, Debug, PartialEq, Eq, Hash, Structural)]
pub enum Register {
    /// Power amplifier over-current protection.
    PaOcp,
    /// LoRa synchronization word, high byte.
    LSyncH,
    /// LoRa synchronization word, low byte.
    LSyncL,
    /// First of the eight generic synchronization word bytes.
    GSync7,
    /// HSE32 OSC_IN capacitor trim.
    HseInTrim,
    /// HSE32 OSC_OUT capacitor trim.
    HseOutTrim,
}

impl Register {
    /// Wire code of the register address.
    pub open spec fn spec_address(self) -> u16 {
        match self {
            Register::PaOcp => 0x08E7,
            Register::LSyncH => 0x0740,
            Register::LSyncL => 0x0741,
            Register::GSync7 => 0x06C0,
            Register::HseInTrim => 0x0911,
            Register::HseOutTrim => 0x0912,
        }
    }

    /// Wire code of the register address.
    #[verifier::when_used_as_spec(spec_address)]
    pub fn address(self) -> (r: u16)
        ensures
            r == self.spec_address(),
    {
        match self {
            Register::PaOcp => 0x08E7,
            Register::LSyncH => 0x0740,
            Register::LSyncL => 0x0741,
            Register::GSync7 => 0x06C0,
            Register::HseInTrim => 0x0911,
            Register::HseOutTrim => 0x0912,
        }
    }
}

} // verus!
