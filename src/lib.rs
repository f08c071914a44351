//! Driver for the sub-GHz radio of the STM32WL: the command protocol, its
//! framing rules, and the encoders and decoders of every parameter block and
//! status structure the radio understands.
//!
//! The driver talks to the radio through a [`Transport`], implemented once
//! per platform; everything above it is independent of the hardware.

use vstd::prelude::*;

pub mod board;
pub mod bytes;
pub mod calibrate;
pub mod commands;
pub mod irq;
pub mod mod_params;
pub mod modes;
pub mod op_error;
pub mod opcode;
pub mod pa_config;
pub mod packet_params;
pub mod packet_status;
pub mod packet_type;
pub mod rf_frequency;
pub mod rtc;
pub mod stats;
pub mod status;
pub mod tcxo_mode;
pub mod timeout;
pub mod transport;

pub use board::{Level, OutputPin, RfSwitch, D5};
pub use calibrate::{Calibrate, CalibrateImage};
pub use irq::{CfgDioIrq, Irq, IrqLine};
pub use mod_params::{CodingRate, LoRaBandwidth, LoRaModParams, SpreadingFactor};
pub use mod_params::{GfskBandwidth, GfskBitrate, GfskFdev, GfskModParams, GfskPulseShape};
pub use modes::{RegMode, RxTimeoutStop, StandbyClk};
pub use op_error::OpError;
pub use opcode::{OpCode, Register};
pub use pa_config::{Ocp, PaConfig, PaSel, RampTime};
pub use packet_params::{AddrComp, CrcType, GenericPacketParams, PayloadType, PreambleDetection};
pub use packet_status::{GfskPacketStatus, Rational};
pub use packet_type::PacketType;
pub use rf_frequency::RfFreq;
pub use stats::{FskStats, LoRaStats, Stats};
pub use status::{CmdStatus, Status, StatusMode};
pub use tcxo_mode::{TcxoMode, TcxoTrim};
pub use timeout::Timeout;
pub use transport::{SubGhz, SubGhzError, Transport};

verus! {

} // verus!
