//! airfrog: decoding of ARM SWD debug-port state, STM32 and RP2040 device
//! identification, and the decisions that drive an SWD debug probe.
//!
//! - `arm`: Cortex core types and the DP, AP and MEM-AP register values.
//! - `rp` and `stm`: RP2040/RP2350 and STM32 device details, STM32 flash
//!   controller registers and flash geometry.
//! - `swd`: SWD operations and command encoding, and the connection state of
//!   an SWD interface with the decisions taken on each step of a transfer.
//! - `debug`: the debug interface on top of it, with the flash programming
//!   decisions for the STM32F4 and STM32G0.

use vstd::prelude::*;

pub mod arm;
pub mod debug;
pub mod rp;
pub mod stm;
pub mod swd;
pub mod text;

use crate::arm::dp::IdCode;
use crate::rp::RpDetails;
use crate::stm::StmDetails;

verus! {

/// The MCU found on the far side of the SWD link.
#[derive(Debug, Clone, Copy, PartialEq, Eq)]
pub enum Mcu {
    /// An STM32 device
    Stm32(StmDetails),
    /// A Raspberry Pi RPxxxx device
    Rp(RpDetails),
    /// An MCU that was not identified, with the IDCODE it reported
    Unknown(IdCode),
}

} // verus!
