//! Raspberry Pi (RPxxxx) specific objects.

use vstd::prelude::*;

use crate::arm::ap::{Idr, IDR_AHB_AP_CORTEX_M0, IDR_AHB_AP_CORTEX_M33};
use crate::arm::dp::IdCode;
use crate::arm::{cortex_from_idcode_value, Cortex};

verus! {

/// RP2040 flash base address
pub const RP2040_FLASH_BASE: u32 = 0x1000_0000;
/// RP2040 RAM base address
pub const RP2040_RAM_BASE: u32 = 0x2000_0000;
/// RP2350 flash base address
pub const RP2350_FLASH_BASE: u32 = 0x1000_0000;
/// RP2350 RAM base address
pub const RP2350_RAM_BASE: u32 = 0x2000_0000;

/// RP2040 chip ID
pub const RP2040_CHIP_ID: u32 = 0x10002927;
/// Address of the RP2040 chip ID register
pub const RP2040_CHIP_ID_ADDR: u32 = 0x40000000;

/// RP2040 CPU ID
pub const RP2040_CPU_ID: u32 = 0x410CC601;
/// Address of the RP2040 CPU ID register
pub const RP2040_CPU_ID_ADDR: u32 = 0xE000ED00;

/// RP product line
#[derive(Debug, Clone, Copy, PartialEq, Eq, Structural)]
pub enum RpLine {
    Rp2040,
    Rp2350,
    Unknown,
}

/// RAM size in KB of each RP line.
pub open spec fn rp_ram_size_kb(line: RpLine) -> Option<u32> {
    match line {
        RpLine::Rp2040 => Some(264u32),
        RpLine::Rp2350 => Some(512u32),
        RpLine::Unknown => None,
    }
}

/// The MEM-AP IDR expected on each RP line.
pub open spec fn rp_expected_idr(line: RpLine) -> Option<Idr> {
    match line {
        RpLine::Rp2040 => Some(Idr(IDR_AHB_AP_CORTEX_M0)),
        RpLine::Rp2350 => Some(Idr(IDR_AHB_AP_CORTEX_M33)),
        RpLine::Unknown => None,
    }
}

/// The display name of each RP line.
pub open spec fn rp_line_name(line: RpLine) -> Seq<char> {
    match line {
        RpLine::Rp2040 => "RP2040"@,
        RpLine::Rp2350 => "RP2350"@,
        RpLine::Unknown => "Unknown"@,
    }
}

/// The RP line a DPIDR IDCODE identifies: a Cortex-M0(+) is an RP2040, a
/// Cortex-M33 an RP2350.
pub open spec fn rp_line_from_idcode_value(v: u32) -> Option<RpLine> {
    if v == Cortex::IDCODE_M0 || v == Cortex::IDCODE_M0_PLUS {
        Some(RpLine::Rp2040)
    } else if v == Cortex::IDCODE_M33 {
        Some(RpLine::Rp2350)
    } else {
        None
    }
}

impl RpLine {
    /// Whether this RP family is a known one
    pub fn known(&self) -> (r: bool)
        ensures
            r == (*self != RpLine::Unknown),
    {
        !matches!(self, RpLine::Unknown)
    }

    /// Returns the RAM size in bytes
    pub fn ram_size_bytes(&self) -> (r: Option<u32>)
        ensures
            r == match rp_ram_size_kb(*self) {
                Some(kb) => Some((kb * 1024) as u32),
                None => None,
            },
    {
        match self.ram_size_kb() {
            Some(size) => Some(size * 1024),
            None => None,
        }
    }

    /// Returns the RAM size in KB
    pub fn ram_size_kb(&self) -> (r: Option<u32>)
        ensures
            r == rp_ram_size_kb(*self),
    {
        match self {
            RpLine::Rp2040 => Some(264),
            RpLine::Rp2350 => Some(512),
            RpLine::Unknown => None,
        }
    }

    /// Returns the expected IDR value for this RP line.
    pub fn expected_idr(&self) -> (r: Option<Idr>)
        ensures
            r == rp_expected_idr(*self),
    {
        match self {
            RpLine::Rp2040 => Some(Idr::from_u32(IDR_AHB_AP_CORTEX_M0)),
            RpLine::Rp2350 => Some(Idr::from_u32(IDR_AHB_AP_CORTEX_M33)),
            RpLine::Unknown => None,
        }
    }

    /// The display name of this RP line.
    pub fn name(&self) -> (r: &'static str)
        ensures
            r@ == rp_line_name(*self),
    {
        match self {
            RpLine::Rp2040 => "RP2040",
            RpLine::Rp2350 => "RP2350",
            RpLine::Unknown => "Unknown",
        }
    }
}

/// RP device details
#[derive(Debug, Clone, Copy, PartialEq, Eq, Structural)]
pub struct RpDetails {
    pub line: RpLine,
}

impl RpDetails {
    /// Create a new `RpDetails` instance from a specific RP line
    pub fn from_line(line: RpLine) -> (r: Self)
        ensures
            r.line == line,
    {
        Self { line }
    }

    /// Get the family of this RP device
    pub fn line(&self) -> (r: RpLine)
        ensures
            r == self.line,
    {
        self.line
    }

    /// Create a new `RpDetails` instance from IdCode
    pub fn from_idcode(idcode: IdCode) -> (r: Option<Self>)
        ensures
            r == match rp_line_from_idcode_value(idcode@) {
                Some(line) => Some(RpDetails { line }),
                None => None,
            },
    {
        let v = idcode.value();
        if v == Cortex::IDCODE_M0 || v == Cortex::IDCODE_M0_PLUS {
            Some(RpDetails { line: RpLine::Rp2040 })
        } else if v == Cortex::IDCODE_M33 {
            Some(RpDetails { line: RpLine::Rp2350 })
        } else {
            None
        }
    }

    /// Get the base flash address for this MCU
    pub fn flash_base(&self) -> (r: Option<u32>)
        ensures
            r == match self.line {
                RpLine::Rp2040 => Some(RP2040_FLASH_BASE),
                RpLine::Rp2350 => Some(RP2350_FLASH_BASE),
                RpLine::Unknown => None,
            },
    {
        match self.line {
            RpLine::Rp2040 => Some(RP2040_FLASH_BASE),
            RpLine::Rp2350 => Some(RP2350_FLASH_BASE),
            RpLine::Unknown => None,
        }
    }

    /// Get the base RAM address for this MCU
    pub fn ram_base(&self) -> (r: Option<u32>)
        ensures
            r == match self.line {
                RpLine::Rp2040 => Some(RP2040_RAM_BASE),
                RpLine::Rp2350 => Some(RP2350_RAM_BASE),
                RpLine::Unknown => None,
            },
    {
        match self.line {
            RpLine::Rp2040 => Some(RP2040_RAM_BASE),
            RpLine::Rp2350 => Some(RP2350_RAM_BASE),
            RpLine::Unknown => None,
        }
    }

    /// Returns the expected IDR value for this device: `Some` exactly when
    /// the RP line is known.
    pub fn expected_idr(&self) -> (r: Option<Idr>)
        ensures
            r == rp_expected_idr(self.line),
            r.is_some() == (self.line != RpLine::Unknown),
    {
        self.line.expected_idr()
    }
}

/// An IDCODE identifies an RP line exactly when it identifies a Cortex-M0
/// or a Cortex-M33 core: RP2040 for the M0, RP2350 for the M33.
pub proof fn lemma_rp_line_matches_cortex(v: u32)
    ensures
        rp_line_from_idcode_value(v) == Some(RpLine::Rp2040) <==> cortex_from_idcode_value(v)
            == Some(Cortex::M0),
        rp_line_from_idcode_value(v) == Some(RpLine::Rp2350) <==> cortex_from_idcode_value(v)
            == Some(Cortex::M33),
        rp_line_from_idcode_value(v).is_none() <==> (cortex_from_idcode_value(v).is_none()
            || cortex_from_idcode_value(v) == Some(Cortex::M3) || cortex_from_idcode_value(v)
            == Some(Cortex::M4)),
{
}

/// What each RP line is: the RP2040 has 264 KB of RAM and a Cortex-M0
/// AHB-AP (IDR 0x04770031), the RP2350 512 KB and a Cortex-M33 AHB5-AP (IDR
/// 0x34770008); both map flash at 0x1000_0000 and RAM at 0x2000_0000.  The
/// IDR expected of a line is that of the core its IDCODE identifies.
pub proof fn lemma_rp_table(line: RpLine, v: u32)
    ensures
        rp_ram_size_kb(RpLine::Rp2040) == Some(264u32),
        rp_ram_size_kb(RpLine::Rp2350) == Some(512u32),
        rp_expected_idr(RpLine::Rp2040) == Some(Idr(0x04770031u32)),
        rp_expected_idr(RpLine::Rp2350) == Some(Idr(0x34770008u32)),
        IDR_AHB_AP_CORTEX_M0 == 0x04770031u32 && IDR_AHB_AP_CORTEX_M33 == 0x34770008u32,
        RP2040_FLASH_BASE == 0x1000_0000u32 && RP2350_FLASH_BASE == 0x1000_0000u32
            && RP2040_RAM_BASE == 0x2000_0000u32 && RP2350_RAM_BASE == 0x2000_0000u32,
        RP2040_CHIP_ID == 0x10002927u32 && RP2040_CHIP_ID_ADDR == 0x40000000u32
            && RP2040_CPU_ID == 0x410CC601u32 && RP2040_CPU_ID_ADDR == 0xE000ED00u32,
        rp_line_name(RpLine::Rp2040) == "RP2040"@ && rp_line_name(RpLine::Rp2350) == "RP2350"@
            && rp_line_name(RpLine::Unknown) == "Unknown"@,
        rp_line_from_idcode_value(v) == Some(RpLine::Rp2040) ==> rp_expected_idr(RpLine::Rp2040)
            == Some(Idr(IDR_AHB_AP_CORTEX_M0)) && cortex_from_idcode_value(v) == Some(Cortex::M0),
        rp_line_from_idcode_value(v) == Some(RpLine::Rp2350) ==> rp_expected_idr(RpLine::Rp2350)
            == Some(Idr(IDR_AHB_AP_CORTEX_M33)) && cortex_from_idcode_value(v) == Some(Cortex::M33),
{
}

/// Every known RP line has a RAM size, a flash base, a RAM base and an
/// expected MEM-AP IDR; the unknown line has none of them.
pub proof fn lemma_rp_known_has_details(d: RpDetails)
    ensures
        (d.line != RpLine::Unknown) <==> rp_ram_size_kb(d.line).is_some(),
        (d.line != RpLine::Unknown) <==> rp_expected_idr(d.line).is_some(),
{
}

} // verus!
