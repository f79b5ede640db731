//! ARM specific objects: Cortex core types and the Debug Port, Access Port
//! and MEM-AP register values used over SWD.

use vstd::prelude::*;

pub mod ap;
pub mod dp;
pub mod map;

use crate::arm::dp::IdCode;

verus! {

/// ARM Cortex core type
#[derive(Debug, Clone, Copy, PartialEq, Eq, Structural)]
pub enum Cortex {
    /// Cortex-M0
    M0,
    /// Cortex-M3
    M3,
    /// Cortex-M4
    M4,
    /// Cortex-M33
    M33,
}

/// The DPIDR value reported by each core type.
pub open spec fn cortex_idcode_value(c: Cortex) -> u32 {
    match c {
        Cortex::M0 => 0x0BC12477,
        Cortex::M3 => 0x1BA01477,
        Cortex::M4 => 0x2BA01477,
        Cortex::M33 => 0x4C013477,
    }
}

/// The core type a DPIDR value identifies, if any.  Both the Cortex-M0 and
/// the Cortex-M0+ DPIDR values identify an M0.
pub open spec fn cortex_from_idcode_value(v: u32) -> Option<Cortex> {
    if v == 0x0BC12477 || v == 0x0BC11477 {
        Some(Cortex::M0)
    } else if v == 0x1BA01477 {
        Some(Cortex::M3)
    } else if v == 0x2BA01477 {
        Some(Cortex::M4)
    } else if v == 0x4C013477 {
        Some(Cortex::M33)
    } else {
        None
    }
}

/// The name of each core type.
pub open spec fn cortex_name(c: Cortex) -> Seq<char> {
    match c {
        Cortex::M0 => "Cortex-M0"@,
        Cortex::M3 => "Cortex-M3"@,
        Cortex::M4 => "Cortex-M4"@,
        Cortex::M33 => "Cortex-M33"@,
    }
}

impl Cortex {
    /// DPIDR IDCODE of a Cortex-M0
    pub const IDCODE_M0: u32 = 0x0BC12477;
    /// DPIDR IDCODE of a Cortex-M0+
    pub const IDCODE_M0_PLUS: u32 = 0x0BC11477;
    /// DPIDR IDCODE of a Cortex-M3
    pub const IDCODE_M3: u32 = 0x1BA01477;
    /// DPIDR IDCODE of a Cortex-M4
    pub const IDCODE_M4: u32 = 0x2BA01477;
    /// DPIDR IDCODE of a Cortex-M33
    pub const IDCODE_M33: u32 = 0x4C013477;

    /// Returns the DPIDR IDCODE for this core type
    pub fn idcode(&self) -> (r: IdCode)
        ensures
            r@ == cortex_idcode_value(*self),
    {
        match self {
            Cortex::M0 => IdCode::from_u32(Self::IDCODE_M0),
            Cortex::M3 => IdCode::from_u32(Self::IDCODE_M3),
            Cortex::M4 => IdCode::from_u32(Self::IDCODE_M4),
            Cortex::M33 => IdCode::from_u32(Self::IDCODE_M33),
        }
    }

    /// Returns the core type as a string
    pub fn as_str(&self) -> (r: &'static str)
        ensures
            r@ == cortex_name(*self),
    {
        match self {
            Cortex::M0 => "Cortex-M0",
            Cortex::M3 => "Cortex-M3",
            Cortex::M4 => "Cortex-M4",
            Cortex::M33 => "Cortex-M33",
        }
    }

    /// The core type as text: `ARM ` and its name.
    pub fn display_string(&self) -> (r: String)
        ensures
            r@ == "ARM "@ + cortex_name(*self),
    {
        let mut s = String::new();
        crate::text::push_str(&mut s, "ARM ");
        crate::text::push_str(&mut s, self.as_str());
        assert(s@ =~= "ARM "@ + cortex_name(*self));
        s
    }

    /// Identifies the core type from the DPIDR IDCODE it reports.
    pub fn from_idcode(idcode: IdCode) -> (r: Option<Cortex>)
        ensures
            r == cortex_from_idcode_value(idcode@),
    {
        let v = idcode.value();
        if v == Self::IDCODE_M0 || v == Self::IDCODE_M0_PLUS {
            Some(Cortex::M0)
        } else if v == Self::IDCODE_M3 {
            Some(Cortex::M3)
        } else if v == Self::IDCODE_M4 {
            Some(Cortex::M4)
        } else if v == Self::IDCODE_M33 {
            Some(Cortex::M33)
        } else {
            None
        }
    }
}

/// The DPIDR IDCODEs of the core types and their names: 0x0BC12477 is a
/// Cortex-M0 (and 0x0BC11477, the Cortex-M0+, is taken as one too),
/// 0x1BA01477 a Cortex-M3, 0x2BA01477 a Cortex-M4 and 0x4C013477 a
/// Cortex-M33; no other value identifies a core, and no two core types
/// report the same IDCODE.
pub proof fn lemma_cortex_table(c: Cortex, d: Cortex, v: u32)
    ensures
        Cortex::IDCODE_M0 == 0x0BC12477u32 && Cortex::IDCODE_M0_PLUS == 0x0BC11477u32
            && Cortex::IDCODE_M3 == 0x1BA01477u32 && Cortex::IDCODE_M4 == 0x2BA01477u32
            && Cortex::IDCODE_M33 == 0x4C013477u32,
        cortex_idcode_value(Cortex::M0) == Cortex::IDCODE_M0,
        cortex_idcode_value(Cortex::M3) == Cortex::IDCODE_M3,
        cortex_idcode_value(Cortex::M4) == Cortex::IDCODE_M4,
        cortex_idcode_value(Cortex::M33) == Cortex::IDCODE_M33,
        cortex_from_idcode_value(Cortex::IDCODE_M0_PLUS) == Some(Cortex::M0),
        cortex_from_idcode_value(v) is Some <==> (v == Cortex::IDCODE_M0 || v
            == Cortex::IDCODE_M0_PLUS || v == Cortex::IDCODE_M3 || v == Cortex::IDCODE_M4 || v
            == Cortex::IDCODE_M33),
        c != d ==> cortex_idcode_value(c) != cortex_idcode_value(d),
        cortex_name(Cortex::M0) == "Cortex-M0"@ && cortex_name(Cortex::M3) == "Cortex-M3"@
            && cortex_name(Cortex::M4) == "Cortex-M4"@ && cortex_name(Cortex::M33)
            == "Cortex-M33"@,
{
}

/// Every core type is recognised again from the IDCODE it reports.
pub proof fn lemma_cortex_idcode_round_trip(c: Cortex)
    ensures
        cortex_from_idcode_value(cortex_idcode_value(c)) == Some(c),
{
}

} // verus!
