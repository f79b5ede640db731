//! ARM MEM-AP register values.

use vstd::prelude::*;

verus! {

/// MEM-AP register address of CSW (control/status word).
pub const CSW_ADDRESS: u8 = 0x00;
/// MEM-AP register address of TAR (transfer address).
pub const TAR_ADDRESS: u8 = 0x04;
/// MEM-AP register address of DRW (data read/write).
pub const DRW_ADDRESS: u8 = 0x0C;

/// The AddrInc field (bits 5:4) of a CSW value.
pub open spec fn csw_addrinc(v: u32) -> u32 {
    (v >> 4u32) & 0x3
}

/// The MEM-AP register map and CSW AddrInc encodings used here: CSW at
/// 0x00, TAR at 0x04, DRW at 0x0C; AddrInc (bits 5:4) is 0b00 for no
/// increment, 0b01 for single and 0b10 for packed increment, three
/// different values.
pub proof fn lemma_mem_ap_map()
    ensures
        CSW_ADDRESS == 0x00u8 && TAR_ADDRESS == 0x04u8 && DRW_ADDRESS == 0x0Cu8,
        Csw::ADDRINC_OFF == 0u32 && Csw::ADDRINC_SINGLE == 1u32 && Csw::ADDRINC_PACKED == 2u32,
{
}

/// MEM-AP CSW register value.
#[derive(Debug, Clone, Copy, PartialEq, Eq, Structural)]
pub struct Csw(pub u32);

impl Csw {
    /// AddrInc: no address increment.
    pub const ADDRINC_OFF: u32 = 0b00;
    /// AddrInc: single (word) address increment.
    pub const ADDRINC_SINGLE: u32 = 0b01;
    /// AddrInc: packed address increment.
    pub const ADDRINC_PACKED: u32 = 0b10;

    /// The CSW value the MEM-AP is configured with: 32-bit accesses,
    /// privileged data accesses and no address increment.
    pub fn default() -> (r: Csw)
        ensures
            r.0 == 0x2300_0002u32,
    {
        Csw(0x2300_0002u32)
    }

    /// Creates a CSW value from its raw value.
    pub fn from_u32(value: u32) -> (r: Csw)
        ensures
            r.0 == value,
    {
        Csw(value)
    }

    /// The raw value.
    pub fn value(&self) -> (r: u32)
        ensures
            r == self.0,
    {
        self.0
    }

    /// The AddrInc field.
    pub fn addrinc(&self) -> (r: u32)
        ensures
            r == csw_addrinc(self.0),
            r < 4,
    {
        let v = self.0;
        assert((v >> 4u32) & 0x3 < 4) by (bit_vector);
        (v >> 4u32) & 0x3
    }

    /// Sets the AddrInc field to the low two bits of `addrinc`, leaving the
    /// other bits unchanged.
    pub fn set_addrinc(&mut self, addrinc: u32)
        ensures
            final(self).0 == (old(self).0 & !0x30u32) | ((addrinc & 0x3) << 4u32),
            csw_addrinc(final(self).0) == addrinc & 0x3,
    {
        let old_v = self.0;
        let v = (old_v & !0x30u32) | ((addrinc & 0x3) << 4u32);
        assert(csw_addrinc(v) == addrinc & 0x3) by (bit_vector)
            requires
                v == (old_v & !0x30u32) | ((addrinc & 0x3) << 4u32),
        ;
        self.0 = v;
    }
}

/// MEM-AP TAR register value: the target address of the next transfer.
#[derive(Debug, Clone, Copy, PartialEq, Eq, Structural)]
pub struct Tar(pub u32);

impl Tar {
    /// Creates a TAR value from an address.
    pub fn from_u32(value: u32) -> (r: Tar)
        ensures
            r.0 == value,
    {
        Tar(value)
    }

    /// The raw value.
    pub fn value(&self) -> (r: u32)
        ensures
            r == self.0,
    {
        self.0
    }
}

} // verus!
