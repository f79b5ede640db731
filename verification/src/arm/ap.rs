//! ARM Access Port (AP) register values.

use vstd::prelude::*;

verus! {

/// AP register address of the IDR (identification register).
pub const IDR_ADDRESS: u8 = 0xFC;

/// IDR of the AHB-AP found on Cortex-M0/M0+ targets.
pub const IDR_AHB_AP_CORTEX_M0: u32 = 0x04770031;
/// IDR of the AHB-AP found on Cortex-M3 targets.
pub const IDR_AHB_AP_CORTEX_M3: u32 = 0x14770011;
/// IDR of the AHB-AP found on Cortex-M4 targets.
pub const IDR_AHB_AP_CORTEX_M4: u32 = 0x24770011;
/// IDR of the AHB5-AP found on Cortex-M33 targets.
pub const IDR_AHB_AP_CORTEX_M33: u32 = 0x34770008;

/// The MEM-AP IDR values that are recognised.
pub open spec fn idr_known(v: u32) -> bool {
    v == IDR_AHB_AP_CORTEX_M0 || v == IDR_AHB_AP_CORTEX_M3 || v == IDR_AHB_AP_CORTEX_M4
        || v == IDR_AHB_AP_CORTEX_M33
}

/// The recognised MEM-AP IDRs are those of the AHB-APs of the Cortex-M0
/// (0x04770031), M3 (0x14770011) and M4 (0x24770011) and of the AHB5-AP of
/// the Cortex-M33 (0x34770008); the IDR sits at AP register 0xFC.
pub proof fn lemma_idr_table(v: u32)
    ensures
        IDR_AHB_AP_CORTEX_M0 == 0x04770031u32 && IDR_AHB_AP_CORTEX_M3 == 0x14770011u32
            && IDR_AHB_AP_CORTEX_M4 == 0x24770011u32 && IDR_AHB_AP_CORTEX_M33 == 0x34770008u32,
        IDR_ADDRESS == 0xFCu8,
        idr_known(v) <==> (v == 0x04770031u32 || v == 0x14770011u32 || v == 0x24770011u32 || v
            == 0x34770008u32),
{
}

/// AP IDR register value.
///
/// Bits 3:0 hold the AP type, bits 16:13 the AP class.
#[derive(Debug, Clone, Copy, PartialEq, Eq, Structural)]
pub struct Idr(pub u32);

impl Idr {
    /// AP type of an AMBA AHB5 MEM-AP.
    pub const AP_TYPE_AMBA_AHB5: u32 = 0x5;

    /// Creates an IDR value from its raw value.
    pub fn from_u32(value: u32) -> (r: Idr)
        ensures
            r.0 == value,
    {
        Idr(value)
    }

    /// The raw value.
    pub fn value(&self) -> (r: u32)
        ensures
            r == self.0,
    {
        self.0
    }

    /// The AP type field (bits 3:0).
    pub fn ap_type(&self) -> (r: u32)
        ensures
            r == self.0 & 0xF,
    {
        self.0 & 0xF
    }

    /// The AP class field (bits 16:13).
    pub fn class(&self) -> (r: u32)
        ensures
            r == (self.0 >> 13u32) & 0xF,
    {
        (self.0 >> 13u32) & 0xF
    }

    /// Whether this IDR is one of the recognised MEM-AP IDRs.
    pub fn is_known(&self) -> (r: bool)
        ensures
            r == idr_known(self.0),
    {
        let known = idr_ahb_ap_known();
        let mut i: usize = 0;
        while i < 4
            invariant
                0 <= i <= 4,
                known@ == seq![
                    IDR_AHB_AP_CORTEX_M0,
                    IDR_AHB_AP_CORTEX_M3,
                    IDR_AHB_AP_CORTEX_M4,
                    IDR_AHB_AP_CORTEX_M33,
                ],
                forall|j: int| 0 <= j < i ==> known@[j] != self.0,
            decreases 4 - i,
        {
            if known[i] == self.0 {
                return true;
            }
            i = i + 1;
        }
        false
    }
}

/// The recognised MEM-AP IDR values.
pub fn idr_ahb_ap_known() -> (r: [u32; 4])
    ensures
        r@ == seq![
            IDR_AHB_AP_CORTEX_M0,
            IDR_AHB_AP_CORTEX_M3,
            IDR_AHB_AP_CORTEX_M4,
            IDR_AHB_AP_CORTEX_M33,
        ],
{
    let r = [IDR_AHB_AP_CORTEX_M0, IDR_AHB_AP_CORTEX_M3, IDR_AHB_AP_CORTEX_M4, IDR_AHB_AP_CORTEX_M33];
    assert(r@ =~= seq![
        IDR_AHB_AP_CORTEX_M0,
        IDR_AHB_AP_CORTEX_M3,
        IDR_AHB_AP_CORTEX_M4,
        IDR_AHB_AP_CORTEX_M33,
    ]);
    r
}

} // verus!
