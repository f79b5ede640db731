//! ARM Debug Port (DP) register values.

use vstd::prelude::*;

verus! {

/// DP register address of DPIDR (IDCODE), read only.
pub const IDCODE_ADDRESS: u8 = 0x0;
/// DP register address of ABORT, write only.
pub const ABORT_ADDRESS: u8 = 0x0;
/// DP register address of CTRL/STAT.
pub const CTRL_STAT_ADDRESS: u8 = 0x4;
/// DP register address of SELECT.
pub const SELECT_ADDRESS: u8 = 0x8;
/// DP register address of RDBUFF, read only.
pub const RDBUFF_ADDRESS: u8 = 0xC;
/// DP register address of TARGETSEL, write only.
pub const TARGETSEL_ADDRESS: u8 = 0xC;

/// TARGETSEL value of RP2040 core 0.
pub const TARGET_SEL_RP2040_CORE0: u32 = 0x01002927;
/// TARGETSEL value of RP2040 core 1.
pub const TARGET_SEL_RP2040_CORE1: u32 = 0x11002927;
/// TARGETSEL value of the RP2040 rescue DP.
pub const TARGET_SEL_RP2040_RESCUE_DP: u32 = 0xF1002927;

/// The value of bit `b` of `v`.
pub open spec fn bit_of(v: u32, b: u32) -> bool {
    (v >> b) & 1 == 1
}

/// `v` with bit `b` set to `on` and every other bit unchanged.
pub open spec fn with_bit(v: u32, b: u32, on: bool) -> u32 {
    if on {
        v | (1u32 << b)
    } else {
        v & !(1u32 << b)
    }
}

/// Sets bit `b` of `v` to `on`.
pub fn set_bit(v: u32, b: u32, on: bool) -> (r: u32)
    requires
        b < 32,
    ensures
        r == with_bit(v, b, on),
        bit_of(r, b) == on,
        forall|j: u32| j < 32 && j != b ==> bit_of(r, j) == bit_of(v, j),
{
    let r = if on {
        v | (1u32 << b)
    } else {
        v & !(1u32 << b)
    };
    assert(bit_of(r, b) == on && forall|j: u32| j < 32 && j != b ==> bit_of(r, j) == bit_of(v, j))
        by (bit_vector)
        requires
            b < 32,
            r == if on {
                v | (1u32 << b)
            } else {
                v & !(1u32 << b)
            },
    ;
    r
}

/// Reads bit `b` of `v`.
pub fn get_bit(v: u32, b: u32) -> (r: bool)
    requires
        b < 32,
    ensures
        r == bit_of(v, b),
{
    (v >> b) & 1 == 1
}

/// DPIDR (IDCODE) register value
#[derive(Debug, Clone, Copy, PartialEq, Eq, Structural)]
pub struct IdCode(pub u32);

impl View for IdCode {
    type V = u32;

    open spec fn view(&self) -> u32 {
        self.0
    }
}

impl IdCode {
    /// Creates an IDCODE from its raw value.
    pub fn from_u32(value: u32) -> (r: IdCode)
        ensures
            r@ == value,
    {
        IdCode(value)
    }

    /// The raw value.
    pub fn value(&self) -> (r: u32)
        ensures
            r == self@,
    {
        self.0
    }
}

/// TARGETSEL register value, used to select one target of a multi-drop
/// SWD bus.
#[derive(Debug, Clone, Copy, PartialEq, Eq, Structural)]
pub struct TargetSel(pub u32);

impl TargetSel {
    /// Creates a TARGETSEL value.
    pub fn new(data: u32) -> (r: TargetSel)
        ensures
            r.0 == data,
    {
        TargetSel(data)
    }

    /// The raw value.
    pub fn data(&self) -> (r: u32)
        ensures
            r == self.0,
    {
        self.0
    }
}

/// The TARGETSEL values of every RP2040 debug port, cores first, then the
/// rescue DP.
pub fn target_sel_rp2040_all() -> (r: [TargetSel; 3])
    ensures
        r@ == seq![
            TargetSel(TARGET_SEL_RP2040_CORE0),
            TargetSel(TARGET_SEL_RP2040_CORE1),
            TargetSel(TARGET_SEL_RP2040_RESCUE_DP),
        ],
{
    let r = [
        TargetSel(TARGET_SEL_RP2040_CORE0),
        TargetSel(TARGET_SEL_RP2040_CORE1),
        TargetSel(TARGET_SEL_RP2040_RESCUE_DP),
    ];
    assert(r@ =~= seq![
        TargetSel(TARGET_SEL_RP2040_CORE0),
        TargetSel(TARGET_SEL_RP2040_CORE1),
        TargetSel(TARGET_SEL_RP2040_RESCUE_DP),
    ]);
    r
}

/// DP SELECT register value.
///
/// Bits 31:24 hold APSEL, bits 7:4 APBANKSEL and bits 3:0 DPBANKSEL.
#[derive(Debug, Clone, Copy, PartialEq, Eq, Structural)]
pub struct Select(pub u32);

/// APSEL field of a SELECT value.
pub open spec fn select_apsel(v: u32) -> u32 {
    (v >> 24u32) & 0xFF
}

/// APBANKSEL field of a SELECT value.
pub open spec fn select_apbanksel(v: u32) -> u32 {
    (v >> 4u32) & 0xF
}

/// DPBANKSEL field of a SELECT value.
pub open spec fn select_dpbanksel(v: u32) -> u32 {
    v & 0xF
}

/// The bank a DP or AP register address lies in: bits 7:4 of the address.
pub open spec fn addr_bank(addr: u8) -> u32 {
    ((addr >> 4u8) & 0xF) as u32
}

/// Values of the constant bit patterns used to build register values.
pub proof fn lemma_u32_constants()
    ensures
        1u32 << 0u32 == 1u32,
        1u32 << 1u32 == 0x2u32,
        1u32 << 2u32 == 0x4u32,
        1u32 << 13u32 == 0x2000u32,
        1u32 << 16u32 == 0x1_0000u32,
        1u32 << 31u32 == 0x8000_0000u32,
        3u32 << 8u32 == 0x300u32,
        2u32 << 8u32 == 0x200u32,
        !(3u32 << 8u32) == !0x300u32,
        !(1u32 << 1u32) == !0x2u32,
        !(1u32 << 0u32) == !1u32,
        0x78u32 | 1u32 != 0,
        0x78u32 | 0u32 == 0x78u32,
        0u32 & 3u32 == 0u32,
        1u32 & 3u32 == 1u32,
        (1u32 << 1u32) | (1u32 << 4u32) | (1u32 << 5u32) | (1u32 << 6u32) | (1u32 << 7u32) | (1u32
            << 8u32) == 0x1F2u32,
        (1u32 << 16u32) | (1u32 << 17u32) | (1u32 << 18u32) == 0x7_0000u32,
        (1u32 << 6u32) | (1u32 << 5u32) | (1u32 << 4u32) | (1u32 << 3u32) == 0x78u32,
        ((0u32 | (1u32 << 28u32)) | (1u32 << 30u32)) == 0x5000_0000u32,
        0xFu32 << 0u32 == 0xF,
        0xFu32 << 4u32 == 0xF0,
        !(0xFu32 << 3u32) == !0x78u32,
{
    assert(1u32 << 0u32 == 1u32 && 1u32 << 1u32 == 0x2u32 && 1u32 << 2u32 == 0x4u32 && 1u32
        << 13u32 == 0x2000u32 && 1u32 << 16u32 == 0x1_0000u32 && 1u32 << 31u32 == 0x8000_0000u32
        && 3u32 << 8u32 == 0x300u32 && 2u32 << 8u32 == 0x200u32 && !(3u32 << 8u32) == !0x300u32
        && !(1u32 << 1u32) == !0x2u32 && !(1u32 << 0u32) == !1u32 && 0x78u32 | 1u32 != 0 && 0x78u32
        | 0u32 == 0x78u32 && 0u32 & 3u32 == 0u32 && 1u32 & 3u32 == 1u32 && (1u32 << 1u32) | (1u32
        << 4u32) | (1u32 << 5u32) | (1u32 << 6u32) | (1u32 << 7u32) | (1u32 << 8u32) == 0x1F2u32
        && (1u32 << 16u32) | (1u32 << 17u32) | (1u32 << 18u32) == 0x7_0000u32 && (1u32 << 6u32) | (
    1u32 << 5u32) | (1u32 << 4u32) | (1u32 << 3u32) == 0x78u32 && ((0u32 | (1u32 << 28u32)) | (1u32
        << 30u32)) == 0x5000_0000u32 && 0xFu32 << 0u32 == 0xF && 0xFu32 << 4u32 == 0xF0 && !(0xFu32 << 3u32) == !0x78u32) by (
    bit_vector);
}

/// Facts about a bank number (a value below 16) placed in SELECT fields.
pub proof fn lemma_bank_fields(b: u32)
    requires
        b < 16,
    ensures
        (0u32 & !0xF0u32) | (b << 4u32) == b << 4u32,
        ((b << 4u32) >> 4u32) & 0xF == b,
        (0u32 & !0xFu32) | b == b,
        b & 0xF == b,
        (b << 0u32) == b,
{
    assert((0u32 & !0xF0u32) | (b << 4u32) == b << 4u32 && ((b << 4u32) >> 4u32) & 0xF == b && (0u32
        & !0xFu32) | b == b && b & 0xF == b && (b << 0u32) == b) by (bit_vector)
        requires
            b < 16,
    ;
}

/// A bank number fits in the four bits of a bank field.
pub proof fn lemma_addr_bank_small(addr: u8)
    ensures
        addr_bank(addr) < 16,
{
    assert((((addr >> 4u8) & 0xF) as u32) < 16) by (bit_vector);
}

impl Select {
    /// Shift of the DPBANKSEL field.
    pub const DPBANKSEL_SHIFT: u32 = 0;
    /// Mask of the DPBANKSEL field, before shifting.
    pub const DPBANKSEL_MASK: u32 = 0xF;
    /// Shift of the APBANKSEL field.
    pub const APBANKSEL_SHIFT: u32 = 4;
    /// Mask of the APBANKSEL field, before shifting.
    pub const APBANKSEL_MASK: u32 = 0xF;
    /// Shift of the APSEL field.
    pub const APSEL_SHIFT: u32 = 24;
    /// Mask of the APSEL field, before shifting.
    pub const APSEL_MASK: u32 = 0xFF;

    /// The SELECT value after reset: every field zero.
    pub fn default() -> (r: Select)
        ensures
            r.0 == 0,
    {
        Select(0)
    }

    /// Creates a SELECT value from its raw value.
    pub fn from_u32(value: u32) -> (r: Select)
        ensures
            r.0 == value,
    {
        Select(value)
    }

    /// The raw value.
    pub fn value(&self) -> (r: u32)
        ensures
            r == self.0,
    {
        self.0
    }

    /// Sets APSEL to the low 8 bits of `apsel`, leaving the other fields
    /// unchanged.
    pub fn set_apsel(&mut self, apsel: u32)
        ensures
            final(self).0 == (old(self).0 & 0x00FF_FFFFu32) | ((apsel & 0xFF) << 24u32),
            select_apsel(final(self).0) == apsel & 0xFF,
            select_apbanksel(final(self).0) == select_apbanksel(old(self).0),
            select_dpbanksel(final(self).0) == select_dpbanksel(old(self).0),
    {
        let old_v = self.0;
        let v = (old_v & 0x00FF_FFFFu32) | ((apsel & 0xFF) << 24u32);
        assert(select_apsel(v) == apsel & 0xFF && select_apbanksel(v) == select_apbanksel(old_v)
            && select_dpbanksel(v) == select_dpbanksel(old_v)) by (bit_vector)
            requires
                v == (old_v & 0x00FF_FFFFu32) | ((apsel & 0xFF) << 24u32),
        ;
        self.0 = v;
    }

    /// Sets APBANKSEL to the bank of the AP register address `addr`,
    /// leaving the other fields unchanged.
    pub fn set_apbanksel_from_addr(&mut self, addr: u8)
        ensures
            final(self).0 == (old(self).0 & !0xF0u32) | (addr_bank(addr) << 4u32),
            select_apbanksel(final(self).0) == addr_bank(addr),
            select_apsel(final(self).0) == select_apsel(old(self).0),
            select_dpbanksel(final(self).0) == select_dpbanksel(old(self).0),
    {
        let old_v = self.0;
        let bank: u32 = ((addr >> 4u8) & 0xF) as u32;
        assert(bank < 16) by (bit_vector)
            requires
                bank == ((addr >> 4u8) & 0xF) as u32,
        ;
        let v = (old_v & !0xF0u32) | (bank << 4u32);
        assert(select_apbanksel(v) == bank && select_apsel(v) == select_apsel(old_v)
            && select_dpbanksel(v) == select_dpbanksel(old_v)) by (bit_vector)
            requires
                bank < 16,
                v == (old_v & !0xF0u32) | (bank << 4u32),
        ;
        self.0 = v;
    }

    /// Sets DPBANKSEL to the bank of the DP register address `addr`,
    /// leaving the other fields unchanged.
    pub fn set_dpbanksel_from_addr(&mut self, addr: u8)
        ensures
            final(self).0 == (old(self).0 & !0xFu32) | addr_bank(addr),
            select_dpbanksel(final(self).0) == addr_bank(addr),
            select_apsel(final(self).0) == select_apsel(old(self).0),
            select_apbanksel(final(self).0) == select_apbanksel(old(self).0),
    {
        let old_v = self.0;
        let bank: u32 = ((addr >> 4u8) & 0xF) as u32;
        assert(bank < 16) by (bit_vector)
            requires
                bank == ((addr >> 4u8) & 0xF) as u32,
        ;
        let v = (old_v & !0xFu32) | bank;
        assert(select_dpbanksel(v) == bank && select_apsel(v) == select_apsel(old_v)
            && select_apbanksel(v) == select_apbanksel(old_v)) by (bit_vector)
            requires
                bank < 16,
                v == (old_v & !0xFu32) | bank,
        ;
        self.0 = v;
    }
}

/// DP CTRL/STAT register value.
#[derive(Debug, Clone, Copy, PartialEq, Eq, Structural)]
pub struct CtrlStat(pub u32);

/// The ADIv5 DP register map and CTRL/STAT layout used here: IDCODE (read)
/// and ABORT (write) at 0x0, CTRL/STAT at 0x4, SELECT at 0x8, RDBUFF (read)
/// and TARGETSEL (write) at 0xC; the sticky error flags STICKYORUN,
/// STICKYCMP, STICKYERR and WDATAERR are bits 1, 4, 5 and 7, READOK bit 6,
/// and the power-up request and acknowledge bits 28 to 31.  A CTRL/STAT
/// value reports an error exactly when a sticky error flag is set; READOK
/// and the power bits are no errors.
pub proof fn lemma_dp_register_map(v: u32)
    ensures
        IDCODE_ADDRESS == 0x0u8 && ABORT_ADDRESS == 0x0u8 && CTRL_STAT_ADDRESS == 0x4u8
            && SELECT_ADDRESS == 0x8u8 && RDBUFF_ADDRESS == 0xCu8 && TARGETSEL_ADDRESS == 0xCu8,
        CtrlStat::STICKYORUN_BIT == 1 && CtrlStat::STICKYCMP_BIT == 4 && CtrlStat::STICKYERR_BIT
            == 5 && CtrlStat::READOK_BIT == 6 && CtrlStat::WDATAERR_BIT == 7
            && CtrlStat::CDBGPWRUPREQ_BIT == 28 && CtrlStat::CDBGPWRUPACK_BIT == 29
            && CtrlStat::CSYSPWRUPREQ_BIT == 30 && CtrlStat::CSYSPWRUPACK_BIT == 31,
        ctrl_stat_has_errors(v) <==> (bit_of(v, CtrlStat::STICKYORUN_BIT) || bit_of(
            v,
            CtrlStat::STICKYCMP_BIT,
        ) || bit_of(v, CtrlStat::STICKYERR_BIT) || bit_of(v, CtrlStat::WDATAERR_BIT)),
        TARGET_SEL_RP2040_CORE0 == 0x01002927u32 && TARGET_SEL_RP2040_CORE1 == 0x11002927u32
            && TARGET_SEL_RP2040_RESCUE_DP == 0xF1002927u32,
{
}

/// Whether a CTRL/STAT value reports any sticky error: STICKYORUN (bit 1),
/// STICKYCMP (bit 4), STICKYERR (bit 5) or WDATAERR (bit 7).
pub open spec fn ctrl_stat_has_errors(v: u32) -> bool {
    bit_of(v, 1) || bit_of(v, 4) || bit_of(v, 5) || bit_of(v, 7)
}

impl CtrlStat {
    /// STICKYORUN bit
    pub const STICKYORUN_BIT: u32 = 1;
    /// STICKYCMP bit
    pub const STICKYCMP_BIT: u32 = 4;
    /// STICKYERR bit
    pub const STICKYERR_BIT: u32 = 5;
    /// READOK bit
    pub const READOK_BIT: u32 = 6;
    /// WDATAERR bit
    pub const WDATAERR_BIT: u32 = 7;
    /// CDBGPWRUPREQ bit
    pub const CDBGPWRUPREQ_BIT: u32 = 28;
    /// CDBGPWRUPACK bit
    pub const CDBGPWRUPACK_BIT: u32 = 29;
    /// CSYSPWRUPREQ bit
    pub const CSYSPWRUPREQ_BIT: u32 = 30;
    /// CSYSPWRUPACK bit
    pub const CSYSPWRUPACK_BIT: u32 = 31;

    /// The all-zero CTRL/STAT value.
    pub fn default() -> (r: CtrlStat)
        ensures
            r.0 == 0,
    {
        CtrlStat(0)
    }

    /// Creates a CTRL/STAT value from its raw value.
    pub fn from_u32(value: u32) -> (r: CtrlStat)
        ensures
            r.0 == value,
    {
        CtrlStat(value)
    }

    /// The raw value.
    pub fn value(&self) -> (r: u32)
        ensures
            r == self.0,
    {
        self.0
    }

    /// STICKYORUN: an overrun was detected.
    pub fn stickyorun(&self) -> (r: bool)
        ensures
            r == bit_of(self.0, 1),
    {
        get_bit(self.0, Self::STICKYORUN_BIT)
    }

    /// STICKYCMP: a pushed compare matched.
    pub fn stickycmp(&self) -> (r: bool)
        ensures
            r == bit_of(self.0, 4),
    {
        get_bit(self.0, Self::STICKYCMP_BIT)
    }

    /// STICKYERR: an AP transaction failed.
    pub fn stickyerr(&self) -> (r: bool)
        ensures
            r == bit_of(self.0, 5),
    {
        get_bit(self.0, Self::STICKYERR_BIT)
    }

    /// READOK: the last AP read succeeded.
    pub fn readok(&self) -> (r: bool)
        ensures
            r == bit_of(self.0, 6),
    {
        get_bit(self.0, Self::READOK_BIT)
    }

    /// WDATAERR: a write data error occurred.
    pub fn wdataerr(&self) -> (r: bool)
        ensures
            r == bit_of(self.0, 7),
    {
        get_bit(self.0, Self::WDATAERR_BIT)
    }

    /// CDBGPWRUPACK: the debug domain is powered up.
    pub fn cdbgpwrupack(&self) -> (r: bool)
        ensures
            r == bit_of(self.0, 29),
    {
        get_bit(self.0, Self::CDBGPWRUPACK_BIT)
    }

    /// CSYSPWRUPACK: the system domain is powered up.
    pub fn csyspwrupack(&self) -> (r: bool)
        ensures
            r == bit_of(self.0, 31),
    {
        get_bit(self.0, Self::CSYSPWRUPACK_BIT)
    }

    /// Whether any sticky error flag is set.
    pub fn has_errors(&self) -> (r: bool)
        ensures
            r == ctrl_stat_has_errors(self.0),
    {
        self.stickyorun() || self.stickycmp() || self.stickyerr() || self.wdataerr()
    }

    /// Sets the CDBGPWRUPREQ bit.
    pub fn set_cdbgpwrupreq(&mut self, on: bool)
        ensures
            final(self).0 == with_bit(old(self).0, 28, on),
    {
        self.0 = set_bit(self.0, Self::CDBGPWRUPREQ_BIT, on);
    }

    /// Sets the CSYSPWRUPREQ bit.
    pub fn set_csyspwrupreq(&mut self, on: bool)
        ensures
            final(self).0 == with_bit(old(self).0, 30, on),
    {
        self.0 = set_bit(self.0, Self::CSYSPWRUPREQ_BIT, on);
    }
}

/// DP ABORT register value.
#[derive(Debug, Clone, Copy, PartialEq, Eq, Structural)]
pub struct Abort(pub u32);

impl Abort {
    /// STKCMPCLR bit
    pub const STKCMPCLR_BIT: u32 = 1;
    /// STKERRCLR bit
    pub const STKERRCLR_BIT: u32 = 2;
    /// WDERRCLR bit
    pub const WDERRCLR_BIT: u32 = 3;
    /// ORUNERRCLR bit
    pub const ORUNERRCLR_BIT: u32 = 4;

    /// The all-zero ABORT value.
    pub fn default() -> (r: Abort)
        ensures
            r.0 == 0,
    {
        Abort(0)
    }

    /// The raw value.
    pub fn value(&self) -> (r: u32)
        ensures
            r == self.0,
    {
        self.0
    }

    /// Sets the STKCMPCLR bit.
    pub fn set_stkcmpclr(&mut self, on: bool)
        ensures
            final(self).0 == with_bit(old(self).0, 1, on),
    {
        self.0 = set_bit(self.0, Self::STKCMPCLR_BIT, on);
    }

    /// Sets the STKERRCLR bit.
    pub fn set_stkerrclr(&mut self, on: bool)
        ensures
            final(self).0 == with_bit(old(self).0, 2, on),
    {
        self.0 = set_bit(self.0, Self::STKERRCLR_BIT, on);
    }

    /// Sets the WDERRCLR bit.
    pub fn set_wderrclr(&mut self, on: bool)
        ensures
            final(self).0 == with_bit(old(self).0, 3, on),
    {
        self.0 = set_bit(self.0, Self::WDERRCLR_BIT, on);
    }

    /// Sets the ORUNERRCLR bit.
    pub fn set_orunerrclr(&mut self, on: bool)
        ensures
            final(self).0 == with_bit(old(self).0, 4, on),
    {
        self.0 = set_bit(self.0, Self::ORUNERRCLR_BIT, on);
    }
}

} // verus!
