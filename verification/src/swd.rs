//! SWD operations, command encoding, and the connection state of an SWD
//! interface together with the decisions taken at each step of a transfer.
//!
//! The wire-level work (clocking bits, waiting) is done by the caller; this
//! module decides what to send, whether to retry, whether DP SELECT must be
//! rewritten first, and how the connection state changes.

use vstd::prelude::*;

use crate::arm::dp::{
    addr_bank, select_apbanksel, select_apsel, select_dpbanksel, IdCode, Select, TargetSel,
    ABORT_ADDRESS, IDCODE_ADDRESS, RDBUFF_ADDRESS, SELECT_ADDRESS,
};
use crate::arm::dp::{ctrl_stat_has_errors, bit_of, Abort, CtrlStat, with_bit};
use crate::arm::map::{csw_addrinc, Csw, Tar};
use crate::rp::{RpDetails, RpLine, RP2040_CHIP_ID, RP2040_CPU_ID};
use crate::stm::{
    stm_dev_id, stm_family_of_dev, stm_flash_size_addr, stm_uid_addr, StmDetails, StmDeviceId,
    StmFamily, StmFlashSize, StmUniqueId,
};
use crate::text::{hex_byte_chars, hex_word_chars, push_hex_byte, push_hex_word, push_str};
use crate::arm::{cortex_from_idcode_value, Cortex};
use crate::Mcu;

verus! {

/// Errors of SWD operations.
#[derive(Debug, Clone, PartialEq, Eq)]
pub enum SwdError {
    /// The target answered WAIT more often than the retry limit allows
    WaitAck,
    /// The target answered FAULT
    FaultAck,
    /// The target did not answer
    NoAck,
    /// The data phase had a parity error
    ParityError,
    /// The interface has not been reset and connected yet
    NotReady,
    /// The DP CTRL/STAT register reported an error
    DpError,
    /// The API was used wrongly, such as with a misaligned address
    Api,
    /// The operation is not supported on this target
    Unsupported,
    /// An operation failed, with a description
    OperationFailed(String),
}

/// SWD protocol version of the target.
#[derive(Debug, Clone, Copy, PartialEq, Eq, Structural)]
pub enum Version {
    /// SWD v1
    V1,
    /// SWD v2, with dormant state and multi-drop support
    V2,
}

/// Parity of the lowest `n` bits of `v`: 1 when an odd number of them is
/// set, 0 otherwise.
pub open spec fn xor_bits(v: u32, n: nat) -> u32
    decreases n,
{
    if n == 0 {
        0
    } else {
        xor_bits(v, (n - 1) as nat) ^ ((v >> ((n - 1) as u32)) & 1)
    }
}

/// Returns whether `value` has an odd number of bits set.
pub fn calculate_parity(value: u32) -> (r: bool)
    ensures
        r == (xor_bits(value, 32) == 1),
{
    let mut acc: u32 = 0;
    let mut i: u32 = 0;
    while i < 32
        invariant
            i <= 32,
            acc == xor_bits(value, i as nat),
            acc <= 1,
        decreases 32 - i,
    {
        let b = (value >> i) & 1;
        assert(b <= 1 && (acc <= 1 ==> (acc ^ b) <= 1)) by (bit_vector)
            requires
                b == (value >> i) & 1,
        ;
        acc = acc ^ b;
        i = i + 1;
    }
    acc == 1
}

/// SWD Operations
///
/// Each operation contains the register address as a u8 (0x0, 0x4, etc).
///
/// SWD command format
/// Bit 0: Start (1)
/// Bit 1: APnDP (0=DP, 1=AP)
/// Bit 2: RnW (0=write, 1=read)
/// Bit 3: A2 (address bit 2)
/// Bit 4: A3 (address bit 3)
/// Bit 5: Parity
/// Bit 6: Stop (0)
/// Bit 7: Park (1)
#[derive(Debug, Clone, Copy, PartialEq, Eq, Structural)]
pub enum SwdOp {
    DpRead(u8),
    DpWrite(u8),
    ApRead(u8),
    ApWrite(u8),
}

/// The register address of an operation.
pub open spec fn op_addr(op: SwdOp) -> u8 {
    match op {
        SwdOp::DpRead(a) => a,
        SwdOp::DpWrite(a) => a,
        SwdOp::ApRead(a) => a,
        SwdOp::ApWrite(a) => a,
    }
}

/// Whether an operation addresses an Access Port.
pub open spec fn op_is_ap(op: SwdOp) -> bool {
    op is ApRead || op is ApWrite
}

/// Whether an operation is a read.
pub open spec fn op_is_read(op: SwdOp) -> bool {
    op is DpRead || op is ApRead
}

/// The command byte without its parity bit: start, APnDP, RnW, A[3:2],
/// stop and park.
pub open spec fn swd_cmd_unparitied(op: SwdOp) -> u8 {
    let base: u8 = match op {
        SwdOp::DpRead(_) => 0x85,
        SwdOp::DpWrite(_) => 0x81,
        SwdOp::ApRead(_) => 0x87,
        SwdOp::ApWrite(_) => 0x83,
    };
    base | ((op_addr(op) & 0x0C) << 1u8)
}

/// The SWD command byte of an operation: the parity bit (bit 5) makes the
/// number of set bits among APnDP, RnW, A2, A3 and parity even.
pub open spec fn swd_cmd(op: SwdOp) -> u8 {
    let c = swd_cmd_unparitied(op);
    c | ((((c >> 1u8) ^ (c >> 2u8) ^ (c >> 3u8) ^ (c >> 4u8)) & 1) << 5u8)
}

/// Bits from 5 up do not change the parity of a value below 32.
proof fn lemma_xor_bits_above_five(pb: u32, n: nat)
    requires
        pb < 32,
        5 <= n <= 32,
    ensures
        xor_bits(pb, n) == xor_bits(pb, 5),
    decreases n,
{
    if n > 5 {
        lemma_xor_bits_above_five(pb, (n - 1) as nat);
        let k: u32 = (n - 1) as u32;
        let x = xor_bits(pb, (n - 1) as nat);
        assert((pb >> k) & 1 == 0 && x ^ 0 == x) by (bit_vector)
            requires
                pb < 32,
                5 <= k < 32,
        ;
    }
}

/// The parity of bits 1 to 4 of a byte is the xor of those bits.
proof fn lemma_parity_of_header_bits(c: u8)
    ensures
        xor_bits((c & 0x1E) as u32, 32) == (((c >> 1u8) ^ (c >> 2u8) ^ (c >> 3u8) ^ (c >> 4u8))
            & 1) as u32,
{
    let pb: u32 = (c & 0x1E) as u32;
    assert(pb < 32) by (bit_vector)
        requires
            pb == (c & 0x1E) as u32,
    ;
    lemma_xor_bits_above_five(pb, 32);
    reveal_with_fuel(xor_bits, 6);
    assert(xor_bits(pb, 5) == (((c >> 1u8) ^ (c >> 2u8) ^ (c >> 3u8) ^ (c >> 4u8)) & 1) as u32)
        by (bit_vector)
        requires
            pb == (c & 0x1E) as u32,
            xor_bits(pb, 5) == 0 ^ ((pb >> 0u32) & 1) ^ ((pb >> 1u32) & 1) ^ ((pb >> 2u32) & 1) ^ ((
            pb >> 3u32) & 1) ^ ((pb >> 4u32) & 1),
    ;
}

/// Every SWD command byte is a well-formed request header: start bit set,
/// stop bit clear, park bit set, APnDP and RnW as the operation says, A[3:2]
/// from bits 3:2 of the register address, and even parity over APnDP, RnW,
/// A2, A3 and the parity bit.
pub proof fn lemma_swd_cmd_well_formed(op: SwdOp)
    ensures
        swd_cmd(op) & 1 == 1,
        (swd_cmd(op) >> 6u8) & 1 == 0,
        (swd_cmd(op) >> 7u8) & 1 == 1,
        ((swd_cmd(op) >> 1u8) & 1 == 1) == op_is_ap(op),
        ((swd_cmd(op) >> 2u8) & 1 == 1) == op_is_read(op),
        (swd_cmd(op) >> 3u8) & 3 == (op_addr(op) >> 2u8) & 3,
        ((swd_cmd(op) >> 1u8) ^ (swd_cmd(op) >> 2u8) ^ (swd_cmd(op) >> 3u8) ^ (swd_cmd(op) >> 4u8)
            ^ (swd_cmd(op) >> 5u8)) & 1 == 0,
{
    let a = op_addr(op);
    let c = swd_cmd(op);
    match op {
        SwdOp::DpRead(_) => {
            assert(c & 1 == 1 && (c >> 6u8) & 1 == 0 && (c >> 7u8) & 1 == 1 && (c >> 1u8) & 1 == 0
                && (c >> 2u8) & 1 == 1 && (c >> 3u8) & 3 == (a >> 2u8) & 3 && ((c >> 1u8) ^ (c
                >> 2u8) ^ (c >> 3u8) ^ (c >> 4u8) ^ (c >> 5u8)) & 1 == 0) by (bit_vector)
                requires
                    c == (0x85u8 | ((a & 0x0C) << 1u8)) | (((((0x85u8 | ((a & 0x0C) << 1u8))
                        >> 1u8) ^ ((0x85u8 | ((a & 0x0C) << 1u8)) >> 2u8) ^ ((0x85u8 | ((a & 0x0C)
                        << 1u8)) >> 3u8) ^ ((0x85u8 | ((a & 0x0C) << 1u8)) >> 4u8)) & 1) << 5u8),
            ;
        },
        SwdOp::DpWrite(_) => {
            assert(c & 1 == 1 && (c >> 6u8) & 1 == 0 && (c >> 7u8) & 1 == 1 && (c >> 1u8) & 1 == 0
                && (c >> 2u8) & 1 == 0 && (c >> 3u8) & 3 == (a >> 2u8) & 3 && ((c >> 1u8) ^ (c
                >> 2u8) ^ (c >> 3u8) ^ (c >> 4u8) ^ (c >> 5u8)) & 1 == 0) by (bit_vector)
                requires
                    c == (0x81u8 | ((a & 0x0C) << 1u8)) | (((((0x81u8 | ((a & 0x0C) << 1u8))
                        >> 1u8) ^ ((0x81u8 | ((a & 0x0C) << 1u8)) >> 2u8) ^ ((0x81u8 | ((a & 0x0C)
                        << 1u8)) >> 3u8) ^ ((0x81u8 | ((a & 0x0C) << 1u8)) >> 4u8)) & 1) << 5u8),
            ;
        },
        SwdOp::ApRead(_) => {
            assert(c & 1 == 1 && (c >> 6u8) & 1 == 0 && (c >> 7u8) & 1 == 1 && (c >> 1u8) & 1 == 1
                && (c >> 2u8) & 1 == 1 && (c >> 3u8) & 3 == (a >> 2u8) & 3 && ((c >> 1u8) ^ (c
                >> 2u8) ^ (c >> 3u8) ^ (c >> 4u8) ^ (c >> 5u8)) & 1 == 0) by (bit_vector)
                requires
                    c == (0x87u8 | ((a & 0x0C) << 1u8)) | (((((0x87u8 | ((a & 0x0C) << 1u8))
                        >> 1u8) ^ ((0x87u8 | ((a & 0x0C) << 1u8)) >> 2u8) ^ ((0x87u8 | ((a & 0x0C)
                        << 1u8)) >> 3u8) ^ ((0x87u8 | ((a & 0x0C) << 1u8)) >> 4u8)) & 1) << 5u8),
            ;
        },
        SwdOp::ApWrite(_) => {
            assert(c & 1 == 1 && (c >> 6u8) & 1 == 0 && (c >> 7u8) & 1 == 1 && (c >> 1u8) & 1 == 1
                && (c >> 2u8) & 1 == 0 && (c >> 3u8) & 3 == (a >> 2u8) & 3 && ((c >> 1u8) ^ (c
                >> 2u8) ^ (c >> 3u8) ^ (c >> 4u8) ^ (c >> 5u8)) & 1 == 0) by (bit_vector)
                requires
                    c == (0x83u8 | ((a & 0x0C) << 1u8)) | (((((0x83u8 | ((a & 0x0C) << 1u8))
                        >> 1u8) ^ ((0x83u8 | ((a & 0x0C) << 1u8)) >> 2u8) ^ ((0x83u8 | ((a & 0x0C)
                        << 1u8)) >> 3u8) ^ ((0x83u8 | ((a & 0x0C) << 1u8)) >> 4u8)) & 1) << 5u8),
            ;
        },
    }
}

/// Two operations have the same command byte exactly when they are of the
/// same kind and their addresses agree in bits 3:2.
pub proof fn lemma_swd_cmd_identifies_op(a: SwdOp, b: SwdOp)
    ensures
        swd_cmd(a) == swd_cmd(b) <==> (op_is_ap(a) == op_is_ap(b) && op_is_read(a) == op_is_read(
            b) && (op_addr(a) >> 2u8) & 3 == (op_addr(b) >> 2u8) & 3),
{
    lemma_swd_cmd_well_formed(a);
    lemma_swd_cmd_well_formed(b);
    let ca = swd_cmd(a);
    let cb = swd_cmd(b);
    let ua = swd_cmd_unparitied(a);
    let ub = swd_cmd_unparitied(b);
    if op_is_ap(a) == op_is_ap(b) && op_is_read(a) == op_is_read(b) && (op_addr(a) >> 2u8) & 3 == (
    op_addr(b) >> 2u8) & 3 {
        let aa = op_addr(a);
        let ab = op_addr(b);
        assert((aa & 0x0C) == (ab & 0x0C)) by (bit_vector)
            requires
                (aa >> 2u8) & 3 == (ab >> 2u8) & 3,
        ;
        assert(ua == ub);
    } else {
        assert(ca == cb ==> ((ca >> 1u8) & 1 == (cb >> 1u8) & 1 && (ca >> 2u8) & 1 == (cb >> 2u8)
            & 1 && (ca >> 3u8) & 3 == (cb >> 3u8) & 3));
    }
}

impl SwdOp {
    /// The SWD command byte for this operation.
    pub fn to_cmd(&self) -> (r: u8)
        ensures
            r == swd_cmd(*self),
    {
        // SWD cmd: [start][APnDP][RnW][A3][A2][parity][stop][park]
        let (base, addr): (u8, u8) = match self {
            SwdOp::DpRead(a) => (0x85, *a),
            SwdOp::DpWrite(a) => (0x81, *a),
            SwdOp::ApRead(a) => (0x87, *a),
            SwdOp::ApWrite(a) => (0x83, *a),
        };
        assert((addr & 0x0C) << 1u8 <= 0x18) by (bit_vector);
        let cmd = base | ((addr & 0x0C) << 1u8);
        Self::add_parity(cmd)
    }

    /// Sets the parity bit (bit 5) of a command byte from APnDP, RnW and
    /// A[3:2] (bits 1 to 4).
    pub fn add_parity(cmd: u8) -> (r: u8)
        ensures
            r == cmd | ((((cmd >> 1u8) ^ (cmd >> 2u8) ^ (cmd >> 3u8) ^ (cmd >> 4u8)) & 1) << 5u8),
    {
        let parity_bits = cmd & 0x1E;
        proof {
            lemma_parity_of_header_bits(cmd);
        }
        let parity: u8 = if calculate_parity(parity_bits as u32) {
            1
        } else {
            0
        };
        assert(parity == ((cmd >> 1u8) ^ (cmd >> 2u8) ^ (cmd >> 3u8) ^ (cmd >> 4u8)) & 1) by (
        bit_vector)
            requires
                (parity == 1) == ((((cmd >> 1u8) ^ (cmd >> 2u8) ^ (cmd >> 3u8) ^ (cmd >> 4u8)) & 1)
                    as u32 == 1),
                parity == 0 || parity == 1,
        ;
        assert(parity << 5u8 <= 0x20) by (bit_vector)
            requires
                parity <= 1,
        ;
        cmd | (parity << 5u8)
    }

    /// Returns the DP SELECT register value required for this operation,
    /// and the (unshifted) mask of the bank field it sets.
    pub fn dp_select(&self) -> (r: (Select, u32))
        ensures
            r.1 == 0xF,
            op_is_ap(*self) ==> r.0.0 == addr_bank(op_addr(*self)) << 4u32,
            !op_is_ap(*self) ==> r.0.0 == addr_bank(op_addr(*self)),
            op_is_ap(*self) ==> select_apbanksel(r.0.0) == addr_bank(op_addr(*self)),
            !op_is_ap(*self) ==> select_dpbanksel(r.0.0) == addr_bank(op_addr(*self)),
    {
        let mut select = Select::default();
        match self {
            SwdOp::DpRead(addr) | SwdOp::DpWrite(addr) => {
                select.set_dpbanksel_from_addr(*addr);
                proof {
                    crate::arm::dp::lemma_addr_bank_small(*addr);
                    crate::arm::dp::lemma_bank_fields(addr_bank(*addr));
                }
                (select, Select::DPBANKSEL_MASK)
            },
            SwdOp::ApRead(addr) | SwdOp::ApWrite(addr) => {
                select.set_apbanksel_from_addr(*addr);
                let ghost b = addr_bank(*addr);
                proof {
                    crate::arm::dp::lemma_addr_bank_small(*addr);
                    crate::arm::dp::lemma_bank_fields(b);
                    assert((0u32 & !0xF0u32) | (b << 4u32) == b << 4u32);
                }
                (select, Select::APBANKSEL_MASK)
            },
        }
    }

    /// Checks if the given SELECT register value already selects the bank
    /// this operation needs.
    pub fn check_dp_select(&self, select: Select) -> (r: bool)
        ensures
            op_is_ap(*self) ==> r == (select_apbanksel(select.0) == addr_bank(op_addr(*self))),
            !op_is_ap(*self) ==> r == (select_dpbanksel(select.0) == addr_bank(op_addr(*self))),
    {
        let v = select.value();
        match self {
            SwdOp::DpRead(addr) | SwdOp::DpWrite(addr) => {
                let bank: u32 = (((*addr >> 4u8) & 0xF) as u32) << Select::DPBANKSEL_SHIFT;
                let mask: u32 = Select::DPBANKSEL_MASK << Select::DPBANKSEL_SHIFT;
                let ghost b = addr_bank(*addr);
                proof {
                    crate::arm::dp::lemma_addr_bank_small(*addr);
                    crate::arm::dp::lemma_bank_fields(b);
                    crate::arm::dp::lemma_u32_constants();
                }
                (v & mask) == bank
            },
            SwdOp::ApRead(addr) | SwdOp::ApWrite(addr) => {
                let bank: u32 = (((*addr >> 4u8) & 0xF) as u32) << Select::APBANKSEL_SHIFT;
                let mask: u32 = Select::APBANKSEL_MASK << Select::APBANKSEL_SHIFT;
                let ghost b = addr_bank(*addr);
                proof {
                    crate::arm::dp::lemma_addr_bank_small(*addr);
                    crate::arm::dp::lemma_u32_constants();
                }
                assert(((v & 0xF0u32) == (b << 4u32)) == (((v >> 4u32) & 0xF) == b)) by (
                bit_vector)
                    requires
                        b < 16,
                ;
                (v & mask) == bank
            },
        }
    }

    /// The operation as text, such as `DP Read 0x04`.
    pub fn display_string(&self) -> (r: String)
        ensures
            r@ == match *self {
                SwdOp::DpRead(a) => "DP Read "@ + hex_byte_chars(a),
                SwdOp::DpWrite(a) => "DP Write "@ + hex_byte_chars(a),
                SwdOp::ApRead(a) => "AP Read "@ + hex_byte_chars(a),
                SwdOp::ApWrite(a) => "AP Write "@ + hex_byte_chars(a),
            },
    {
        let mut s = String::new();
        match self {
            SwdOp::DpRead(a) => {
                push_str(&mut s, "DP Read ");
                push_hex_byte(&mut s, *a);
            },
            SwdOp::DpWrite(a) => {
                push_str(&mut s, "DP Write ");
                push_hex_byte(&mut s, *a);
            },
            SwdOp::ApRead(a) => {
                push_str(&mut s, "AP Read ");
                push_hex_byte(&mut s, *a);
            },
            SwdOp::ApWrite(a) => {
                push_str(&mut s, "AP Write ");
                push_hex_byte(&mut s, *a);
            },
        }
        s
    }

    /// Whether this operation requires the debug domain to be powered up.
    pub fn requires_power_up(&self) -> (r: bool)
        ensures
            r == op_is_ap(*self),
    {
        match self {
            SwdOp::DpRead(_) | SwdOp::DpWrite(_) => false,
            SwdOp::ApRead(_) | SwdOp::ApWrite(_) => true,
        }
    }
}

/// The SELECT value an operation asks for already selects the bank the
/// operation needs: once it is written, no further SELECT update is needed.
pub proof fn lemma_dp_select_satisfies_check(op: SwdOp)
    ensures
        op_is_ap(op) ==> select_apbanksel(addr_bank(op_addr(op)) << 4u32) == addr_bank(
            op_addr(op),
        ),
        !op_is_ap(op) ==> select_dpbanksel(addr_bank(op_addr(op))) == addr_bank(op_addr(op)),
{
    let a = op_addr(op);
    let b = addr_bank(a);
    crate::arm::dp::lemma_addr_bank_small(a);
    crate::arm::dp::lemma_bank_fields(b);
    assert(((b << 4u32) >> 4u32) & 0xF == b);
    assert(b & 0xF == b);
}

/// A target found on a multi-drop SWD bus: the TARGETSEL value that
/// selects it and the IDCODE it reported.
#[derive(Debug, Clone, Copy, PartialEq, Eq, Structural)]
pub struct MultiDropTarget {
    pub target: TargetSel,
    pub idcode: IdCode,
}

/// The name of a multi-drop target with the given TARGETSEL value.
pub open spec fn multidrop_name(data: u32) -> Seq<char> {
    if data == 0x01002927 {
        "RP2040 Core 0"@
    } else if data == 0x11002927 {
        "RP2040 Core 1"@
    } else if data == 0xF1002927 {
        "RP2040 Rescue DP"@
    } else if data & 0x1002927 == 0x1002927 {
        "RP2040 Core custom instance ID"@
    } else {
        "Unknown"@
    }
}

/// The RP2040's multi-drop targets by name: the TARGETSEL values of core
/// 0, core 1 and the rescue DP name them; any other value with all the
/// RP2040 TARGETSEL bits set is a core with a custom instance ID, and
/// anything else is unknown.
pub proof fn lemma_multidrop_names(data: u32)
    ensures
        multidrop_name(crate::arm::dp::TARGET_SEL_RP2040_CORE0) == "RP2040 Core 0"@,
        multidrop_name(crate::arm::dp::TARGET_SEL_RP2040_CORE1) == "RP2040 Core 1"@,
        multidrop_name(crate::arm::dp::TARGET_SEL_RP2040_RESCUE_DP) == "RP2040 Rescue DP"@,
        data != crate::arm::dp::TARGET_SEL_RP2040_CORE0 && data
            != crate::arm::dp::TARGET_SEL_RP2040_CORE1 && data != crate::arm::dp::TARGET_SEL_RP2040_RESCUE_DP ==> (
        multidrop_name(data) == if data & 0x1002927 == 0x1002927 {
            "RP2040 Core custom instance ID"@
        } else {
            "Unknown"@
        }),
{
    crate::arm::dp::lemma_dp_register_map(data);
}

impl MultiDropTarget {
    /// Creates a multi-drop target.
    pub fn new(target: TargetSel, idcode: IdCode) -> (r: Self)
        ensures
            r.target == target,
            r.idcode == idcode,
    {
        MultiDropTarget { idcode, target }
    }

    /// The TARGETSEL value selecting this target.
    pub fn target(&self) -> (r: TargetSel)
        ensures
            r == self.target,
    {
        self.target
    }

    /// The IDCODE this target reported.
    pub fn idcode(&self) -> (r: IdCode)
        ensures
            r == self.idcode,
    {
        self.idcode
    }

    /// A human readable name for this target.
    pub fn name(&self) -> (r: &'static str)
        ensures
            r@ == multidrop_name(self.target.0),
    {
        match self.target.data() {
            0x01002927 => "RP2040 Core 0",
            0x11002927 => "RP2040 Core 1",
            0xF1002927 => "RP2040 Rescue DP",
            _ => {
                if self.target.data() & 0x1002927 == 0x1002927 {
                    "RP2040 Core custom instance ID"
                } else {
                    "Unknown"
                }
            },
        }
    }
}

/// What follows the ack of an SWD operation.
#[derive(Debug, Clone, PartialEq, Eq)]
pub enum AckStep {
    /// The target accepted: go on to the data phase
    Transfer,
    /// The target answered WAIT: send the request again as this attempt
    Retry(u32),
    /// Stop the operation with this error
    Fail(SwdError),
}

/// Default retries after a WAIT ack
pub const DEFAULT_WAIT_RETRIES: u32 = 2;

/// The connection state of an SWD interface, as seen in specifications.
pub struct SwdState {
    pub idcode: Option<IdCode>,
    pub mcu: Option<Mcu>,
    pub idr: Option<crate::arm::ap::Idr>,
    pub powered_up: bool,
    pub dp_select: u32,
    pub addr_inc: bool,
    pub wait_retries: u32,
    pub check_power: bool,
    pub reset_version: Option<Version>,
}

/// The state after a line reset: nothing is known about the target, DP
/// SELECT is zero, and only the retry limit is kept.
pub open spec fn reset_state(s: SwdState) -> SwdState {
    SwdState {
        idcode: None,
        mcu: None,
        idr: None,
        powered_up: false,
        dp_select: 0,
        addr_inc: false,
        wait_retries: s.wait_retries,
        check_power: true,
        reset_version: None,
    }
}

/// What `check_version` returns in a state: the version implied by the
/// identified MCU (STM32 targets speak v1, RP targets v2), else the version
/// of the last reset sequence, else `NotReady`.
pub open spec fn version_of(s: SwdState) -> Result<Version, SwdError> {
    match s.mcu {
        Some(Mcu::Stm32(_)) => Ok(Version::V1),
        Some(Mcu::Rp(_)) => Ok(Version::V2),
        _ => match s.reset_version {
            Some(v) => Ok(v),
            None => Err(SwdError::NotReady),
        },
    }
}

/// Whether the DP SELECT value must be rewritten before `op`: operations on
/// DP registers that ignore the bank (ABORT, SELECT and RDBUFF writes;
/// IDCODE, SELECT and RDBUFF reads) never need it; other operations need it
/// when the current value selects another bank.
pub open spec fn select_update_needed(op: SwdOp, current: u32) -> bool {
    let exempt = match op {
        SwdOp::DpWrite(a) => a == ABORT_ADDRESS || a == SELECT_ADDRESS || a == RDBUFF_ADDRESS,
        SwdOp::DpRead(a) => a == IDCODE_ADDRESS || a == SELECT_ADDRESS || a == RDBUFF_ADDRESS,
        _ => false,
    };
    &&& !exempt
    &&& if op_is_ap(op) {
        select_apbanksel(current) != addr_bank(op_addr(op))
    } else {
        select_dpbanksel(current) != addr_bank(op_addr(op))
    }
}

/// The SELECT value written before `op` when an update is needed: zero
/// except for the bank field the operation needs.
pub open spec fn select_for_op(op: SwdOp) -> u32 {
    if op_is_ap(op) {
        addr_bank(op_addr(op)) << 4u32
    } else {
        addr_bank(op_addr(op))
    }
}

/// SWD Interface connection state
///
/// Holds what is known of the target and of the debug port between SWD
/// operations, and decides, for each operation, what has to happen first.
pub struct SwdInterface {
    idcode: Option<IdCode>,
    mcu: Option<Mcu>,
    idr: Option<crate::arm::ap::Idr>,
    powered_up: bool,
    dp_select: Select,
    addr_inc: bool,
    wait_retries: u32,
    check_power: bool,
    // Version is updated when IDCODE is read after reset.  If the target is
    // reset without reading the IDCODE, version is not set.
    reset_version: Option<Version>,
}

impl View for SwdInterface {
    type V = SwdState;

    closed spec fn view(&self) -> SwdState {
        SwdState {
            idcode: self.idcode,
            mcu: self.mcu,
            idr: self.idr,
            powered_up: self.powered_up,
            dp_select: self.dp_select.0,
            addr_inc: self.addr_inc,
            wait_retries: self.wait_retries,
            check_power: self.check_power,
            reset_version: self.reset_version,
        }
    }
}

impl SwdInterface {
    /// Creates a new SWD interface state: not connected, nothing known of
    /// the target, the default retry limit.
    pub fn new() -> (r: Self)
        ensures
            r@ == (SwdState {
                idcode: None,
                mcu: None,
                idr: None,
                powered_up: false,
                dp_select: 0,
                addr_inc: false,
                wait_retries: DEFAULT_WAIT_RETRIES,
                check_power: true,
                reset_version: None,
            }),
    {
        Self {
            idcode: None,
            mcu: None,
            idr: None,
            powered_up: false,
            dp_select: Select::default(),
            addr_inc: false,
            wait_retries: DEFAULT_WAIT_RETRIES,
            check_power: true,
            reset_version: None,
        }
    }

    /// Resets internal state of the SWD interface, as a line reset does.
    pub fn reset_internal_state(&mut self)
        ensures
            final(self)@ == reset_state(old(self)@),
    {
        self.idcode = None;
        self.mcu = None;
        self.idr = None;
        self.powered_up = false;
        self.dp_select = Select::default();
        self.addr_inc = false;
        self.check_power = true;
        self.reset_version = None;
    }

    /// Returns whether the SWD interface is currently connected to a target.
    pub fn is_connected(&self) -> (r: bool)
        ensures
            r == self@.idcode.is_some(),
    {
        self.idcode.is_some()
    }

    /// Checks the target is initialized, and returns the SWD version used
    /// with it.
    ///
    /// Returns:
    /// - `Ok(Version)`: if the interface is initialized and the version is
    ///   available.
    /// - `Err(SwdError::NotReady)`: if the interface is not initialized or
    ///   the version is not available.
    pub fn check_version(&self) -> (r: Result<Version, SwdError>)
        ensures
            r == version_of(self@),
    {
        match &self.mcu {
            Some(Mcu::Stm32(_)) => Ok(Version::V1),
            Some(Mcu::Rp(_)) => Ok(Version::V2),
            _ => match self.reset_version {
                Some(v) => Ok(v),
                None => Err(SwdError::NotReady),
            },
        }
    }

    /// Retrieves the IDCODE of the target device, if available.
    pub fn idcode(&self) -> (r: Option<IdCode>)
        ensures
            r == self@.idcode,
    {
        self.idcode
    }

    /// Retrieves the MCU information, if available.
    pub fn mcu(&self) -> (r: Option<Mcu>)
        ensures
            r == self@.mcu,
    {
        self.mcu
    }

    /// Retrieves the IDR of the MEM-AP, if available.
    pub fn idr(&self) -> (r: Option<crate::arm::ap::Idr>)
        ensures
            r == self@.idr,
    {
        self.idr
    }

    /// Retrieves whether the CSW AddrInc is set to auto-increment single.
    pub fn addr_inc(&self) -> (r: bool)
        ensures
            r == self@.addr_inc,
    {
        self.addr_inc
    }

    /// The DP SELECT value last written.
    pub fn dp_select(&self) -> (r: Select)
        ensures
            r.0 == self@.dp_select,
    {
        self.dp_select
    }

    /// Sets the number of automatic retries of an SWD operation after a
    /// WAIT ack is received.
    pub fn set_wait_retries(&mut self, retries: u32)
        ensures
            final(self)@ == (SwdState { wait_retries: retries, ..old(self)@ }),
    {
        self.wait_retries = retries;
    }

    /// Decides what follows a WAIT ack on attempt `attempt` (counted from 0):
    /// `Some(next)` to try again as attempt `next`, or `None` to give up
    /// with `SwdError::WaitAck` once the retry limit is used up.
    pub fn retry_after_wait(&self, attempt: u32) -> (r: Option<u32>)
        requires
            attempt <= self@.wait_retries,
            attempt < u32::MAX,
        ensures
            r == if attempt + 1 > self@.wait_retries {
                None
            } else {
                Some((attempt + 1) as u32)
            },
    {
        let next = attempt + 1;
        if next > self.wait_retries {
            None
        } else {
            Some(next)
        }
    }

    /// Decides whether `op` may be performed now: AP operations need the
    /// debug domain powered up, unless power checking is off.
    pub fn access_gate(&self, op: SwdOp) -> (r: Result<(), SwdError>)
        ensures
            r == if self@.check_power && op_is_ap(op) && !self@.powered_up {
                Err(SwdError::NotReady)
            } else {
                Ok(())
            },
    {
        if self.check_power && op.requires_power_up() && !self.powered_up {
            Err(SwdError::NotReady)
        } else {
            Ok(())
        }
    }

    /// Decides whether the MEM-AP may be configured now: the debug domain
    /// must be powered up, unless power checking is off.
    pub fn mem_ap_gate(&self) -> (r: Result<(), SwdError>)
        ensures
            r == if self@.check_power && !self@.powered_up {
                Err(SwdError::NotReady)
            } else {
                Ok(())
            },
    {
        if self.check_power && !self.powered_up {
            Err(SwdError::NotReady)
        } else {
            Ok(())
        }
    }

    /// Decides whether DP SELECT must be written before `op`, and with what:
    /// `Some(select)` holding only the bank field that `op` needs, or `None`
    /// when the current value will do or `op` ignores the bank.
    pub fn select_update(&self, op: SwdOp) -> (r: Option<Select>)
        ensures
            r == if select_update_needed(op, self@.dp_select) {
                Some(Select(select_for_op(op)))
            } else {
                None
            },
    {
        let check = match op {
            SwdOp::DpWrite(addr) => !(addr == ABORT_ADDRESS || addr == SELECT_ADDRESS || addr
                == RDBUFF_ADDRESS),
            SwdOp::DpRead(addr) => !(addr == IDCODE_ADDRESS || addr == SELECT_ADDRESS || addr
                == RDBUFF_ADDRESS),
            SwdOp::ApWrite(_) | SwdOp::ApRead(_) => true,
        };
        if !check {
            return None;
        }
        if !op.check_dp_select(self.dp_select) {
            let (mut select, _) = op.dp_select();
            match op {
                SwdOp::DpRead(addr) | SwdOp::DpWrite(addr) => {
                    let ghost before = select.0;
                    proof {
                        crate::arm::dp::lemma_addr_bank_small(addr);
                    }
                    select.set_dpbanksel_from_addr(addr);
                    let ghost b = addr_bank(addr);
                    assert((before & !0xFu32) | b == before) by (bit_vector)
                        requires
                            before == b,
                            b < 16,
                    ;
                },
                SwdOp::ApRead(addr) | SwdOp::ApWrite(addr) => {
                    let ghost before = select.0;
                    proof {
                        crate::arm::dp::lemma_addr_bank_small(addr);
                    }
                    select.set_apbanksel_from_addr(addr);
                    let ghost b = addr_bank(addr);
                    assert((before & !0xF0u32) | (b << 4u32) == before) by (bit_vector)
                        requires
                            before == b << 4u32,
                            b < 16,
                    ;
                },
            }
            Some(select)
        } else {
            None
        }
    }

    /// Decides the SELECT value needed for a raw access to register
    /// `register` of AP `ap_index`: the current value with APSEL and
    /// APBANKSEL replaced, or `None` when that is the current value already.
    pub fn ap_raw_select(&self, ap_index: u8, register: u8) -> (r: Option<Select>)
        ensures
            ({
                let v = (self@.dp_select & 0x00FF_FFFFu32) | ((ap_index as u32 & 0xFF) << 24u32);
                let w = (v & !0xF0u32) | (addr_bank(register) << 4u32);
                r == if w != self@.dp_select {
                    Some(Select(w))
                } else {
                    None
                }
            }),
    {
        let mut select = self.dp_select;
        select.set_apsel(ap_index as u32);
        select.set_apbanksel_from_addr(register);
        if select.value() != self.dp_select.value() {
            Some(select)
        } else {
            None
        }
    }

    /// Decides what follows the ack of attempt `attempt` (counted from 0) of
    /// an SWD operation: an OK ack goes on to the data phase; a WAIT ack is
    /// retried as attempt `attempt + 1` while that stays within the retry
    /// limit, else the operation fails with `WaitAck`; any other ack stops
    /// the operation with that error.
    pub fn ack_step(&self, ack: Result<(), SwdError>, attempt: u32) -> (r: AckStep)
        requires
            attempt <= self@.wait_retries,
            attempt < u32::MAX,
        ensures
            r == match ack {
                Ok(()) => AckStep::Transfer,
                Err(SwdError::WaitAck) => if attempt + 1 > self@.wait_retries {
                    AckStep::Fail(SwdError::WaitAck)
                } else {
                    AckStep::Retry((attempt + 1) as u32)
                },
                Err(e) => AckStep::Fail(e),
            },
    {
        match ack {
            Ok(()) => AckStep::Transfer,
            Err(SwdError::WaitAck) => match self.retry_after_wait(attempt) {
                Some(next) => AckStep::Retry(next),
                None => AckStep::Fail(SwdError::WaitAck),
            },
            Err(e) => AckStep::Fail(e),
        }
    }

    /// Records the outcome of enabling a target whose IDCODE was read
    /// after a reset: on success the interface is connected, with the MCU
    /// found; on failure the reset version is forgotten and the error
    /// returned.
    pub fn finish_connection(&mut self, idcode: IdCode, enabled: Result<Option<Mcu>, SwdError>) -> (r:
        Result<(), SwdError>)
        ensures
            match enabled {
                Ok(mcu) => r is Ok && final(self)@ == (SwdState {
                    idcode: Some(idcode),
                    mcu: mcu,
                    ..old(self)@
                }),
                Err(e) => r == Err::<(), SwdError>(e) && final(self)@ == (SwdState {
                    reset_version: None,
                    ..old(self)@
                }),
            },
    {
        match enabled {
            Ok(mcu) => {
                self.record_connection(idcode, mcu);
                Ok(())
            },
            Err(e) => {
                self.set_reset_version(None);
                Err(e)
            },
        }
    }

    /// Ends a raw AP access, which ran with power checking off: a failed
    /// access turns power checking back on; a successful one leaves it as
    /// it is, off.
    pub fn finish_raw_ap_access(&mut self, succeeded: bool)
        ensures
            final(self)@ == if succeeded {
                old(self)@
            } else {
                SwdState { check_power: true, ..old(self)@ }
            },
    {
        if !succeeded {
            self.check_power = true;
        }
    }

    /// Records that the CSW AddrInc field was set to auto-increment single
    /// (`true`) or off (`false`).
    pub fn record_addr_inc(&mut self, addr_inc: bool)
        ensures
            final(self)@ == (SwdState { addr_inc: addr_inc, ..old(self)@ }),
    {
        self.addr_inc = addr_inc;
    }

    /// Records a successful write of DP SELECT.
    pub fn record_dp_select(&mut self, select: Select)
        ensures
            final(self)@ == (SwdState { dp_select: select.0, ..old(self)@ }),
    {
        self.dp_select = select;
    }

    /// Records a successful raw write of DP register `register`: a write to
    /// SELECT updates the SELECT value kept.
    pub fn record_dp_register_write(&mut self, register: u8, value: u32)
        ensures
            final(self)@ == if register == SELECT_ADDRESS {
                SwdState { dp_select: value, ..old(self)@ }
            } else {
                old(self)@
            },
    {
        if register == SELECT_ADDRESS {
            self.dp_select = Select::from_u32(value);
        }
    }

    /// Turns power checking on or off (raw register accesses turn it off
    /// for their duration).
    pub fn set_check_power(&mut self, check: bool)
        ensures
            final(self)@ == (SwdState { check_power: check, ..old(self)@ }),
    {
        self.check_power = check;
    }

    /// Records that the debug domain powered up.
    pub fn record_powered_up(&mut self)
        ensures
            final(self)@ == (SwdState { powered_up: true, ..old(self)@ }),
    {
        self.powered_up = true;
    }

    /// Records the version of the reset sequence that reached the target,
    /// or `None` when connecting failed after it.
    pub fn set_reset_version(&mut self, version: Option<Version>)
        ensures
            final(self)@ == (SwdState { reset_version: version, ..old(self)@ }),
    {
        self.reset_version = version;
    }

    /// Records a completed connection: the target's IDCODE and the MCU
    /// details found, if any.
    pub fn record_connection(&mut self, idcode: IdCode, mcu: Option<Mcu>)
        ensures
            final(self)@ == (SwdState { idcode: Some(idcode), mcu: mcu, ..old(self)@ }),
    {
        self.mcu = mcu;
        self.idcode = Some(idcode);
    }

    /// Records refreshed MCU details.
    pub fn set_mcu(&mut self, mcu: Option<Mcu>)
        ensures
            final(self)@ == (SwdState { mcu: mcu, ..old(self)@ }),
    {
        self.mcu = mcu;
    }

    /// Records the MEM-AP IDR read while configuring the MEM-AP.
    pub fn record_idr(&mut self, idr: crate::arm::ap::Idr)
        ensures
            final(self)@ == (SwdState { idr: Some(idr), ..old(self)@ }),
    {
        self.idr = Some(idr);
    }

    /// Records the CSW value read back after configuring the MEM-AP: address
    /// increment is on unless its AddrInc field is off.
    pub fn record_csw_readback(&mut self, csw: crate::arm::map::Csw)
        ensures
            final(self)@ == (SwdState {
                addr_inc: crate::arm::map::csw_addrinc(csw.0) != crate::arm::map::Csw::ADDRINC_OFF,
                ..old(self)@
            }),
    {
        self.addr_inc = csw.addrinc() != crate::arm::map::Csw::ADDRINC_OFF;
    }
}

/// After a reset the interface is not connected and not ready for any
/// operation: `check_version` fails with `NotReady`.
pub proof fn lemma_reset_disconnects(s: SwdState)
    ensures
        reset_state(s).idcode.is_none(),
        version_of(reset_state(s)) == Err::<Version, SwdError>(SwdError::NotReady),
        reset_state(reset_state(s)) == reset_state(s),
{
}

/// The SWD version used with a target: v1 for an identified STM32, v2 for
/// an identified RP device, and otherwise (no MCU, or one not identified)
/// the version of the last reset sequence that reached the target, if one
/// did; only then is the interface not ready.  So connecting to an
/// unidentified MCU does not change the version.
pub proof fn lemma_version_sources(s: SwdState, i: IdCode)
    ensures
        s.mcu matches Some(Mcu::Stm32(_)) ==> version_of(s) == Ok::<Version, SwdError>(Version::V1),
        s.mcu matches Some(Mcu::Rp(_)) ==> version_of(s) == Ok::<Version, SwdError>(Version::V2),
        !(s.mcu matches Some(Mcu::Stm32(_))) && !(s.mcu matches Some(Mcu::Rp(_))) ==> (
        version_of(s) is Ok <==> s.reset_version is Some),
        !(s.mcu matches Some(Mcu::Stm32(_))) && !(s.mcu matches Some(Mcu::Rp(_)))
            && s.reset_version is Some ==> version_of(s) == Ok::<Version, SwdError>(
            s.reset_version->0,
        ),
        version_of(s) is Err ==> version_of(s) == Err::<Version, SwdError>(SwdError::NotReady),
        version_of(SwdState { idcode: Some(i), mcu: Some(Mcu::Unknown(i)), ..s }) == version_of(
            SwdState { mcu: None, ..s },
        ),
{
}

/// Which operations need DP SELECT rewritten first.  Only IDCODE, SELECT
/// and RDBUFF reads (DP addresses 0x0, 0x8 and 0xC) and ABORT, SELECT and
/// RDBUFF/TARGETSEL writes (the same addresses) ignore the bank.  Every
/// other DP operation, CTRL/STAT at 0x4 among them, and every AP operation
/// needs a SELECT write exactly when the recorded bank differs from the
/// bank of its address; that write sets the bank the operation needs and
/// leaves every other SELECT field zero.
pub proof fn lemma_select_update_rules(op: SwdOp, current: u32)
    ensures
        ({
            let a = op_addr(op);
            let bank_exempt = !op_is_ap(op) && (a == 0x0 || a == 0x8 || a == 0xC);
            &&& bank_exempt ==> !select_update_needed(op, current)
            &&& !bank_exempt && !op_is_ap(op) ==> (select_update_needed(op, current)
                <==> (current & 0xF) != ((a >> 4u8) & 0xF) as u32)
            &&& op_is_ap(op) ==> (select_update_needed(op, current) <==> ((current >> 4u32) & 0xF)
                != ((a >> 4u8) & 0xF) as u32)
            &&& !op_is_ap(op) ==> select_for_op(op) == ((a >> 4u8) & 0xF) as u32
            &&& op_is_ap(op) ==> select_for_op(op) == (((a >> 4u8) & 0xF) as u32) << 4u32
        }),
{
}

/// Writing the SELECT value chosen for an operation leaves nothing to
/// update: the same operation then needs no further SELECT write.
pub proof fn lemma_select_update_settles(op: SwdOp)
    ensures
        !select_update_needed(op, select_for_op(op)),
{
    lemma_dp_select_satisfies_check(op);
}

/// Decides the outcome of a DP CTRL/STAT check: `DpError` when a sticky
/// error flag is set, or when `check_read_ok` asks for READOK and it is
/// clear.
pub fn dp_status_result(status: CtrlStat, check_read_ok: bool) -> (r: Result<(), SwdError>)
    ensures
        r == if ctrl_stat_has_errors(status.0) || (check_read_ok && !bit_of(status.0, 6)) {
            Err(SwdError::DpError)
        } else {
            Ok(())
        },
{
    if status.has_errors() || (check_read_ok && !status.readok()) {
        Err(SwdError::DpError)
    } else {
        Ok(())
    }
}

/// The CTRL/STAT value written to power up the debug domain: the debug and
/// system power-up requests set, every other bit clear.
pub fn power_up_request() -> (r: CtrlStat)
    ensures
        r.0 == with_bit(with_bit(0, 28, true), 30, true),
        r.0 == 0x5000_0000,
{
    let mut ctrl_stat = CtrlStat::default();
    ctrl_stat.set_cdbgpwrupreq(true);
    ctrl_stat.set_csyspwrupreq(true);
    proof {
        crate::arm::dp::lemma_u32_constants();
    }
    ctrl_stat
}

/// Decides whether the debug domain powered up: both the debug and the
/// system power-up acknowledgements must be set.
pub fn power_up_result(status: CtrlStat) -> (r: Result<(), SwdError>)
    ensures
        r.is_ok() == (bit_of(status.0, 29) && bit_of(status.0, 31)),
        r matches Err(e) ==> e matches SwdError::OperationFailed(m) && m@
            == "debug domain power up failed"@,
{
    if !status.cdbgpwrupack() || !status.csyspwrupack() {
        Err(SwdError::OperationFailed("debug domain power up failed".to_owned()))
    } else {
        Ok(())
    }
}

/// The ABORT value clearing the requested sticky flags.
pub fn abort_value(stkcmpclr: bool, stkerrclr: bool, wderrclr: bool, orunerrclr: bool) -> (r:
    Abort)
    ensures
        r.0 == with_bit(with_bit(with_bit(with_bit(0, 1, stkcmpclr), 2, stkerrclr), 3, wderrclr),
            4, orunerrclr),
{
    let mut abort = Abort::default();
    abort.set_stkcmpclr(stkcmpclr);
    abort.set_stkerrclr(stkerrclr);
    abort.set_wderrclr(wderrclr);
    abort.set_orunerrclr(orunerrclr);
    abort
}

/// The CSW value the MEM-AP is configured with: the default CSW with
/// AddrInc single when `addr_inc`, off otherwise.
pub fn mem_ap_csw(addr_inc: bool) -> (r: Csw)
    ensures
        r.0 == (0x2300_0002u32 & !0x30u32) | ((if addr_inc {
            1u32
        } else {
            0u32
        }) << 4u32),
        csw_addrinc(r.0) == if addr_inc {
            1u32
        } else {
            0u32
        },
{
    let mut new_csw = Csw::default();
    let addr_inc_value = if addr_inc {
        Csw::ADDRINC_SINGLE
    } else {
        Csw::ADDRINC_OFF
    };
    new_csw.set_addrinc(addr_inc_value);
    proof {
        crate::arm::dp::lemma_u32_constants();
    }
    new_csw
}

/// Whether a CSW read back matches the value written, ignoring bits 24 to
/// 31, which vary between MCUs.
pub fn csw_config_matches(written: Csw, readback: Csw) -> (r: bool)
    ensures
        r == ((readback.0 & 0xFFFFFF) == (written.0 & 0xFFFFFF)),
{
    (readback.value() & 0xFFFFFF) == (written.value() & 0xFFFFFF)
}

/// Decides the CSW to write so that address increment is `addr_inc`:
/// `None` when the current AddrInc is already off (for `false`) or single
/// (for `true`), else `csw` with AddrInc set accordingly.
pub fn addr_inc_change(csw: Csw, addr_inc: bool) -> (r: Option<Csw>)
    ensures
        r == if (csw_addrinc(csw.0) == Csw::ADDRINC_OFF && !addr_inc) || (csw_addrinc(csw.0)
            == Csw::ADDRINC_SINGLE && addr_inc) {
            None
        } else {
            Some(Csw((csw.0 & !0x30u32) | ((if addr_inc {
                1u32
            } else {
                0u32
            }) << 4u32)))
        },
{
    let cur_addr_inc = csw.addrinc();
    if cur_addr_inc == Csw::ADDRINC_OFF && !addr_inc {
        return None;
    } else if cur_addr_inc == Csw::ADDRINC_SINGLE && addr_inc {
        return None;
    }
    let new_addr_inc = if addr_inc {
        Csw::ADDRINC_SINGLE
    } else {
        Csw::ADDRINC_OFF
    };
    proof {
        crate::arm::dp::lemma_u32_constants();
    }
    let mut new_csw = csw;
    new_csw.set_addrinc(new_addr_inc);
    Some(new_csw)
}

/// Decides whether a CSW write took effect: the value read back must equal
/// the value written.
pub fn csw_write_result(written: Csw, readback: Csw) -> (r: Result<(), SwdError>)
    ensures
        r.is_ok() == (written.0 == readback.0),
        r matches Err(e) ==> e matches SwdError::OperationFailed(m) && m@
            == "csw addrinc write failed"@,
{
    if readback.value() != written.value() {
        Err(SwdError::OperationFailed("csw addrinc write failed".to_owned()))
    } else {
        Ok(())
    }
}

/// Decides whether a TAR write took effect before a memory read: the value
/// read back must equal the address written.
pub fn tar_read_check(tar: Tar, readback: Tar) -> (r: Result<(), SwdError>)
    ensures
        r.is_ok() == (tar.0 == readback.0),
        r matches Err(e) ==> e matches SwdError::OperationFailed(m) && m@ == "unexpect tar "@
            + hex_word_chars(readback.0),
{
    if tar.value() != readback.value() {
        let mut message = "unexpect tar ".to_owned();
        push_hex_word(&mut message, readback.value());
        Err(SwdError::OperationFailed(message))
    } else {
        Ok(())
    }
}

/// Decides whether a TAR write took effect before a memory write: the value
/// read back must equal the address written.
pub fn tar_write_check(tar: Tar, readback: Tar) -> (r: Result<(), SwdError>)
    ensures
        r.is_ok() == (tar.0 == readback.0),
        r matches Err(e) ==> e matches SwdError::OperationFailed(m) && m@ == "unexpected tar "@
            + hex_word_chars(readback.0),
{
    if tar.value() != readback.value() {
        let mut message = "unexpected tar ".to_owned();
        push_hex_word(&mut message, readback.value());
        Err(SwdError::OperationFailed(message))
    } else {
        Ok(())
    }
}

/// SWD memory transfers auto-increment within 1 KB blocks only.
pub const SWD_MEMORY_BOUNDARY: u32 = 0x400;

/// The number of words of a bulk transfer at word address `addr` that fit
/// before the next 1 KB boundary, capped by the words still to go.
pub open spec fn chunk_words(addr: int, remaining: int) -> int {
    let room = (1024 - addr % 1024) / 4;
    if remaining < room {
        remaining
    } else {
        room
    }
}

/// One step of a bulk transfer plan, at word `total` of `len` from `addr`:
/// the chunk fits before the next 1 KB boundary, holds at least one word
/// and does not run past the end.
proof fn lemma_chunk_step(addr: int, len: int, total: int, current: int)
    requires
        addr % 4 == 0,
        0 <= addr,
        0 <= total < len,
        current == addr + 4 * total,
    ensures
        current % 4 == 0,
        (current % 1024) % 4 == 0,
        (1024 - current % 1024) / 4 >= 1,
        (current - addr) / 4 == total,
        current % 1024 + 4 * chunk_words(current, len - total) <= 1024,
        chunk_words(current, len - total) >= 1,
        total + chunk_words(current, len - total) <= len,
{
    assert(current % 4 == 0) by (nonlinear_arith)
        requires
            addr % 4 == 0,
            current == addr + 4 * total,
    ;
    assert((current % 1024) % 4 == 0) by (nonlinear_arith)
        requires
            current % 4 == 0,
            current >= 0,
    ;
    assert((current - addr) / 4 == total) by (nonlinear_arith)
        requires
            current == addr + 4 * total,
    ;
}

/// Plans a bulk memory transfer of `len` words starting at `addr` as a
/// list of `(address, word count)` chunks, each of which stays within one
/// 1 KB block, since the MEM-AP address increment wraps there.
///
/// Returns `Err((SwdError::Api, 0))` when `addr` is not word aligned.
pub fn plan_bulk_transfer(addr: u32, len: usize) -> (r: Result<Vec<(u32, usize)>, (SwdError, usize)>)
    requires
        addr + 4 * len <= u32::MAX,
    ensures
        r.is_err() == (addr % 4 != 0),
        r matches Err(e) ==> e == (SwdError::Api, 0usize),
        r matches Ok(v) ==> {
            &&& (v@.len() == 0) == (len == 0)
            &&& v@.len() > 0 ==> v@[0].0 == addr
            &&& v@.len() > 0 ==> v@.last().0 + 4 * v@.last().1 == addr + 4 * len
            &&& forall|k: int|
                #![trigger v@[k]]
                0 <= k < v@.len() ==> {
                    &&& v@[k].1 >= 1
                    &&& v@[k].0 % 1024 + 4 * v@[k].1 <= 1024
                    &&& v@[k].1 == chunk_words(
                        v@[k].0 as int,
                        len - (v@[k].0 - addr) / 4,
                    )
                }
            &&& forall|k: int|
                #![trigger v@[k + 1]]
                0 <= k && k + 1 < v@.len() ==> v@[k + 1].0 == v@[k].0 + 4 * v@[k].1
        },
{
    assert((addr & 0x3 != 0) == (addr % 4 != 0)) by (bit_vector);
    if addr & 0x3 != 0 {
        return Err((SwdError::Api, 0));
    }
    let mut chunks: Vec<(u32, usize)> = Vec::new();
    let mut current_addr = addr;
    let mut total: usize = 0;
    while total < len
        invariant
            addr % 4 == 0,
            addr + 4 * len <= u32::MAX,
            total <= len,
            current_addr == addr + 4 * total,
            (chunks@.len() == 0) == (total == 0),
            chunks@.len() > 0 ==> chunks@[0].0 == addr,
            chunks@.len() > 0 ==> chunks@.last().0 + 4 * chunks@.last().1 == current_addr,
            forall|k: int|
                #![trigger chunks@[k]]
                0 <= k < chunks@.len() ==> {
                    &&& chunks@[k].1 >= 1
                    &&& chunks@[k].0 % 1024 + 4 * chunks@[k].1 <= 1024
                    &&& chunks@[k].1 == chunk_words(
                        chunks@[k].0 as int,
                        len - (chunks@[k].0 - addr) / 4,
                    )
                },
            forall|k: int|
                #![trigger chunks@[k + 1]]
                0 <= k && k + 1 < chunks@.len() ==> chunks@[k + 1].0 == chunks@[k].0 + 4
                    * chunks@[k].1,
        decreases len - total,
    {
        // Words before the next 1 KB boundary
        let offset = current_addr & (SWD_MEMORY_BOUNDARY - 1);
        assert(offset == current_addr % 1024) by (bit_vector)
            requires
                offset == current_addr & 0x3FFu32,
        ;
        let boundary_offset = SWD_MEMORY_BOUNDARY - offset;
        let max_words = (boundary_offset / 4) as usize;
        let remaining = len - total;
        let chunk_size = if remaining < max_words {
            remaining
        } else {
            max_words
        };
        proof {
            lemma_chunk_step(addr as int, len as int, total as int, current_addr as int);
        }
        let ghost prev = chunks@;
        chunks.push((current_addr, chunk_size));
        assert(forall|k: int| 0 <= k < prev.len() ==> chunks@[k] == prev[k]);
        total = total + chunk_size;
        current_addr = current_addr + (chunk_size * 4) as u32;
    }
    Ok(chunks)
}

/// The outcome of detecting multi-drop targets: the targets found, or an
/// error when none answered, so that `Ok` never holds an empty list.
pub fn multidrop_detection_result(found: Vec<MultiDropTarget>) -> (r: Result<
    Vec<MultiDropTarget>,
    SwdError,
>)
    ensures
        r.is_err() == (found@.len() == 0),
        r matches Ok(v) ==> v@ == found@ && v@.len() > 0,
        r matches Err(e) ==> e matches SwdError::OperationFailed(m) && m@
            == "no multi-drop targets detected"@,
{
    if found.len() == 0 {
        return Err(SwdError::OperationFailed("no multi-drop targets detected".to_owned()));
    }
    Ok(found)
}

/// How an MCU is identified from its IDCODE.
#[derive(Debug, Clone, Copy, PartialEq, Eq, Structural)]
pub enum McuProbe {
    /// Cortex-M3/M4: an STM32, identified by its DBGMCU device ID at
    /// `StmDeviceId::ADDRESS`; failing reads are errors.
    StmDeviceId,
    /// Cortex-M0/M0+: an STM32G0 if the G0 device ID reads as a known
    /// family, else an RP2040 if its chip and CPU IDs match, else unknown.
    StmG0ThenRp2040,
    /// Cortex-M33: not identified further.
    Unidentified,
    /// Any other core: an STM32G0 if the G0 device ID reads as a known
    /// family, else unknown.
    StmG0ThenUnknown,
}

/// Address of the STM32G0 DBGMCU IDCODE register.
pub const STM32G0_DBGMCU_IDCODE_ADDR: u32 = 0x4001_5800;

/// The identification procedure for each IDCODE.
pub open spec fn mcu_probe_spec(v: u32) -> McuProbe {
    if v == Cortex::IDCODE_M3 || v == Cortex::IDCODE_M4 {
        McuProbe::StmDeviceId
    } else if v == Cortex::IDCODE_M0 || v == Cortex::IDCODE_M0_PLUS {
        McuProbe::StmG0ThenRp2040
    } else if v == Cortex::IDCODE_M33 {
        McuProbe::Unidentified
    } else {
        McuProbe::StmG0ThenUnknown
    }
}

/// The identification procedure follows the core type the IDCODE names:
/// a Cortex-M3 or M4 is read as an STM32 by its DBGMCU device ID, a
/// Cortex-M0 (or M0+) is tried as an STM32G0 and then as an RP2040, a
/// Cortex-M33 is not identified further, and an IDCODE of no known core is
/// tried as an STM32G0 only.
pub proof fn lemma_mcu_probe_by_core(v: u32)
    ensures
        (mcu_probe_spec(v) == McuProbe::StmDeviceId) <==> (cortex_from_idcode_value(v) == Some(
            Cortex::M3,
        ) || cortex_from_idcode_value(v) == Some(Cortex::M4)),
        (mcu_probe_spec(v) == McuProbe::StmG0ThenRp2040) <==> cortex_from_idcode_value(v) == Some(
            Cortex::M0,
        ),
        (mcu_probe_spec(v) == McuProbe::Unidentified) <==> cortex_from_idcode_value(v) == Some(
            Cortex::M33,
        ),
        (mcu_probe_spec(v) == McuProbe::StmG0ThenUnknown) <==> cortex_from_idcode_value(v) is None,
        STM32G0_DBGMCU_IDCODE_ADDR == 0x4001_5800u32,
{
}

/// Chooses how to identify the MCU behind an IDCODE.
pub fn mcu_probe(idcode: IdCode) -> (r: McuProbe)
    ensures
        r == mcu_probe_spec(idcode@),
{
    let v = idcode.value();
    if v == Cortex::IDCODE_M3 || v == Cortex::IDCODE_M4 {
        McuProbe::StmDeviceId
    } else if v == Cortex::IDCODE_M0 || v == Cortex::IDCODE_M0_PLUS {
        McuProbe::StmG0ThenRp2040
    } else if v == Cortex::IDCODE_M33 {
        McuProbe::Unidentified
    } else {
        McuProbe::StmG0ThenUnknown
    }
}

/// The flash size held in a flash size word: the upper half-word when it
/// is neither 0 nor 0xFFFF, else the lower half-word.
pub open spec fn flash_size_of_word(w: u32) -> u16 {
    let upper = (w >> 16u32) as u16;
    let lower = (w & 0xFFFF) as u16;
    if upper != 0 && upper != 0xFFFF {
        upper
    } else {
        lower
    }
}

/// Decodes the flash size from the word read at the family's flash size
/// address.
pub fn flash_size_from_word(w: u32) -> (r: StmFlashSize)
    ensures
        r.raw == flash_size_of_word(w),
{
    assert((w >> 16u32) <= 0xFFFF && (w & 0xFFFF) <= 0xFFFF) by (bit_vector);
    let upper = (w >> 16u32) as u16;
    let lower = (w & 0xFFFF) as u16;
    let raw = if upper != 0 && upper != 0xFFFF {
        upper
    } else {
        lower
    };
    StmFlashSize::new(raw)
}

/// Whether a DBGMCU device ID read from the STM32G0 address identifies an
/// STM32: its family must be known.
pub fn stm_g0_probe_matches(device_raw: u32) -> (r: bool)
    ensures
        r == (stm_family_of_dev(stm_dev_id(device_raw)) != StmFamily::Unknown),
{
    StmDeviceId::new(device_raw).family().known()
}

/// Decides the outcome of reading the STM32G0 device ID: `Some(raw)` when
/// the read succeeded and identifies a known STM32 family; `None`, so that
/// identification falls through to the next probe, when the read failed or
/// the value identifies no family.
pub fn stm_g0_probe(read: Result<u32, SwdError>) -> (r: Option<u32>)
    ensures
        r == match read {
            Ok(raw) => if stm_family_of_dev(stm_dev_id(raw)) != StmFamily::Unknown {
                Some(raw)
            } else {
                None
            },
            Err(_) => None,
        },
{
    match read {
        Ok(raw) => {
            if stm_g0_probe_matches(raw) {
                Some(raw)
            } else {
                None
            }
        },
        Err(_) => None,
    }
}

/// The addresses of the three UID words, given the UID address.
pub fn uid_word_addresses(base: u32) -> (r: [u32; 3])
    requires
        base + 8 <= u32::MAX,
    ensures
        r@ == seq![base, (base + 4) as u32, (base + 8) as u32],
{
    let r = [base, base + 4, base + 8];
    assert(r@ =~= seq![base, (base + 4) as u32, (base + 8) as u32]);
    r
}

/// The STM32 details assembled from what was read: the device ID, the UID
/// words (when the family has a UID address) and the flash size word (when
/// the family has a flash size address).
pub fn stm_mcu(device_raw: u32, idcode: IdCode, uid: Option<[u32; 3]>, flash_word: Option<u32>) -> (r:
    Mcu)
    ensures
        r == Mcu::Stm32(
            StmDetails {
                mcu: StmDeviceId { raw: device_raw },
                idcode: idcode,
                uid: match uid {
                    Some(u) => Some(StmUniqueId { uid: u }),
                    None => None,
                },
                flash_size: match flash_word {
                    Some(w) => Some(StmFlashSize { raw: flash_size_of_word(w) }),
                    None => None,
                },
            },
        ),
{
    let unique_id = match uid {
        Some(u) => Some(StmUniqueId::new(u)),
        None => None,
    };
    let flash_size = match flash_word {
        Some(w) => Some(flash_size_from_word(w)),
        None => None,
    };
    Mcu::Stm32(StmDetails::new(StmDeviceId::new(device_raw), idcode, unique_id, flash_size))
}

/// The MCU identified by the RP2040 chip ID and CPU ID registers: an RP2040
/// when both match, else unknown.
pub fn rp2040_identify(chip_id: u32, cpu_id: u32, idcode: IdCode) -> (r: Mcu)
    ensures
        r == if chip_id == RP2040_CHIP_ID && cpu_id == RP2040_CPU_ID {
            Mcu::Rp(RpDetails { line: RpLine::Rp2040 })
        } else {
            Mcu::Unknown(idcode)
        },
{
    if chip_id == RP2040_CHIP_ID && cpu_id == RP2040_CPU_ID {
        Mcu::Rp(RpDetails::from_line(RpLine::Rp2040))
    } else {
        Mcu::Unknown(idcode)
    }
}

/// One step of a bulk DRW transfer.  `err_count` is the number of words
/// reported as transferred if the step fails.
#[derive(Debug, Clone, Copy, PartialEq, Eq, Structural)]
pub enum DrwStep {
    /// Read DRW (posted: the value returned is that of the previous read)
    ReadDrw { err_count: usize },
    /// Read RDBUFF, collecting the value of the last posted read
    ReadRdBuff { err_count: usize },
    /// Store the value just read as word `index` of the buffer
    Store { index: usize },
    /// Write word `index` of the buffer to DRW; `last` when no operation
    /// follows soon
    WriteDrw { index: usize, last: bool, err_count: usize },
    /// Read CTRL/STAT and fail on a sticky error (and on READOK clear when
    /// `check_read_ok`)
    CheckErrors { check_read_ok: bool, err_count: usize },
}

/// Step `p` of the DRW reads before the final RDBUFF read: per word `i`, a
/// DRW read, in slow mode a CTRL/STAT check, and the store of word `i`.
pub open spec fn drw_read_middle(p: int, fast: bool) -> DrwStep {
    let per = if fast {
        2int
    } else {
        3int
    };
    let i = p / per;
    let j = p % per;
    if j == 0 {
        DrwStep::ReadDrw { err_count: i as usize }
    } else if j == 1 && !fast {
        DrwStep::CheckErrors { check_read_ok: true, err_count: i as usize }
    } else {
        DrwStep::Store { index: i as usize }
    }
}

/// The steps of reading `count` words from DRW.  A first DRW read starts
/// the posted reads; each further DRW read returns the previous word; RDBUFF
/// returns the last.  In slow mode CTRL/STAT is checked after each read, in
/// fast mode only at the end.
pub open spec fn drw_read_steps(count: nat, fast: bool) -> Seq<DrwStep> {
    let per = if fast {
        2int
    } else {
        3int
    };
    let middle = Seq::new(((count - 1) * per) as nat, |p: int| drw_read_middle(p, fast));
    let tail = if fast {
        seq![
            DrwStep::ReadRdBuff { err_count: (count - 1) as usize },
            DrwStep::Store { index: (count - 1) as usize },
            DrwStep::CheckErrors { check_read_ok: true, err_count: count as usize },
        ]
    } else {
        seq![
            DrwStep::ReadRdBuff { err_count: (count - 1) as usize },
            DrwStep::CheckErrors { check_read_ok: true, err_count: (count - 1) as usize },
            DrwStep::Store { index: (count - 1) as usize },
        ]
    };
    seq![DrwStep::ReadDrw { err_count: 0 }] + middle + tail
}

/// Plans reading `count` words from DRW (see `drw_read_steps`).
pub fn plan_drw_read(count: usize, fast: bool) -> (r: Vec<DrwStep>)
    requires
        1 <= count,
    ensures
        r@ == drw_read_steps(count as nat, fast),
{
    let per: usize = if fast {
        2
    } else {
        3
    };
    let mut steps: Vec<DrwStep> = Vec::new();
    steps.push(DrwStep::ReadDrw { err_count: 0 });
    let mut i: usize = 0;
    while i < count - 1
        invariant
            1 <= count,
            i <= count - 1,
            per == if fast {
                2usize
            } else {
                3usize
            },
            steps@.len() == 1 + i * per,
            steps@[0] == (DrwStep::ReadDrw { err_count: 0 }),
            forall|p: int|
                0 <= p < i * per ==> steps@[1 + p] == #[trigger] drw_read_middle(p, fast),
        decreases count - 1 - i,
    {
        let ghost before = steps@;
        steps.push(DrwStep::ReadDrw { err_count: i });
        if !fast {
            steps.push(DrwStep::CheckErrors { check_read_ok: true, err_count: i });
        }
        steps.push(DrwStep::Store { index: i });
        assert forall|p: int| 0 <= p < (i + 1) * per implies steps@[1 + p] == #[trigger] drw_read_middle(p, fast) by {
            if p < i * per {
                assert(steps@[1 + p] == before[1 + p]);
                assert(before[1 + p] == drw_read_middle(p, fast));
            } else {
                assert(p / (per as int) == i as int) by (nonlinear_arith)
                    requires
                        i * per <= p < (i + 1) * per,
                        per == 2 || per == 3,
                ;
                assert(p % (per as int) == p - i * per) by (nonlinear_arith)
                    requires
                        i * per <= p < (i + 1) * per,
                        per == 2 || per == 3,
                ;
            }
        }
        i = i + 1;
    }
    steps.push(DrwStep::ReadRdBuff { err_count: count - 1 });
    if fast {
        steps.push(DrwStep::Store { index: count - 1 });
        steps.push(DrwStep::CheckErrors { check_read_ok: true, err_count: count });
    } else {
        steps.push(DrwStep::CheckErrors { check_read_ok: true, err_count: count - 1 });
        steps.push(DrwStep::Store { index: count - 1 });
    }
    assert(steps@ =~= drw_read_steps(count as nat, fast));
    steps
}

/// Step `p` of writing `count` words to DRW, before any final check: per
/// word `i`, the DRW write of word `i` (marked last for the final word),
/// followed in slow mode by a CTRL/STAT check.
pub open spec fn drw_write_body(p: int, count: nat, fast: bool) -> DrwStep {
    let per = if fast {
        1int
    } else {
        2int
    };
    let i = p / per;
    if p % per == 0 {
        DrwStep::WriteDrw { index: i as usize, last: i == count - 1, err_count: i as usize }
    } else {
        DrwStep::CheckErrors { check_read_ok: false, err_count: i as usize }
    }
}

/// The steps of writing `count` words to DRW.  In slow mode each write is
/// followed by a CTRL/STAT check; in fast mode CTRL/STAT is checked only
/// once, at the end.  An empty write has no steps.
pub open spec fn drw_write_steps(count: nat, fast: bool) -> Seq<DrwStep> {
    if count == 0 {
        seq![]
    } else if fast {
        Seq::new(count, |p: int| drw_write_body(p, count, true)) + seq![
            DrwStep::CheckErrors { check_read_ok: false, err_count: count as usize },
        ]
    } else {
        Seq::new(2 * count, |p: int| drw_write_body(p, count, false))
    }
}

/// Plans writing `count` words to DRW (see `drw_write_steps`).
pub fn plan_drw_write(count: usize, fast: bool) -> (r: Vec<DrwStep>)
    ensures
        r@ == drw_write_steps(count as nat, fast),
{
    let mut steps: Vec<DrwStep> = Vec::new();
    if count == 0 {
        return steps;
    }
    let ghost per: int = if fast {
        1int
    } else {
        2int
    };
    let mut i: usize = 0;
    while i < count
        invariant
            1 <= count,
            i <= count,
            per == if fast {
                1int
            } else {
                2int
            },
            steps@.len() == i * per,
            forall|p: int| 0 <= p < i * per ==> steps@[p] == #[trigger] drw_write_body(p, count as nat, fast),
        decreases count - i,
    {
        let ghost before = steps@;
        let last = i == count - 1;
        steps.push(DrwStep::WriteDrw { index: i, last, err_count: i });
        if !fast {
            steps.push(DrwStep::CheckErrors { check_read_ok: false, err_count: i });
        }
        assert forall|p: int| 0 <= p < (i + 1) * per implies steps@[p] == #[trigger] drw_write_body(
            p,
            count as nat,
            fast,
        ) by {
            if p < i * per {
                assert(steps@[p] == before[p]);
            } else {
                assert(p / per == i as int) by (nonlinear_arith)
                    requires
                        i * per <= p < (i + 1) * per,
                        per == 1 || per == 2,
                ;
                assert(p % per == p - i * per) by (nonlinear_arith)
                    requires
                        i * per <= p < (i + 1) * per,
                        per == 1 || per == 2,
                ;
            }
        }
        i = i + 1;
    }
    if fast {
        steps.push(DrwStep::CheckErrors { check_read_ok: false, err_count: count });
    }
    assert(steps@ =~= drw_write_steps(count as nat, fast));
    steps
}

/// The number of `Store` steps in a sequence of steps.
pub open spec fn stores_in(s: Seq<DrwStep>) -> nat
    decreases s.len(),
{
    if s.len() == 0 {
        0
    } else {
        stores_in(s.drop_last()) + if s.last() is Store {
            1nat
        } else {
            0nat
        }
    }
}

/// The number of `CheckErrors` steps in a sequence of steps.
pub open spec fn checks_in(s: Seq<DrwStep>) -> nat
    decreases s.len(),
{
    if s.len() == 0 {
        0
    } else {
        checks_in(s.drop_last()) + if s.last() is CheckErrors {
            1nat
        } else {
            0nat
        }
    }
}

/// The word count a step reports on failure, if it can fail.
pub open spec fn step_err_count(st: DrwStep) -> Option<usize> {
    match st {
        DrwStep::ReadDrw { err_count } => Some(err_count),
        DrwStep::ReadRdBuff { err_count } => Some(err_count),
        DrwStep::WriteDrw { err_count, .. } => Some(err_count),
        DrwStep::CheckErrors { err_count, .. } => Some(err_count),
        DrwStep::Store { .. } => None,
    }
}

/// Whether a step's reported word count and stored word index both equal
/// `before`.
pub open spec fn step_consistent(st: DrwStep, before: nat) -> bool {
    &&& (step_err_count(st) matches Some(c) ==> c == before)
    &&& (st matches DrwStep::Store { index } ==> index == before)
}

proof fn lemma_read_prefix_stores(count: nat, fast: bool, k: int)
    requires
        count >= 1,
        1 <= k <= 1 + (count - 1) * (if fast {
            2int
        } else {
            3int
        }),
    ensures
        stores_in(drw_read_steps(count, fast).take(k)) == (k - 1) / (if fast {
            2int
        } else {
            3int
        }),
    decreases k,
{
    let s = drw_read_steps(count, fast);
    let per = if fast {
        2int
    } else {
        3int
    };
    if k == 1 {
        reveal_with_fuel(stores_in, 2);
        assert(s.take(1).drop_last() =~= Seq::<DrwStep>::empty());
    } else {
        lemma_read_prefix_stores(count, fast, k - 1);
        assert(s.take(k).drop_last() =~= s.take(k - 1));
        let p = k - 2;
        assert(s[k - 1] == drw_read_middle(p, fast));
        if fast {
            assert((p + 1) / 2 == p / 2 + if p % 2 == 1 {
                1int
            } else {
                0int
            });
        } else {
            assert((p + 1) / 3 == p / 3 + if p % 3 == 2 {
                1int
            } else {
                0int
            });
        }
    }
}

proof fn lemma_read_middle_step(count: nat, fast: bool, k: int)
    requires
        1 <= count <= usize::MAX,
        1 <= k <= (count - 1) * (if fast {
            2int
        } else {
            3int
        }),
    ensures
        step_consistent(
            drw_read_steps(count, fast)[k],
            stores_in(drw_read_steps(count, fast).take(k)),
        ),
{
    let s = drw_read_steps(count, fast);
    let per = if fast {
        2int
    } else {
        3int
    };
    let m = (count - 1) * per;
    lemma_read_prefix_stores(count, fast, k);
    assert(s[k] == drw_read_middle(k - 1, fast));
    assert(0 <= (k - 1) / per < count) by (nonlinear_arith)
        requires
            1 <= k <= m,
            m == (count - 1) * per,
            per == 2 || per == 3,
    ;
}

#[verifier::rlimit(40)]
proof fn lemma_read_tail_step(count: nat, fast: bool, k: int)
    requires
        1 <= count <= usize::MAX,
        (count - 1) * (if fast {
            2int
        } else {
            3int
        }) < k < drw_read_steps(count, fast).len(),
    ensures
        step_consistent(
            drw_read_steps(count, fast)[k],
            stores_in(drw_read_steps(count, fast).take(k)),
        ),
        stores_in(drw_read_steps(count, fast)) == count,
{
    let s = drw_read_steps(count, fast);
    let per = if fast {
        2int
    } else {
        3int
    };
    let m = (count - 1) * per;
    let middle = Seq::new(m as nat, |p: int| drw_read_middle(p, fast));
    let c1 = (count - 1) as usize;
    let tail = if fast {
        seq![
            DrwStep::ReadRdBuff { err_count: c1 },
            DrwStep::Store { index: c1 },
            DrwStep::CheckErrors { check_read_ok: true, err_count: count as usize },
        ]
    } else {
        seq![
            DrwStep::ReadRdBuff { err_count: c1 },
            DrwStep::CheckErrors { check_read_ok: true, err_count: c1 },
            DrwStep::Store { index: c1 },
        ]
    };
    assert(s =~= seq![DrwStep::ReadDrw { err_count: 0 }] + middle + tail);
    assert(s.len() == 4 + m);
    assert(s[1 + m] == tail[0]);
    assert(s[2 + m] == tail[1]);
    assert(s[3 + m] == tail[2]);
    lemma_read_prefix_stores(count, fast, 1 + m);
    assert(m / per == count - 1) by (nonlinear_arith)
        requires
            m == (count - 1) * per,
            per == 2 || per == 3,
    ;
    let t1 = s.take(1 + m);
    let t2 = s.take(2 + m);
    let t3 = s.take(3 + m);
    let t4 = s.take(4 + m);
    assert(t2.drop_last() =~= t1);
    assert(t3.drop_last() =~= t2);
    assert(t4.drop_last() =~= t3);
    assert(t4 =~= s);
    assert(t2.last() == s[1 + m]);
    assert(t3.last() == s[2 + m]);
    assert(t4.last() == s[3 + m]);
    assert(stores_in(t1) == count - 1);
    assert(stores_in(t2) == stores_in(t1) + if t2.last() is Store {
        1nat
    } else {
        0nat
    });
    assert(stores_in(t3) == stores_in(t2) + if t3.last() is Store {
        1nat
    } else {
        0nat
    });
    assert(stores_in(t4) == stores_in(t3) + if t4.last() is Store {
        1nat
    } else {
        0nat
    });
}

/// Every step of a bulk DRW read that can fail reports, as the number of
/// words read, exactly the number of words stored before it; and the words
/// are stored in order, word `i` as the `i`-th store.  So on error the
/// reported count is the number of valid words at the start of the buffer.
pub proof fn lemma_drw_read_err_counts(count: nat, fast: bool)
    requires
        1 <= count <= usize::MAX,
    ensures
        forall|k: int|
            #![trigger drw_read_steps(count, fast)[k]]
            0 <= k < drw_read_steps(count, fast).len() ==> step_consistent(
                drw_read_steps(count, fast)[k],
                stores_in(drw_read_steps(count, fast).take(k)),
            ),
        stores_in(drw_read_steps(count, fast)) == count,
{
    let s = drw_read_steps(count, fast);
    let per = if fast {
        2int
    } else {
        3int
    };
    let m = (count - 1) * per;
    assert forall|k: int| #![trigger s[k]] 0 <= k < s.len() implies step_consistent(
        s[k],
        stores_in(s.take(k)),
    ) by {
        if k == 0 {
            reveal_with_fuel(stores_in, 1);
            assert(s.take(0) =~= Seq::<DrwStep>::empty());
        } else if k <= m {
            lemma_read_middle_step(count, fast, k);
        } else {
            lemma_read_tail_step(count, fast, k);
        }
    }
    lemma_read_tail_step(count, fast, m + 1);
}

/// The number of `WriteDrw` steps in a sequence of steps.
pub open spec fn writes_in(s: Seq<DrwStep>) -> nat
    decreases s.len(),
{
    if s.len() == 0 {
        0
    } else {
        writes_in(s.drop_last()) + if s.last() is WriteDrw {
            1nat
        } else {
            0nat
        }
    }
}

proof fn lemma_write_prefix_counts(count: nat, fast: bool, k: int)
    requires
        1 <= count <= usize::MAX,
        0 <= k <= count * (if fast {
            1int
        } else {
            2int
        }),
    ensures
        writes_in(drw_write_steps(count, fast).take(k)) == if fast {
            k
        } else {
            (k + 1) / 2
        },
        checks_in(drw_write_steps(count, fast).take(k)) == if fast {
            0
        } else {
            k / 2
        },
    decreases k,
{
    let s = drw_write_steps(count, fast);
    if k == 0 {
        assert(s.take(0) =~= Seq::<DrwStep>::empty());
    } else {
        lemma_write_prefix_counts(count, fast, k - 1);
        assert(s.take(k).drop_last() =~= s.take(k - 1));
        assert(s.take(k).last() == s[k - 1]);
        assert(s[k - 1] == drw_write_body(k - 1, count, fast));
        if fast {
            assert((k - 1) / 1 == k - 1 && (k - 1) % 1 == 0);
        } else {
            assert(k / 2 == (k - 1) / 2 + if (k - 1) % 2 == 1 {
                1int
            } else {
                0int
            });
            assert((k + 1) / 2 == k / 2 + if (k - 1) % 2 == 0 {
                1int
            } else {
                0int
            });
        }
    }
}

proof fn lemma_write_step(count: nat, fast: bool, k: int)
    requires
        1 <= count <= usize::MAX,
        0 <= k < drw_write_steps(count, fast).len(),
    ensures
        step_err_count(drw_write_steps(count, fast)[k]) == Some(
            (if fast {
                writes_in(drw_write_steps(count, fast).take(k))
            } else {
                checks_in(drw_write_steps(count, fast).take(k))
            }) as usize,
        ),
        drw_write_steps(count, fast)[k] matches DrwStep::WriteDrw { index, last, .. } ==> index
            == writes_in(drw_write_steps(count, fast).take(k)) && last == (index == count - 1),
        !fast && drw_write_steps(count, fast)[k] is WriteDrw ==> k + 1 < drw_write_steps(
            count,
            fast,
        ).len() && drw_write_steps(count, fast)[k + 1] is CheckErrors,
{
    let s = drw_write_steps(count, fast);
    let per = if fast {
        1int
    } else {
        2int
    };
    let n = count * per;
    if k < n {
        lemma_write_prefix_counts(count, fast, k);
        assert(s[k] == drw_write_body(k, count, fast));
        if !fast {
            assert(k % 2 == 0 ==> (k + 1) / 2 == k / 2 && k + 1 < n);
            if k % 2 == 0 {
                assert(s[k + 1] == drw_write_body(k + 1, count, fast));
            }
        }
    } else {
        lemma_write_prefix_counts(count, fast, n);
        assert(s.take(k) =~= s.take(n));
    }
}

/// Bulk DRW writes write the words in order, word `i` as the `i`-th
/// write, with only the final one marked last.  In slow mode each write is
/// followed at once by a CTRL/STAT check, and a failing step reports as
/// written the words whose checks passed before it; in fast mode CTRL/STAT
/// is checked only once, after the last write, and a failing step reports
/// the words written before it.
pub proof fn lemma_drw_write_err_counts(count: nat, fast: bool)
    requires
        1 <= count <= usize::MAX,
    ensures
        forall|k: int|
            #![trigger drw_write_steps(count, fast)[k]]
            0 <= k < drw_write_steps(count, fast).len() ==> step_err_count(
                drw_write_steps(count, fast)[k],
            ) == Some(
                (if fast {
                    writes_in(drw_write_steps(count, fast).take(k))
                } else {
                    checks_in(drw_write_steps(count, fast).take(k))
                }) as usize,
            ),
        forall|k: int|
            #![trigger drw_write_steps(count, fast)[k]]
            0 <= k < drw_write_steps(count, fast).len() ==> (drw_write_steps(count, fast)[k] matches DrwStep::WriteDrw { index, last, .. }
                ==> index == writes_in(drw_write_steps(count, fast).take(k)) && last == (index
                == count - 1)),
        writes_in(drw_write_steps(count, fast)) == count,
        fast ==> checks_in(drw_write_steps(count, fast)) == 1 && drw_write_steps(
            count,
            fast,
        ).last() is CheckErrors,
        !fast ==> forall|k: int|
            #![trigger drw_write_steps(count, fast)[k]]
            0 <= k < drw_write_steps(count, fast).len() && drw_write_steps(count, fast)[k] is WriteDrw
                ==> k + 1 < drw_write_steps(count, fast).len() && drw_write_steps(count, fast)[k
                + 1] is CheckErrors,
{
    let s = drw_write_steps(count, fast);
    assert forall|k: int| #![trigger s[k]] 0 <= k < s.len() implies {
        &&& step_err_count(s[k]) == Some(
            (if fast {
                writes_in(s.take(k))
            } else {
                checks_in(s.take(k))
            }) as usize,
        )
        &&& (s[k] matches DrwStep::WriteDrw { index, last, .. } ==> index == writes_in(s.take(k))
            && last == (index == count - 1))
        &&& (!fast && s[k] is WriteDrw ==> k + 1 < s.len() && s[k + 1] is CheckErrors)
    } by {
        lemma_write_step(count, fast, k);
    }
    let per = if fast {
        1int
    } else {
        2int
    };
    let n = count * per;
    lemma_write_prefix_counts(count, fast, n);
    if fast {
        assert(s.take(n + 1) =~= s);
        assert(s.take(n + 1).drop_last() =~= s.take(n));
    } else {
        assert(s.take(n) =~= s);
    }
}

} // verus!
