//! The debug interface: the connection state of the SWD interface below it,
//! and the decisions of flash programming on the STM32F4 and STM32G0.
//!
//! Each flash operation is a sequence of memory reads and writes over SWD.
//! The functions here decide which family's procedure applies, which flash
//! controller register values are written, how status is judged while
//! polling, and how partial writes are merged.

use vstd::prelude::*;

use crate::arm::ap::Idr;
use crate::arm::dp::{bit_of, IdCode, TARGET_SEL_RP2040_RESCUE_DP};
use crate::stm::{
    g0_sr_error_mask, f4_sr_error_mask, stm_dev_id, stm_family_of_dev, Stm32F4FlashCr,
    Stm32F4FlashSr, Stm32G0FlashCr, Stm32G0FlashSr, StmFamily,
};
use crate::swd::{MultiDropTarget, SwdError, SwdInterface, SwdState};
use crate::text::{hex_word_chars, push_hex_word, push_str};
use crate::Mcu;

verus! {

/// ARM Debug Interface object
///
/// Used to debug, program, and co-process along-side ARM-based MCUs.  It
/// owns the state of the [`SwdInterface`] below it.
pub struct DebugInterface {
    swd: SwdInterface,
}

impl View for DebugInterface {
    type V = SwdState;

    closed spec fn view(&self) -> SwdState {
        self.swd@
    }
}

impl DebugInterface {
    /// Creates a new `DebugInterface` with the given [`SwdInterface`].
    pub fn new(swd: SwdInterface) -> (r: Self)
        ensures
            r@ == swd@,
    {
        Self { swd }
    }

    /// Returns a mutable reference to the underlying [`SwdInterface`].
    pub fn swd_if(&mut self) -> (r: &mut SwdInterface)
        ensures
            r@ == old(self)@,
            final(self)@ == final(r)@,
    {
        &mut self.swd
    }

    /// Returns the IDCODE of the target device, if available.
    pub fn idcode(&self) -> (r: Option<IdCode>)
        ensures
            r == self@.idcode,
    {
        self.swd.idcode()
    }

    /// Returns the MCU details for the target device, if available.
    pub fn mcu(&self) -> (r: Option<Mcu>)
        ensures
            r == self@.mcu,
    {
        self.swd.mcu()
    }
}

/// Width of a flash write.
#[derive(Debug, Clone, Copy, PartialEq, Eq, Structural)]
pub enum OperationBytes {
    BYTE1,
    BYTE2,
    BYTE4,
}

/// The flash procedure that applies to an MCU: `NotReady` when no MCU is
/// known, the family for STM32F4 and STM32G0 devices, `Unsupported` for
/// any other MCU.
pub open spec fn flash_family_spec(mcu: Option<Mcu>) -> Result<StmFamily, SwdError> {
    match mcu {
        None => Err(SwdError::NotReady),
        Some(Mcu::Stm32(stm)) => {
            let f = stm_family_of_dev(stm_dev_id(stm.mcu.raw));
            if f == StmFamily::F4 || f == StmFamily::G0 {
                Ok(f)
            } else {
                Err(SwdError::Unsupported)
            }
        },
        Some(_) => Err(SwdError::Unsupported),
    }
}

/// Flash can be erased and programmed on STM32F4 and STM32G0 devices
/// only: with no MCU known the interface is not ready, and any other MCU,
/// an STM32F1 or an RP device among them, is unsupported.
pub proof fn lemma_flash_support(mcu: Option<Mcu>)
    ensures
        flash_family_spec(mcu) is Ok <==> (mcu matches Some(Mcu::Stm32(d)) && (stm_family_of_dev(
            stm_dev_id(d.mcu.raw),
        ) == StmFamily::F4 || stm_family_of_dev(stm_dev_id(d.mcu.raw)) == StmFamily::G0)),
        flash_family_spec(mcu) matches Ok(f) ==> mcu matches Some(Mcu::Stm32(d)) && f
            == stm_family_of_dev(stm_dev_id(d.mcu.raw)),
        mcu is None ==> flash_family_spec(mcu) == Err::<StmFamily, SwdError>(SwdError::NotReady),
        mcu is Some && flash_family_spec(mcu) is Err ==> flash_family_spec(mcu) == Err::<
            StmFamily,
            SwdError,
        >(SwdError::Unsupported),
{
}

/// Chooses the flash procedure for the connected MCU.
pub fn flash_family(mcu: Option<Mcu>) -> (r: Result<StmFamily, SwdError>)
    ensures
        r == flash_family_spec(mcu),
{
    match mcu {
        None => Err(SwdError::NotReady),
        Some(Mcu::Stm32(stm)) => {
            let f = stm.mcu().family();
            match f {
                StmFamily::F4 => Ok(StmFamily::F4),
                StmFamily::G0 => Ok(StmFamily::G0),
                _ => Err(SwdError::Unsupported),
            }
        },
        Some(_) => Err(SwdError::Unsupported),
    }
}

/// Whether the STM32G0 flash is locked: FLASH_CR bit LOCK set.
pub fn g0_flash_locked(cr: u32) -> (r: bool)
    ensures
        r == bit_of(cr, 31),
{
    crate::arm::dp::get_bit(cr, Stm32G0FlashCr::LOCK_BIT)
}

/// FLASH_CR with the LOCK bit (bit 31, on both the F4 and the G0) set.
pub fn flash_cr_locked(cr: u32) -> (r: u32)
    ensures
        r == cr | 0x8000_0000u32,
{
    proof {
        crate::arm::dp::lemma_u32_constants();
    }
    cr | (1u32 << Stm32F4FlashCr::LOCK_BIT)
}

/// The STM32F4 FLASH_CR value selecting an erase of sector `sector`: SER
/// set, the SNB field (bits 6:3) cleared and then set from the low four
/// bits of `sector`, PSIZE x64.  Clearing SNB first means that a sector
/// number left in FLASH_CR by an earlier erase does not change which
/// sector is erased.
pub fn f4_sector_erase_cr(cr: u32, sector: u32) -> (r: u32)
    ensures
        r == (cr & !0x78u32) | 0x2u32 | ((sector & 0xF) << 3u32) | 0x300u32,
        (r >> 3u32) & 0xF == sector & 0xF,
{
    let mut flash_cr = cr & !(Stm32F4FlashCr::SNB_MASK << Stm32F4FlashCr::SNB_SHIFT);
    flash_cr = flash_cr | (1u32 << Stm32F4FlashCr::SER_BIT);
    flash_cr = flash_cr | ((sector & Stm32F4FlashCr::SNB_MASK) << Stm32F4FlashCr::SNB_SHIFT);
    flash_cr = flash_cr | (Stm32F4FlashCr::PSIZE_X64 << Stm32F4FlashCr::PSIZE_SHIFT);
    proof {
        crate::arm::dp::lemma_u32_constants();
    }
    assert((((cr & !0x78u32) | 0x2u32 | ((sector & 0xF) << 3u32) | 0x300u32) >> 3u32) & 0xF
        == sector & 0xF) by (bit_vector);
    flash_cr
}

/// The STM32F4 FLASH_CR value selecting a mass erase: MER set.
pub fn f4_mass_erase_cr(cr: u32) -> (r: u32)
    ensures
        r == cr | 0x4u32,
{
    proof {
        crate::arm::dp::lemma_u32_constants();
    }
    cr | (1u32 << Stm32F4FlashCr::MER_BIT)
}

/// FLASH_CR with STRT (bit 16, on both the F4 and the G0) set, starting
/// the selected erase.
pub fn flash_cr_start(cr: u32) -> (r: u32)
    ensures
        r == cr | 0x1_0000u32,
{
    proof {
        crate::arm::dp::lemma_u32_constants();
    }
    cr | (1u32 << Stm32F4FlashCr::STRT_BIT)
}

/// FLASH_CR with PG (bit 0, on both the F4 and the G0) set, enabling
/// programming.
pub fn flash_cr_program(cr: u32) -> (r: u32)
    ensures
        r == cr | 1u32,
{
    proof {
        crate::arm::dp::lemma_u32_constants();
    }
    cr | (1u32 << Stm32F4FlashCr::PG_BIT)
}

/// The STM32F4 PSIZE for a flash write of the given width at `addr`:
/// `Api` when a half-word write is not half-word aligned or a word write not
/// word aligned.
pub fn f4_program_psize(addr: u32, bytes: OperationBytes) -> (r: Result<u32, SwdError>)
    ensures
        r == match bytes {
            OperationBytes::BYTE1 => Ok(0u32),
            OperationBytes::BYTE2 => if addr % 2 != 0 {
                Err(SwdError::Api)
            } else {
                Ok(1u32)
            },
            OperationBytes::BYTE4 => if addr % 4 != 0 {
                Err(SwdError::Api)
            } else {
                Ok(2u32)
            },
        },
{
    assert((addr & 1 != 0) == (addr % 2 != 0) && (addr & 3 != 0) == (addr % 4 != 0)) by (
    bit_vector);
    match bytes {
        OperationBytes::BYTE1 => Ok(Stm32F4FlashCr::PSIZE_X8),
        OperationBytes::BYTE2 => {
            if addr & 1 != 0 {
                return Err(SwdError::Api);
            }
            Ok(Stm32F4FlashCr::PSIZE_X16)
        },
        OperationBytes::BYTE4 => {
            if addr & 3 != 0 {
                return Err(SwdError::Api);
            }
            Ok(Stm32F4FlashCr::PSIZE_X32)
        },
    }
}

/// STM32F4 FLASH_CR with its PSIZE field (bits 9:8) replaced by `psize`.
pub fn f4_set_psize(cr: u32, psize: u32) -> (r: u32)
    requires
        psize < 4,
    ensures
        r == (cr & !0x300u32) | (psize << 8u32),
{
    let mut flash_cr = cr & !(Stm32F4FlashCr::PSIZE_MASK << Stm32F4FlashCr::PSIZE_SHIFT);
    proof {
        crate::arm::dp::lemma_u32_constants();
    }
    flash_cr = flash_cr | (psize << Stm32F4FlashCr::PSIZE_SHIFT);
    flash_cr
}

/// The STM32F4 FLASH_CR value for bulk word programming: PSIZE x32 and PG
/// set.
pub fn f4_bulk_program_cr(cr: u32) -> (r: u32)
    ensures
        r == ((cr & !0x300u32) | 0x200u32) | 1u32,
{
    let mut flash_cr = cr & !(0b11u32 << Stm32F4FlashCr::PSIZE_SHIFT);
    flash_cr = flash_cr | (0b10u32 << Stm32F4FlashCr::PSIZE_SHIFT);
    flash_cr = flash_cr | (1u32 << Stm32F4FlashCr::PG_BIT);
    proof {
        crate::arm::dp::lemma_u32_constants();
    }
    flash_cr
}

/// STM32G0 flash page size in bytes.
pub const G0_PAGE_SIZE: u32 = 0x800;
/// STM32G0 flash bank size in bytes.
pub const G0_BANK_SIZE: u32 = 0x40000;

/// The STM32G0 FLASH_CR value selecting an erase of page `page`, when the
/// flash size is known and the page lies within it: PNB from the page
/// within its bank, BKER when the page lies in the second bank, PER set.
pub open spec fn g0_page_erase_cr_spec(cr: u32, page: u32, flash_size_bytes: Option<u32>) -> Result<
    u32,
    SwdError,
> {
    match flash_size_bytes {
        None => Err(SwdError::Unsupported),
        Some(size) => if page >= size / 0x800 {
            Err(SwdError::Api)
        } else {
            let offset = (page * 0x800) as u32;
            let page_in_bank = (offset >> 11u32) & 0x7F;
            let cleared = cr & !(0x7Fu32 << 3u32) & !0x2000u32;
            let with_per = cleared | 0x2u32;
            let with_bank = if offset >= 0x40000 {
                with_per | 0x2000u32
            } else {
                with_per
            };
            Ok(with_bank | (page_in_bank << 3u32))
        },
    }
}

/// An STM32G0 page erase selects exactly the page asked for: PNB (bits
/// 9:3) holds the page number within its 128-page bank, BKER (bit 13) is
/// set exactly for pages of the second bank, PER (bit 1) is set, and every
/// other bit of FLASH_CR is kept.  Pages from the flash size up are
/// refused with `Api`, and without a known flash size nothing is erased.
pub proof fn lemma_g0_page_erase_fields(cr: u32, page: u32, size: u32)
    ensures
        g0_page_erase_cr_spec(cr, page, None) == Err::<u32, SwdError>(SwdError::Unsupported),
        page >= size / 0x800 ==> g0_page_erase_cr_spec(cr, page, Some(size)) == Err::<u32, SwdError>(
            SwdError::Api,
        ),
        page < size / 0x800 ==> ({
            let r = g0_page_erase_cr_spec(cr, page, Some(size))->Ok_0;
            &&& g0_page_erase_cr_spec(cr, page, Some(size)) is Ok
            &&& (r >> 3u32) & 0x7F == page % 128
            &&& bit_of(r, 13) == (page >= 128)
            &&& bit_of(r, 1)
            &&& r & !0x23FAu32 == cr & !0x23FAu32
        }),
{
    if page < size / 0x800 {
        assert(page * 0x800 <= size) by (nonlinear_arith)
            requires
                page < size / 0x800,
        ;
        let offset = (page * 0x800) as u32;
        let r = (if offset >= 0x40000 {
            ((cr & !(0x7Fu32 << 3u32) & !0x2000u32) | 0x2u32) | 0x2000u32
        } else {
            (cr & !(0x7Fu32 << 3u32) & !0x2000u32) | 0x2u32
        }) | (((offset >> 11u32) & 0x7F) << 3u32);
        assert((r >> 3u32) & 0x7F == page % 128 && (((r >> 13u32) & 1 == 1) == (page >= 128)) && (r
            >> 1u32) & 1 == 1 && r & !0x23FAu32 == cr & !0x23FAu32) by (bit_vector)
            requires
                page < 0x20_0000,
                offset == (page * 0x800) as u32,
                r == (if offset >= 0x40000 {
                    ((cr & !(0x7Fu32 << 3u32) & !0x2000u32) | 0x2u32) | 0x2000u32
                } else {
                    (cr & !(0x7Fu32 << 3u32) & !0x2000u32) | 0x2u32
                }) | (((offset >> 11u32) & 0x7F) << 3u32),
        ;
    }
}

/// Computes the STM32G0 FLASH_CR value for erasing page `page`:
/// `Unsupported` when the flash size is unknown, `Api` when the page lies
/// beyond it.
pub fn g0_page_erase_cr(cr: u32, page: u32, flash_size_bytes: Option<u32>) -> (r: Result<
    u32,
    SwdError,
>)
    ensures
        r == g0_page_erase_cr_spec(cr, page, flash_size_bytes),
{
    let flash_size_bytes = match flash_size_bytes {
        Some(s) => s,
        None => return Err(SwdError::Unsupported),
    };
    let max_pages = flash_size_bytes / G0_PAGE_SIZE;
    if page >= max_pages {
        return Err(SwdError::Api);
    }
    assert(page * 0x800 <= flash_size_bytes) by (nonlinear_arith)
        requires
            page < flash_size_bytes / 0x800,
    ;
    let flash_offset = page * G0_PAGE_SIZE;
    let page_in_bank = (flash_offset >> 11u32) & Stm32G0FlashCr::PNB_MASK;
    let bker = flash_offset >= G0_BANK_SIZE;
    let mut new_cr = cr;
    new_cr = new_cr & !(Stm32G0FlashCr::PNB_MASK << Stm32G0FlashCr::PNB_SHIFT);
    new_cr = new_cr & !(1u32 << Stm32G0FlashCr::BKER_BIT);
    new_cr = new_cr | (1u32 << Stm32G0FlashCr::PER_BIT);
    if bker {
        new_cr = new_cr | (1u32 << Stm32G0FlashCr::BKER_BIT);
    }
    new_cr = new_cr | (page_in_bank << Stm32G0FlashCr::PNB_SHIFT);
    proof {
        crate::arm::dp::lemma_u32_constants();
    }
    Ok(new_cr)
}

/// The number of STM32G0 flash pages, `Unsupported` when the flash size is
/// unknown.
pub fn g0_page_count(flash_size_bytes: Option<u32>) -> (r: Result<u32, SwdError>)
    ensures
        r == match flash_size_bytes {
            Some(s) => Ok(s / 0x800),
            None => Err(SwdError::Unsupported),
        },
{
    match flash_size_bytes {
        Some(s) => Ok(s / G0_PAGE_SIZE),
        None => Err(SwdError::Unsupported),
    }
}

/// STM32G0 FLASH_CR with PER (bit 1) cleared, ending a page erase.
pub fn g0_cr_end_page_erase(cr: u32) -> (r: u32)
    ensures
        r == cr & !0x2u32,
{
    proof {
        crate::arm::dp::lemma_u32_constants();
    }
    cr & !(1u32 << Stm32G0FlashCr::PER_BIT)
}

/// FLASH_CR with PG (bit 0) cleared, ending programming.
pub fn g0_cr_end_program(cr: u32) -> (r: u32)
    ensures
        r == cr & !1u32,
{
    proof {
        crate::arm::dp::lemma_u32_constants();
    }
    cr & !(1u32 << Stm32G0FlashCr::PG_BIT)
}

/// The value written to STM32G0 FLASH_SR before an operation: every error
/// flag, and EOP when it is set.
pub fn g0_status_clear_value(sr: Stm32G0FlashSr) -> (r: u32)
    ensures
        r == g0_sr_error_mask() | (if bit_of(sr.0, 0) {
            1u32
        } else {
            0u32
        }),
        r != 0,
{
    let mut clear = Stm32G0FlashSr::error_clear_mask();
    if sr.eop_set() {
        proof {
            crate::arm::dp::lemma_u32_constants();
        }
        clear = clear | (1u32 << Stm32G0FlashSr::EOP_BIT);
    }
    proof {
        crate::arm::dp::lemma_u32_constants();
    }
    clear
}

/// The error reported when a flash status read during `what` shows an
/// error: `what`, a space and the status value in hexadecimal.
pub open spec fn flash_failure_message(what: Seq<char>, sr: u32) -> Seq<char> {
    what + " "@ + hex_word_chars(sr)
}

fn flash_failure(what: &str, sr: u32) -> (r: SwdError)
    ensures
        r matches SwdError::OperationFailed(m) && m@ == flash_failure_message(what@, sr),
{
    let mut message = what.to_owned();
    push_str(&mut message, " ");
    push_hex_word(&mut message, sr);
    SwdError::OperationFailed(message)
}

/// Judges an STM32F4 FLASH_SR value read while waiting for an erase:
/// `Ok(true)` when done, `Ok(false)` while busy, an error when an error
/// flag is set.
pub fn f4_erase_progress(sr: Stm32F4FlashSr) -> (r: Result<bool, SwdError>)
    ensures
        (r is Err) == (sr.0 & f4_sr_error_mask() != 0),
        r matches Ok(done) ==> done == !bit_of(sr.0, 16),
        r matches Err(e) ==> e matches SwdError::OperationFailed(m) && m@ == flash_failure_message(
            "flash erase failure"@,
            sr.0,
        ),
{
    if sr.errors() {
        return Err(flash_failure("flash erase failure", sr.0));
    }
    Ok(!sr.busy())
}

/// Judges an STM32F4 FLASH_SR value read while waiting for programming to
/// complete: `Ok(true)` when done, `Ok(false)` while busy, an error when an
/// error flag is set.
pub fn f4_program_progress(sr: Stm32F4FlashSr) -> (r: Result<bool, SwdError>)
    ensures
        (r is Err) == (sr.0 & f4_sr_error_mask() != 0),
        r matches Ok(done) ==> done == !bit_of(sr.0, 16),
        r matches Err(e) ==> e matches SwdError::OperationFailed(m) && m@ == flash_failure_message(
            "flash program failure"@,
            sr.0,
        ),
{
    if sr.errors() {
        return Err(flash_failure("flash program failure", sr.0));
    }
    Ok(!sr.busy())
}

/// Judges an STM32G0 FLASH_SR value read while waiting for a page erase.
pub fn g0_erase_progress(sr: Stm32G0FlashSr) -> (r: Result<bool, SwdError>)
    ensures
        (r is Err) == (sr.0 & g0_sr_error_mask() != 0),
        r matches Ok(done) ==> done == (sr.0 & crate::stm::g0_sr_busy_mask() == 0),
        r matches Err(e) ==> e matches SwdError::OperationFailed(m) && m@ == flash_failure_message(
            "flash erase failure"@,
            sr.0,
        ),
{
    if sr.errors() {
        return Err(flash_failure("flash erase failure", sr.0));
    }
    Ok(!sr.busy())
}

/// Judges an STM32G0 FLASH_SR value read while waiting for a double-word
/// program.
pub fn g0_program_progress(sr: Stm32G0FlashSr) -> (r: Result<bool, SwdError>)
    ensures
        (r is Err) == (sr.0 & g0_sr_error_mask() != 0),
        r matches Ok(done) ==> done == (sr.0 & crate::stm::g0_sr_busy_mask() == 0),
        r matches Err(e) ==> e matches SwdError::OperationFailed(m) && m@ == flash_failure_message(
            "flash program failure"@,
            sr.0,
        ),
{
    if sr.errors() {
        return Err(flash_failure("flash program failure", sr.0));
    }
    Ok(!sr.busy())
}

/// Chooses the multi-drop target to connect to from those detected: the
/// first, unless it is the RP2040 rescue DP, which signals that the RP2040
/// needs a reboot (`NotReady`).
pub fn choose_multidrop_target(targets: &Vec<MultiDropTarget>) -> (r: Result<
    MultiDropTarget,
    SwdError,
>)
    requires
        targets@.len() > 0,
    ensures
        r == if targets@[0].target.0 == TARGET_SEL_RP2040_RESCUE_DP {
            Err(SwdError::NotReady)
        } else {
            Ok(targets@[0])
        },
{
    let target = targets[0];
    if target.target().data() == TARGET_SEL_RP2040_RESCUE_DP {
        return Err(SwdError::NotReady);
    }
    Ok(target)
}

/// The phase of resetting an SWD target whose outcome is being judged.
/// The target is tried with the SWD v1 reset sequence, then as an SWD v2
/// multi-drop target, then with the SWD v2 reset sequence.  Multi-drop is
/// tried before plain v2: the multi-drop test can disable a plain v2
/// target, while multi-drop targets may answer the plain v2 test.
#[derive(Debug, Clone, Copy, PartialEq, Eq, Structural)]
pub enum ResetPhase {
    /// The SWD v1 reset and connection
    V1,
    /// Detection of the targets on a multi-drop bus
    MultiDrop,
    /// Reset of, and connection to, the multi-drop target chosen
    Connect,
    /// The SWD v2 reset and connection
    V2,
}

/// What a target reset does next.
#[derive(Debug, PartialEq, Eq)]
pub enum ResetNext {
    /// Detect the targets on a multi-drop bus
    DetectMultiDrop,
    /// Reset and connect to this multi-drop target
    Connect(MultiDropTarget),
    /// Reset with the SWD v2 sequence and connect
    TryV2,
    /// Stop, with this result
    Finish(Result<(), SwdError>),
}

/// The next step of a target reset after `phase`, given its outcome (see
/// `reset_next`).
pub open spec fn reset_next_spec(phase: ResetPhase, outcome: Result<Vec<MultiDropTarget>, SwdError>) -> ResetNext {
    match phase {
        ResetPhase::V1 => match outcome {
            Ok(_) => ResetNext::Finish(Ok(())),
            Err(_) => ResetNext::DetectMultiDrop,
        },
        ResetPhase::MultiDrop => match outcome {
            Ok(ts) => if ts@[0].target.0 == TARGET_SEL_RP2040_RESCUE_DP {
                ResetNext::Finish(Err(SwdError::NotReady))
            } else {
                ResetNext::Connect(ts@[0])
            },
            Err(_) => ResetNext::TryV2,
        },
        ResetPhase::Connect => match outcome {
            Ok(_) => ResetNext::Finish(Ok(())),
            Err(_) => ResetNext::TryV2,
        },
        ResetPhase::V2 => match outcome {
            Ok(_) => ResetNext::Finish(Ok(())),
            Err(e) => ResetNext::Finish(Err(e)),
        },
    }
}

/// Decides the next step of a target reset from the phase just run and its
/// outcome: the targets detected for `MultiDrop`, no targets otherwise.
///
/// - `V1`: success finishes; failure goes on to multi-drop detection.
/// - `MultiDrop`: with targets found, the first is connected to, unless it
///   is the RP2040 rescue DP, which finishes with `NotReady` (the RP2040
///   needs a reboot); failure goes on to v2.
/// - `Connect`: success finishes; failure goes on to v2.
/// - `V2`: finishes with its own result.
pub fn reset_next(phase: ResetPhase, outcome: Result<Vec<MultiDropTarget>, SwdError>) -> (r:
    ResetNext)
    requires
        phase == ResetPhase::MultiDrop ==> (outcome matches Ok(ts) ==> ts@.len() > 0),
    ensures
        r == reset_next_spec(phase, outcome),
{
    match phase {
        ResetPhase::V1 => match outcome {
            Ok(_) => ResetNext::Finish(Ok(())),
            Err(_) => ResetNext::DetectMultiDrop,
        },
        ResetPhase::MultiDrop => match outcome {
            Ok(ts) => match choose_multidrop_target(&ts) {
                Ok(t) => ResetNext::Connect(t),
                Err(e) => ResetNext::Finish(Err(e)),
            },
            Err(_) => ResetNext::TryV2,
        },
        ResetPhase::Connect => match outcome {
            Ok(_) => ResetNext::Finish(Ok(())),
            Err(_) => ResetNext::TryV2,
        },
        ResetPhase::V2 => match outcome {
            Ok(_) => ResetNext::Finish(Ok(())),
            Err(e) => ResetNext::Finish(Err(e)),
        },
    }
}

/// A target reset goes forward only: multi-drop detection follows a failed
/// v1 attempt, a multi-drop connection follows detection, a v2 attempt
/// follows only a failed multi-drop detection or connection, and v2 always
/// finishes.  So v1, multi-drop and v2 are tried in this order, each at
/// most once.
pub proof fn lemma_reset_order(phase: ResetPhase, outcome: Result<Vec<MultiDropTarget>, SwdError>)
    ensures
        reset_next_spec(phase, outcome) is DetectMultiDrop ==> phase == ResetPhase::V1 && outcome is Err,
        reset_next_spec(phase, outcome) is Connect ==> phase == ResetPhase::MultiDrop && outcome is Ok,
        reset_next_spec(phase, outcome) is TryV2 ==> (phase == ResetPhase::MultiDrop || phase
            == ResetPhase::Connect) && outcome is Err,
        phase == ResetPhase::V2 ==> reset_next_spec(phase, outcome) is Finish,
        outcome is Ok && phase != ResetPhase::MultiDrop ==> reset_next_spec(phase, outcome)
            == ResetNext::Finish(Ok(())),
{
}

/// The result of an operation followed by a clean-up step (clearing PG,
/// turning address increment off): the operation's own error when it
/// failed, whatever the clean-up did; else the clean-up's result.
pub fn cleanup_outcome(outcome: Result<(), SwdError>, cleanup: Result<(), SwdError>) -> (r: Result<
    (),
    SwdError,
>)
    ensures
        r == match outcome {
            Err(e) => Err(e),
            Ok(()) => cleanup,
        },
{
    match outcome {
        Err(e) => Err(e),
        Ok(()) => cleanup,
    }
}

/// The result of a bulk transfer of `len` words followed by turning address
/// increment off: the transfer's error and word count when it failed,
/// whatever the clean-up did; else the clean-up's error with all `len`
/// words counted as transferred, or success.
pub fn bulk_cleanup_outcome(
    outcome: Result<(), (SwdError, usize)>,
    cleanup: Result<(), SwdError>,
    len: usize,
) -> (r: Result<(), (SwdError, usize)>)
    ensures
        r == match outcome {
            Err(x) => Err(x),
            Ok(()) => match cleanup {
                Ok(()) => Ok(()),
                Err(e) => Err((e, len)),
            },
        },
{
    match outcome {
        Err(x) => Err(x),
        Ok(()) => match cleanup {
            Ok(()) => Ok(()),
            Err(e) => Err((e, len)),
        },
    }
}

/// Checks that the MEM-AP is an AMBA AHB5 one.
pub fn check_mem_ap_idr(idr: Idr) -> (r: Result<(), SwdError>)
    ensures
        r.is_ok() == (idr.0 & 0xF == Idr::AP_TYPE_AMBA_AHB5),
        r matches Err(e) ==> e matches SwdError::OperationFailed(m) && m@ == "unexpected idr "@
            + hex_word_chars(idr.0),
{
    if idr.ap_type() != Idr::AP_TYPE_AMBA_AHB5 {
        let mut message = "unexpected idr ".to_owned();
        push_hex_word(&mut message, idr.value());
        return Err(SwdError::OperationFailed(message));
    }
    Ok(())
}

/// The 8-byte double-word `lo`, `hi` (little-endian) with the bytes
/// selected by `mask`, at byte `offset`, replaced by those of `data`.
pub open spec fn merged_doubleword(lo: u32, hi: u32, offset: u64, mask: u64, data: u32) -> u64 {
    let v = (lo as u64) | ((hi as u64) << 32u64);
    (v & !(mask << (offset * 8) as u64)) | (((data as u64) & mask) << (offset * 8) as u64)
}

/// The byte mask of a write width.
pub open spec fn width_mask(bytes: OperationBytes) -> u64 {
    match bytes {
        OperationBytes::BYTE1 => 0xFF,
        OperationBytes::BYTE2 => 0xFFFF,
        OperationBytes::BYTE4 => 0xFFFF_FFFF,
    }
}

/// What `g0_rmw_merge` returns: `Api` for a misaligned half-word or word,
/// else the double-word at `addr & !7` (read as `lo`, `hi`) with the
/// written bytes replaced, split again into its low and high words.
pub open spec fn g0_rmw_spec(addr: u32, lo: u32, hi: u32, data: u32, bytes: OperationBytes) -> Result<
    (u32, u32),
    SwdError,
> {
    if (bytes == OperationBytes::BYTE2 && addr % 2 != 0) || (bytes == OperationBytes::BYTE4 && addr
        % 4 != 0) {
        Err(SwdError::Api)
    } else {
        let m = merged_doubleword(lo, hi, (addr % 8) as u64, width_mask(bytes), data);
        Ok(((m & 0xFFFF_FFFFu64) as u32, (m >> 32u64) as u32))
    }
}

/// Merges a write of `bytes` width of `data` at `addr` into the double-word
/// at `addr & !7`, read as `lo` and `hi`: the STM32G0 programs double-words
/// only, so narrower writes are read-modify-write.
pub fn g0_rmw_merge(addr: u32, lo: u32, hi: u32, data: u32, bytes: OperationBytes) -> (r: Result<
    (u32, u32),
    SwdError,
>)
    ensures
        r == g0_rmw_spec(addr, lo, hi, data, bytes),
{
    let base = addr & !0x7u32;
    assert(base <= addr) by (bit_vector)
        requires
            base == addr & !0x7u32,
    ;
    let offset = addr - base;
    assert(offset == addr % 8 && (addr & 1 != 0) == (addr % 2 != 0) && (addr & 3 != 0) == (addr % 4
        != 0)) by (bit_vector)
        requires
            base == addr & !0x7u32,
            offset == addr - base,
    ;
    let mask: u64 = match bytes {
        OperationBytes::BYTE1 => 0xFF,
        OperationBytes::BYTE2 => {
            if addr & 1 != 0 {
                return Err(SwdError::Api);
            }
            0xFFFF
        },
        OperationBytes::BYTE4 => {
            if addr & 3 != 0 {
                return Err(SwdError::Api);
            }
            0xFFFF_FFFF
        },
    };
    let shift: u64 = (offset as u64) * 8;
    let v: u64 = (lo as u64) | ((hi as u64) << 32u64);
    let merged: u64 = (v & !(mask << shift)) | (((data as u64) & mask) << shift);
    assert((merged & 0xFFFF_FFFFu64) <= 0xFFFF_FFFFu64 && (merged >> 32u64) <= 0xFFFF_FFFFu64) by (
    bit_vector);
    let new_lo = (merged & 0xFFFF_FFFFu64) as u32;
    let new_hi = (merged >> 32u64) as u32;
    Ok((new_lo, new_hi))
}

/// A read-modify-write changes exactly the bytes written: reading the
/// written bytes back gives the data, every other byte of the double-word
/// keeps its value.
pub proof fn lemma_rmw_changes_only_written_bytes(
    addr: u32,
    lo: u32,
    hi: u32,
    data: u32,
    bytes: OperationBytes,
)
    requires
        !((bytes == OperationBytes::BYTE2 && addr % 2 != 0) || (bytes == OperationBytes::BYTE4
            && addr % 4 != 0)),
    ensures
        ({
            let sh = ((addr % 8) * 8) as u64;
            let mask = width_mask(bytes);
            let v = (lo as u64) | ((hi as u64) << 32u64);
            let m = merged_doubleword(lo, hi, (addr % 8) as u64, mask, data);
            &&& (m >> sh) & mask == (data as u64) & mask
            &&& m & !(mask << sh) == v & !(mask << sh)
        }),
{
    let sh = ((addr % 8) * 8) as u64;
    let mask = width_mask(bytes);
    let v = (lo as u64) | ((hi as u64) << 32u64);
    let m = merged_doubleword(lo, hi, (addr % 8) as u64, mask, data);
    let d = data as u64;
    assert(m == (v & !(mask << sh)) | ((d & mask) << sh));
    match bytes {
        OperationBytes::BYTE1 => {
            assert((m >> sh) & mask == d & mask && m & !(mask << sh) == v & !(mask << sh)) by (
            bit_vector)
                requires
                    mask == 0xFFu64,
                    sh <= 56,
                    m == (v & !(mask << sh)) | ((d & mask) << sh),
            ;
        },
        OperationBytes::BYTE2 => {
            assert((m >> sh) & mask == d & mask && m & !(mask << sh) == v & !(mask << sh)) by (
            bit_vector)
                requires
                    mask == 0xFFFFu64,
                    sh <= 48,
                    m == (v & !(mask << sh)) | ((d & mask) << sh),
            ;
        },
        OperationBytes::BYTE4 => {
            assert((m >> sh) & mask == d & mask && m & !(mask << sh) == v & !(mask << sh)) by (
            bit_vector)
                requires
                    mask == 0xFFFF_FFFFu64,
                    sh <= 32,
                    m == (v & !(mask << sh)) | ((d & mask) << sh),
            ;
        },
    }
}

/// One STM32G0 programming step of a bulk flash write: a double-word
/// program of words `index` and `index + 1`, or a single word merged by
/// read-modify-write, at `addr`.
#[derive(Debug, Clone, Copy, PartialEq, Eq, Structural)]
pub struct G0Write {
    pub addr: u32,
    pub index: usize,
    pub double: bool,
}

/// The number of words a step writes.
pub open spec fn step_words(w: G0Write) -> int {
    if w.double {
        2
    } else {
        1
    }
}

/// Whether some step of a plan writes word `i`.
pub open spec fn word_covered(plan: Seq<G0Write>, i: int) -> bool {
    exists|k: int| 0 <= k < plan.len() && plan[k].index <= i < plan[k].index + step_words(#[trigger] plan[k])
}

/// Plans an STM32G0 bulk flash write of `len` words at `addr`: a
/// double-word program wherever the address is 8-byte aligned and two words
/// remain, a single read-modify-write word otherwise.
pub fn plan_g0_bulk(addr: u32, len: usize) -> (r: Vec<G0Write>)
    requires
        addr + 4 * len <= u32::MAX,
    ensures
        (r@.len() == 0) == (len == 0),
        r@.len() > 0 ==> r@[0].index == 0,
        r@.len() > 0 ==> r@.last().index + step_words(r@.last()) == len,
        forall|k: int|
            #![trigger r@[k]]
            0 <= k < r@.len() ==> {
                &&& r@[k].addr == addr + 4 * r@[k].index
                &&& r@[k].double == (r@[k].addr % 8 == 0 && r@[k].index + 1 < len)
            },
        forall|k: int|
            #![trigger r@[k + 1]]
            0 <= k && k + 1 < r@.len() ==> r@[k + 1].index == r@[k].index + step_words(r@[k]),
        forall|i: int| 0 <= i < len ==> #[trigger] word_covered(r@, i),
{
    let mut plan: Vec<G0Write> = Vec::new();
    let mut current_addr = addr;
    let mut i: usize = 0;
    while i < len
        invariant
            addr + 4 * len <= u32::MAX,
            i <= len,
            current_addr == addr + 4 * i,
            (plan@.len() == 0) == (i == 0),
            plan@.len() > 0 ==> plan@[0].index == 0,
            plan@.len() > 0 ==> plan@.last().index + step_words(plan@.last()) == i,
            forall|k: int|
                #![trigger plan@[k]]
                0 <= k < plan@.len() ==> {
                    &&& plan@[k].addr == addr + 4 * plan@[k].index
                    &&& plan@[k].double == (plan@[k].addr % 8 == 0 && plan@[k].index + 1 < len)
                },
            forall|k: int|
                #![trigger plan@[k + 1]]
                0 <= k && k + 1 < plan@.len() ==> plan@[k + 1].index == plan@[k].index
                    + step_words(plan@[k]),
            forall|j: int| 0 <= j < i ==> #[trigger] word_covered(plan@, j),
        decreases len - i,
    {
        let aligned = current_addr & 0x7 == 0;
        assert(aligned == (current_addr % 8 == 0)) by (bit_vector)
            requires
                aligned == (current_addr & 0x7 == 0),
        ;
        let double = aligned && i + 1 < len;
        let step = G0Write { addr: current_addr, index: i, double };
        let ghost prev = plan@;
        plan.push(step);
        assert forall|j: int| 0 <= j < i + step_words(step) implies #[trigger] word_covered(
            plan@,
            j,
        ) by {
            if j < i {
                assert(word_covered(prev, j));
                let k = choose|k: int|
                    0 <= k < prev.len() && prev[k].index <= j < prev[k].index + step_words(
                        #[trigger] prev[k],
                    );
                assert(plan@[k] == prev[k]);
            } else {
                assert(plan@[prev.len() as int] == step);
            }
        }
        if double {
            current_addr = current_addr + 8;
            i = i + 2;
        } else {
            current_addr = current_addr + 4;
            i = i + 1;
        }
    }
    plan
}

} // verus!
