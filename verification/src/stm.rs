//! STM32 specific objects: flash controller registers, device
//! identification and flash geometry.

use vstd::prelude::*;

use crate::arm::ap::{Idr, IDR_AHB_AP_CORTEX_M4};
use crate::arm::dp::{bit_of, get_bit, IdCode};
use crate::arm::{cortex_from_idcode_value, Cortex};
use crate::text::{
    decimal_chars, hex8_chars, hex_byte_chars, hex_word_chars, push_char, push_decimal, push_hex8,
    push_hex_byte, push_hex_word, push_str,
};

verus! {

/// STM32F1 flash memory base address
pub const STM32F1_FLASH_BASE: u32 = 0x0800_0000;
/// STM32F4 flash memory base address
pub const STM32F4_FLASH_BASE: u32 = 0x0800_0000;
/// STM32F4 RAM base address
pub const STM32F4_RAM_BASE: u32 = 0x2000_0000;
/// STM32F1 RAM base address
pub const STM32F1_RAM_BASE: u32 = 0x2000_0000;

// GPIO register offsets
pub const GPIOX_MODER_OFFSET: u32 = 0x00;
pub const GPIOX_OTYPER_OFFSET: u32 = 0x04;
pub const GPIOX_OSPEEDR_OFFSET: u32 = 0x08;
pub const GPIOX_PUPDR_OFFSET: u32 = 0x0C;
pub const GPIOX_IDR_OFFSET: u32 = 0x10;
pub const GPIOX_ODR_OFFSET: u32 = 0x14;
pub const GPIOX_BSRR_OFFSET: u32 = 0x18;
pub const GPIOX_LCKR_OFFSET: u32 = 0x1C;
pub const GPIOX_AFRL_OFFSET: u32 = 0x20;
pub const GPIOX_AFRH_OFFSET: u32 = 0x24;

/// STM32F4 GPIO Port A register base address
pub const STM32F4_GPIOA_REG_BASE: u32 = 0x4002_0000;
/// STM32F4 GPIOA_MODER register address
pub const STM32F4_GPIOA_MODER: u32 = STM32F4_GPIOA_REG_BASE + GPIOX_MODER_OFFSET;
/// STM32F4 GPIOA_OTYPER register address
pub const STM32F4_GPIOA_OTYPER: u32 = STM32F4_GPIOA_REG_BASE + GPIOX_OTYPER_OFFSET;
/// STM32F4 GPIOA_OSPEEDR register address
pub const STM32F4_GPIOA_OSPEEDR: u32 = STM32F4_GPIOA_REG_BASE + GPIOX_OSPEEDR_OFFSET;
/// STM32F4 GPIOA_PUPDR register address
pub const STM32F4_GPIOA_PUPDR: u32 = STM32F4_GPIOA_REG_BASE + GPIOX_PUPDR_OFFSET;
/// STM32F4 GPIOA_IDR register address
pub const STM32F4_GPIOA_IDR: u32 = STM32F4_GPIOA_REG_BASE + GPIOX_IDR_OFFSET;
/// STM32F4 GPIOA_ODR register address
pub const STM32F4_GPIOA_ODR: u32 = STM32F4_GPIOA_REG_BASE + GPIOX_ODR_OFFSET;
/// STM32F4 GPIOA_BSRR register address
pub const STM32F4_GPIOA_BSRR: u32 = STM32F4_GPIOA_REG_BASE + GPIOX_BSRR_OFFSET;
/// STM32F4 GPIOA_LCKR register address
pub const STM32F4_GPIOA_LCKR: u32 = STM32F4_GPIOA_REG_BASE + GPIOX_LCKR_OFFSET;
/// STM32F4 GPIOA_AFRL register address
pub const STM32F4_GPIOA_AFRL: u32 = STM32F4_GPIOA_REG_BASE + GPIOX_AFRL_OFFSET;
/// STM32F4 GPIOA_AFRH register address
pub const STM32F4_GPIOA_AFRH: u32 = STM32F4_GPIOA_REG_BASE + GPIOX_AFRH_OFFSET;

/// STM32F4 GPIO Port B register base address
pub const STM32F4_GPIOB_REG_BASE: u32 = 0x4002_0400;
/// STM32F4 GPIOB_MODER register address
pub const STM32F4_GPIOB_MODER: u32 = STM32F4_GPIOB_REG_BASE + GPIOX_MODER_OFFSET;
/// STM32F4 GPIOB_OTYPER register address
pub const STM32F4_GPIOB_OTYPER: u32 = STM32F4_GPIOB_REG_BASE + GPIOX_OTYPER_OFFSET;
/// STM32F4 GPIOB_OSPEEDR register address
pub const STM32F4_GPIOB_OSPEEDR: u32 = STM32F4_GPIOB_REG_BASE + GPIOX_OSPEEDR_OFFSET;
/// STM32F4 GPIOB_PUPDR register address
pub const STM32F4_GPIOB_PUPDR: u32 = STM32F4_GPIOB_REG_BASE + GPIOX_PUPDR_OFFSET;
/// STM32F4 GPIOB_IDR register address
pub const STM32F4_GPIOB_IDR: u32 = STM32F4_GPIOB_REG_BASE + GPIOX_IDR_OFFSET;
/// STM32F4 GPIOB_ODR register address
pub const STM32F4_GPIOB_ODR: u32 = STM32F4_GPIOB_REG_BASE + GPIOX_ODR_OFFSET;
/// STM32F4 GPIOB_BSRR register address
pub const STM32F4_GPIOB_BSRR: u32 = STM32F4_GPIOB_REG_BASE + GPIOX_BSRR_OFFSET;
/// STM32F4 GPIOB_LCKR register address
pub const STM32F4_GPIOB_LCKR: u32 = STM32F4_GPIOB_REG_BASE + GPIOX_LCKR_OFFSET;
/// STM32F4 GPIOB_AFRL register address
pub const STM32F4_GPIOB_AFRL: u32 = STM32F4_GPIOB_REG_BASE + GPIOX_AFRL_OFFSET;
/// STM32F4 GPIOB_AFRH register address
pub const STM32F4_GPIOB_AFRH: u32 = STM32F4_GPIOB_REG_BASE + GPIOX_AFRH_OFFSET;

/// STM32F4 GPIO Port C register base address
pub const STM32F4_GPIOC_REG_BASE: u32 = 0x4002_0800;
/// STM32F4 GPIOC_MODER register address
pub const STM32F4_GPIOC_MODER: u32 = STM32F4_GPIOC_REG_BASE + GPIOX_MODER_OFFSET;
/// STM32F4 GPIOC_OTYPER register address
pub const STM32F4_GPIOC_OTYPER: u32 = STM32F4_GPIOC_REG_BASE + GPIOX_OTYPER_OFFSET;
/// STM32F4 GPIOC_OSPEEDR register address
pub const STM32F4_GPIOC_OSPEEDR: u32 = STM32F4_GPIOC_REG_BASE + GPIOX_OSPEEDR_OFFSET;
/// STM32F4 GPIOC_PUPDR register address
pub const STM32F4_GPIOC_PUPDR: u32 = STM32F4_GPIOC_REG_BASE + GPIOX_PUPDR_OFFSET;
/// STM32F4 GPIOC_IDR register address
pub const STM32F4_GPIOC_IDR: u32 = STM32F4_GPIOC_REG_BASE + GPIOX_IDR_OFFSET;
/// STM32F4 GPIOC_ODR register address
pub const STM32F4_GPIOC_ODR: u32 = STM32F4_GPIOC_REG_BASE + GPIOX_ODR_OFFSET;
/// STM32F4 GPIOC_BSRR register address
pub const STM32F4_GPIOC_BSRR: u32 = STM32F4_GPIOC_REG_BASE + GPIOX_BSRR_OFFSET;
/// STM32F4 GPIOC_LCKR register address
pub const STM32F4_GPIOC_LCKR: u32 = STM32F4_GPIOC_REG_BASE + GPIOX_LCKR_OFFSET;
/// STM32F4 GPIOC_AFRL register address
pub const STM32F4_GPIOC_AFRL: u32 = STM32F4_GPIOC_REG_BASE + GPIOX_AFRL_OFFSET;
/// STM32F4 GPIOC_AFRH register address
pub const STM32F4_GPIOC_AFRH: u32 = STM32F4_GPIOC_REG_BASE + GPIOX_AFRH_OFFSET;

/// STM32F4 GPIO Port D register base address
pub const STM32F4_GPIOD_REG_BASE: u32 = 0x4002_0C00;
/// STM32F4 GPIOD_MODER register address
pub const STM32F4_GPIOD_MODER: u32 = STM32F4_GPIOD_REG_BASE + GPIOX_MODER_OFFSET;
/// STM32F4 GPIOD_OTYPER register address
pub const STM32F4_GPIOD_OTYPER: u32 = STM32F4_GPIOD_REG_BASE + GPIOX_OTYPER_OFFSET;
/// STM32F4 GPIOD_OSPEEDR register address
pub const STM32F4_GPIOD_OSPEEDR: u32 = STM32F4_GPIOD_REG_BASE + GPIOX_OSPEEDR_OFFSET;
/// STM32F4 GPIOD_PUPDR register address
pub const STM32F4_GPIOD_PUPDR: u32 = STM32F4_GPIOD_REG_BASE + GPIOX_PUPDR_OFFSET;
/// STM32F4 GPIOD_IDR register address
pub const STM32F4_GPIOD_IDR: u32 = STM32F4_GPIOD_REG_BASE + GPIOX_IDR_OFFSET;
/// STM32F4 GPIOD_ODR register address
pub const STM32F4_GPIOD_ODR: u32 = STM32F4_GPIOD_REG_BASE + GPIOX_ODR_OFFSET;
/// STM32F4 GPIOD_BSRR register address
pub const STM32F4_GPIOD_BSRR: u32 = STM32F4_GPIOD_REG_BASE + GPIOX_BSRR_OFFSET;
/// STM32F4 GPIOD_LCKR register address
pub const STM32F4_GPIOD_LCKR: u32 = STM32F4_GPIOD_REG_BASE + GPIOX_LCKR_OFFSET;
/// STM32F4 GPIOD_AFRL register address
pub const STM32F4_GPIOD_AFRL: u32 = STM32F4_GPIOD_REG_BASE + GPIOX_AFRL_OFFSET;
/// STM32F4 GPIOD_AFRH register address
pub const STM32F4_GPIOD_AFRH: u32 = STM32F4_GPIOD_REG_BASE + GPIOX_AFRH_OFFSET;

/// STM32F4 GPIO Port E register base address
pub const STM32F4_GPIOE_REG_BASE: u32 = 0x4002_1000;
/// STM32F4 GPIOE_MODER register address
pub const STM32F4_GPIOE_MODER: u32 = STM32F4_GPIOE_REG_BASE + GPIOX_MODER_OFFSET;
/// STM32F4 GPIOE_OTYPER register address
pub const STM32F4_GPIOE_OTYPER: u32 = STM32F4_GPIOE_REG_BASE + GPIOX_OTYPER_OFFSET;
/// STM32F4 GPIOE_OSPEEDR register address
pub const STM32F4_GPIOE_OSPEEDR: u32 = STM32F4_GPIOE_REG_BASE + GPIOX_OSPEEDR_OFFSET;
/// STM32F4 GPIOE_PUPDR register address
pub const STM32F4_GPIOE_PUPDR: u32 = STM32F4_GPIOE_REG_BASE + GPIOX_PUPDR_OFFSET;
/// STM32F4 GPIOE_IDR register address
pub const STM32F4_GPIOE_IDR: u32 = STM32F4_GPIOE_REG_BASE + GPIOX_IDR_OFFSET;
/// STM32F4 GPIOE_ODR register address
pub const STM32F4_GPIOE_ODR: u32 = STM32F4_GPIOE_REG_BASE + GPIOX_ODR_OFFSET;
/// STM32F4 GPIOE_BSRR register address
pub const STM32F4_GPIOE_BSRR: u32 = STM32F4_GPIOE_REG_BASE + GPIOX_BSRR_OFFSET;
/// STM32F4 GPIOE_LCKR register address
pub const STM32F4_GPIOE_LCKR: u32 = STM32F4_GPIOE_REG_BASE + GPIOX_LCKR_OFFSET;
/// STM32F4 GPIOE_AFRL register address
pub const STM32F4_GPIOE_AFRL: u32 = STM32F4_GPIOE_REG_BASE + GPIOX_AFRL_OFFSET;
/// STM32F4 GPIOE_AFRH register address
pub const STM32F4_GPIOE_AFRH: u32 = STM32F4_GPIOE_REG_BASE + GPIOX_AFRH_OFFSET;

/// STM32F4 GPIO MODER value: output
pub const STM32F4_MODER_OUTPUT: u32 = 0b01;
/// STM32F4 GPIO MODER value: input
pub const STM32F4_MODER_INPUT: u32 = 0b00;
/// STM32F4 GPIO MODER value: alternate function
pub const STM32F4_MODER_AF: u32 = 0b10;
/// STM32F4 GPIO MODER value: analog
pub const STM32F4_MODER_ANALOG: u32 = 0b11;
/// STM32F4 GPIO MODER field mask
pub const STM32F4_MODER_MASK: u32 = 0b11;

/// STM32F4 GPIO PUPDR value: no pull
pub const STM32F4_PUPDR_NONE: u32 = 0b00;
/// STM32F4 GPIO PUPDR value: pull-up
pub const STM32F4_PUPDR_PU: u32 = 0b01;
/// STM32F4 GPIO PUPDR value: pull-down
pub const STM32F4_PUPDR_PD: u32 = 0b10;
/// STM32F4 GPIO PUPDR field mask
pub const STM32F4_PUPDR_MASK: u32 = 0b11;

// STM32F4 FLASH register base address
pub const STM32F4_FLASH_REG_BASE: u32 = 0x4002_3C00;

/// STM32F4 FLASH_CR register
///
/// Used to control flash erasing and programming operations.
pub struct Stm32F4FlashCr;

impl Stm32F4FlashCr {
    /// STM32F4 memory address of this register
    pub const ADDRESS: u32 = STM32F4_FLASH_REG_BASE + 0x10;

    /// LOCK bit position
    pub const LOCK_BIT: u32 = 31;
    /// ERRIE bit position
    pub const ERRIE_BIT: u32 = 25;
    /// EOPIE bit position
    pub const EOPIE_BIT: u32 = 24;
    /// STRT bit position
    pub const STRT_BIT: u32 = 16;
    /// MER bit position
    pub const MER_BIT: u32 = 2;
    /// SER bit position
    pub const SER_BIT: u32 = 1;
    /// PG bit position
    pub const PG_BIT: u32 = 0;

    /// SNB field shift
    pub const SNB_SHIFT: u32 = 3;
    /// PSIZE field shift
    pub const PSIZE_SHIFT: u32 = 8;

    /// SNB field mask
    pub const SNB_MASK: u32 = 0b1111;
    /// PSIZE field mask
    pub const PSIZE_MASK: u32 = 0b11;

    /// PSIZE value: 8-bit programming
    pub const PSIZE_X8: u32 = 0b00;
    /// PSIZE value: 16-bit programming
    pub const PSIZE_X16: u32 = 0b01;
    /// PSIZE value: 32-bit programming
    pub const PSIZE_X32: u32 = 0b10;
    /// PSIZE value: 64-bit programming, the fastest, needing the highest VCC
    pub const PSIZE_X64: u32 = 0b11;
}

/// The STM32F4 FLASH_SR error bits: OPERR, WRPERR, PGAERR, PGPERR,
/// PGSERR and RDERR (bits 1, 4, 5, 6, 7 and 8).
pub open spec fn f4_sr_error_mask() -> u32 {
    0x1F2
}

/// STM32F4 FLASH_SR register
///
/// Used to check the status of flash operations, including errors and busy
/// state.
#[derive(Debug, Clone, Copy, PartialEq, Eq, Structural)]
pub struct Stm32F4FlashSr(pub u32);

impl Stm32F4FlashSr {
    /// STM32F4 memory address of this register
    pub const ADDRESS: u32 = STM32F4_FLASH_REG_BASE + 0x0C;

    /// EOP bit position
    pub const EOP_BIT: u32 = 0;
    /// OPERR bit position
    pub const OPERR_BIT: u32 = 1;
    /// WRPERR bit position
    pub const WRPERR_BIT: u32 = 4;
    /// PGAERR bit position
    pub const PGAERR_BIT: u32 = 5;
    /// PGPERR bit position
    pub const PGPERR_BIT: u32 = 6;
    /// PGSERR bit position
    pub const PGSERR_BIT: u32 = 7;
    /// RDERR bit position
    pub const RDERR_BIT: u32 = 8;
    /// BSY bit position
    pub const BSY_BIT: u32 = 16;

    /// Whether a flash operation is in progress.
    pub fn busy(&self) -> (r: bool)
        ensures
            r == bit_of(self.0, 16),
    {
        get_bit(self.0, Self::BSY_BIT)
    }

    /// Whether there are any errors in the flash status register.
    pub fn errors(&self) -> (r: bool)
        ensures
            r == (self.0 & f4_sr_error_mask() != 0),
    {
        let error_mask: u32 = (1u32 << Self::OPERR_BIT) | (1u32 << Self::WRPERR_BIT) | (1u32
            << Self::PGAERR_BIT) | (1u32 << Self::PGPERR_BIT) | (1u32 << Self::PGSERR_BIT) | (1u32
            << Self::RDERR_BIT);
        proof {
            crate::arm::dp::lemma_u32_constants();
        }
        self.0 & error_mask != 0
    }
}

impl From<u32> for Stm32F4FlashSr {
    fn from(value: u32) -> (r: Self) {
        Self(value)
    }
}

impl vstd::std_specs::convert::FromSpecImpl<u32> for Stm32F4FlashSr {
    open spec fn obeys_from_spec() -> bool {
        true
    }

    open spec fn from_spec(v: u32) -> Self {
        Stm32F4FlashSr(v)
    }
}

impl From<Stm32F4FlashSr> for u32 {
    fn from(sr: Stm32F4FlashSr) -> (r: u32) {
        sr.0
    }
}

impl vstd::std_specs::convert::FromSpecImpl<Stm32F4FlashSr> for u32 {
    open spec fn obeys_from_spec() -> bool {
        true
    }

    open spec fn from_spec(v: Stm32F4FlashSr) -> u32 {
        v.0
    }
}

/// An STM32F4 FLASH_SR value reports an error exactly when one of OPERR,
/// WRPERR, PGAERR, PGPERR, PGSERR or RDERR is set; EOP and BSY are no
/// errors.
pub proof fn lemma_f4_sr_errors(v: u32)
    ensures
        (v & f4_sr_error_mask() != 0) <==> (bit_of(v, Stm32F4FlashSr::OPERR_BIT) || bit_of(
            v,
            Stm32F4FlashSr::WRPERR_BIT,
        ) || bit_of(v, Stm32F4FlashSr::PGAERR_BIT) || bit_of(v, Stm32F4FlashSr::PGPERR_BIT)
            || bit_of(v, Stm32F4FlashSr::PGSERR_BIT) || bit_of(v, Stm32F4FlashSr::RDERR_BIT)),
        Stm32F4FlashSr::OPERR_BIT == 1 && Stm32F4FlashSr::WRPERR_BIT == 4
            && Stm32F4FlashSr::PGAERR_BIT == 5 && Stm32F4FlashSr::PGPERR_BIT == 6
            && Stm32F4FlashSr::PGSERR_BIT == 7 && Stm32F4FlashSr::RDERR_BIT == 8
            && Stm32F4FlashSr::BSY_BIT == 16 && Stm32F4FlashSr::EOP_BIT == 0,
{
    assert((v & 0x1F2u32 != 0) <==> ((v >> 1u32) & 1 == 1 || (v >> 4u32) & 1 == 1 || (v >> 5u32)
        & 1 == 1 || (v >> 6u32) & 1 == 1 || (v >> 7u32) & 1 == 1 || (v >> 8u32) & 1 == 1)) by (
    bit_vector);
}

/// STM32F4 FLASH_KEYR register
///
/// Used to unlock the flash memory for programming and erasing operations.
pub struct Stm32F4FlashKeyr;

impl Stm32F4FlashKeyr {
    /// STM32F4 memory address of this register
    pub const ADDRESS: u32 = STM32F4_FLASH_REG_BASE + 0x04;

    /// First key of the unlock sequence
    pub const KEY1: u32 = 0x45670123;
    /// Second key of the unlock sequence
    pub const KEY2: u32 = 0xCDEF89AB;
}

pub const STM32G0_FLASH_REG_BASE: u32 = 0x4002_2000;

/// STM32G0 FLASH_CR register
pub struct Stm32G0FlashCr;

impl Stm32G0FlashCr {
    /// STM32G0 memory address of this register
    pub const ADDRESS: u32 = STM32G0_FLASH_REG_BASE + 0x14;

    /// LOCK bit position
    pub const LOCK_BIT: u32 = 31;
    /// STRT bit position
    pub const STRT_BIT: u32 = 16;
    /// BKER bit position
    pub const BKER_BIT: u32 = 13;
    /// PER bit position
    pub const PER_BIT: u32 = 1;
    /// PG bit position
    pub const PG_BIT: u32 = 0;

    /// PNB field shift
    pub const PNB_SHIFT: u32 = 3;
    /// PNB field mask
    pub const PNB_MASK: u32 = 0x7F;
}

/// The STM32G0 FLASH_SR busy bits: BSY1, BSY2 and CFGBSY (bits 16, 17, 18).
pub open spec fn g0_sr_busy_mask() -> u32 {
    0x7_0000
}

/// The STM32G0 FLASH_SR error bits: PROGERR, WRPERR, PGAERR and SIZERR
/// (bits 3, 4, 5 and 6).
pub open spec fn g0_sr_error_mask() -> u32 {
    0x78
}

/// STM32G0 FLASH_SR register
#[derive(Debug, Clone, Copy, PartialEq, Eq, Structural)]
pub struct Stm32G0FlashSr(pub u32);

impl Stm32G0FlashSr {
    /// STM32G0 memory address of this register
    pub const ADDRESS: u32 = STM32G0_FLASH_REG_BASE + 0x10;

    /// EOP bit position
    pub const EOP_BIT: u32 = 0;
    /// PROGERR bit position
    pub const PROGERR_BIT: u32 = 3;
    /// WRPERR bit position
    pub const WRPERR_BIT: u32 = 4;
    /// PGAERR bit position
    pub const PGAERR_BIT: u32 = 5;
    /// SIZERR bit position
    pub const SIZERR_BIT: u32 = 6;
    /// BSY1 bit position
    pub const BSY1_BIT: u32 = 16;
    /// BSY2 bit position
    pub const BSY2_BIT: u32 = 17;
    /// CFGBSY bit position
    pub const CFGBSY_BIT: u32 = 18;

    /// Whether a flash operation is in progress.
    pub fn busy(&self) -> (r: bool)
        ensures
            r == (self.0 & g0_sr_busy_mask() != 0),
    {
        let busy_mask: u32 = (1u32 << Self::BSY1_BIT) | (1u32 << Self::BSY2_BIT) | (1u32
            << Self::CFGBSY_BIT);
        proof {
            crate::arm::dp::lemma_u32_constants();
        }
        self.0 & busy_mask != 0
    }

    /// Whether there are any errors in the flash status register.
    pub fn errors(&self) -> (r: bool)
        ensures
            r == (self.0 & g0_sr_error_mask() != 0),
    {
        let error_mask = Self::error_clear_mask();
        self.0 & error_mask != 0
    }

    /// The bits to write to FLASH_SR to clear every error flag.
    pub fn error_clear_mask() -> (r: u32)
        ensures
            r == g0_sr_error_mask(),
    {
        let mask: u32 = (1u32 << Self::SIZERR_BIT) | (1u32 << Self::PGAERR_BIT) | (1u32
            << Self::WRPERR_BIT) | (1u32 << Self::PROGERR_BIT);
        proof {
            crate::arm::dp::lemma_u32_constants();
        }
        mask
    }

    /// Whether the end-of-operation flag is set.
    pub fn eop_set(&self) -> (r: bool)
        ensures
            r == bit_of(self.0, 0),
    {
        get_bit(self.0, Self::EOP_BIT)
    }
}

impl From<u32> for Stm32G0FlashSr {
    fn from(value: u32) -> (r: Self) {
        Self(value)
    }
}

impl vstd::std_specs::convert::FromSpecImpl<u32> for Stm32G0FlashSr {
    open spec fn obeys_from_spec() -> bool {
        true
    }

    open spec fn from_spec(v: u32) -> Self {
        Stm32G0FlashSr(v)
    }
}

/// Clearing the bits of the error clear mask from a FLASH_SR value leaves a
/// value that reports no error.
pub proof fn lemma_g0_errors_are_cleared_by_mask(sr: u32)
    ensures
        (sr & !g0_sr_error_mask()) & g0_sr_error_mask() == 0,
{
    assert((sr & !0x78u32) & 0x78u32 == 0) by (bit_vector);
}

/// An STM32G0 FLASH_SR value reports an error exactly when one of PROGERR,
/// WRPERR, PGAERR or SIZERR is set, and a busy flash exactly when one of
/// BSY1, BSY2 or CFGBSY is set.
pub proof fn lemma_g0_sr_flags(v: u32)
    ensures
        (v & g0_sr_error_mask() != 0) <==> (bit_of(v, Stm32G0FlashSr::PROGERR_BIT) || bit_of(
            v,
            Stm32G0FlashSr::WRPERR_BIT,
        ) || bit_of(v, Stm32G0FlashSr::PGAERR_BIT) || bit_of(v, Stm32G0FlashSr::SIZERR_BIT)),
        (v & g0_sr_busy_mask() != 0) <==> (bit_of(v, Stm32G0FlashSr::BSY1_BIT) || bit_of(
            v,
            Stm32G0FlashSr::BSY2_BIT,
        ) || bit_of(v, Stm32G0FlashSr::CFGBSY_BIT)),
        Stm32G0FlashSr::PROGERR_BIT == 3 && Stm32G0FlashSr::WRPERR_BIT == 4
            && Stm32G0FlashSr::PGAERR_BIT == 5 && Stm32G0FlashSr::SIZERR_BIT == 6
            && Stm32G0FlashSr::BSY1_BIT == 16 && Stm32G0FlashSr::BSY2_BIT == 17
            && Stm32G0FlashSr::CFGBSY_BIT == 18 && Stm32G0FlashSr::EOP_BIT == 0,
{
    assert(((v & 0x78u32 != 0) <==> ((v >> 3u32) & 1 == 1 || (v >> 4u32) & 1 == 1 || (v >> 5u32)
        & 1 == 1 || (v >> 6u32) & 1 == 1)) && ((v & 0x7_0000u32 != 0) <==> ((v >> 16u32) & 1 == 1
        || (v >> 17u32) & 1 == 1 || (v >> 18u32) & 1 == 1))) by (bit_vector);
}

/// STM32G0 FLASH_KEYR register
pub struct Stm32G0FlashKeyr;

impl Stm32G0FlashKeyr {
    /// STM32G0 memory address of this register
    pub const ADDRESS: u32 = STM32G0_FLASH_REG_BASE + 0x08;

    /// First key of the unlock sequence
    pub const KEY1: u32 = 0x45670123;
    /// Second key of the unlock sequence
    pub const KEY2: u32 = 0xCDEF89AB;
}

/// STM32 product family
#[derive(Debug, Clone, Copy, PartialEq, Eq, Structural)]
pub enum StmFamily {
    /// STM32F4 family
    F4,
    /// STM32F1 family
    F1,
    /// STM32G0 family
    G0,
    /// Unknown STM32 family
    Unknown,
}

/// The display name of each STM32 family.
pub open spec fn stm_family_name(f: StmFamily) -> Seq<char> {
    match f {
        StmFamily::F4 => "STM32F4"@,
        StmFamily::F1 => "STM32F1"@,
        StmFamily::G0 => "STM32G0"@,
        StmFamily::Unknown => "Unknown"@,
    }
}

impl StmFamily {
    /// Whether this STM32 family is a known one
    pub fn known(&self) -> (r: bool)
        ensures
            r == (*self != StmFamily::Unknown),
    {
        !matches!(self, StmFamily::Unknown)
    }

    /// The display name of this family.
    pub fn name(&self) -> (r: &'static str)
        ensures
            r@ == stm_family_name(*self),
    {
        match self {
            StmFamily::F4 => "STM32F4",
            StmFamily::F1 => "STM32F1",
            StmFamily::G0 => "STM32G0",
            StmFamily::Unknown => "Unknown",
        }
    }
}

/// STM32 product line
#[allow(non_camel_case_types)]
#[derive(Debug, Clone, Copy, PartialEq, Eq, Structural)]
pub enum StmLine {
    /// STM32F401B/C
    F401BC,
    /// STM32F401D/E
    F401DE,
    /// STM32F411
    F411,
    /// STM32F427/437
    F427_F437,
    /// STM32F413/423
    F413_F423,
    /// STM32F405/415/07/17
    F4x5,
    /// STM32F446
    F446,
    /// STM32F103
    F103,
    /// STM32G070/071 (STM32G07x family)
    G070_G071,
    /// Unknown STM32 line
    Unknown,
}

/// Main SRAM size in KB of each STM32 line, where known.
pub open spec fn stm_ram_size_kb(l: StmLine) -> Option<u32> {
    match l {
        StmLine::F401BC => Some(96u32),
        StmLine::F401DE => Some(96u32),
        StmLine::F411 => Some(128u32),
        StmLine::F427_F437 => Some(192u32),
        StmLine::F413_F423 => Some(256u32),
        StmLine::F4x5 => Some(128u32),
        StmLine::F446 => Some(128u32),
        StmLine::F103 => Some(20u32),
        StmLine::G070_G071 => None,
        StmLine::Unknown => None,
    }
}

/// CCM RAM size in KB of each STM32 line, where it has one.
pub open spec fn stm_ccm_ram_size_kb(l: StmLine) -> Option<u32> {
    match l {
        StmLine::F4x5 => Some(64u32),
        _ => None,
    }
}

/// A size in KB converted to bytes.
pub open spec fn kb_to_bytes(kb: Option<u32>) -> Option<u32> {
    match kb {
        Some(k) => Some((k * 1024) as u32),
        None => None,
    }
}

/// The display name of each STM32 line.
pub open spec fn stm_line_name(l: StmLine) -> Seq<char> {
    match l {
        StmLine::F401BC => "STM32F401B/C"@,
        StmLine::F401DE => "STM32F401D/E"@,
        StmLine::F4x5 => "STM32F405/415/07/17"@,
        StmLine::F411 => "STM32F411"@,
        StmLine::F413_F423 => "STM32F413/423"@,
        StmLine::F427_F437 => "STM32F427/437"@,
        StmLine::F446 => "STM32F446"@,
        StmLine::F103 => "STM32F103"@,
        StmLine::G070_G071 => "STM32G070/071"@,
        StmLine::Unknown => "Unknown STM32"@,
    }
}

/// The family each known STM32 line belongs to.
pub open spec fn stm_family_of_line(l: StmLine) -> StmFamily {
    match l {
        StmLine::F401BC | StmLine::F401DE | StmLine::F411 | StmLine::F427_F437
        | StmLine::F413_F423 | StmLine::F4x5 | StmLine::F446 => StmFamily::F4,
        StmLine::F103 => StmFamily::F1,
        StmLine::G070_G071 => StmFamily::G0,
        StmLine::Unknown => StmFamily::Unknown,
    }
}

impl StmLine {
    /// Returns the STM32's RAM size in bytes if available.
    ///
    /// Only main SRAM is reported.  CCM RAM, if present, is not included.
    pub fn ram_size_bytes(&self) -> (r: Option<u32>)
        ensures
            r == kb_to_bytes(stm_ram_size_kb(*self)),
    {
        match self.ram_size_kb() {
            Some(size) => Some(size * 1024),
            None => None,
        }
    }

    /// Returns the STM32's RAM size in KB if available.
    ///
    /// Only main SRAM is reported.  CCM RAM, if present, is not included.
    pub fn ram_size_kb(&self) -> (r: Option<u32>)
        ensures
            r == stm_ram_size_kb(*self),
    {
        match self {
            StmLine::F401BC => Some(96),
            StmLine::F401DE => Some(96),
            StmLine::F411 => Some(128),
            StmLine::F427_F437 => Some(192),
            StmLine::F413_F423 => Some(256),
            StmLine::F4x5 => Some(128),
            StmLine::F446 => Some(128),
            StmLine::F103 => Some(20),
            StmLine::G070_G071 => None,
            StmLine::Unknown => None,
        }
    }

    /// Returns the STM32's CCM RAM size in bytes if available.
    pub fn ccm_ram_size_bytes(&self) -> (r: Option<u32>)
        ensures
            r == kb_to_bytes(stm_ccm_ram_size_kb(*self)),
    {
        match self.ccm_ram_size_kb() {
            Some(size) => Some(size * 1024),
            None => None,
        }
    }

    /// Returns the STM32's CCM RAM size in KB if available.
    pub fn ccm_ram_size_kb(&self) -> (r: Option<u32>)
        ensures
            r == stm_ccm_ram_size_kb(*self),
    {
        match self {
            StmLine::F4x5 => Some(64),
            _ => None,
        }
    }

    /// The display name of this line.
    pub fn name(&self) -> (r: &'static str)
        ensures
            r@ == stm_line_name(*self),
    {
        match self {
            StmLine::F401BC => "STM32F401B/C",
            StmLine::F401DE => "STM32F401D/E",
            StmLine::F4x5 => "STM32F405/415/07/17",
            StmLine::F411 => "STM32F411",
            StmLine::F413_F423 => "STM32F413/423",
            StmLine::F427_F437 => "STM32F427/437",
            StmLine::F446 => "STM32F446",
            StmLine::F103 => "STM32F103",
            StmLine::G070_G071 => "STM32G070/071",
            StmLine::Unknown => "Unknown STM32",
        }
    }
}

/// The family a DEV_ID identifies.
pub open spec fn stm_family_of_dev(d: u16) -> StmFamily {
    if d == 0x423 || d == 0x433 || d == 0x431 || d == 0x413 || d == 0x419 || d == 0x463 || d
        == 0x421 {
        StmFamily::F4
    } else if d == 0x412 || d == 0x410 || d == 0x414 || d == 0x430 || d == 0x418 {
        StmFamily::F1
    } else if d == 0x460 {
        StmFamily::G0
    } else {
        StmFamily::Unknown
    }
}

/// The product line a DEV_ID identifies.
pub open spec fn stm_line_of_dev(d: u16) -> StmLine {
    if d == 0x423 {
        StmLine::F401BC
    } else if d == 0x433 {
        StmLine::F401DE
    } else if d == 0x431 {
        StmLine::F411
    } else if d == 0x413 {
        StmLine::F4x5
    } else if d == 0x419 {
        StmLine::F427_F437
    } else if d == 0x463 {
        StmLine::F413_F423
    } else if d == 0x421 {
        StmLine::F446
    } else if d == 0x410 {
        StmLine::F103
    } else if d == 0x460 {
        StmLine::G070_G071
    } else {
        StmLine::Unknown
    }
}

/// The revision name documented for a silicon revision of a product line.
pub open spec fn stm_revision_name(l: StmLine, rev: u16) -> Seq<char> {
    match l {
        StmLine::F401BC | StmLine::F401DE => if rev == 0x1000 {
            "A"@
        } else if rev == 0x1001 {
            "1/Z"@
        } else {
            "unknown"@
        },
        StmLine::F411 => if rev == 0x1000 {
            "A/1/Z"@
        } else {
            "unknown"@
        },
        StmLine::F4x5 => if rev == 0x1000 {
            "A"@
        } else if rev == 0x1001 {
            "Z"@
        } else if rev == 0x1003 {
            "1"@
        } else if rev == 0x1007 {
            "2"@
        } else if rev == 0x100F {
            "Y/4"@
        } else if rev == 0x101F {
            "5/6"@
        } else {
            "unknown"@
        },
        StmLine::F427_F437 => if rev == 0x1000 {
            "A"@
        } else if rev == 0x1003 {
            "Y"@
        } else if rev == 0x2001 {
            "3"@
        } else if rev == 0x2003 {
            "4/5/B"@
        } else {
            "unknown"@
        },
        StmLine::F413_F423 | StmLine::F446 => if rev == 0x1000 {
            "A/1"@
        } else {
            "unknown"@
        },
        StmLine::F103 => if rev == 0x0000 {
            "A"@
        } else if rev == 0x2000 {
            "B"@
        } else if rev == 0x2001 {
            "Z"@
        } else if rev == 0x2003 {
            "1/2/3/X/Y"@
        } else {
            "unknown"@
        },
        StmLine::G070_G071 | StmLine::Unknown => "unknown"@,
    }
}

/// STM32 MCU Device ID Code
///
/// Device ID format:
/// - Bits 31:16: REV_ID (silicon revision)
/// - Bits 15:0:  DEV_ID (device identifier), of which bits 11:0 hold the
///   device number that identifies the product family and line
#[derive(Debug, Clone, Copy, PartialEq, Eq, Structural)]
pub struct StmDeviceId {
    pub raw: u32,
}

/// The REV_ID field of a raw device ID.
pub open spec fn stm_revision(raw: u32) -> u16 {
    ((raw >> 16u32) & 0xFFFF) as u16
}

/// The DEV_ID field (bits 15:0) of a raw device ID.
pub open spec fn stm_dev_id_field(raw: u32) -> u16 {
    (raw & 0xFFFF) as u16
}

/// The device number (bits 11:0 of DEV_ID) of a raw device ID, by which the
/// product family and line are identified.
pub open spec fn stm_dev_id(raw: u32) -> u16 {
    (raw & 0xFFF) as u16
}

impl StmDeviceId {
    /// Memory address of the ROM location holding the device ID
    pub const ADDRESS: u32 = 0xE004_2000;

    /// Create new Device ID decoder from raw 32-bit value
    pub fn new(raw: u32) -> (r: Self)
        ensures
            r.raw == raw,
    {
        Self { raw }
    }

    /// Get raw Device ID value
    pub fn raw(&self) -> (r: u32)
        ensures
            r == self.raw,
    {
        self.raw
    }

    /// Get revision field (bits 31:16)
    pub fn revision(&self) -> (r: u16)
        ensures
            r == stm_revision(self.raw),
            r as u32 == self.raw >> 16u32,
    {
        let v = self.raw;
        assert((v >> 16u32) & 0xFFFF == v >> 16u32 && (v >> 16u32) <= 0xFFFF) by (bit_vector);
        ((v >> 16u32) & 0xFFFF) as u16
    }

    /// Get device identifier (bits 15:0)
    pub fn device_id(&self) -> (r: u16)
        ensures
            r == stm_dev_id_field(self.raw),
            r as u32 == self.raw & 0xFFFF,
    {
        let v = self.raw;
        assert(v & 0xFFFF <= 0xFFFF) by (bit_vector);
        (v & 0xFFFF) as u16
    }

    /// The device number: bits 11:0 of the device identifier, which name
    /// the product family and line.
    fn device_number(&self) -> (r: u16)
        ensures
            r == stm_dev_id(self.raw),
    {
        let d = self.device_id();
        let v = self.raw;
        assert(((v & 0xFFFF) as u16) & 0xFFF == (v & 0xFFF) as u16) by (bit_vector);
        d & 0xFFF
    }

    /// Get STM32 product family
    pub fn family(&self) -> (r: StmFamily)
        ensures
            r == stm_family_of_dev(stm_dev_id(self.raw)),
    {
        match self.device_number() {
            0x423 | 0x433 | 0x431 | 0x413 | 0x419 | 0x463 | 0x421 => StmFamily::F4,
            0x412 | 0x410 | 0x414 | 0x430 | 0x418 => StmFamily::F1,
            0x460 => StmFamily::G0,
            _ => StmFamily::Unknown,
        }
    }

    /// Get STM32 product line
    pub fn line(&self) -> (r: StmLine)
        ensures
            r == stm_line_of_dev(stm_dev_id(self.raw)),
    {
        match self.device_number() {
            0x423 => StmLine::F401BC,
            0x433 => StmLine::F401DE,
            0x431 => StmLine::F411,
            0x413 => StmLine::F4x5,
            0x419 => StmLine::F427_F437,
            0x463 => StmLine::F413_F423,
            0x421 => StmLine::F446,
            0x410 => StmLine::F103,
            0x460 => StmLine::G070_G071,
            _ => StmLine::Unknown,
        }
    }

    /// Get revision letter if known.  These values are usually documented in
    /// errata sheets or reference manuals for the product line.
    pub fn revision_str(&self) -> (r: &'static str)
        ensures
            r@ == stm_revision_name(stm_line_of_dev(stm_dev_id(self.raw)), stm_revision(self.raw)),
    {
        let rev = self.revision();
        match self.line() {
            StmLine::F401BC | StmLine::F401DE => match rev {
                0x1000 => "A",
                0x1001 => "1/Z",
                _ => "unknown",
            },
            StmLine::F411 => match rev {
                0x1000 => "A/1/Z",
                _ => "unknown",
            },
            StmLine::F4x5 => match rev {
                0x1000 => "A",
                0x1001 => "Z",
                0x1003 => "1",
                0x1007 => "2",
                0x100F => "Y/4",
                0x101F => "5/6",
                _ => "unknown",
            },
            StmLine::F427_F437 => match rev {
                0x1000 => "A",
                0x1003 => "Y",
                0x2001 => "3",
                0x2003 => "4/5/B",
                _ => "unknown",
            },
            StmLine::F413_F423 => match rev {
                0x1000 => "A/1",
                _ => "unknown",
            },
            StmLine::F446 => match rev {
                0x1000 => "A/1",
                _ => "unknown",
            },
            StmLine::F103 => match rev {
                0x0000 => "A",
                0x2000 => "B",
                0x2001 => "Z",
                0x2003 => "1/2/3/X/Y",
                _ => "unknown",
            },
            StmLine::G070_G071 => "unknown",
            StmLine::Unknown => "unknown",
        }
    }

    /// Checks if this is an STM32 device that is a known one
    pub fn is_known_device(&self) -> (r: bool)
        ensures
            r == (stm_line_of_dev(stm_dev_id(self.raw)) != StmLine::Unknown),
    {
        !matches!(self.line(), StmLine::Unknown)
    }
}

impl From<u32> for StmDeviceId {
    fn from(raw: u32) -> (r: Self) {
        Self::new(raw)
    }
}

impl vstd::std_specs::convert::FromSpecImpl<u32> for StmDeviceId {
    open spec fn obeys_from_spec() -> bool {
        true
    }

    open spec fn from_spec(v: u32) -> Self {
        StmDeviceId { raw: v }
    }
}

/// Every product line a DEV_ID identifies belongs to the family the same
/// DEV_ID identifies: a known line implies a known family, and the two agree.
pub proof fn lemma_line_family_agree(d: u16)
    ensures
        stm_line_of_dev(d) != StmLine::Unknown ==> stm_family_of_line(stm_line_of_dev(d))
            == stm_family_of_dev(d),
        stm_line_of_dev(d) != StmLine::Unknown ==> stm_family_of_dev(d) != StmFamily::Unknown,
{
}

/// The documented STM32 device numbers (bits 11:0 of DEV_ID) and what
/// each identifies: its product line, family, main SRAM size and name.
/// 0x423 is the STM32F401B/C, 0x433 the STM32F401D/E, 0x431 the STM32F411,
/// 0x413 the STM32F405/415/407/417, 0x419 the STM32F427/437, 0x463 the
/// STM32F413/423, 0x421 the STM32F446, 0x410 the STM32F103 and 0x460 the
/// STM32G070/071.  0x412, 0x414, 0x430 and 0x418 are STM32F1 devices of no
/// known line; every other number identifies neither family nor line.
pub proof fn lemma_device_number_table(d: u16)
    ensures
        d == 0x423 ==> stm_line_of_dev(d) == StmLine::F401BC && stm_family_of_dev(d)
            == StmFamily::F4 && stm_ram_size_kb(stm_line_of_dev(d)) == Some(96u32)
            && stm_line_name(stm_line_of_dev(d)) == "STM32F401B/C"@,
        d == 0x433 ==> stm_line_of_dev(d) == StmLine::F401DE && stm_family_of_dev(d)
            == StmFamily::F4 && stm_ram_size_kb(stm_line_of_dev(d)) == Some(96u32)
            && stm_line_name(stm_line_of_dev(d)) == "STM32F401D/E"@,
        d == 0x431 ==> stm_line_of_dev(d) == StmLine::F411 && stm_family_of_dev(d)
            == StmFamily::F4 && stm_ram_size_kb(stm_line_of_dev(d)) == Some(128u32)
            && stm_line_name(stm_line_of_dev(d)) == "STM32F411"@,
        d == 0x413 ==> stm_line_of_dev(d) == StmLine::F4x5 && stm_family_of_dev(d)
            == StmFamily::F4 && stm_ram_size_kb(stm_line_of_dev(d)) == Some(128u32)
            && stm_ccm_ram_size_kb(stm_line_of_dev(d)) == Some(64u32) && stm_line_name(
            stm_line_of_dev(d),
        ) == "STM32F405/415/07/17"@,
        d == 0x419 ==> stm_line_of_dev(d) == StmLine::F427_F437 && stm_family_of_dev(d)
            == StmFamily::F4 && stm_ram_size_kb(stm_line_of_dev(d)) == Some(192u32)
            && stm_line_name(stm_line_of_dev(d)) == "STM32F427/437"@,
        d == 0x463 ==> stm_line_of_dev(d) == StmLine::F413_F423 && stm_family_of_dev(d)
            == StmFamily::F4 && stm_ram_size_kb(stm_line_of_dev(d)) == Some(256u32)
            && stm_line_name(stm_line_of_dev(d)) == "STM32F413/423"@,
        d == 0x421 ==> stm_line_of_dev(d) == StmLine::F446 && stm_family_of_dev(d)
            == StmFamily::F4 && stm_ram_size_kb(stm_line_of_dev(d)) == Some(128u32)
            && stm_line_name(stm_line_of_dev(d)) == "STM32F446"@,
        d == 0x410 ==> stm_line_of_dev(d) == StmLine::F103 && stm_family_of_dev(d)
            == StmFamily::F1 && stm_ram_size_kb(stm_line_of_dev(d)) == Some(20u32)
            && stm_line_name(stm_line_of_dev(d)) == "STM32F103"@,
        d == 0x460 ==> stm_line_of_dev(d) == StmLine::G070_G071 && stm_family_of_dev(d)
            == StmFamily::G0 && stm_ram_size_kb(stm_line_of_dev(d)) == None::<u32>
            && stm_line_name(stm_line_of_dev(d)) == "STM32G070/071"@,
        (d == 0x412 || d == 0x414 || d == 0x430 || d == 0x418) ==> stm_line_of_dev(d)
            == StmLine::Unknown && stm_family_of_dev(d) == StmFamily::F1,
        !(d == 0x423 || d == 0x433 || d == 0x431 || d == 0x413 || d == 0x419 || d == 0x463 || d
            == 0x421 || d == 0x410 || d == 0x460 || d == 0x412 || d == 0x414 || d == 0x430 || d
            == 0x418) ==> stm_line_of_dev(d) == StmLine::Unknown && stm_family_of_dev(d)
            == StmFamily::Unknown && stm_line_name(stm_line_of_dev(d)) == "Unknown STM32"@,
        stm_ccm_ram_size_kb(stm_line_of_dev(d)).is_some() ==> d == 0x413,
        stm_family_name(StmFamily::F4) == "STM32F4"@ && stm_family_name(StmFamily::F1)
            == "STM32F1"@ && stm_family_name(StmFamily::G0) == "STM32G0"@ && stm_family_name(
            StmFamily::Unknown,
        ) == "Unknown"@,
        stm_line_of_dev(d) != StmLine::Unknown ==> stm_family_of_line(stm_line_of_dev(d))
            == stm_family_of_dev(d),
{
}

/// Byte `i` (0 is the least significant) of `w`.
pub open spec fn le_byte(w: u32, i: int) -> u8 {
    if i == 0 {
        (w & 0xFF) as u8
    } else if i == 1 {
        ((w >> 8u32) & 0xFF) as u8
    } else if i == 2 {
        ((w >> 16u32) & 0xFF) as u8
    } else {
        ((w >> 24u32) & 0xFF) as u8
    }
}

/// Byte `i` (0 is the least significant) of `w`.
fn byte_of(w: u32, i: u32) -> (r: u8)
    requires
        i < 4,
    ensures
        r == le_byte(w, i as int),
{
    assert((w & 0xFF) <= 0xFF && ((w >> 8u32) & 0xFF) <= 0xFF && ((w >> 16u32) & 0xFF) <= 0xFF
        && ((w >> 24u32) & 0xFF) <= 0xFF) by (bit_vector);
    if i == 0 {
        (w & 0xFF) as u8
    } else if i == 1 {
        ((w >> 8u32) & 0xFF) as u8
    } else if i == 2 {
        ((w >> 16u32) & 0xFF) as u8
    } else {
        ((w >> 24u32) & 0xFF) as u8
    }
}

/// Whether a byte is a printable, non-space ASCII character (0x21 to 0x7E).
pub open spec fn is_ascii_graphic(b: u8) -> bool {
    0x21 <= b <= 0x7E
}

/// How a lot byte is shown: itself when printable, `.` otherwise.
pub open spec fn lot_char(b: u8) -> char {
    if is_ascii_graphic(b) {
        b as char
    } else {
        '.'
    }
}

/// STM32 Unique Device ID (UID)
///
/// This is a 96-bit unique identifier for each STM32 device, consisting of
/// three 32-bit words, UID31:0 first.
#[derive(Debug, Clone, Copy, PartialEq, Eq)]
pub struct StmUniqueId {
    pub uid: [u32; 3],
}

/// The 7 lot bytes (UID95:40), most significant first.
pub open spec fn stm_lot(uid: Seq<u32>) -> Seq<u8> {
    seq![
        le_byte(uid[2], 3),
        le_byte(uid[2], 2),
        le_byte(uid[2], 1),
        le_byte(uid[2], 0),
        le_byte(uid[1], 3),
        le_byte(uid[1], 2),
        le_byte(uid[1], 1),
    ]
}

/// The UID word address for each family, where the family is known.
pub open spec fn stm_uid_addr(family: StmFamily) -> Option<u32> {
    match family {
        StmFamily::F4 => Some(0x1FFF_7A10u32),
        StmFamily::F1 => Some(0x1FFF_F7E8u32),
        StmFamily::G0 => Some(0x1FFF_7590u32),
        StmFamily::Unknown => None,
    }
}

impl StmUniqueId {
    /// Address of the UID on the STM32F4
    pub const STM32F4_INITIAL_ADDRESS: u32 = 0x1FFF_7A10;
    /// Address of the UID on the STM32F1
    pub const STM32F1_INITIAL_ADDRESS: u32 = 0x1FFF_F7E8;
    /// Address of the UID on the STM32G0
    pub const STM32G0_INITIAL_ADDRESS: u32 = 0x1FFF_7590;

    /// Get the initial address for reading the Unique ID based on the STM32
    /// family.
    pub fn addr_from_family(family: StmFamily) -> (r: Option<u32>)
        ensures
            r == stm_uid_addr(family),
    {
        match family {
            StmFamily::F4 => Some(Self::STM32F4_INITIAL_ADDRESS),
            StmFamily::F1 => Some(Self::STM32F1_INITIAL_ADDRESS),
            StmFamily::G0 => Some(Self::STM32G0_INITIAL_ADDRESS),
            StmFamily::Unknown => None,
        }
    }

    /// Create new Unique ID from 3 32-bit words.  These are expected to be
    /// provided LSB (UID31:0) first, read from the `INITIAL_ADDRESS`.
    pub fn new(uid: [u32; 3]) -> (r: Self)
        ensures
            r.uid == uid,
    {
        Self { uid }
    }

    /// UID31:0 - X/Y co-ordinates on the wafer.  X co-ordinate is the lower
    /// 16 bits, Y co-ordinate is the upper 16 bits.
    pub fn x_y(&self) -> (r: u32)
        ensures
            r == self.uid@[0],
    {
        self.uid[0]
    }

    /// UID15:0 X-coordinate on the wafer
    pub fn x(&self) -> (r: u16)
        ensures
            r as u32 == self.uid@[0] & 0xFFFF,
    {
        let v = self.x_y();
        assert(v & 0xFFFF <= 0xFFFF) by (bit_vector);
        (v & 0xFFFF) as u16
    }

    /// UID31:16 Y-coordinate on the wafer
    pub fn y(&self) -> (r: u16)
        ensures
            r as u32 == (self.uid@[0] >> 16u32) & 0xFFFF,
    {
        let v = self.x_y();
        assert((v >> 16u32) & 0xFFFF <= 0xFFFF) by (bit_vector);
        ((v >> 16u32) & 0xFFFF) as u16
    }

    /// UID39:32 - Wafer number (an 8-bit value).
    pub fn wafer(&self) -> (r: u8)
        ensures
            r == le_byte(self.uid@[1], 0),
    {
        byte_of(self.uid[1], 0)
    }

    /// UID95:40 - Lot number, ASCII encoded, most significant byte first.
    pub fn lot(&self) -> (r: [u8; 7])
        ensures
            r@ == stm_lot(self.uid@),
    {
        let w1 = self.uid[1];
        let w2 = self.uid[2];
        let r = [
            byte_of(w2, 3),
            byte_of(w2, 2),
            byte_of(w2, 1),
            byte_of(w2, 0),
            byte_of(w1, 3),
            byte_of(w1, 2),
            byte_of(w1, 1),
        ];
        assert(r@ =~= stm_lot(self.uid@));
        r
    }

    /// Wafer number as string: `0x` and two upper-case hexadecimal digits.
    pub fn wafer_str(&self) -> (r: String)
        ensures
            r@ == hex_byte_chars(le_byte(self.uid@[1], 0)),
    {
        let byte = self.wafer();
        let mut result = String::new();
        push_hex_byte(&mut result, byte);
        assert(result@ =~= hex_byte_chars(byte));
        result
    }

    /// Lot number as string: each printable lot byte as itself, any other
    /// byte as `.`.
    pub fn lot_str(&self) -> (r: String)
        ensures
            r@ == Seq::new(7, |i: int| lot_char(stm_lot(self.uid@)[i])),
    {
        let bytes = self.lot();
        let mut result = String::new();
        let mut i: usize = 0;
        while i < 7
            invariant
                0 <= i <= 7,
                bytes@ == stm_lot(self.uid@),
                result@ =~= Seq::new(i as nat, |j: int| lot_char(stm_lot(self.uid@)[j])),
            decreases 7 - i,
        {
            let byte = bytes[i];
            if 0x21 <= byte && byte <= 0x7E {
                push_char(&mut result, byte as char);
            } else {
                push_char(&mut result, '.');
            }
            i = i + 1;
        }
        result
    }

    /// Get the raw UID as an array of 3 u32 values, UID31:0 first
    pub fn raw(&self) -> (r: [u32; 3])
        ensures
            r == self.uid,
    {
        self.uid
    }
}

/// The wafer X and Y co-ordinates together make up the first UID word.
pub proof fn lemma_x_y_reassemble(w: u32)
    ensures
        w == (w & 0xFFFF) | (((w >> 16u32) & 0xFFFF) << 16u32),
{
    assert(w == (w & 0xFFFF) | (((w >> 16u32) & 0xFFFF) << 16u32)) by (bit_vector);
}

/// The flash size register address for each family, where the family is
/// known.
pub open spec fn stm_flash_size_addr(family: StmFamily) -> Option<u32> {
    match family {
        StmFamily::F4 => Some(0x1FFF_7A20u32),
        StmFamily::F1 => Some(0x1FFF_F7E0u32),
        StmFamily::G0 => Some(0x1FFF_75E0u32),
        StmFamily::Unknown => None,
    }
}

/// STM Flash Size Register
///
/// This is a 16-bit value that indicates the size of the flash memory in
/// kilobytes.
#[derive(Debug, Clone, Copy, PartialEq, Eq, Structural)]
pub struct StmFlashSize {
    pub raw: u16,
}

impl StmFlashSize {
    /// Address of the word holding the F4 flash size (in its upper 16 bits).
    pub const STM32F4_ADDRESS_OF_U16: u32 = 0x1FFF_7A20;
    /// Address of the word holding the F1 flash size.
    pub const STM32F1_ADDRESS_OF_U16: u32 = 0x1FFF_F7E0;
    /// Address of the word holding the G0 flash size.
    pub const STM32G0_ADDRESS_OF_U16: u32 = 0x1FFF_75E0;

    /// Get the initial address for reading the Flash Size based on the STM32
    /// family.
    pub fn addr_from_family(family: StmFamily) -> (r: Option<u32>)
        ensures
            r == stm_flash_size_addr(family),
    {
        match family {
            StmFamily::F4 => Some(Self::STM32F4_ADDRESS_OF_U16),
            StmFamily::F1 => Some(Self::STM32F1_ADDRESS_OF_U16),
            StmFamily::G0 => Some(Self::STM32G0_ADDRESS_OF_U16),
            StmFamily::Unknown => None,
        }
    }

    /// Create new Flash Size from raw 16-bit value
    pub fn new(raw: u16) -> (r: Self)
        ensures
            r.raw == raw,
    {
        Self { raw }
    }

    /// Get raw Flash Size value
    pub fn raw(&self) -> (r: u16)
        ensures
            r == self.raw,
    {
        self.raw
    }

    /// Get Flash size in bytes
    pub fn size_bytes(&self) -> (r: u32)
        ensures
            r == self.raw * 1024,
    {
        (self.raw as u32) * 1024
    }

    /// Get Flash size in KB
    pub fn size_kb(&self) -> (r: u32)
        ensures
            r == self.raw,
    {
        self.raw as u32
    }
}

/// `RangeInclusive::start`: std documents that it returns the lower bound
/// of the range.  The contract claims it returns the start the range was
/// made with, for a range that iteration has not exhausted.
pub assume_specification<Idx>[ core::ops::RangeInclusive::<Idx>::start ](
    r: &core::ops::RangeInclusive<Idx>,
) -> (ret: &Idx)
    requires
        !r@.exhausted,
    ensures
        *ret == r@.start,
;

/// `RangeInclusive::end`: std documents that it returns the upper bound of
/// the range.  The contract claims it returns the end the range was made
/// with, for a range that iteration has not exhausted.
pub assume_specification<Idx>[ core::ops::RangeInclusive::<Idx>::end ](
    r: &core::ops::RangeInclusive<Idx>,
) -> (ret: &Idx)
    requires
        !r@.exhausted,
    ensures
        *ret == r@.end,
;

/// Size in bytes of STM32F4 flash sector `i`, for the 12 sectors the
/// supported F4 devices share: three of 16 KB, one of 64 KB, eight of
/// Each family reads its flash size and its unique ID at its own
/// documented addresses: the flash size word at 0x1FFF_7A20 on the F4,
/// 0x1FFF_F7E0 on the F1 and 0x1FFF_75E0 on the G0, the UID at 0x1FFF_7A10,
/// 0x1FFF_F7E8 and 0x1FFF_7590; an unknown family has neither.  No two
/// families share an address, and no flash size word lies where a UID
/// word is read.
pub proof fn lemma_family_addresses(f: StmFamily, g: StmFamily)
    ensures
        stm_flash_size_addr(StmFamily::F4) == Some(StmFlashSize::STM32F4_ADDRESS_OF_U16),
        stm_flash_size_addr(StmFamily::F1) == Some(StmFlashSize::STM32F1_ADDRESS_OF_U16),
        stm_flash_size_addr(StmFamily::G0) == Some(StmFlashSize::STM32G0_ADDRESS_OF_U16),
        StmFlashSize::STM32F4_ADDRESS_OF_U16 == 0x1FFF_7A20u32,
        StmFlashSize::STM32F1_ADDRESS_OF_U16 == 0x1FFF_F7E0u32,
        StmFlashSize::STM32G0_ADDRESS_OF_U16 == 0x1FFF_75E0u32,
        stm_uid_addr(StmFamily::F4) == Some(StmUniqueId::STM32F4_INITIAL_ADDRESS),
        stm_uid_addr(StmFamily::F1) == Some(StmUniqueId::STM32F1_INITIAL_ADDRESS),
        stm_uid_addr(StmFamily::G0) == Some(StmUniqueId::STM32G0_INITIAL_ADDRESS),
        StmUniqueId::STM32F4_INITIAL_ADDRESS == 0x1FFF_7A10u32,
        StmUniqueId::STM32F1_INITIAL_ADDRESS == 0x1FFF_F7E8u32,
        StmUniqueId::STM32G0_INITIAL_ADDRESS == 0x1FFF_7590u32,
        stm_flash_size_addr(StmFamily::Unknown) is None,
        stm_uid_addr(StmFamily::Unknown) is None,
        f != StmFamily::Unknown ==> stm_flash_size_addr(f) is Some && stm_uid_addr(f) is Some,
        f != g && f != StmFamily::Unknown && g != StmFamily::Unknown ==> stm_flash_size_addr(f)
            != stm_flash_size_addr(g) && stm_uid_addr(f) != stm_uid_addr(g),
        f != StmFamily::Unknown && g != StmFamily::Unknown ==> stm_flash_size_addr(f)->0
            != stm_uid_addr(g)->0 && stm_flash_size_addr(f)->0 != stm_uid_addr(g)->0 + 4
            && stm_flash_size_addr(f)->0 != stm_uid_addr(g)->0 + 8,
{
}

/// The documented silicon revision names of each product line: for the
/// device ID `raw`, the revision name read from its line and REV_ID.
pub proof fn lemma_revision_table(raw: u32)
    ensures
        ({
            let l = stm_line_of_dev(stm_dev_id(raw));
            let rev = stm_revision(raw);
            let name = stm_revision_name(l, rev);
            &&& (l == StmLine::F401BC || l == StmLine::F401DE) ==> name == if rev == 0x1000 {
                "A"@
            } else if rev == 0x1001 {
                "1/Z"@
            } else {
                "unknown"@
            }
            &&& l == StmLine::F411 ==> name == if rev == 0x1000 {
                "A/1/Z"@
            } else {
                "unknown"@
            }
            &&& l == StmLine::F4x5 ==> name == if rev == 0x1000 {
                "A"@
            } else if rev == 0x1001 {
                "Z"@
            } else if rev == 0x1003 {
                "1"@
            } else if rev == 0x1007 {
                "2"@
            } else if rev == 0x100F {
                "Y/4"@
            } else if rev == 0x101F {
                "5/6"@
            } else {
                "unknown"@
            }
            &&& l == StmLine::F427_F437 ==> name == if rev == 0x1000 {
                "A"@
            } else if rev == 0x1003 {
                "Y"@
            } else if rev == 0x2001 {
                "3"@
            } else if rev == 0x2003 {
                "4/5/B"@
            } else {
                "unknown"@
            }
            &&& (l == StmLine::F413_F423 || l == StmLine::F446) ==> name == if rev == 0x1000 {
                "A/1"@
            } else {
                "unknown"@
            }
            &&& l == StmLine::F103 ==> name == if rev == 0x0000 {
                "A"@
            } else if rev == 0x2000 {
                "B"@
            } else if rev == 0x2001 {
                "Z"@
            } else if rev == 0x2003 {
                "1/2/3/X/Y"@
            } else {
                "unknown"@
            }
            &&& (l == StmLine::G070_G071 || l == StmLine::Unknown) ==> name == "unknown"@
        }),
{
}

/// 128 KB.
pub open spec fn f4_sector_size(i: int) -> u32 {
    if i < 3 {
        16384u32
    } else if i == 3 {
        65536u32
    } else {
        131072u32
    }
}

/// Offset in bytes of the start of STM32F4 flash sector `n` (the total size
/// of the sectors before it).
pub open spec fn f4_sector_start(n: nat) -> nat
    decreases n,
{
    if n == 0 {
        0
    } else {
        (f4_sector_start((n - 1) as nat) + f4_sector_size(n - 1)) as nat
    }
}

/// Whether F4 sector `i` holds any byte of the inclusive byte range
/// `start..=end`.
pub open spec fn f4_sector_overlaps(i: int, start: int, end: int) -> bool {
    start <= f4_sector_start((i + 1) as nat) - 1 && end >= f4_sector_start(i as nat)
}

proof fn lemma_f4_sector_start_values()
    ensures
        f4_sector_start(0) == 0,
        f4_sector_start(1) == 16384,
        f4_sector_start(2) == 32768,
        f4_sector_start(3) == 49152,
        f4_sector_start(4) == 114688,
        f4_sector_start(5) == 245760,
        f4_sector_start(6) == 376832,
        f4_sector_start(7) == 507904,
        f4_sector_start(8) == 638976,
        f4_sector_start(9) == 770048,
        f4_sector_start(10) == 901120,
        f4_sector_start(11) == 1032192,
        f4_sector_start(12) == 1163264,
{
    reveal_with_fuel(f4_sector_start, 13);
}

/// Sector starts grow with the sector number.
proof fn lemma_f4_sector_start_monotonic(a: nat, b: nat)
    requires
        a <= b,
    ensures
        f4_sector_start(a) <= f4_sector_start(b),
    decreases b - a,
{
    if a < b {
        lemma_f4_sector_start_monotonic(a, (b - 1) as nat);
    }
}

/// Size in bytes of STM32F4 flash sector `i`.
fn f4_sector_size_bytes(i: u8) -> (r: u32)
    requires
        i < 12,
    ensures
        r == f4_sector_size(i as int),
{
    if i < 3 {
        16 * 1024
    } else if i == 3 {
        64 * 1024
    } else {
        128 * 1024
    }
}

/// STM32 device details
#[derive(Debug, Clone, Copy, PartialEq, Eq)]
pub struct StmDetails {
    /// The MCU Device ID
    pub mcu: StmDeviceId,
    /// The IDCODE (DPIDR value)
    pub idcode: IdCode,
    /// The Unique ID if available
    pub uid: Option<StmUniqueId>,
    /// The Flash Size if available
    pub flash_size: Option<StmFlashSize>,
}

impl StmDetails {
    /// The family of this device.
    pub open spec fn family(&self) -> StmFamily {
        stm_family_of_dev(stm_dev_id(self.mcu.raw))
    }

    /// The flash size in bytes, if known.
    pub open spec fn flash_bytes(&self) -> Option<u32> {
        match self.flash_size {
            Some(f) => Some((f.raw * 1024) as u32),
            None => None,
        }
    }

    /// What `get_sector_size_bytes` returns: the size of F4 sector
    /// `sector`, when the device is an F4, the sector exists and every
    /// sector up to and including it lies within the flash size.
    pub open spec fn sector_size_bytes_spec(&self, sector: u8) -> Option<u32> {
        if self.family() == StmFamily::F4 && sector < 12 && self.flash_bytes().is_some()
            && f4_sector_start((sector + 1) as nat) <= self.flash_bytes().unwrap() {
            Some(f4_sector_size(sector as int))
        } else {
            None
        }
    }

    /// Create new a new `StmDetails` instance
    pub fn new(
        mcu: StmDeviceId,
        idcode: IdCode,
        uid: Option<StmUniqueId>,
        flash_size: Option<StmFlashSize>,
    ) -> (r: Self)
        ensures
            r.mcu == mcu,
            r.idcode == idcode,
            r.uid == uid,
            r.flash_size == flash_size,
    {
        Self { mcu, idcode, uid, flash_size }
    }

    /// The IDCODE (DPIDR value) of the device.
    pub fn idcode(&self) -> (r: &IdCode)
        ensures
            *r == self.idcode,
    {
        &self.idcode
    }

    /// The Cortex core type the IDCODE identifies.
    pub fn get_cortex(&self) -> (r: Option<Cortex>)
        ensures
            r == cortex_from_idcode_value(self.idcode@),
    {
        Cortex::from_idcode(self.idcode)
    }

    /// Get the MCU Device ID
    pub fn mcu(&self) -> (r: &StmDeviceId)
        ensures
            *r == self.mcu,
    {
        &self.mcu
    }

    /// Get the Unique ID if available
    pub fn uid(&self) -> (r: Option<StmUniqueId>)
        ensures
            r == self.uid,
    {
        self.uid
    }

    /// Returns the flash size in bytes if available
    pub fn flash_size_bytes(&self) -> (r: Option<u32>)
        ensures
            r == self.flash_bytes(),
    {
        match self.flash_size {
            Some(size) => Some(size.size_bytes()),
            None => None,
        }
    }

    /// Returns the Flash Size (in KB) if available
    pub fn flash_size_kb(&self) -> (r: Option<StmFlashSize>)
        ensures
            r == self.flash_size,
    {
        self.flash_size
    }

    /// Get the base flash address for this MCU
    pub fn flash_base(&self) -> (r: Option<u32>)
        ensures
            r == match self.family() {
                StmFamily::F4 => Some(STM32F4_FLASH_BASE),
                StmFamily::F1 => Some(STM32F1_FLASH_BASE),
                StmFamily::G0 => Some(STM32F4_FLASH_BASE),
                StmFamily::Unknown => None,
            },
    {
        match self.mcu.family() {
            StmFamily::F4 => Some(STM32F4_FLASH_BASE),
            StmFamily::F1 => Some(STM32F1_FLASH_BASE),
            StmFamily::G0 => Some(STM32F4_FLASH_BASE),
            StmFamily::Unknown => None,
        }
    }

    /// Get the base RAM address for this MCU
    pub fn ram_base(&self) -> (r: Option<u32>)
        ensures
            r == match self.family() {
                StmFamily::F4 => Some(STM32F4_RAM_BASE),
                StmFamily::F1 => Some(STM32F1_RAM_BASE),
                StmFamily::G0 => Some(STM32F4_RAM_BASE),
                StmFamily::Unknown => None,
            },
    {
        match self.mcu.family() {
            StmFamily::F4 => Some(STM32F4_RAM_BASE),
            StmFamily::F1 => Some(STM32F1_RAM_BASE),
            StmFamily::G0 => Some(STM32F4_RAM_BASE),
            StmFamily::Unknown => None,
        }
    }

    /// Returns whether this is an STM32F4 family MCU
    pub fn is_stm32f4(&self) -> (r: bool)
        ensures
            r == (self.family() == StmFamily::F4),
    {
        matches!(self.mcu.family(), StmFamily::F4)
    }

    /// Returns whether this is an STM32F1 family MCU
    pub fn is_stm32f1(&self) -> (r: bool)
        ensures
            r == (self.family() == StmFamily::F1),
    {
        matches!(self.mcu.family(), StmFamily::F1)
    }

    /// Maximum number of flash sectors for STM32F4 family devices.
    pub const MAX_SECTORS: u8 = 12;

    /// Returns the size of the indicated flash sector in bytes if available.
    ///
    /// Only returns the size of the sector if it is within the device's flash
    /// size.
    ///
    /// Returns:
    /// - `Some(size)`: The size of the sector in bytes if it is valid and
    ///   within the device's flash size.
    /// - `None`: If the device is not an STM32F4 family MCU, or if the sector
    ///   is invalid for this device.
    pub fn get_sector_size_bytes(&self, sector: u8) -> (r: Option<u32>)
        ensures
            r == self.sector_size_bytes_spec(sector),
    {
        if !self.is_stm32f4() {
            return None;
        }
        let value = if sector < Self::MAX_SECTORS {
            f4_sector_size_bytes(sector)
        } else {
            return None;
        };
        let flash_size = match self.flash_size_bytes() {
            Some(f) => f,
            None => return None,
        };
        proof {
            lemma_f4_sector_start_values();
        }
        // Sum up all sector sizes up to the given sector, and check it's
        // within the flash size.
        let mut total_size: u32 = 0;
        let mut i: u8 = 0;
        while i <= sector
            invariant
                sector < 12,
                i <= sector + 1,
                total_size == f4_sector_start(i as nat),
                self.flash_bytes() == Some(flash_size),
                forall|j: nat| j <= i ==> f4_sector_start(j) <= flash_size,
                f4_sector_start(12) == 1163264,
            decreases sector + 1 - i,
        {
            proof {
                lemma_f4_sector_start_monotonic((i + 1) as nat, 12);
            }
            total_size = total_size + f4_sector_size_bytes(i);
            assert(total_size == f4_sector_start((i + 1) as nat));
            if total_size > flash_size {
                proof {
                    lemma_f4_sector_start_monotonic((i + 1) as nat, (sector + 1) as nat);
                }
                assert(self.flash_bytes() == Some(flash_size));
                assert(f4_sector_start((sector + 1) as nat) > flash_size);
                return None;
            }
            i = i + 1;
            assert forall|j: nat| j <= i implies f4_sector_start(j) <= flash_size by {
                if j < i {
                } else {
                    assert(j == i);
                }
            }
        }
        Some(value)
    }

    /// Returns the size of the indicated flash sector in KB if available.
    pub fn get_sector_size_kb(&self, sector: u8) -> (r: Option<u32>)
        ensures
            r == match self.sector_size_bytes_spec(sector) {
                Some(b) => Some(b / 1024),
                None => None,
            },
    {
        match self.get_sector_size_bytes(sector) {
            Some(size) => Some(size / 1024),
            None => None,
        }
    }

    /// Whether `get_sectors_from_word_range` accepts the inclusive word range
    /// `start..=end`: the device is an F4 of known flash size, the range is
    /// not reversed and its last word lies within the flash.
    pub open spec fn word_range_ok(&self, start: u32, end: u32) -> bool {
        &&& self.family() == StmFamily::F4
        &&& start <= end
        &&& self.flash_bytes().is_some()
        &&& end * 4 + 4 <= self.flash_bytes().unwrap()
    }

    /// Returns the flash sector number or numbers for the given word range.
    ///
    /// The word range is relative to the start of the flash, and the range is
    /// _inclusive_ of the entirety of the end word.
    ///
    /// Returns:
    /// - `Some(sector_count)`: The number of sectors found in the range,
    ///   stored in increasing order at the start of `sectors`.
    /// - `None`: If the device is not an STM32F4 family MCU, or if the range
    ///   is invalid or exceeds the flash size.
    pub fn get_sectors_from_word_range(
        &self,
        range: core::ops::RangeInclusive<u32>,
        sectors: &mut [u8; 12],
    ) -> (r: Option<usize>)
        requires
            !range@.exhausted,
            self.family() == StmFamily::F4 ==> range@.start * 4 <= u32::MAX && range@.end * 4
                <= u32::MAX,
            self.family() == StmFamily::F4 && range@.start <= range@.end
                && self.flash_bytes().is_some() ==> range@.end * 4 + 4 <= u32::MAX,
        ensures
            r.is_some() == self.word_range_ok(range@.start, range@.end),
            r.is_none() ==> final(sectors)@ == old(sectors)@,
            r matches Some(count) ==> {
                let s = final(sectors)@;
                let lo = range@.start * 4;
                let hi = range@.end * 4 + 3;
                &&& count <= 12
                &&& forall|k: int| 0 <= k < count ==> s[k] < 12 && f4_sector_overlaps(s[k] as int, lo, hi)
                &&& forall|k1: int, k2: int| 0 <= k1 < k2 < count ==> s[k1] < s[k2]
                &&& forall|i: int| 0 <= i < 12 && f4_sector_overlaps(i, lo, hi) ==> exists|k: int|
                    0 <= k < count && s[k] == i
                &&& forall|k: int| count <= k < 12 ==> s[k] == old(sectors)@[k]
            },
    {
        if !self.is_stm32f4() {
            return None;
        }
        let start_word = *range.start();
        let start_bytes = start_word * 4;
        let end_word = *range.end();
        let end_bytes = end_word * 4;

        if start_word > end_word {
            return None;
        }
        let flash_size = match self.flash_size_bytes() {
            Some(f) => f,
            None => return None,
        };
        if end_bytes + 4 > flash_size {
            return None;
        }
        proof {
            lemma_f4_sector_start_values();
        }
        let ghost old_sectors = old(sectors)@;
        let mut sector_count: usize = 0;
        let mut current_address: u32 = 0;
        // Inclusive end of last word
        let range_end_bytes = end_bytes + 3;
        let mut i: usize = 0;
        let mut passed = false;
        while i < 12 && !passed
            invariant
                i <= 12,
                start_bytes == start_word * 4,
                range_end_bytes == end_word * 4 + 3,
                current_address == f4_sector_start(i as nat),
                sector_count <= i,
                f4_sector_start(12) == 1163264,
                passed ==> current_address > range_end_bytes,
                sectors@.len() == 12,
                old_sectors.len() == 12,
                forall|k: int| 0 <= k < sector_count ==> sectors@[k] < i && f4_sector_overlaps(
                    sectors@[k] as int,
                    start_bytes as int,
                    range_end_bytes as int,
                ),
                forall|k1: int, k2: int| 0 <= k1 < k2 < sector_count ==> sectors@[k1] < sectors@[k2],
                forall|j: int|
                    0 <= j < i && f4_sector_overlaps(j, start_bytes as int, range_end_bytes as int)
                        ==> exists|k: int| 0 <= k < sector_count && sectors@[k] == j,
                forall|k: int| sector_count <= k < 12 ==> sectors@[k] == old_sectors[k],
            decreases 12 - i,
        {
            proof {
                lemma_f4_sector_start_monotonic((i + 1) as nat, 12);
            }
            let sector_size = f4_sector_size_bytes(i as u8);
            let sector_start = current_address;
            let sector_end = current_address + sector_size - 1;
            assert(sector_end == f4_sector_start((i + 1) as nat) - 1);
            if start_bytes <= sector_end && range_end_bytes >= sector_start {
                let ghost prev = sectors@;
                sectors[sector_count] = i as u8;
                assert forall|j: int|
                    0 <= j < i + 1 && f4_sector_overlaps(
                        j,
                        start_bytes as int,
                        range_end_bytes as int,
                    ) implies exists|k: int| 0 <= k < sector_count + 1 && sectors@[k] == j by {
                    if j == i {
                        assert(sectors@[sector_count as int] == j);
                    } else {
                        let k = choose|k: int| 0 <= k < sector_count && prev[k] == j;
                        assert(sectors@[k] == j);
                    }
                }
                sector_count = sector_count + 1;
            }
            current_address = current_address + sector_size;
            i = i + 1;
            if current_address > range_end_bytes {
                passed = true;
            }
        }
        proof {
            assert forall|j: int|
                0 <= j < 12 && f4_sector_overlaps(
                    j,
                    start_bytes as int,
                    range_end_bytes as int,
                ) implies exists|k: int| 0 <= k < sector_count && sectors@[k] == j by {
                if j >= i {
                    lemma_f4_sector_start_monotonic(i as nat, j as nat);
                }
            }
        }
        Some(sector_count)
    }

    /// Returns the expected IDR value for this STM32 family.
    ///
    /// Returns:
    /// - `Some(IDR_AHB_AP_CORTEX_M4)`: If this is an STM32F4 family MCU.
    /// - `None`: If this is not an STM32F4 family MCU.
    pub fn expected_idr(&self) -> (r: Option<Idr>)
        ensures
            r == if self.family() == StmFamily::F4 {
                Some(Idr(IDR_AHB_AP_CORTEX_M4))
            } else {
                None
            },
    {
        if self.is_stm32f4() {
            Some(Idr::from_u32(IDR_AHB_AP_CORTEX_M4))
        } else {
            None
        }
    }
}

/// How a flash status register value is displayed.
pub open spec fn sr_display(v: u32) -> Seq<char> {
    hex_word_chars(v)
}

impl Stm32F4FlashSr {
    /// The register value as `0x` and eight upper-case hexadecimal digits.
    pub fn display_string(&self) -> (r: String)
        ensures
            r@ == sr_display(self.0),
    {
        let mut s = String::new();
        push_hex_word(&mut s, self.0);
        assert(s@ =~= sr_display(self.0));
        s
    }
}

impl Stm32G0FlashSr {
    /// The register value as `0x` and eight upper-case hexadecimal digits.
    pub fn display_string(&self) -> (r: String)
        ensures
            r@ == sr_display(self.0),
    {
        let mut s = String::new();
        push_hex_word(&mut s, self.0);
        assert(s@ =~= sr_display(self.0));
        s
    }
}

/// How a device ID is displayed: its line name, or in the alternate form
/// the raw value, line and revision.
pub open spec fn device_id_display(raw: u32, alternate: bool) -> Seq<char> {
    let line = stm_line_of_dev(stm_dev_id(raw));
    if alternate {
        "STM32 Device ID: "@ + hex_word_chars(raw) + " ("@ + stm_line_name(line) + " "@
            + stm_revision_name(line, stm_revision(raw)) + ")"@
    } else {
        stm_line_name(line)
    }
}

impl StmDeviceId {
    /// The device ID as text: the line name, or with `alternate` the raw
    /// value, line and revision.
    pub fn display_string(&self, alternate: bool) -> (r: String)
        ensures
            r@ == device_id_display(self.raw, alternate),
    {
        let mut s = String::new();
        if alternate {
            push_str(&mut s, "STM32 Device ID: ");
            push_hex_word(&mut s, self.raw);
            push_str(&mut s, " (");
            push_str(&mut s, self.line().name());
            push_str(&mut s, " ");
            push_str(&mut s, self.revision_str());
            push_str(&mut s, ")");
        } else {
            push_str(&mut s, self.line().name());
        }
        assert(s@ =~= device_id_display(self.raw, alternate));
        s
    }
}

/// How a unique ID is displayed: the 96 bits in hexadecimal, most
/// significant word first, then lot, wafer and the X/Y co-ordinates.
pub open spec fn uid_display(uid: Seq<u32>) -> Seq<char> {
    "UID[95:0]: 0x"@ + hex8_chars(uid[2]) + hex8_chars(uid[1]) + hex8_chars(uid[0]) + " Lot: "@
        + Seq::new(7, |i: int| lot_char(stm_lot(uid)[i])) + " Wafer: "@ + hex_byte_chars(
        le_byte(uid[1], 0),
    ) + " X/Y: "@ + decimal_chars((uid[0] & 0xFFFF) as nat) + "/"@ + decimal_chars(
        ((uid[0] >> 16u32) & 0xFFFF) as nat,
    )
}

impl StmUniqueId {
    /// The unique ID as text.
    pub fn display_string(&self) -> (r: String)
        ensures
            r@ == uid_display(self.uid@),
    {
        let mut s = String::new();
        push_str(&mut s, "UID[95:0]: 0x");
        push_hex8(&mut s, self.uid[2]);
        push_hex8(&mut s, self.uid[1]);
        push_hex8(&mut s, self.uid[0]);
        push_str(&mut s, " Lot: ");
        let lot = self.lot_str();
        push_str(&mut s, lot.as_str());
        push_str(&mut s, " Wafer: ");
        let wafer = self.wafer_str();
        push_str(&mut s, wafer.as_str());
        push_str(&mut s, " X/Y: ");
        push_decimal(&mut s, self.x() as u32);
        push_str(&mut s, "/");
        push_decimal(&mut s, self.y() as u32);
        assert(s@ =~= uid_display(self.uid@));
        s
    }
}

/// How a flash size is displayed.
pub open spec fn flash_size_display(raw: u16) -> Seq<char> {
    "Flash Size: "@ + decimal_chars(raw as nat) + " KB"@
}

impl StmFlashSize {
    /// The flash size as text: `Flash Size: <n> KB`.
    pub fn display_string(&self) -> (r: String)
        ensures
            r@ == flash_size_display(self.raw),
    {
        let mut s = String::new();
        push_str(&mut s, "Flash Size: ");
        push_decimal(&mut s, self.size_kb());
        push_str(&mut s, " KB");
        assert(s@ =~= flash_size_display(self.raw));
        s
    }
}

/// How STM32 device details are displayed: the device ID, and in the
/// alternate form also the flash size and the unique ID, when known.
pub open spec fn stm_details_display(d: StmDetails, alternate: bool) -> Seq<char> {
    if alternate {
        device_id_display(d.mcu.raw, true) + match d.flash_size {
            Some(f) => " "@ + decimal_chars(f.raw as nat) + " KB"@,
            None => " Flash Size: unknown "@,
        } + match d.uid {
            Some(u) => " "@ + uid_display(u.uid@),
            None => " UID: unknown "@,
        }
    } else {
        device_id_display(d.mcu.raw, false)
    }
}

impl StmDetails {
    /// The device details as text (see `stm_details_display`).
    pub fn display_string(&self, alternate: bool) -> (r: String)
        ensures
            r@ == stm_details_display(*self, alternate),
    {
        let mut s = self.mcu.display_string(alternate);
        if alternate {
            match self.flash_size {
                Some(flash_size) => {
                    push_str(&mut s, " ");
                    push_decimal(&mut s, flash_size.size_kb());
                    push_str(&mut s, " KB");
                },
                None => {
                    push_str(&mut s, " Flash Size: unknown ");
                },
            }
            match self.uid {
                Some(uid) => {
                    push_str(&mut s, " ");
                    let u = uid.display_string();
                    push_str(&mut s, u.as_str());
                },
                None => {
                    push_str(&mut s, " UID: unknown ");
                },
            }
        }
        assert(s@ =~= stm_details_display(*self, alternate));
        s
    }
}

} // verus!
