//! STM32F429 RCC (reset and clock control) utilities.
//!
//! Constants and helper functions for the RCC peripheral: per-port GPIO
//! clock gating, the power and SYSCFG interface clocks, the main PLL
//! configuration for a 180 MHz system clock, and the MCO1 clock output.
//!
//! Reference: STM32F429 reference manual, RCC register section.

use vstd::prelude::*;

verus! {

use crate::bitfield::{
    spec_bit,
    spec_field,
    spec_mask_fits,
    spec_mask_n_bits,
    spec_set_bit,
    lemma_set_field_preserves_field,
};
use crate::reg_mcu_stm32f429zi::{
    GPIOA_BASE,
    GPIOB_BASE,
    GPIOC_BASE,
    GPIOD_BASE,
    GPIOE_BASE,
    GPIOF_BASE,
    GPIOG_BASE,
    GPIOH_BASE,
    GPIOI_BASE,
    GPIOJ_BASE,
    GPIOK_BASE,
    RCC_BASE,
};
use crate::reg_space::RegisterSpace;
use crate::reg_utils::{reg_set_bit, reg_set_bits, reg_wait_bit, reg_wait_bits};

// RCC register offsets, relative to RCC_BASE.
/// Clock control register.
pub const RCC_CR: u32 = 0x00;

/// PLL configuration register.
pub const RCC_PLLCFGR: u32 = 0x04;

/// Clock configuration register.
pub const RCC_CFGR: u32 = 0x08;

/// Clock interrupt register.
pub const RCC_CIR: u32 = 0x0C;

/// AHB1 peripheral reset register.
pub const RCC_AHB1RSTR: u32 = 0x10;

/// AHB2 peripheral reset register.
pub const RCC_AHB2RSTR: u32 = 0x14;

/// AHB3 peripheral reset register.
pub const RCC_AHB3RSTR: u32 = 0x18;

/// APB1 peripheral reset register.
pub const RCC_APB1RSTR: u32 = 0x20;

/// APB2 peripheral reset register.
pub const RCC_APB2RSTR: u32 = 0x24;

/// AHB1 peripheral clock enable register.
pub const RCC_AHB1ENR: u32 = 0x30;

/// AHB2 peripheral clock enable register.
pub const RCC_AHB2ENR: u32 = 0x34;

/// AHB3 peripheral clock enable register.
pub const RCC_AHB3ENR: u32 = 0x38;

/// APB1 peripheral clock enable register.
pub const RCC_APB1ENR: u32 = 0x40;

/// APB2 peripheral clock enable register.
pub const RCC_APB2ENR: u32 = 0x44;

/// AHB1 low power clock enable register.
pub const RCC_AHB1LPENR: u32 = 0x50;

/// AHB2 low power clock enable register.
pub const RCC_AHB2LPENR: u32 = 0x54;

/// AHB3 low power clock enable register.
pub const RCC_AHB3LPENR: u32 = 0x58;

/// APB1 low power clock enable register.
pub const RCC_APB1LPENR: u32 = 0x60;

/// APB2 low power clock enable register.
pub const RCC_APB2LPENR: u32 = 0x64;

/// Backup domain control register.
pub const RCC_BDCR: u32 = 0x70;

/// Control/status register.
pub const RCC_CSR: u32 = 0x74;

/// Spread spectrum clock generation register.
pub const RCC_SSCGR: u32 = 0x80;

/// PLLI2S configuration register.
pub const RCC_PLLI2SCFGR: u32 = 0x84;

/// The AHB1ENR clock-enable bit for a GPIO port base address, or `None`
/// for an address that is no GPIO port.
pub open spec fn spec_gpio_clock_bit(port: u32) -> Option<u32> {
    if port == GPIOA_BASE {
        Some(0u32)
    } else if port == GPIOB_BASE {
        Some(1u32)
    } else if port == GPIOC_BASE {
        Some(2u32)
    } else if port == GPIOD_BASE {
        Some(3u32)
    } else if port == GPIOE_BASE {
        Some(4u32)
    } else if port == GPIOF_BASE {
        Some(5u32)
    } else if port == GPIOG_BASE {
        Some(6u32)
    } else if port == GPIOH_BASE {
        Some(7u32)
    } else if port == GPIOI_BASE {
        Some(8u32)
    } else if port == GPIOJ_BASE {
        Some(9u32)
    } else if port == GPIOK_BASE {
        Some(10u32)
    } else {
        None
    }
}

/// Enable the clock of one GPIO port: the port's bit of AHB1ENR is set and
/// every other bit keeps its value.  An address that is no GPIO port base
/// leaves the space unchanged.  This must run before any pin of the port
/// is used.
pub fn rcc_enable_gpio_clock(mem: &mut RegisterSpace, port: u32)
    requires
        old(mem).wf(),
    ensures
        final(mem).wf(),
        spec_gpio_clock_bit(port) matches Some(b) ==> final(mem).spec_read(
            (RCC_BASE + RCC_AHB1ENR) as u32,
        ) == spec_set_bit(old(mem).spec_read((RCC_BASE + RCC_AHB1ENR) as u32), b, true),
        spec_gpio_clock_bit(port) matches Some(b) ==> spec_bit(
            final(mem).spec_read((RCC_BASE + RCC_AHB1ENR) as u32),
            b,
        ),
        spec_gpio_clock_bit(port) is Some ==> forall|a: u32|
            a != (RCC_BASE + RCC_AHB1ENR) as u32 ==> final(mem).spec_read(a) == old(
                mem,
            ).spec_read(a),
        spec_gpio_clock_bit(port) is None ==> forall|a: u32|
            final(mem).spec_read(a) == old(mem).spec_read(a),
{
    // AHB1ENR gates the clock of every GPIO port on AHB1.
    let rcc_ahb1enr_addr = RCC_BASE + RCC_AHB1ENR;

    match port {
        GPIOA_BASE => {
            reg_set_bit(mem, rcc_ahb1enr_addr, 0, true);
        },
        GPIOB_BASE => {
            reg_set_bit(mem, rcc_ahb1enr_addr, 1, true);
        },
        GPIOC_BASE => {
            reg_set_bit(mem, rcc_ahb1enr_addr, 2, true);
        },
        GPIOD_BASE => {
            reg_set_bit(mem, rcc_ahb1enr_addr, 3, true);
        },
        GPIOE_BASE => {
            reg_set_bit(mem, rcc_ahb1enr_addr, 4, true);
        },
        GPIOF_BASE => {
            reg_set_bit(mem, rcc_ahb1enr_addr, 5, true);
        },
        GPIOG_BASE => {
            reg_set_bit(mem, rcc_ahb1enr_addr, 6, true);
        },
        GPIOH_BASE => {
            reg_set_bit(mem, rcc_ahb1enr_addr, 7, true);
        },
        GPIOI_BASE => {
            reg_set_bit(mem, rcc_ahb1enr_addr, 8, true);
        },
        GPIOJ_BASE => {
            reg_set_bit(mem, rcc_ahb1enr_addr, 9, true);
        },
        GPIOK_BASE => {
            reg_set_bit(mem, rcc_ahb1enr_addr, 10, true);
        },
        _ => {
            // Unknown port: nothing to enable.
        },
    }
}

/// Enable the power interface clock: bit 28 of APB1ENR is set and every
/// other bit keeps its value.
pub fn rcc_enable_power_clock(mem: &mut RegisterSpace)
    requires
        old(mem).wf(),
    ensures
        final(mem).wf(),
        final(mem).spec_read((RCC_BASE + RCC_APB1ENR) as u32) == spec_set_bit(
            old(mem).spec_read((RCC_BASE + RCC_APB1ENR) as u32),
            28,
            true,
        ),
        spec_bit(final(mem).spec_read((RCC_BASE + RCC_APB1ENR) as u32), 28),
        forall|a: u32|
            a != (RCC_BASE + RCC_APB1ENR) as u32 ==> final(mem).spec_read(a) == old(
                mem,
            ).spec_read(a),
{
    let rcc_apb1enr_addr = RCC_BASE + RCC_APB1ENR;
    reg_set_bit(mem, rcc_apb1enr_addr, 28, true);
}

/// Enable the system configuration controller clock: bit 14 of APB2ENR is
/// set and every other bit keeps its value.
pub fn rcc_enable_syscfg_clock(mem: &mut RegisterSpace)
    requires
        old(mem).wf(),
    ensures
        final(mem).wf(),
        final(mem).spec_read((RCC_BASE + RCC_APB2ENR) as u32) == spec_set_bit(
            old(mem).spec_read((RCC_BASE + RCC_APB2ENR) as u32),
            14,
            true,
        ),
        spec_bit(final(mem).spec_read((RCC_BASE + RCC_APB2ENR) as u32), 14),
        forall|a: u32|
            a != (RCC_BASE + RCC_APB2ENR) as u32 ==> final(mem).spec_read(a) == old(
                mem,
            ).spec_read(a),
{
    let rcc_apb2enr_addr = RCC_BASE + RCC_APB2ENR;
    reg_set_bit(mem, rcc_apb2enr_addr, 14, true);
}

/// The literal field values and masks that the PLL and MCO sequences
/// write, shown to fit their field widths.
proof fn lemma_rcc_field_constants()
    by (bit_vector)
    ensures
        8u32 & !spec_mask_n_bits(6) == 0,
        180u32 & !spec_mask_n_bits(9) == 0,
        0u32 & !spec_mask_n_bits(2) == 0,
        0u32 & !spec_mask_n_bits(4) == 0,
        5u32 & !spec_mask_n_bits(3) == 0,
        4u32 & !spec_mask_n_bits(3) == 0,
        2u32 & !spec_mask_n_bits(2) == 0,
        spec_mask_fits(0x3, 2),
{
}

/// Configure the main PLL for a 180 MHz system clock (SYSCLK).
///
/// Afterwards, in PLLCFGR the input divider PLLM (bits 0..=5) is 8, the
/// VCO multiplier PLLN (bits 6..=14) is 180 and PLLP (bits 16..=17) is 0
/// (divide by 2); in CFGR the AHB prescaler (bits 4..=7) is 0, the APB1
/// prescaler (bits 10..=12) is 5 (HCLK/4), the APB2 prescaler (bits
/// 13..=15) is 4 (HCLK/2) and the SYSCLK switch SW (bits 0..=1) selects
/// the PLL (2); and in CR the PLL is switched on (bit 24).  Every bit
/// outside those fields, and every other register, keeps its value.
///
/// The sequence polls PLLRDY and the SYSCLK switch status with a bounded
/// budget; on hardware that has not reported ready in time it simply
/// proceeds, as the caller cannot observe the poll from the register state.
pub fn rcc_configure_pll_180mhz(mem: &mut RegisterSpace)
    requires
        old(mem).wf(),
    ensures
        final(mem).wf(),
        spec_field(final(mem).spec_read((RCC_BASE + RCC_PLLCFGR) as u32), 0, 6) == 8,
        spec_field(final(mem).spec_read((RCC_BASE + RCC_PLLCFGR) as u32), 6, 9) == 180,
        spec_field(final(mem).spec_read((RCC_BASE + RCC_PLLCFGR) as u32), 16, 2) == 0,
        forall|i: u32|
            i < 32 && !(i < 15 || 16 <= i < 18) ==> #[trigger] spec_bit(
                final(mem).spec_read((RCC_BASE + RCC_PLLCFGR) as u32),
                i,
            ) == spec_bit(old(mem).spec_read((RCC_BASE + RCC_PLLCFGR) as u32), i),
        spec_field(final(mem).spec_read((RCC_BASE + RCC_CFGR) as u32), 4, 4) == 0,
        spec_field(final(mem).spec_read((RCC_BASE + RCC_CFGR) as u32), 10, 3) == 5,
        spec_field(final(mem).spec_read((RCC_BASE + RCC_CFGR) as u32), 13, 3) == 4,
        spec_field(final(mem).spec_read((RCC_BASE + RCC_CFGR) as u32), 0, 2) == 2,
        forall|i: u32|
            i < 32 && !(i < 2 || 4 <= i < 8 || 10 <= i < 16) ==> #[trigger] spec_bit(
                final(mem).spec_read((RCC_BASE + RCC_CFGR) as u32),
                i,
            ) == spec_bit(old(mem).spec_read((RCC_BASE + RCC_CFGR) as u32), i),
        spec_bit(final(mem).spec_read((RCC_BASE + RCC_CR) as u32), 24),
        forall|i: u32|
            i < 32 && i != 24 ==> #[trigger] spec_bit(
                final(mem).spec_read((RCC_BASE + RCC_CR) as u32),
                i,
            ) == spec_bit(old(mem).spec_read((RCC_BASE + RCC_CR) as u32), i),
        forall|a: u32|
            a != (RCC_BASE + RCC_PLLCFGR) as u32 && a != (RCC_BASE + RCC_CFGR) as u32 && a != (
            RCC_BASE + RCC_CR) as u32 ==> final(mem).spec_read(a) == old(mem).spec_read(a),
{
    proof {
        lemma_rcc_field_constants();
    }
    // Set PLLM (bits 0..=5) to 8 (input divider).
    let pllcfgr_addr = RCC_BASE + RCC_PLLCFGR;
    reg_set_bits(mem, pllcfgr_addr, 8, 0, 6);
    let ghost pll_1 = mem.spec_read((RCC_BASE + RCC_PLLCFGR) as u32);

    // Set PLLN (bits 6..=14) to 180 (VCO multiplier).
    reg_set_bits(mem, pllcfgr_addr, 180, 6, 9);
    let ghost pll_2 = mem.spec_read((RCC_BASE + RCC_PLLCFGR) as u32);

    // Set PLLP (bits 16..=17) to 0 (divide by 2, main system clock output).
    reg_set_bits(mem, pllcfgr_addr, 0, 16, 2);
    proof {
        lemma_set_field_preserves_field(pll_1, 180, 6, 9, 0, 6);
        lemma_set_field_preserves_field(pll_2, 0, 16, 2, 0, 6);
        lemma_set_field_preserves_field(pll_2, 0, 16, 2, 6, 9);
    }

    // Configure the AHB and APBx prescalers.
    let cfgr_addr = RCC_BASE + RCC_CFGR;

    // Set the AHB prescaler (bits 4..=7) to 0 (SYSCLK / 1).
    reg_set_bits(mem, cfgr_addr, 0, 4, 4);
    let ghost cfg_1 = mem.spec_read((RCC_BASE + RCC_CFGR) as u32);

    // Set the APB1 prescaler (bits 10..=12) to 0b101 (HCLK / 4).
    reg_set_bits(mem, cfgr_addr, 0b101, 10, 3);
    let ghost cfg_2 = mem.spec_read((RCC_BASE + RCC_CFGR) as u32);

    // Set the APB2 prescaler (bits 13..=15) to 0b100 (HCLK / 2).
    reg_set_bits(mem, cfgr_addr, 0b100, 13, 3);
    let ghost cfg_3 = mem.spec_read((RCC_BASE + RCC_CFGR) as u32);

    // Turn on the main PLL (set PLLON, bit 24).
    let cr_addr = RCC_BASE + RCC_CR;
    reg_set_bit(mem, cr_addr, 24, true);

    // Wait until the PLL is ready (PLLRDY, bit 25), with a bounded budget.
    let _ = reg_wait_bit(mem, cr_addr, 25, true, 100_000);

    // Switch the SYSCLK source to the PLL (SW bits 0..=1 = 0b10).
    reg_set_bits(mem, cfgr_addr, 0b10, 0, 2);
    proof {
        lemma_set_field_preserves_field(cfg_1, 0b101, 10, 3, 4, 4);
        lemma_set_field_preserves_field(cfg_2, 0b100, 13, 3, 4, 4);
        lemma_set_field_preserves_field(cfg_2, 0b100, 13, 3, 10, 3);
        lemma_set_field_preserves_field(cfg_3, 0b10, 0, 2, 4, 4);
        lemma_set_field_preserves_field(cfg_3, 0b10, 0, 2, 10, 3);
        lemma_set_field_preserves_field(cfg_3, 0b10, 0, 2, 13, 3);
    }

    // Wait until the SYSCLK source reads as the PLL (SWS bits 2..=3 =
    // 0b10), with a bounded budget.  A timeout cannot be re-driven from
    // here; the caller sees the register state either way.
    let _ = reg_wait_bits(
        mem,
        cfgr_addr,
        0b10,  // Expected value
        0x3,  // Mask for 2 bits
        2,  // Bit position (SWS starts at bit 2)
        100_000,  // Attempt budget
    );
}

/// MCO1 clock source selection for output on PA8: HSI, LSE, HSE or PLL.
#[derive(Copy, Clone, Debug, Eq, PartialEq, Structural)]
pub enum McoSource {
    /// High-speed internal clock - 0b00.
    HSI,
    /// Low-speed external clock - 0b01.
    LSE,
    /// High-speed external clock - 0b10.
    HSE,
    /// PLL clock - 0b11.
    PLL,
}

impl McoSource {
    /// The 2-bit MCO1 source encoding.
    pub open spec fn spec_value(self) -> u32 {
        match self {
            McoSource::HSI => 0,
            McoSource::LSE => 1,
            McoSource::HSE => 2,
            McoSource::PLL => 3,
        }
    }

    /// The 2-bit MCO1 source encoding.
    #[verifier::when_used_as_spec(spec_value)]
    pub fn value(self) -> (v: u32)
        ensures
            v == self.spec_value(),
            v & !spec_mask_n_bits(2) == 0,
    {
        let v: u32 = match self {
            McoSource::HSI => 0,
            McoSource::LSE => 1,
            McoSource::HSE => 2,
            McoSource::PLL => 3,
        };
        proof {
            assert(v & !spec_mask_n_bits(2) == 0) by (bit_vector)
                requires
                    v < 4,
            ;
        }
        v
    }
}

/// MCO prescaler division factors.
#[derive(Copy, Clone, Debug, Eq, PartialEq, Structural)]
pub enum Div {
    /// No division - 0b000.
    Div1,
    /// Divide by 2 - 0b100.
    Div2,
    /// Divide by 3 - 0b101.
    Div3,
    /// Divide by 4 - 0b110.
    Div4,
    /// Divide by 5 - 0b111.
    Div5,
}

impl Div {
    /// The 3-bit MCO1 prescaler encoding.
    pub open spec fn spec_value(self) -> u32 {
        match self {
            Div::Div1 => 0,
            Div::Div2 => 4,
            Div::Div3 => 5,
            Div::Div4 => 6,
            Div::Div5 => 7,
        }
    }

    /// The 3-bit MCO1 prescaler encoding.
    #[verifier::when_used_as_spec(spec_value)]
    pub fn value(self) -> (v: u32)
        ensures
            v == self.spec_value(),
            v & !spec_mask_n_bits(3) == 0,
    {
        let v: u32 = match self {
            Div::Div1 => 0,
            Div::Div2 => 4,
            Div::Div3 => 5,
            Div::Div4 => 6,
            Div::Div5 => 7,
        };
        proof {
            assert(v & !spec_mask_n_bits(3) == 0) by (bit_vector)
                requires
                    v < 8,
            ;
        }
        v
    }
}

/// Configure and enable the MCO1 output on PA8: in CFGR the MCO1 source
/// field (bits 21..=22) takes the source's encoding and the MCO1 prescaler
/// field (bits 24..=26) takes the prescaler's encoding; every other bit,
/// and every other register, keeps its value.  PA8 must separately be put
/// in alternate function 0.
pub fn rcc_enable_mco1_output(mem: &mut RegisterSpace, mco_source: McoSource, prescaler: Div)
    requires
        old(mem).wf(),
    ensures
        final(mem).wf(),
        spec_field(final(mem).spec_read((RCC_BASE + RCC_CFGR) as u32), 21, 2)
            == mco_source.spec_value(),
        spec_field(final(mem).spec_read((RCC_BASE + RCC_CFGR) as u32), 24, 3)
            == prescaler.spec_value(),
        forall|i: u32|
            i < 32 && !(21 <= i < 23 || 24 <= i < 27) ==> #[trigger] spec_bit(
                final(mem).spec_read((RCC_BASE + RCC_CFGR) as u32),
                i,
            ) == spec_bit(old(mem).spec_read((RCC_BASE + RCC_CFGR) as u32), i),
        forall|a: u32|
            a != (RCC_BASE + RCC_CFGR) as u32 ==> final(mem).spec_read(a) == old(mem).spec_read(a),
{
    let rcc_cfgr = RCC_BASE + RCC_CFGR;
    // Set the MCO1 source (bits 22:21).
    reg_set_bits(mem, rcc_cfgr, mco_source.value(), 21, 2);
    let ghost cfg_1 = mem.spec_read((RCC_BASE + RCC_CFGR) as u32);
    // Set the MCO1 prescaler (bits 26:24).
    reg_set_bits(mem, rcc_cfgr, prescaler.value(), 24, 3);
    proof {
        lemma_set_field_preserves_field(cfg_1, prescaler.spec_value(), 24, 3, 21, 2);
    }
}

} // verus!
