//! System clock bring-up: flash wait states, regulator overdrive, the
//! 180 MHz PLL, and the PA8 clock-output pin.

use vstd::prelude::*;

verus! {

use crate::bitfield::{
    spec_bit,
    spec_field,
    spec_set_bit,
    spec_set_field,
    lemma_set_bit_preserves_field,
};
use crate::flash::{FLASH_ACR, flash_set_wait_states};
use crate::gpio::{
    GPIO_PIN_8,
    GPIOX_AFRH,
    GPIOX_OSPEEDR,
    PinSpeed,
    gpio_set_af,
    gpio_set_mode_alternate,
    gpio_set_speed,
};
use crate::pwr::{PWR_CR, pwr_enable_overdrive, pwr_set_regulator_voltage_scale};
use crate::rcc::{
    Div,
    McoSource,
    RCC_AHB1ENR,
    RCC_APB1ENR,
    RCC_CFGR,
    RCC_CR,
    RCC_PLLCFGR,
    rcc_configure_pll_180mhz,
    rcc_enable_gpio_clock,
    rcc_enable_mco1_output,
    rcc_enable_power_clock,
};
use crate::reg_mcu_stm32f429zi::{FLASH_INTERFACE_BASE, GPIOA_BASE, PWR_BASE, RCC_BASE};
use crate::reg_space::RegisterSpace;

/// The masked literal arguments that the clock bring-up hands to the
/// flash and power helpers keep their value.
proof fn lemma_clock_constants()
    by (bit_vector)
    ensures
        5u32 & 0x0F == 5,
        3u32 & 0x03 == 3,
{
}

/// Bring the system clock to 180 MHz.
///
/// Afterwards: the flash LATENCY field (bits 3:0 of ACR) holds 5 wait
/// states; the power interface clock is on (bit 28 of APB1ENR); in PWR_CR
/// the regulator voltage scale field (bits 15:14) holds 3 and the
/// overdrive bits ODEN and ODSWEN (16 and 17) are set; and the PLL is
/// configured and selected as in [`rcc_configure_pll_180mhz`]: PLLM = 8,
/// PLLN = 180, PLLP = /2 in PLLCFGR, the AHB/APB1/APB2 prescalers and the
/// SYSCLK switch in CFGR, and PLLON (bit 24 of CR).  Every bit outside
/// those fields, and every other register, keeps its value.
pub fn system_clock_setup(mem: &mut RegisterSpace)
    requires
        old(mem).wf(),
    ensures
        final(mem).wf(),
        spec_field(final(mem).spec_read((FLASH_INTERFACE_BASE + FLASH_ACR) as u32), 0, 4) == 5,
        forall|i: u32|
            4 <= i < 32 ==> #[trigger] spec_bit(
                final(mem).spec_read((FLASH_INTERFACE_BASE + FLASH_ACR) as u32),
                i,
            ) == spec_bit(old(mem).spec_read((FLASH_INTERFACE_BASE + FLASH_ACR) as u32), i),
        final(mem).spec_read((RCC_BASE + RCC_APB1ENR) as u32) == spec_set_bit(
            old(mem).spec_read((RCC_BASE + RCC_APB1ENR) as u32),
            28,
            true,
        ),
        spec_field(final(mem).spec_read((PWR_BASE + PWR_CR) as u32), 14, 2) == 3,
        spec_bit(final(mem).spec_read((PWR_BASE + PWR_CR) as u32), 16),
        spec_bit(final(mem).spec_read((PWR_BASE + PWR_CR) as u32), 17),
        forall|i: u32|
            i < 32 && !(14 <= i < 18) ==> #[trigger] spec_bit(
                final(mem).spec_read((PWR_BASE + PWR_CR) as u32),
                i,
            ) == spec_bit(old(mem).spec_read((PWR_BASE + PWR_CR) as u32), i),
        spec_field(final(mem).spec_read((RCC_BASE + RCC_PLLCFGR) as u32), 0, 6) == 8,
        spec_field(final(mem).spec_read((RCC_BASE + RCC_PLLCFGR) as u32), 6, 9) == 180,
        spec_field(final(mem).spec_read((RCC_BASE + RCC_PLLCFGR) as u32), 16, 2) == 0,
        spec_field(final(mem).spec_read((RCC_BASE + RCC_CFGR) as u32), 4, 4) == 0,
        spec_field(final(mem).spec_read((RCC_BASE + RCC_CFGR) as u32), 10, 3) == 5,
        spec_field(final(mem).spec_read((RCC_BASE + RCC_CFGR) as u32), 13, 3) == 4,
        spec_field(final(mem).spec_read((RCC_BASE + RCC_CFGR) as u32), 0, 2) == 2,
        spec_bit(final(mem).spec_read((RCC_BASE + RCC_CR) as u32), 24),
        forall|a: u32|
            a != (FLASH_INTERFACE_BASE + FLASH_ACR) as u32 && a != (RCC_BASE + RCC_APB1ENR) as u32
                && a != (PWR_BASE + PWR_CR) as u32 && a != (RCC_BASE + RCC_PLLCFGR) as u32 && a != (
            RCC_BASE + RCC_CFGR) as u32 && a != (RCC_BASE + RCC_CR) as u32 ==> final(
                mem).spec_read(a) == old(mem).spec_read(a),
{
    proof {
        lemma_clock_constants();
    }
    // Program the flash wait states.
    flash_set_wait_states(mem, 5);

    // Overdrive settings.
    rcc_enable_power_clock(mem);
    pwr_set_regulator_voltage_scale(mem, 3);
    let ghost pwr_cr_scaled = mem.spec_read((PWR_BASE + PWR_CR) as u32);
    pwr_enable_overdrive(mem);
    proof {
        lemma_set_bit_preserves_field(pwr_cr_scaled, 16, true, 14, 2);
        lemma_set_bit_preserves_field(spec_set_bit(pwr_cr_scaled, 16, true), 17, true, 14, 2);
    }

    // Set up the PLL.
    rcc_configure_pll_180mhz(mem);
}

/// Output the system clock on PA8 (MCO1).
///
/// Afterwards: the GPIOA clock is on (bit 0 of AHB1ENR); PA8 is in
/// alternate function mode (its MODER field reads 2) at very high speed
/// (its OSPEEDR field reads 3) with alternate function 0 selected (its
/// AFRH field reads 0); and in CFGR the MCO1 source field (bits 22:21)
/// selects the PLL (3) with the prescaler field (bits 26:24) dividing by 4
/// (6).  Every bit outside those fields, and every other register, keeps
/// its value.
pub fn system_clock_output_pa8(mem: &mut RegisterSpace)
    requires
        old(mem).wf(),
    ensures
        final(mem).wf(),
        final(mem).spec_read((RCC_BASE + RCC_AHB1ENR) as u32) == spec_set_bit(
            old(mem).spec_read((RCC_BASE + RCC_AHB1ENR) as u32),
            0,
            true,
        ),
        final(mem).spec_read(GPIOA_BASE) == spec_set_field(
            old(mem).spec_read(GPIOA_BASE),
            2,
            16,
            2,
        ),
        final(mem).spec_read((GPIOA_BASE + GPIOX_OSPEEDR) as u32) == spec_set_field(
            old(mem).spec_read((GPIOA_BASE + GPIOX_OSPEEDR) as u32),
            3,
            16,
            2,
        ),
        final(mem).spec_read((GPIOA_BASE + GPIOX_AFRH) as u32) == spec_set_field(
            old(mem).spec_read((GPIOA_BASE + GPIOX_AFRH) as u32),
            0,
            0,
            4,
        ),
        spec_field(final(mem).spec_read((RCC_BASE + RCC_CFGR) as u32), 21, 2) == 3,
        spec_field(final(mem).spec_read((RCC_BASE + RCC_CFGR) as u32), 24, 3) == 6,
        forall|i: u32|
            i < 32 && !(21 <= i < 23 || 24 <= i < 27) ==> #[trigger] spec_bit(
                final(mem).spec_read((RCC_BASE + RCC_CFGR) as u32),
                i,
            ) == spec_bit(old(mem).spec_read((RCC_BASE + RCC_CFGR) as u32), i),
        forall|a: u32|
            a != (RCC_BASE + RCC_AHB1ENR) as u32 && a != GPIOA_BASE && a != (GPIOA_BASE
                + GPIOX_OSPEEDR) as u32 && a != (GPIOA_BASE + GPIOX_AFRH) as u32 && a != (RCC_BASE
                + RCC_CFGR) as u32 ==> final(mem).spec_read(a) == old(mem).spec_read(a),
{
    // Turn on the clock for the GPIO port.
    rcc_enable_gpio_clock(mem, GPIOA_BASE);

    // Configure PA8 as alternate function (AF) for the clock output.
    gpio_set_mode_alternate(mem, GPIOA_BASE, GPIO_PIN_8);

    // Set the output speed to very high.
    gpio_set_speed(mem, GPIOA_BASE, GPIO_PIN_8, PinSpeed::VeryHigh);

    // Select AF0 (MCO1) for PA8; see the device's alternate function map.
    gpio_set_af(mem, GPIOA_BASE, GPIO_PIN_8, 0b0000);

    // Enable the clock output.
    rcc_enable_mco1_output(mem, McoSource::PLL, Div::Div4);
}

} // verus!
