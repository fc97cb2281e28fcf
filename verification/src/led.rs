//! The user green LED (port G, pin 13): initialization and on/off/toggle.

use vstd::prelude::*;

verus! {

use crate::bitfield::{spec_bit, spec_set_bit, spec_set_field};
use crate::gpio::{
    GPIO_PIN_13,
    GPIOX_BSRR,
    GPIOX_ODR,
    GPIOX_OTYPER,
    GpioType,
    PinState,
    gpio_set_mode_output,
    gpio_set_pin_state,
    gpio_set_type,
};
use crate::rcc::{RCC_AHB1ENR, rcc_enable_gpio_clock};
use crate::reg_mcu_stm32f429zi::{GPIOG_BASE, RCC_BASE};
use crate::reg_space::RegisterSpace;

/// Initialize the user green LED pin (port G, pin 13): enable the GPIOG
/// clock (bit 6 of AHB1ENR), set the pin to output mode (its MODER field
/// reads 1) and to push-pull drive (its OTYPER bit reads 0).  Every bit
/// outside those fields, and every other register, keeps its value.
pub fn led_init(mem: &mut RegisterSpace)
    requires
        old(mem).wf(),
    ensures
        final(mem).wf(),
        final(mem).spec_read((RCC_BASE + RCC_AHB1ENR) as u32) == spec_set_bit(
            old(mem).spec_read((RCC_BASE + RCC_AHB1ENR) as u32),
            6,
            true,
        ),
        final(mem).spec_read(GPIOG_BASE) == spec_set_field(
            old(mem).spec_read(GPIOG_BASE),
            1,
            26,
            2,
        ),
        final(mem).spec_read((GPIOG_BASE + GPIOX_OTYPER) as u32) == spec_set_field(
            old(mem).spec_read((GPIOG_BASE + GPIOX_OTYPER) as u32),
            0,
            13,
            1,
        ),
        forall|a: u32|
            a != (RCC_BASE + RCC_AHB1ENR) as u32 && a != GPIOG_BASE && a != (GPIOG_BASE
                + GPIOX_OTYPER) as u32 ==> final(mem).spec_read(a) == old(mem).spec_read(a),
{
    // 1. Turn on the clock for the GPIO port.
    rcc_enable_gpio_clock(mem, GPIOG_BASE);

    // 2. Set the pin as an output.
    gpio_set_mode_output(mem, GPIOG_BASE, GPIO_PIN_13);

    // 3. Put the pin in push-pull mode (best for LEDs).
    gpio_set_type(mem, GPIOG_BASE, GPIO_PIN_13, GpioType::PushPull);
}

/// Turn the LED on: the pin's set bit is written to the GPIOG BSRR
/// register; nothing else changes.
pub fn led_on(mem: &mut RegisterSpace)
    requires
        old(mem).wf(),
    ensures
        final(mem).wf(),
        final(mem).spec_read((GPIOG_BASE + GPIOX_BSRR) as u32) == (1u32 << 13),
        forall|a: u32|
            a != (GPIOG_BASE + GPIOX_BSRR) as u32 ==> final(mem).spec_read(a) == old(
                mem,
            ).spec_read(a),
{
    gpio_set_pin_state(mem, GPIOG_BASE, GPIO_PIN_13, PinState::High);
}

/// Turn the LED off: the pin's reset bit is written to the GPIOG BSRR
/// register; nothing else changes.
pub fn led_off(mem: &mut RegisterSpace)
    requires
        old(mem).wf(),
    ensures
        final(mem).wf(),
        final(mem).spec_read((GPIOG_BASE + GPIOX_BSRR) as u32) == (1u32 << 29),
        forall|a: u32|
            a != (GPIOG_BASE + GPIOX_BSRR) as u32 ==> final(mem).spec_read(a) == old(
                mem,
            ).spec_read(a),
{
    gpio_set_pin_state(mem, GPIOG_BASE, GPIO_PIN_13, PinState::Low);
}

/// Toggle the LED: the pin's current output state in ODR selects whether
/// its set bit or its reset bit is written to the GPIOG BSRR register;
/// nothing else changes.
pub fn led_toggle(mem: &mut RegisterSpace)
    requires
        old(mem).wf(),
    ensures
        final(mem).wf(),
        final(mem).spec_read((GPIOG_BASE + GPIOX_BSRR) as u32) == (if spec_bit(
            old(mem).spec_read((GPIOG_BASE + GPIOX_ODR) as u32),
            13,
        ) {
            1u32 << 29
        } else {
            1u32 << 13
        }),
        forall|a: u32|
            a != (GPIOG_BASE + GPIOX_BSRR) as u32 ==> final(mem).spec_read(a) == old(
                mem,
            ).spec_read(a),
{
    gpio_set_pin_state(mem, GPIOG_BASE, GPIO_PIN_13, PinState::Toggle);
}

} // verus!
