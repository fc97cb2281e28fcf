//! STM32F429 GPIO (general purpose input/output) utilities.
//!
//! Constants and helper functions for configuring and controlling GPIO pins:
//! pin numbers, per-pin bitmasks, register offsets, and the mode / output
//! type / speed / alternate-function / pin-state operations, each specified
//! by the exact field it writes in the port's registers.
//!
//! Reference: STM32F429 reference manual, GPIO register section.

use vstd::prelude::*;

verus! {

use crate::bitfield::{spec_bit, spec_field, spec_mask_n_bits, spec_set_field};
use crate::reg_space::RegisterSpace;
use crate::reg_utils::{reg_read_bit, reg_set_bits, reg_set_val};

// GPIO pin numbers (0..15), useful as arguments to the GPIO functions.
pub const GPIO_PIN_0: u32 = 0;

pub const GPIO_PIN_1: u32 = 1;

pub const GPIO_PIN_2: u32 = 2;

pub const GPIO_PIN_3: u32 = 3;

pub const GPIO_PIN_4: u32 = 4;

pub const GPIO_PIN_5: u32 = 5;

pub const GPIO_PIN_6: u32 = 6;

pub const GPIO_PIN_7: u32 = 7;

pub const GPIO_PIN_8: u32 = 8;

pub const GPIO_PIN_9: u32 = 9;

pub const GPIO_PIN_10: u32 = 10;

pub const GPIO_PIN_11: u32 = 11;

pub const GPIO_PIN_12: u32 = 12;

pub const GPIO_PIN_13: u32 = 13;

pub const GPIO_PIN_14: u32 = 14;

pub const GPIO_PIN_15: u32 = 15;

// GPIO pin bitmasks for 16-bit registers (one bit per pin), as used by the
// ODR (output data), IDR (input data) and BSRR (bit set/reset) registers.
pub const GPIO_PIN_0_MASK: u16 = 1;

pub const GPIO_PIN_1_MASK: u16 = 2;

pub const GPIO_PIN_2_MASK: u16 = 4;

pub const GPIO_PIN_3_MASK: u16 = 8;

pub const GPIO_PIN_4_MASK: u16 = 0x10;

pub const GPIO_PIN_5_MASK: u16 = 0x20;

pub const GPIO_PIN_6_MASK: u16 = 0x40;

pub const GPIO_PIN_7_MASK: u16 = 0x80;

pub const GPIO_PIN_8_MASK: u16 = 0x100;

pub const GPIO_PIN_9_MASK: u16 = 0x200;

pub const GPIO_PIN_10_MASK: u16 = 0x400;

pub const GPIO_PIN_11_MASK: u16 = 0x800;

pub const GPIO_PIN_12_MASK: u16 = 0x1000;

pub const GPIO_PIN_13_MASK: u16 = 0x2000;

pub const GPIO_PIN_14_MASK: u16 = 0x4000;

pub const GPIO_PIN_15_MASK: u16 = 0x8000;

// GPIO register offsets, relative to a GPIOx base address.
/// GPIO port mode register.
pub const GPIOX_MODER: u32 = 0x00;

/// GPIO port output type register.
pub const GPIOX_OTYPER: u32 = 0x04;

/// GPIO port output speed register.
pub const GPIOX_OSPEEDR: u32 = 0x08;

/// GPIO port pull-up/pull-down register.
pub const GPIOX_PUPDR: u32 = 0x0C;

/// GPIO port input data register.
pub const GPIOX_IDR: u32 = 0x10;

/// GPIO port output data register.
pub const GPIOX_ODR: u32 = 0x14;

/// GPIO port bit set/reset register.
pub const GPIOX_BSRR: u32 = 0x18;

/// GPIO port configuration lock register.
pub const GPIOX_LCKR: u32 = 0x1C;

/// GPIO alternate function low register.
pub const GPIOX_AFRL: u32 = 0x20;

/// GPIO alternate function high register.
pub const GPIOX_AFRH: u32 = 0x24;

/// A usable GPIO port base address: 4-byte aligned, with room for the whole
/// register block below the top of the address space.
pub open spec fn spec_gpio_port_valid(port: u32) -> bool {
    port % 4 == 0 && port + GPIOX_AFRH <= u32::MAX
}

/// The possible modes of a GPIO pin, as encoded in the MODER register.
#[derive(Copy, Clone, Debug, Eq, PartialEq, Structural)]
pub enum GpioMode {
    /// Input mode (reset state) - 0b00.
    Input,
    /// General purpose output mode - 0b01.
    Output,
    /// Alternate function mode - 0b10.
    Alternate,
    /// Analog mode - 0b11.
    Analog,
}

impl GpioMode {
    /// The 2-bit MODER encoding of this mode.
    pub open spec fn spec_value(self) -> u32 {
        match self {
            GpioMode::Input => 0,
            GpioMode::Output => 1,
            GpioMode::Alternate => 2,
            GpioMode::Analog => 3,
        }
    }

    /// The 2-bit MODER encoding of this mode.
    #[verifier::when_used_as_spec(spec_value)]
    pub fn value(self) -> (v: u32)
        ensures
            v == self.spec_value(),
            v & !spec_mask_n_bits(2) == 0,
    {
        let v: u32 = match self {
            GpioMode::Input => 0,
            GpioMode::Output => 1,
            GpioMode::Alternate => 2,
            GpioMode::Analog => 3,
        };
        proof {
            assert(v & !spec_mask_n_bits(2) == 0) by (bit_vector)
                requires
                    v < 4,
            ;
        }
        v
    }
}

/// The output driver type of a GPIO pin, as encoded in the OTYPER register.
#[derive(Copy, Clone, Debug, Eq, PartialEq, Structural)]
pub enum GpioType {
    /// Output push-pull (reset state) - 0.
    PushPull,
    /// Output open-drain - 1.
    OpenDrain,
}

impl GpioType {
    /// The 1-bit OTYPER encoding of this output type.
    pub open spec fn spec_value(self) -> u32 {
        match self {
            GpioType::PushPull => 0,
            GpioType::OpenDrain => 1,
        }
    }

    /// The 1-bit OTYPER encoding of this output type.
    #[verifier::when_used_as_spec(spec_value)]
    pub fn value(self) -> (v: u32)
        ensures
            v == self.spec_value(),
            v & !spec_mask_n_bits(1) == 0,
    {
        let v: u32 = match self {
            GpioType::PushPull => 0,
            GpioType::OpenDrain => 1,
        };
        proof {
            assert(v & !spec_mask_n_bits(1) == 0) by (bit_vector)
                requires
                    v < 2,
            ;
        }
        v
    }
}

/// The output speed of a GPIO pin, as encoded in the OSPEEDR register.
#[derive(Copy, Clone, Debug, Eq, PartialEq, Structural)]
pub enum PinSpeed {
    /// Low speed (reset state) - 0b00.
    Low,
    /// Medium speed - 0b01.
    Medium,
    /// Fast speed - 0b10.
    Fast,
    /// Very high speed - 0b11.
    VeryHigh,
}

impl PinSpeed {
    /// The 2-bit OSPEEDR encoding of this speed.
    pub open spec fn spec_value(self) -> u32 {
        match self {
            PinSpeed::Low => 0,
            PinSpeed::Medium => 1,
            PinSpeed::Fast => 2,
            PinSpeed::VeryHigh => 3,
        }
    }

    /// The 2-bit OSPEEDR encoding of this speed.
    #[verifier::when_used_as_spec(spec_value)]
    pub fn value(self) -> (v: u32)
        ensures
            v == self.spec_value(),
            v & !spec_mask_n_bits(2) == 0,
    {
        let v: u32 = match self {
            PinSpeed::Low => 0,
            PinSpeed::Medium => 1,
            PinSpeed::Fast => 2,
            PinSpeed::VeryHigh => 3,
        };
        proof {
            assert(v & !spec_mask_n_bits(2) == 0) by (bit_vector)
                requires
                    v < 4,
            ;
        }
        v
    }
}

/// The target state of a pin when driving it: high, low, or flipped.
#[derive(Copy, Clone, Debug, Eq, PartialEq, Structural)]
pub enum PinState {
    /// The pin is driven to a high state (logic 1).
    High,
    /// The pin is driven to a low state (logic 0).
    Low,
    /// The pin state is flipped (high to low, or low to high).
    Toggle,
}

/// Set the mode (input/output/alternate/analog) of one pin: the pin's
/// 2-bit field of the MODER register takes the mode's encoding and every
/// other bit of the register keeps its value.
pub fn gpio_set_mode(mem: &mut RegisterSpace, port: u32, pin: u32, mode: GpioMode)
    requires
        old(mem).wf(),
        spec_gpio_port_valid(port),
        pin < 16,
    ensures
        final(mem).wf(),
        final(mem).spec_read(port) == spec_set_field(
            old(mem).spec_read(port),
            mode.spec_value(),
            (2 * pin) as u32,
            2,
        ),
        spec_field(final(mem).spec_read(port), (2 * pin) as u32, 2) == mode.spec_value(),
        forall|i: u32|
            i < 32 && !(2 * pin <= i < 2 * pin + 2) ==> spec_bit(final(mem).spec_read(port), i)
                == spec_bit(old(mem).spec_read(port), i),
        forall|a: u32| a != port ==> final(mem).spec_read(a) == old(mem).spec_read(a),
{
    let gpio_mode_reg_addr = port + GPIOX_MODER;
    let bit_position = pin * 2;
    let mode_value = mode.value();
    reg_set_bits(mem, gpio_mode_reg_addr, mode_value, bit_position, 2);
}

/// Set the pin to output mode.
pub fn gpio_set_mode_output(mem: &mut RegisterSpace, port: u32, pin: u32)
    requires
        old(mem).wf(),
        spec_gpio_port_valid(port),
        pin < 16,
    ensures
        final(mem).wf(),
        final(mem).spec_read(port) == spec_set_field(
            old(mem).spec_read(port),
            GpioMode::Output.spec_value(),
            (2 * pin) as u32,
            2,
        ),
        spec_field(final(mem).spec_read(port), (2 * pin) as u32, 2) == GpioMode::Output.spec_value(),
        forall|a: u32| a != port ==> final(mem).spec_read(a) == old(mem).spec_read(a),
{
    gpio_set_mode(mem, port, pin, GpioMode::Output);
}

/// Set the pin to input mode.
pub fn gpio_set_mode_input(mem: &mut RegisterSpace, port: u32, pin: u32)
    requires
        old(mem).wf(),
        spec_gpio_port_valid(port),
        pin < 16,
    ensures
        final(mem).wf(),
        final(mem).spec_read(port) == spec_set_field(
            old(mem).spec_read(port),
            GpioMode::Input.spec_value(),
            (2 * pin) as u32,
            2,
        ),
        spec_field(final(mem).spec_read(port), (2 * pin) as u32, 2) == GpioMode::Input.spec_value(),
        forall|a: u32| a != port ==> final(mem).spec_read(a) == old(mem).spec_read(a),
{
    gpio_set_mode(mem, port, pin, GpioMode::Input);
}

/// Set the pin to alternate function mode.
pub fn gpio_set_mode_alternate(mem: &mut RegisterSpace, port: u32, pin: u32)
    requires
        old(mem).wf(),
        spec_gpio_port_valid(port),
        pin < 16,
    ensures
        final(mem).wf(),
        final(mem).spec_read(port) == spec_set_field(
            old(mem).spec_read(port),
            GpioMode::Alternate.spec_value(),
            (2 * pin) as u32,
            2,
        ),
        spec_field(final(mem).spec_read(port), (2 * pin) as u32, 2)
            == GpioMode::Alternate.spec_value(),
        forall|a: u32| a != port ==> final(mem).spec_read(a) == old(mem).spec_read(a),
{
    gpio_set_mode(mem, port, pin, GpioMode::Alternate);
}

/// Set the pin to analog mode.
pub fn gpio_set_mode_analog(mem: &mut RegisterSpace, port: u32, pin: u32)
    requires
        old(mem).wf(),
        spec_gpio_port_valid(port),
        pin < 16,
    ensures
        final(mem).wf(),
        final(mem).spec_read(port) == spec_set_field(
            old(mem).spec_read(port),
            GpioMode::Analog.spec_value(),
            (2 * pin) as u32,
            2,
        ),
        spec_field(final(mem).spec_read(port), (2 * pin) as u32, 2) == GpioMode::Analog.spec_value(),
        forall|a: u32| a != port ==> final(mem).spec_read(a) == old(mem).spec_read(a),
{
    gpio_set_mode(mem, port, pin, GpioMode::Analog);
}

/// Set the output type (push-pull or open-drain) of one pin: the pin's bit
/// of the OTYPER register takes the type's encoding and every other bit of
/// the register keeps its value.
pub fn gpio_set_type(mem: &mut RegisterSpace, port: u32, pin: u32, ty: GpioType)
    requires
        old(mem).wf(),
        spec_gpio_port_valid(port),
        pin < 16,
    ensures
        final(mem).wf(),
        final(mem).spec_read((port + GPIOX_OTYPER) as u32) == spec_set_field(
            old(mem).spec_read((port + GPIOX_OTYPER) as u32),
            ty.spec_value(),
            pin,
            1,
        ),
        spec_field(final(mem).spec_read((port + GPIOX_OTYPER) as u32), pin, 1) == ty.spec_value(),
        forall|i: u32|
            i < 32 && i != pin ==> #[trigger] spec_bit(
                final(mem).spec_read((port + GPIOX_OTYPER) as u32),
                i,
            ) == spec_bit(old(mem).spec_read((port + GPIOX_OTYPER) as u32), i),
        forall|a: u32|
            a != (port + GPIOX_OTYPER) as u32 ==> final(mem).spec_read(a) == old(mem).spec_read(a),
{
    let gpio_type_reg_addr = port + GPIOX_OTYPER;
    let bit_position = pin;
    let type_value = ty.value();
    reg_set_bits(mem, gpio_type_reg_addr, type_value, bit_position, 1);
}

/// Set the output speed of one pin: the pin's 2-bit field of the OSPEEDR
/// register takes the speed's encoding and every other bit of the register
/// keeps its value.
pub fn gpio_set_speed(mem: &mut RegisterSpace, port: u32, pin: u32, speed: PinSpeed)
    requires
        old(mem).wf(),
        spec_gpio_port_valid(port),
        pin < 16,
    ensures
        final(mem).wf(),
        final(mem).spec_read((port + GPIOX_OSPEEDR) as u32) == spec_set_field(
            old(mem).spec_read((port + GPIOX_OSPEEDR) as u32),
            speed.spec_value(),
            (2 * pin) as u32,
            2,
        ),
        spec_field(final(mem).spec_read((port + GPIOX_OSPEEDR) as u32), (2 * pin) as u32, 2)
            == speed.spec_value(),
        forall|a: u32|
            a != (port + GPIOX_OSPEEDR) as u32 ==> final(mem).spec_read(a) == old(mem).spec_read(a),
{
    let gpio_speed_reg_addr = port + GPIOX_OSPEEDR;
    let bit_position = pin * 2;
    let speed_value = speed.value();
    reg_set_bits(mem, gpio_speed_reg_addr, speed_value, bit_position, 2);
}

/// Select the alternate function `af` (0..=15) of one pin: the pin's 4-bit
/// field of AFRL (pins 0..=7) or AFRH (pins 8..=15) takes `af` and every
/// other bit of that register keeps its value.
pub fn gpio_set_af(mem: &mut RegisterSpace, port: u32, pin: u32, af: u32)
    requires
        old(mem).wf(),
        spec_gpio_port_valid(port),
        pin < 16,
        af < 16,
    ensures
        final(mem).wf(),
        pin < 8 ==> final(mem).spec_read((port + GPIOX_AFRL) as u32) == spec_set_field(
            old(mem).spec_read((port + GPIOX_AFRL) as u32),
            af,
            (4 * pin) as u32,
            4,
        ),
        pin < 8 ==> forall|a: u32|
            a != (port + GPIOX_AFRL) as u32 ==> final(mem).spec_read(a) == old(mem).spec_read(a),
        pin >= 8 ==> final(mem).spec_read((port + GPIOX_AFRH) as u32) == spec_set_field(
            old(mem).spec_read((port + GPIOX_AFRH) as u32),
            af,
            (4 * (pin - 8)) as u32,
            4,
        ),
        pin >= 8 ==> forall|a: u32|
            a != (port + GPIOX_AFRH) as u32 ==> final(mem).spec_read(a) == old(mem).spec_read(a),
{
    proof {
        assert(af & !spec_mask_n_bits(4) == 0) by (bit_vector)
            requires
                af < 16,
        ;
    }
    if pin < 8 {
        reg_set_bits(mem, port + GPIOX_AFRL, af, pin * 4, 4);
    } else {
        reg_set_bits(mem, port + GPIOX_AFRH, af, (pin - 8) * 4, 4);
    }
}

/// Drive one pin high, low, or toggled.
///
/// High and low write the pin's set bit (low half) or reset bit (high
/// half) of the BSRR register; toggle reads the pin's current output in
/// ODR and writes the opposite BSRR bit.
pub fn gpio_set_pin_state(mem: &mut RegisterSpace, port: u32, pin: u32, pin_state: PinState)
    requires
        old(mem).wf(),
        spec_gpio_port_valid(port),
        pin < 16,
    ensures
        final(mem).wf(),
        final(mem).spec_read((port + GPIOX_BSRR) as u32) == (match pin_state {
            PinState::High => 1u32 << pin,
            PinState::Low => 1u32 << (pin + 16),
            PinState::Toggle => {
                if spec_bit(old(mem).spec_read((port + GPIOX_ODR) as u32), pin) {
                    1u32 << (pin + 16)
                } else {
                    1u32 << pin
                }
            },
        }),
        forall|a: u32|
            a != (port + GPIOX_BSRR) as u32 ==> final(mem).spec_read(a) == old(mem).spec_read(a),
{
    let gpio_bsrr_addr = port + GPIOX_BSRR;

    match pin_state {
        PinState::High => {
            // Drive the pin high through the set half of BSRR.
            reg_set_val(mem, gpio_bsrr_addr, 1u32 << pin);
        },
        PinState::Low => {
            // Drive the pin low through the reset half of BSRR.
            reg_set_val(mem, gpio_bsrr_addr, 1u32 << (pin + 16));
        },
        PinState::Toggle => {
            // Read the current output state and drive the opposite one.
            let gpio_odr_addr = port + GPIOX_ODR;
            if reg_read_bit(mem, gpio_odr_addr, pin) {
                reg_set_val(mem, gpio_bsrr_addr, 1u32 << (pin + 16));
            } else {
                reg_set_val(mem, gpio_bsrr_addr, 1u32 << pin);
            }
        },
    }
}

/// Read the current input state of one pin from the IDR register: true
/// when the pin reads high.
pub fn gpio_get_pin_state(mem: &RegisterSpace, port: u32, pin: u32) -> (r: bool)
    requires
        mem.wf(),
        spec_gpio_port_valid(port),
        pin < 16,
    ensures
        r == spec_bit(mem.spec_read((port + GPIOX_IDR) as u32), pin),
{
    let gpio_idr_addr = port + GPIOX_IDR;
    reg_read_bit(mem, gpio_idr_addr, pin)
}

} // verus!
