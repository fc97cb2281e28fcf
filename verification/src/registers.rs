//! Register bit manipulation utilities for STM32F4.
//!
//! These helpers operate on a single 32-bit register cell through a
//! reference, together with a handful of peripheral base addresses and
//! per-pin bitmasks used by thin application code.

use vstd::prelude::*;

verus! {

use crate::bitfield::{
    spec_bit,
    spec_set_bit,
    lemma_set_bit_effect,
    lemma_clr_masked_effect,
    lemma_set_masked_effect,
};

// AHB1 bus
pub const RCC_BASE: u32 = 0x4002_3800;

pub const GPIOG_BASE: u32 = 0x4002_1800;

// APB1 bus
pub const PWR_BASE: u32 = 0x4002_1000;

pub const TIM2_BASE: u32 = 0x4000_0000;

// System bus (ARM Cortex-M4 core peripherals)
pub const NVIC_BASE: u32 = 0xE000_E100;

/// GPIO pin bitmasks (for 16-bit registers).
pub const GPIO_PIN_0: u16 = 0x0001;

pub const GPIO_PIN_1: u16 = 0x0002;

pub const GPIO_PIN_2: u16 = 0x0004;

pub const GPIO_PIN_3: u16 = 0x0008;

pub const GPIO_PIN_4: u16 = 0x0010;

pub const GPIO_PIN_5: u16 = 0x0020;

pub const GPIO_PIN_6: u16 = 0x0040;

pub const GPIO_PIN_7: u16 = 0x0080;

pub const GPIO_PIN_8: u16 = 0x0100;

pub const GPIO_PIN_9: u16 = 0x0200;

pub const GPIO_PIN_10: u16 = 0x0400;

pub const GPIO_PIN_11: u16 = 0x0800;

pub const GPIO_PIN_12: u16 = 0x1000;

pub const GPIO_PIN_13: u16 = 0x2000;

pub const GPIO_PIN_14: u16 = 0x4000;

pub const GPIO_PIN_15: u16 = 0x8000;

pub const GPIO_PIN_ALL: u16 = 0xFFFF;

/// Replace the whole cell with `val`.
pub fn reg_write(reg: &mut u32, val: u32)
    ensures
        *final(reg) == val,
{
    *reg = val;
}

/// Read the whole cell.
pub fn reg_read(reg: &u32) -> (v: u32)
    ensures
        v == *reg,
{
    *reg
}

/// Set bit `pos` of the cell; every other bit keeps its value.
pub fn reg_set_bit(reg: &mut u32, pos: u8)
    requires
        pos < 32,
    ensures
        *final(reg) == spec_set_bit(*old(reg), pos as u32, true),
        spec_bit(*final(reg), pos as u32),
        forall|i: u32|
            i < 32 && i != pos as u32 ==> spec_bit(*final(reg), i) == spec_bit(*old(reg), i),
{
    *reg = *reg | (1u32 << pos);
    proof {
        lemma_set_bit_effect(*old(reg), pos as u32, true);
    }
}

/// Clear bit `pos` of the cell; every other bit keeps its value.
pub fn reg_clr_bit(reg: &mut u32, pos: u8)
    requires
        pos < 32,
    ensures
        *final(reg) == spec_set_bit(*old(reg), pos as u32, false),
        !spec_bit(*final(reg), pos as u32),
        forall|i: u32|
            i < 32 && i != pos as u32 ==> spec_bit(*final(reg), i) == spec_bit(*old(reg), i),
{
    *reg = *reg & !(1u32 << pos);
    proof {
        lemma_set_bit_effect(*old(reg), pos as u32, false);
    }
}

/// Read bit `pos` of the cell.
pub fn reg_read_bit(reg: &u32, pos: u8) -> (r: bool)
    requires
        pos < 32,
    ensures
        r == spec_bit(*reg, pos as u32),
{
    (*reg & (1u32 << pos)) != 0
}

/// Clear the bits of the cell selected by `clrmask` placed at `pos`.  Mask
/// bits that the shift pushes past bit 31 select nothing.
pub fn reg_clr_val(reg: &mut u32, clrmask: u32, pos: u8)
    requires
        pos < 32,
    ensures
        *final(reg) == (*old(reg) & !(clrmask << (pos as u32))),
        forall|i: u32|
            i < 32 ==> spec_bit(*final(reg), i) == (spec_bit(*old(reg), i) && !(i >= pos as u32
                && spec_bit(clrmask, (i - pos) as u32))),
{
    *reg = *reg & !(clrmask << (pos as u32));
    proof {
        lemma_clr_masked_effect(*old(reg), clrmask, pos as u32);
    }
}

/// Write the bits of the cell selected by `setmask` placed at `pos` to the
/// corresponding bits of `val`; the unselected bits keep their value.
/// Only the bits of `val` inside `setmask` are used.
pub fn reg_set_val(reg: &mut u32, val: u32, setmask: u32, pos: u8)
    requires
        pos < 32,
    ensures
        *final(reg) == ((*old(reg) & !(setmask << (pos as u32))) | ((val & setmask) << (
        pos as u32))),
        forall|i: u32|
            i < 32 && i >= pos as u32 && spec_bit(setmask, (i - pos) as u32) ==> spec_bit(
                *final(reg),
                i,
            ) == spec_bit(val, (i - pos) as u32),
        forall|i: u32|
            i < 32 && !(i >= pos as u32 && spec_bit(setmask, (i - pos) as u32)) ==> spec_bit(
                *final(reg),
                i,
            ) == spec_bit(*old(reg), i),
{
    reg_clr_val(reg, setmask, pos);
    *reg = *reg | ((val & setmask) << (pos as u32));
    proof {
        lemma_set_masked_effect(*old(reg), val, setmask, pos as u32);
    }
}

/// Read the cell shifted right by `pos` and masked by `rdmask`.
pub fn reg_read_val(reg: &u32, rdmask: u32, pos: u8) -> (r: u32)
    requires
        pos < 32,
    ensures
        r == ((*reg >> (pos as u32)) & rdmask),
{
    (*reg >> (pos as u32)) & rdmask
}

} // verus!
