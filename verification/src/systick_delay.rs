//! Millisecond delays driven by the SysTick timer.
//!
//! The delay loop programs the SysTick reload and current-value registers
//! and then busy-waits on the COUNTFLAG bit of the control register.  On
//! hardware the tick sets that flag; a [`RegisterSpace`] only changes
//! through its own writes, so here the flag must already read as set, and
//! the preconditions say so.

use vstd::prelude::*;

verus! {

use crate::bitfield::{spec_bit, spec_set_bit};
use crate::reg_cpu_cortex_m4::{STCSR_BASE, STCVR_BASE, STRVR_BASE};
use crate::reg_space::RegisterSpace;
use crate::reg_utils::{reg_clr_bit, reg_read_bit, reg_set_bit, reg_set_val};

const SYSTICK_CLKSOURCE_POS: u32 = 2;

const SYSTICK_ENABLE_POS: u32 = 0;

const SYSTICK_COUNTFLAG_POS: u32 = 16;

/// Clearing the clock-source bit of a zero control word and setting its
/// enable bit leaves exactly the value 1.
proof fn lemma_enable_from_zero()
    by (bit_vector)
    ensures
        spec_set_bit(spec_set_bit(0u32, 2, false), 0, true) == 1,
{
}

/// Initialize the SysTick timer for the delay loop: the control register
/// ends up with only the enable bit set (AHB/8 clock source, value 1), the
/// reload register holds the 24-bit maximum and the current-value register
/// is cleared.  Nothing else changes.
pub fn systick_init(mem: &mut RegisterSpace)
    requires
        old(mem).wf(),
    ensures
        final(mem).wf(),
        final(mem).spec_read(STCSR_BASE) == 1,
        final(mem).spec_read(STRVR_BASE) == 0x00FF_FFFF,
        final(mem).spec_read(STCVR_BASE) == 0,
        forall|a: u32|
            a != STCSR_BASE && a != STRVR_BASE && a != STCVR_BASE ==> final(mem).spec_read(a)
                == old(mem).spec_read(a),
{
    // Disable SysTick.
    reg_set_val(mem, STCSR_BASE, 0x00);
    // Set the reload value to the 24-bit maximum.
    reg_set_val(mem, STRVR_BASE, 0x00FF_FFFF);
    // Clear the current value.
    reg_set_val(mem, STCVR_BASE, 0x00);

    // Select AHB/8 as the clock source (clear CLKSOURCE, bit 2).
    reg_clr_bit(mem, STCSR_BASE, SYSTICK_CLKSOURCE_POS);
    // Enable SysTick (set ENABLE, bit 0).
    reg_set_bit(mem, STCSR_BASE, SYSTICK_ENABLE_POS, true);
    proof {
        lemma_enable_from_zero();
    }
}

/// Delay for approximately one millisecond (assuming a 180 MHz system
/// clock and the AHB/8 source): the reload register takes the one-
/// millisecond count, the current value is cleared, and the loop waits on
/// COUNTFLAG.  Nothing else changes.
pub fn delay_one_ms(mem: &mut RegisterSpace)
    requires
        old(mem).wf(),
        spec_bit(old(mem).spec_read(STCSR_BASE), 16),
    ensures
        final(mem).wf(),
        final(mem).spec_read(STRVR_BASE) == 22_499,
        final(mem).spec_read(STCVR_BASE) == 0,
        forall|a: u32|
            a != STRVR_BASE && a != STCVR_BASE ==> final(mem).spec_read(a) == old(
                mem,
            ).spec_read(a),
{
    // Set the reload for 1 ms: 180_000_000 / 8 / 1000 = 22_500.
    reg_set_val(mem, STRVR_BASE, 22_500 - 1);
    reg_set_val(mem, STCVR_BASE, 0x00);

    // Wait for COUNTFLAG (bit 16).
    while !reg_read_bit(mem, STCSR_BASE, SYSTICK_COUNTFLAG_POS)
        invariant
            mem.wf(),
            spec_bit(mem.spec_read(STCSR_BASE), 16),
        decreases 0int,
    {
    }
}

/// Delay for `t` milliseconds.  A zero count returns at once and changes
/// nothing; otherwise the SysTick reload and current-value registers end
/// up as one round of the one-millisecond delay leaves them, and nothing
/// else changes.
pub fn delay_ms(mem: &mut RegisterSpace, t: u32)
    requires
        old(mem).wf(),
        t > 0 ==> spec_bit(old(mem).spec_read(STCSR_BASE), 16),
    ensures
        final(mem).wf(),
        t > 0 ==> final(mem).spec_read(STRVR_BASE) == 22_499,
        t > 0 ==> final(mem).spec_read(STCVR_BASE) == 0,
        forall|a: u32|
            a != STRVR_BASE && a != STCVR_BASE ==> final(mem).spec_read(a) == old(
                mem,
            ).spec_read(a),
        t == 0 ==> forall|a: u32| final(mem).spec_read(a) == old(mem).spec_read(a),
{
    let mut remaining: u32 = t;
    while remaining > 0
        invariant
            mem.wf(),
            remaining <= t,
            remaining > 0 ==> spec_bit(mem.spec_read(STCSR_BASE), 16),
            remaining < t ==> mem.spec_read(STRVR_BASE) == 22_499 && mem.spec_read(STCVR_BASE)
                == 0,
            forall|a: u32|
                a != STRVR_BASE && a != STCVR_BASE ==> mem.spec_read(a) == old(mem).spec_read(a),
            remaining == t ==> forall|a: u32| mem.spec_read(a) == old(mem).spec_read(a),
        decreases remaining,
    {
        delay_one_ms(mem);
        remaining = remaining - 1;
    }
}

} // verus!
