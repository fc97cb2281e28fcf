//! STM32F429 PWR (power control) utilities.
//!
//! Constants and helper functions for the power control peripheral:
//! regulator voltage scaling and the overdrive mode needed for 180 MHz
//! operation.
//!
//! Reference: STM32F429 reference manual, PWR section.

use vstd::prelude::*;

verus! {

use crate::bitfield::{spec_bit, spec_field, spec_mask_n_bits, spec_set_bit, spec_set_field};
use crate::reg_mcu_stm32f429zi::PWR_BASE;
use crate::reg_space::RegisterSpace;
use crate::reg_utils::{reg_set_bit, reg_set_bits, reg_wait_bit};

// PWR register offsets, relative to the PWR base address.
/// Power control register.
pub const PWR_CR: u32 = 0x00;

/// Power control/status register.
pub const PWR_CSR: u32 = 0x04;

/// The two low-order bits of a scale value fit the 2-bit VOS field.
proof fn lemma_scale_fits(scale: u32)
    by (bit_vector)
    ensures
        (scale & 0x03) & !spec_mask_n_bits(2) == 0,
{
}

/// Set the regulator voltage scaling: the VOS field (bits 15:14) of PWR_CR
/// takes the two low-order bits of `scale` and every other bit keeps its
/// value.  The scaling bounds the reachable system frequency and the power
/// consumption.
pub fn pwr_set_regulator_voltage_scale(mem: &mut RegisterSpace, scale: u32)
    requires
        old(mem).wf(),
    ensures
        final(mem).wf(),
        final(mem).spec_read((PWR_BASE + PWR_CR) as u32) == spec_set_field(
            old(mem).spec_read((PWR_BASE + PWR_CR) as u32),
            scale & 0x03,
            14,
            2,
        ),
        spec_field(final(mem).spec_read((PWR_BASE + PWR_CR) as u32), 14, 2) == scale & 0x03,
        forall|i: u32|
            i < 32 && !(14 <= i < 16) ==> #[trigger] spec_bit(
                final(mem).spec_read((PWR_BASE + PWR_CR) as u32),
                i,
            ) == spec_bit(old(mem).spec_read((PWR_BASE + PWR_CR) as u32), i),
        forall|a: u32|
            a != (PWR_BASE + PWR_CR) as u32 ==> final(mem).spec_read(a) == old(mem).spec_read(a),
{
    proof {
        lemma_scale_fits(scale);
    }
    // The voltage scale sits in bits 15:14 of the PWR_CR register.
    let pwr_cr_addr = PWR_BASE + PWR_CR;
    reg_set_bits(mem, pwr_cr_addr, scale & 0x03, 14, 2);
}

/// Enable the overdrive mode required for 180 MHz operation: ODEN (bit 16)
/// and then ODSWEN (bit 17) of PWR_CR are set and every other bit keeps
/// its value.  Between the two writes the sequence polls the overdrive
/// ready flag (ODRDY, bit 16 of PWR_CSR) with a bounded budget.
pub fn pwr_enable_overdrive(mem: &mut RegisterSpace)
    requires
        old(mem).wf(),
    ensures
        final(mem).wf(),
        final(mem).spec_read((PWR_BASE + PWR_CR) as u32) == spec_set_bit(
            spec_set_bit(old(mem).spec_read((PWR_BASE + PWR_CR) as u32), 16, true),
            17,
            true,
        ),
        spec_bit(final(mem).spec_read((PWR_BASE + PWR_CR) as u32), 16),
        spec_bit(final(mem).spec_read((PWR_BASE + PWR_CR) as u32), 17),
        forall|i: u32|
            i < 32 && i != 16 && i != 17 ==> #[trigger] spec_bit(
                final(mem).spec_read((PWR_BASE + PWR_CR) as u32),
                i,
            ) == spec_bit(old(mem).spec_read((PWR_BASE + PWR_CR) as u32), i),
        forall|a: u32|
            a != (PWR_BASE + PWR_CR) as u32 ==> final(mem).spec_read(a) == old(mem).spec_read(a),
{
    // Enable the overdrive mode (ODEN bit, bit 16).
    let pwr_cr_addr = PWR_BASE + PWR_CR;
    reg_set_bit(mem, pwr_cr_addr, 16, true);

    // Wait until the overdrive is ready (ODRDY bit, bit 16 in PWR_CSR),
    // with a bounded budget.
    let pwr_csr_addr = PWR_BASE + PWR_CSR;
    let _ = reg_wait_bit(mem, pwr_csr_addr, 16, true, 100_000);

    // Enable the overdrive switching (ODSWEN bit, bit 17).
    reg_set_bit(mem, pwr_cr_addr, 17, true);
}

} // verus!
