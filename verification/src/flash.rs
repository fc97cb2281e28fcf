//! STM32F429 FLASH (flash memory interface) utilities.

use vstd::prelude::*;

verus! {

use crate::bitfield::{spec_bit, spec_field, spec_mask_n_bits, spec_set_field};
use crate::reg_mcu_stm32f429zi::FLASH_INTERFACE_BASE;
use crate::reg_space::RegisterSpace;
use crate::reg_utils::reg_set_bits;

// FLASH register offsets, relative to the flash interface base address.
/// Access control register.
pub const FLASH_ACR: u32 = 0x00;

/// Key register.
pub const FLASH_KEYR: u32 = 0x04;

/// Option key register.
pub const FLASH_OPTKEYR: u32 = 0x08;

/// Status register.
pub const FLASH_SR: u32 = 0x0C;

/// Control register.
pub const FLASH_CR: u32 = 0x10;

/// Option control register.
pub const FLASH_OPTCR: u32 = 0x14;

/// Option control register 1.
pub const FLASH_OPTCR1: u32 = 0x18;

/// The four low-order bits of a wait-state value fit the 4-bit LATENCY
/// field.
proof fn lemma_wait_states_fit(ws: u32)
    by (bit_vector)
    ensures
        (ws & 0x0F) & !spec_mask_n_bits(4) == 0,
{
}

/// Set the number of flash wait states: the LATENCY field (bits 3:0) of
/// FLASH_ACR takes the four low-order bits of `ws` and every other bit
/// keeps its value.
pub fn flash_set_wait_states(mem: &mut RegisterSpace, ws: u32)
    requires
        old(mem).wf(),
    ensures
        final(mem).wf(),
        final(mem).spec_read((FLASH_INTERFACE_BASE + FLASH_ACR) as u32) == spec_set_field(
            old(mem).spec_read((FLASH_INTERFACE_BASE + FLASH_ACR) as u32),
            ws & 0x0F,
            0,
            4,
        ),
        spec_field(final(mem).spec_read((FLASH_INTERFACE_BASE + FLASH_ACR) as u32), 0, 4) == ws
            & 0x0F,
        forall|i: u32|
            4 <= i < 32 ==> #[trigger] spec_bit(
                final(mem).spec_read((FLASH_INTERFACE_BASE + FLASH_ACR) as u32),
                i,
            ) == spec_bit(old(mem).spec_read((FLASH_INTERFACE_BASE + FLASH_ACR) as u32), i),
        forall|a: u32|
            a != (FLASH_INTERFACE_BASE + FLASH_ACR) as u32 ==> final(mem).spec_read(a) == old(
                mem,
            ).spec_read(a),
{
    proof {
        lemma_wait_states_fit(ws);
    }
    // The wait-state count sits in the LATENCY[3:0] bits of FLASH_ACR.
    let flash_acr_addr = FLASH_INTERFACE_BASE + FLASH_ACR;
    reg_set_bits(mem, flash_acr_addr, ws & 0x0F, 0, 4);
}

} // verus!
