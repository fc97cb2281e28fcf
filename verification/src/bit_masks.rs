//! Common bit mask helpers: contiguous low-order masks, single-bit masks,
//! and the predefined nibble, byte and half-word masks.

use vstd::prelude::*;

verus! {

use crate::bitfield::spec_mask_n_bits;

/// Predefined 4-bit masks (nibbles).
pub const NIBBLE_0: u32 = 0x0000000F;

pub const NIBBLE_1: u32 = 0x000000F0;

pub const NIBBLE_2: u32 = 0x00000F00;

pub const NIBBLE_3: u32 = 0x0000F000;

pub const NIBBLE_4: u32 = 0x000F0000;

pub const NIBBLE_5: u32 = 0x00F00000;

pub const NIBBLE_6: u32 = 0x0F000000;

pub const NIBBLE_7: u32 = 0xF0000000;

/// Predefined byte masks.
pub const BYTE_0: u32 = 0x000000FF;

pub const BYTE_1: u32 = 0x0000FF00;

pub const BYTE_2: u32 = 0x00FF0000;

pub const BYTE_3: u32 = 0xFF000000;

/// Predefined half-word masks (16 bits).
pub const HALF_WORD_0: u32 = 0x0000FFFF;

pub const HALF_WORD_1: u32 = 0xFFFF0000;

/// A mask with `n` consecutive set bits starting from bit 0.
/// `n == 0` gives 0; `n >= 32` gives `0xFFFF_FFFF`.
pub fn mask_n_bits(n: u32) -> (r: u32)
    ensures
        r == spec_mask_n_bits(n),
{
    if n >= 32 {
        0xFFFF_FFFF
    } else {
        proof {
            assert(1u32 << n >= 1) by (bit_vector)
                requires
                    n < 32,
            ;
        }
        (1u32 << n) - 1
    }
}

/// A mask with a single set bit at `position`; 32 or more gives 0.
pub fn single_bit(position: u32) -> (r: u32)
    ensures
        position < 32 ==> r == (1u32 << position),
        position >= 32 ==> r == 0,
{
    if position >= 32 {
        0
    } else {
        1u32 << position
    }
}

} // verus!
