//! Mathematical model of 32-bit registers: single bits, contiguous bit
//! fields, and sparse masks, together with the laws that the register
//! primitives are specified against.

use vstd::prelude::*;

verus! {

/// True when bit `i` of `v` is set.  Positions at or above 32 read as clear.
pub open spec fn spec_bit(v: u32, i: u32) -> bool {
    v & (1u32 << i) != 0
}

/// A mask of `n` consecutive low-order set bits; 32 or more gives all ones.
pub open spec fn spec_mask_n_bits(n: u32) -> u32 {
    if n >= 32 {
        0xFFFF_FFFFu32
    } else {
        ((1u32 << n) - 1) as u32
    }
}

/// The value of the `n`-bit field of `v` starting at `pos`, right-aligned.
pub open spec fn spec_field(v: u32, pos: u32, n: u32) -> u32 {
    (v >> pos) & spec_mask_n_bits(n)
}

/// `v` with the `n`-bit field at `pos` replaced by `val`; bits outside the
/// field keep their value.
pub open spec fn spec_set_field(v: u32, val: u32, pos: u32, n: u32) -> u32 {
    (v & !(spec_mask_n_bits(n) << pos)) | ((val << pos) & (spec_mask_n_bits(n) << pos))
}

/// `v` with bit `pos` forced to `b`.
pub open spec fn spec_set_bit(v: u32, pos: u32, b: bool) -> u32 {
    if b {
        v | (1u32 << pos)
    } else {
        v & !(1u32 << pos)
    }
}

/// `v` with the bits selected by `mask << pos` flipped.
pub open spec fn spec_toggle_bits(v: u32, mask: u32, pos: u32) -> u32 {
    v ^ (mask << pos)
}

/// The number of set bits among the `n` low-order bits of `v`.
pub open spec fn spec_count_bits(v: u32, n: int) -> int
    decreases n,
{
    if n <= 0 {
        0
    } else {
        spec_count_bits(v, n - 1) + (if spec_bit(v, (n - 1) as u32) {
            1int
        } else {
            0int
        })
    }
}

/// True when `mask` placed at `pos` still lies inside a 32-bit register:
/// no set bit of `mask` is shifted out at the top.  An empty mask fits
/// anywhere.
pub open spec fn spec_mask_fits(mask: u32, pos: u32) -> bool {
    ((mask << pos) >> pos) == mask
}

/// Writing `val` into a field and reading the same field back yields `val`,
/// and every bit outside the field is unchanged.
pub proof fn lemma_set_field_round_trip(v: u32, val: u32, pos: u32, n: u32)
    by (bit_vector)
    requires
        1 <= n <= 32,
        pos < 32,
        pos + n <= 32,
        val & !spec_mask_n_bits(n) == 0,
    ensures
        spec_field(spec_set_field(v, val, pos, n), pos, n) == val,
        forall|i: u32|
            i < 32 && !(pos <= i < pos + n) ==> spec_bit(spec_set_field(v, val, pos, n), i)
                == spec_bit(v, i),
{
}

/// Forcing a bit to `b` makes exactly that bit `b` and leaves every other
/// bit unchanged.
pub proof fn lemma_set_bit_effect(v: u32, pos: u32, b: bool)
    by (bit_vector)
    requires
        pos < 32,
    ensures
        spec_bit(spec_set_bit(v, pos, b), pos) == b,
        forall|i: u32|
            i < 32 && i != pos ==> spec_bit(spec_set_bit(v, pos, b), i) == spec_bit(v, i),
{
}

/// Two writes to the same bit leave only the second: the final state depends
/// on the last operation applied, not on the history.
pub proof fn lemma_set_bit_last_wins(v: u32, pos: u32, first: bool, second: bool)
    by (bit_vector)
    requires
        pos < 32,
    ensures
        spec_set_bit(spec_set_bit(v, pos, first), pos, second) == spec_set_bit(v, pos, second),
{
}

/// Toggling the same bits twice restores the original value exactly.
pub proof fn lemma_toggle_twice(v: u32, mask: u32, pos: u32)
    by (bit_vector)
    ensures
        spec_toggle_bits(spec_toggle_bits(v, mask, pos), mask, pos) == v,
{
}

/// A toggle flips exactly the bits selected by `mask << pos`.
pub proof fn lemma_toggle_effect(v: u32, mask: u32, pos: u32)
    by (bit_vector)
    requires
        pos < 32,
    ensures
        forall|i: u32|
            i < 32 ==> spec_bit(spec_toggle_bits(v, mask, pos), i) == (spec_bit(v, i) != (i >= pos
                && spec_bit(mask, (i - pos) as u32))),
{
}

/// Toggling a single bit flips exactly that bit.
pub proof fn lemma_toggle_bit_effect(v: u32, pos: u32)
    by (bit_vector)
    requires
        pos < 32,
    ensures
        spec_bit(spec_toggle_bits(v, 1, pos), pos) == !spec_bit(v, pos),
        forall|i: u32|
            i < 32 && i != pos ==> spec_bit(spec_toggle_bits(v, 1, pos), i) == spec_bit(v, i),
{
}

/// Writing one field does not disturb any field disjoint from it.
pub proof fn lemma_set_field_preserves_field(v: u32, val: u32, pos: u32, n: u32, pos2: u32, n2: u32)
    by (bit_vector)
    requires
        1 <= n <= 32,
        pos < 32,
        pos + n <= 32,
        pos2 + n2 <= pos || pos + n <= pos2,
    ensures
        spec_field(spec_set_field(v, val, pos, n), pos2, n2) == spec_field(v, pos2, n2),
{
}

/// Forcing a bit outside a field does not change the field's value.
pub proof fn lemma_set_bit_preserves_field(v: u32, pos: u32, b: bool, pos2: u32, n2: u32)
    by (bit_vector)
    requires
        pos < 32,
        pos < pos2 || pos >= pos2 + n2,
    ensures
        spec_field(spec_set_bit(v, pos, b), pos2, n2) == spec_field(v, pos2, n2),
{
}

/// Clearing through a mask placed at `pos` clears exactly the bits the
/// shifted mask selects.
pub proof fn lemma_clr_masked_effect(v: u32, mask: u32, pos: u32)
    by (bit_vector)
    requires
        pos < 32,
    ensures
        forall|i: u32|
            i < 32 ==> spec_bit(v & !(mask << pos), i) == (spec_bit(v, i) && !(i >= pos
                && spec_bit(mask, (i - pos) as u32))),
{
}

/// Writing through a mask placed at `pos` replaces exactly the selected
/// bits with the corresponding bits of `val` and leaves the rest alone.
pub proof fn lemma_set_masked_effect(v: u32, val: u32, mask: u32, pos: u32)
    by (bit_vector)
    requires
        pos < 32,
    ensures
        forall|i: u32|
            i < 32 && i >= pos && spec_bit(mask, (i - pos) as u32) ==> spec_bit(
                (v & !(mask << pos)) | ((val & mask) << pos),
                i,
            ) == spec_bit(val, (i - pos) as u32),
        forall|i: u32|
            i < 32 && !(i >= pos && spec_bit(mask, (i - pos) as u32)) ==> spec_bit(
                (v & !(mask << pos)) | ((val & mask) << pos),
                i,
            ) == spec_bit(v, i),
{
}

} // verus!
