//! Register helper functions.
//!
//! These helpers read and write 32-bit memory-mapped registers held in a
//! [`RegisterSpace`]:
//!
//! - read or write a whole 32-bit register,
//! - turn a single bit on or off,
//! - read or change a group of bits (bit fields),
//! - poll a bit or a field with an attempt budget.
//!
//! Every operation validates its bit position, width and mask eagerly
//! through its precondition: an out-of-range position, a field value that
//! does not fit its width, or a mask shifted past bit 31 is a caller error
//! and is ruled out before the call.
//!
//! None of the read-modify-write helpers is atomic: a register touched both
//! by the main flow and by an interrupt handler needs external coordination.
//!
//! The in-place helpers at the end of the module operate on a single `u32`
//! cell through a reference instead of an address.

use vstd::prelude::*;

verus! {

use crate::bit_masks::mask_n_bits;
use crate::bitfield::{
    spec_bit,
    spec_count_bits,
    spec_field,
    spec_mask_fits,
    spec_mask_n_bits,
    spec_set_bit,
    spec_set_field,
    spec_toggle_bits,
    lemma_set_field_round_trip,
    lemma_set_bit_effect,
    lemma_toggle_bit_effect,
    lemma_toggle_effect,
    lemma_clr_masked_effect,
    lemma_set_masked_effect,
};
use crate::reg_space::RegisterSpace;

/// Relies on core::hint::spin_loop: a CPU pause hint for busy-wait loops,
/// with no observable effect on the program state.
#[verifier::external_body]
fn cpu_relax() {
    core::hint::spin_loop()
}

/// True when shifting `mask` left by `bit_position` keeps every set bit of
/// the mask inside the 32-bit register width.
pub fn reg_mask_fits(mask: u32, bit_position: u32) -> (r: bool)
    requires
        bit_position < 32,
    ensures
        r == spec_mask_fits(mask, bit_position),
{
    ((mask << bit_position) >> bit_position) == mask
}

/// Read the whole 32-bit register at `reg_addr`.
pub fn reg_read(mem: &RegisterSpace, reg_addr: u32) -> (v: u32)
    requires
        mem.wf(),
        reg_addr % 4 == 0,
    ensures
        v == mem.spec_read(reg_addr),
{
    mem.read(reg_addr)
}

/// Write `value` to the whole 32-bit register at `reg_addr`.
pub fn reg_write(mem: &mut RegisterSpace, reg_addr: u32, value: u32)
    requires
        old(mem).wf(),
        reg_addr % 4 == 0,
    ensures
        final(mem).wf(),
        final(mem).spec_read(reg_addr) == value,
        forall|a: u32| a != reg_addr ==> final(mem).spec_read(a) == old(mem).spec_read(a),
{
    mem.write(reg_addr, value)
}

/// Set a bit field without touching the bits outside it.
///
/// The field starts at `bit_position` and is `n_bits` wide; `new_bits_val`
/// must fit in the field.  Afterwards the field reads back as
/// `new_bits_val` and every bit outside the field keeps its old value.
pub fn reg_set_bits(
    mem: &mut RegisterSpace,
    reg_addr: u32,
    new_bits_val: u32,
    bit_position: u32,
    n_bits: u32,
)
    requires
        old(mem).wf(),
        reg_addr % 4 == 0,
        1 <= n_bits <= 32,
        bit_position < 32,
        bit_position + n_bits <= 32,
        new_bits_val & !spec_mask_n_bits(n_bits) == 0,
    ensures
        final(mem).wf(),
        final(mem).spec_read(reg_addr) == spec_set_field(
            old(mem).spec_read(reg_addr),
            new_bits_val,
            bit_position,
            n_bits,
        ),
        spec_field(final(mem).spec_read(reg_addr), bit_position, n_bits) == new_bits_val,
        forall|i: u32|
            i < 32 && !(bit_position <= i < bit_position + n_bits) ==> spec_bit(
                final(mem).spec_read(reg_addr),
                i,
            ) == spec_bit(old(mem).spec_read(reg_addr), i),
        forall|a: u32| a != reg_addr ==> final(mem).spec_read(a) == old(mem).spec_read(a),
{
    let reg_value = mem.read(reg_addr);
    let mask = mask_n_bits(n_bits) << bit_position;
    let updated_value = (reg_value & !mask) | ((new_bits_val << bit_position) & mask);
    mem.write(reg_addr, updated_value);
    proof {
        lemma_set_field_round_trip(reg_value, new_bits_val, bit_position, n_bits);
    }
}

/// Set or clear a single bit: afterwards the bit reads as `bit_val` and
/// every other bit keeps its old value.
pub fn reg_set_bit(mem: &mut RegisterSpace, reg_addr: u32, bit_position: u32, bit_val: bool)
    requires
        old(mem).wf(),
        reg_addr % 4 == 0,
        bit_position < 32,
    ensures
        final(mem).wf(),
        final(mem).spec_read(reg_addr) == spec_set_bit(
            old(mem).spec_read(reg_addr),
            bit_position,
            bit_val,
        ),
        spec_bit(final(mem).spec_read(reg_addr), bit_position) == bit_val,
        forall|i: u32|
            i < 32 && i != bit_position ==> spec_bit(final(mem).spec_read(reg_addr), i) == spec_bit(
                old(mem).spec_read(reg_addr),
                i,
            ),
        forall|a: u32| a != reg_addr ==> final(mem).spec_read(a) == old(mem).spec_read(a),
{
    let reg_value = mem.read(reg_addr);
    let updated_value = if bit_val {
        reg_value | (1u32 << bit_position)
    } else {
        reg_value & !(1u32 << bit_position)
    };
    mem.write(reg_addr, updated_value);
    proof {
        lemma_set_bit_effect(reg_value, bit_position, bit_val);
    }
}

/// Replace the whole register with `new_reg_val`.
pub fn reg_set_val(mem: &mut RegisterSpace, reg_addr: u32, new_reg_val: u32)
    requires
        old(mem).wf(),
        reg_addr % 4 == 0,
    ensures
        final(mem).wf(),
        final(mem).spec_read(reg_addr) == new_reg_val,
        forall|a: u32| a != reg_addr ==> final(mem).spec_read(a) == old(mem).spec_read(a),
{
    mem.write(reg_addr, new_reg_val)
}

/// Read a single bit: true when the bit is 1.
pub fn reg_read_bit(mem: &RegisterSpace, reg_addr: u32, bit_position: u32) -> (r: bool)
    requires
        mem.wf(),
        reg_addr % 4 == 0,
        bit_position < 32,
    ensures
        r == spec_bit(mem.spec_read(reg_addr), bit_position),
{
    let reg_value = mem.read(reg_addr);
    (reg_value & (1u32 << bit_position)) != 0
}

/// Read `n_bits` starting at `bit_position`, right-aligned.
pub fn reg_read_bits(mem: &RegisterSpace, reg_addr: u32, bit_position: u32, n_bits: u32) -> (r: u32)
    requires
        mem.wf(),
        reg_addr % 4 == 0,
        1 <= n_bits <= 32,
        bit_position < 32,
        bit_position + n_bits <= 32,
    ensures
        r == spec_field(mem.spec_read(reg_addr), bit_position, n_bits),
{
    let reg_value = mem.read(reg_addr);
    let mask = mask_n_bits(n_bits);
    (reg_value >> bit_position) & mask
}

/// Clear a single bit (set it to 0).
pub fn reg_clr_bit(mem: &mut RegisterSpace, reg_addr: u32, bit_position: u32)
    requires
        old(mem).wf(),
        reg_addr % 4 == 0,
        bit_position < 32,
    ensures
        final(mem).wf(),
        final(mem).spec_read(reg_addr) == spec_set_bit(
            old(mem).spec_read(reg_addr),
            bit_position,
            false,
        ),
        !spec_bit(final(mem).spec_read(reg_addr), bit_position),
        forall|i: u32|
            i < 32 && i != bit_position ==> spec_bit(final(mem).spec_read(reg_addr), i) == spec_bit(
                old(mem).spec_read(reg_addr),
                i,
            ),
        forall|a: u32| a != reg_addr ==> final(mem).spec_read(a) == old(mem).spec_read(a),
{
    reg_set_bit(mem, reg_addr, bit_position, false);
}

/// Set a single bit (set it to 1).
pub fn reg_set_bit_high(mem: &mut RegisterSpace, reg_addr: u32, bit_position: u32)
    requires
        old(mem).wf(),
        reg_addr % 4 == 0,
        bit_position < 32,
    ensures
        final(mem).wf(),
        final(mem).spec_read(reg_addr) == spec_set_bit(
            old(mem).spec_read(reg_addr),
            bit_position,
            true,
        ),
        spec_bit(final(mem).spec_read(reg_addr), bit_position),
        forall|i: u32|
            i < 32 && i != bit_position ==> spec_bit(final(mem).spec_read(reg_addr), i) == spec_bit(
                old(mem).spec_read(reg_addr),
                i,
            ),
        forall|a: u32| a != reg_addr ==> final(mem).spec_read(a) == old(mem).spec_read(a),
{
    reg_set_bit(mem, reg_addr, bit_position, true);
}

/// Clear the bits selected by `clear_mask` placed at `bit_position`; the
/// bits the shifted mask does not select keep their value.
pub fn reg_clr_val(mem: &mut RegisterSpace, reg_addr: u32, clear_mask: u32, bit_position: u32)
    requires
        old(mem).wf(),
        reg_addr % 4 == 0,
        bit_position < 32,
        spec_mask_fits(clear_mask, bit_position),
    ensures
        final(mem).wf(),
        final(mem).spec_read(reg_addr) == (old(mem).spec_read(reg_addr) & !(clear_mask
            << bit_position)),
        forall|i: u32|
            i < 32 ==> spec_bit(final(mem).spec_read(reg_addr), i) == (spec_bit(
                old(mem).spec_read(reg_addr),
                i,
            ) && !(i >= bit_position && spec_bit(clear_mask, (i - bit_position) as u32))),
        forall|a: u32| a != reg_addr ==> final(mem).spec_read(a) == old(mem).spec_read(a),
{
    let reg_value = mem.read(reg_addr);
    let updated_value = reg_value & !(clear_mask << bit_position);
    mem.write(reg_addr, updated_value);
    proof {
        lemma_clr_masked_effect(reg_value, clear_mask, bit_position);
    }
}

/// Write the bits selected by `set_mask` placed at `bit_position` to the
/// corresponding bits of `new_value`; the unselected bits keep their value.
///
/// `new_value` may only carry bits inside `set_mask`.
pub fn reg_set_val_masked(
    mem: &mut RegisterSpace,
    reg_addr: u32,
    new_value: u32,
    set_mask: u32,
    bit_position: u32,
)
    requires
        old(mem).wf(),
        reg_addr % 4 == 0,
        bit_position < 32,
        spec_mask_fits(set_mask, bit_position),
        new_value & !set_mask == 0,
    ensures
        final(mem).wf(),
        final(mem).spec_read(reg_addr) == ((old(mem).spec_read(reg_addr) & !(set_mask
            << bit_position)) | ((new_value & set_mask) << bit_position)),
        forall|i: u32|
            i < 32 && i >= bit_position && spec_bit(set_mask, (i - bit_position) as u32)
                ==> spec_bit(final(mem).spec_read(reg_addr), i) == spec_bit(
                new_value,
                (i - bit_position) as u32,
            ),
        forall|i: u32|
            i < 32 && !(i >= bit_position && spec_bit(set_mask, (i - bit_position) as u32))
                ==> spec_bit(final(mem).spec_read(reg_addr), i) == spec_bit(
                old(mem).spec_read(reg_addr),
                i,
            ),
        forall|a: u32| a != reg_addr ==> final(mem).spec_read(a) == old(mem).spec_read(a),
{
    let reg_value = mem.read(reg_addr);
    let mask = set_mask << bit_position;
    let updated_value = (reg_value & !mask) | ((new_value & set_mask) << bit_position);
    mem.write(reg_addr, updated_value);
    proof {
        lemma_set_masked_effect(reg_value, new_value, set_mask, bit_position);
    }
}

/// Read the register, shift it right by `bit_position`, and keep the bits
/// selected by `read_mask`.
pub fn reg_read_val_masked(
    mem: &RegisterSpace,
    reg_addr: u32,
    read_mask: u32,
    bit_position: u32,
) -> (r: u32)
    requires
        mem.wf(),
        reg_addr % 4 == 0,
        bit_position < 32,
        spec_mask_fits(read_mask, bit_position),
    ensures
        r == ((mem.spec_read(reg_addr) >> bit_position) & read_mask),
{
    let reg_value = mem.read(reg_addr);
    (reg_value >> bit_position) & read_mask
}

/// Toggle (flip) one bit; every other bit keeps its value.
pub fn reg_toggle_bit(mem: &mut RegisterSpace, reg_addr: u32, bit_position: u32)
    requires
        old(mem).wf(),
        reg_addr % 4 == 0,
        bit_position < 32,
    ensures
        final(mem).wf(),
        final(mem).spec_read(reg_addr) == spec_toggle_bits(
            old(mem).spec_read(reg_addr),
            1,
            bit_position,
        ),
        spec_bit(final(mem).spec_read(reg_addr), bit_position) == !spec_bit(
            old(mem).spec_read(reg_addr),
            bit_position,
        ),
        forall|i: u32|
            i < 32 && i != bit_position ==> spec_bit(final(mem).spec_read(reg_addr), i) == spec_bit(
                old(mem).spec_read(reg_addr),
                i,
            ),
        forall|a: u32| a != reg_addr ==> final(mem).spec_read(a) == old(mem).spec_read(a),
{
    let reg_value = mem.read(reg_addr);
    let updated_value = reg_value ^ (1u32 << bit_position);
    mem.write(reg_addr, updated_value);
    proof {
        lemma_toggle_bit_effect(reg_value, bit_position);
    }
}

/// Toggle the bits selected by `toggle_mask` placed at `bit_position`.
pub fn reg_toggle_bits(mem: &mut RegisterSpace, reg_addr: u32, toggle_mask: u32, bit_position: u32)
    requires
        old(mem).wf(),
        reg_addr % 4 == 0,
        bit_position < 32,
        spec_mask_fits(toggle_mask, bit_position),
    ensures
        final(mem).wf(),
        final(mem).spec_read(reg_addr) == spec_toggle_bits(
            old(mem).spec_read(reg_addr),
            toggle_mask,
            bit_position,
        ),
        forall|i: u32|
            i < 32 ==> spec_bit(final(mem).spec_read(reg_addr), i) == (spec_bit(
                old(mem).spec_read(reg_addr),
                i,
            ) != (i >= bit_position && spec_bit(toggle_mask, (i - bit_position) as u32))),
        forall|a: u32| a != reg_addr ==> final(mem).spec_read(a) == old(mem).spec_read(a),
{
    let reg_value = mem.read(reg_addr);
    let updated_value = reg_value ^ (toggle_mask << bit_position);
    mem.write(reg_addr, updated_value);
    proof {
        lemma_toggle_effect(reg_value, toggle_mask, bit_position);
    }
}

/// Read-modify-write through a caller-supplied function: reads the current
/// value, applies `modify_fn`, and writes the result back.  Not atomic.
pub fn reg_modify<F: FnOnce(u32) -> u32>(mem: &mut RegisterSpace, reg_addr: u32, modify_fn: F)
    requires
        old(mem).wf(),
        reg_addr % 4 == 0,
        call_requires(modify_fn, (old(mem).spec_read(reg_addr),)),
    ensures
        final(mem).wf(),
        call_ensures(
            modify_fn,
            (old(mem).spec_read(reg_addr),),
            final(mem).spec_read(reg_addr),
        ),
        forall|a: u32| a != reg_addr ==> final(mem).spec_read(a) == old(mem).spec_read(a),
{
    let reg_value = mem.read(reg_addr);
    let new_value = modify_fn(reg_value);
    mem.write(reg_addr, new_value);
}

/// Poll one bit until it equals `expected_value` or the attempt budget runs
/// out.  Returns true exactly when the bit holds the expected value; a
/// satisfied condition succeeds on the first poll without consuming the
/// budget, and a finite budget of `n` gives up after at most `n` retries.
/// Each retry yields a CPU hint.
///
/// A budget of 0 means wait without bound.  A `RegisterSpace` only changes
/// through its own writes, so an unbounded wait can return only when the
/// condition already holds; the precondition admits the sentinel exactly
/// then.
#[must_use]
pub fn reg_wait_bit(
    mem: &RegisterSpace,
    reg_addr: u32,
    bit_position: u32,
    expected_value: bool,
    timeout_cycles: u32,
) -> (r: bool)
    requires
        mem.wf(),
        reg_addr % 4 == 0,
        bit_position < 32,
        timeout_cycles == 0 ==> spec_bit(mem.spec_read(reg_addr), bit_position) == expected_value,
    ensures
        r == (spec_bit(mem.spec_read(reg_addr), bit_position) == expected_value),
{
    if reg_read_bit(mem, reg_addr, bit_position) == expected_value {
        return true;
    }
    let mut cycles: u32 = 0;
    while cycles < timeout_cycles
        invariant
            mem.wf(),
            reg_addr % 4 == 0,
            bit_position < 32,
            spec_bit(mem.spec_read(reg_addr), bit_position) != expected_value,
        decreases timeout_cycles - cycles,
    {
        cpu_relax();
        if reg_read_bit(mem, reg_addr, bit_position) == expected_value {
            return true;
        }
        cycles = cycles + 1;
    }
    false
}

/// Poll a masked field until it equals `expected_value` or the attempt
/// budget runs out.  Returns true exactly when the masked field holds the
/// expected value; the budget and the 0 sentinel behave as in
/// [`reg_wait_bit`].
#[must_use]
pub fn reg_wait_bits(
    mem: &RegisterSpace,
    reg_addr: u32,
    expected_value: u32,
    mask: u32,
    bit_position: u32,
    timeout_cycles: u32,
) -> (r: bool)
    requires
        mem.wf(),
        reg_addr % 4 == 0,
        bit_position < 32,
        spec_mask_fits(mask, bit_position),
        timeout_cycles == 0 ==> ((mem.spec_read(reg_addr) >> bit_position) & mask)
            == expected_value,
    ensures
        r == (((mem.spec_read(reg_addr) >> bit_position) & mask) == expected_value),
{
    if reg_read_val_masked(mem, reg_addr, mask, bit_position) == expected_value {
        return true;
    }
    let mut cycles: u32 = 0;
    while cycles < timeout_cycles
        invariant
            mem.wf(),
            reg_addr % 4 == 0,
            bit_position < 32,
            spec_mask_fits(mask, bit_position),
            ((mem.spec_read(reg_addr) >> bit_position) & mask) != expected_value,
        decreases timeout_cycles - cycles,
    {
        cpu_relax();
        if reg_read_val_masked(mem, reg_addr, mask, bit_position) == expected_value {
            return true;
        }
        cycles = cycles + 1;
    }
    false
}

/// Test-and-set one bit: returns the prior value, then sets the bit.
/// Not atomic: unsafe for two execution contexts that can interleave.
#[must_use]
pub fn reg_test_and_set(mem: &mut RegisterSpace, reg_addr: u32, bit_position: u32) -> (was_set:
    bool)
    requires
        old(mem).wf(),
        reg_addr % 4 == 0,
        bit_position < 32,
    ensures
        was_set == spec_bit(old(mem).spec_read(reg_addr), bit_position),
        final(mem).wf(),
        final(mem).spec_read(reg_addr) == spec_set_bit(
            old(mem).spec_read(reg_addr),
            bit_position,
            true,
        ),
        spec_bit(final(mem).spec_read(reg_addr), bit_position),
        forall|i: u32|
            i < 32 && i != bit_position ==> spec_bit(final(mem).spec_read(reg_addr), i) == spec_bit(
                old(mem).spec_read(reg_addr),
                i,
            ),
        forall|a: u32| a != reg_addr ==> final(mem).spec_read(a) == old(mem).spec_read(a),
{
    let reg_value = mem.read(reg_addr);
    let bit_was_set = (reg_value & (1u32 << bit_position)) != 0;
    let updated_value = reg_value | (1u32 << bit_position);
    mem.write(reg_addr, updated_value);
    proof {
        lemma_set_bit_effect(reg_value, bit_position, true);
    }
    bit_was_set
}

/// Test-and-clear one bit: returns the prior value, then clears the bit.
/// Not atomic: unsafe for two execution contexts that can interleave.
#[must_use]
pub fn reg_test_and_clear(mem: &mut RegisterSpace, reg_addr: u32, bit_position: u32) -> (was_set:
    bool)
    requires
        old(mem).wf(),
        reg_addr % 4 == 0,
        bit_position < 32,
    ensures
        was_set == spec_bit(old(mem).spec_read(reg_addr), bit_position),
        final(mem).wf(),
        final(mem).spec_read(reg_addr) == spec_set_bit(
            old(mem).spec_read(reg_addr),
            bit_position,
            false,
        ),
        !spec_bit(final(mem).spec_read(reg_addr), bit_position),
        forall|i: u32|
            i < 32 && i != bit_position ==> spec_bit(final(mem).spec_read(reg_addr), i) == spec_bit(
                old(mem).spec_read(reg_addr),
                i,
            ),
        forall|a: u32| a != reg_addr ==> final(mem).spec_read(a) == old(mem).spec_read(a),
{
    let reg_value = mem.read(reg_addr);
    let bit_was_set = (reg_value & (1u32 << bit_position)) != 0;
    let updated_value = reg_value & !(1u32 << bit_position);
    mem.write(reg_addr, updated_value);
    proof {
        lemma_set_bit_effect(reg_value, bit_position, false);
    }
    bit_was_set
}

/// Count how many bits of the register are set to 1.
pub fn reg_count_set_bits(mem: &RegisterSpace, reg_addr: u32) -> (count: u32)
    requires
        mem.wf(),
        reg_addr % 4 == 0,
    ensures
        count == spec_count_bits(mem.spec_read(reg_addr), 32),
{
    let reg_value = mem.read(reg_addr);
    let mut count: u32 = 0;
    let mut i: u32 = 0;
    while i < 32
        invariant
            count == spec_count_bits(reg_value, i as int),
            count <= i,
            i <= 32,
        decreases 32 - i,
    {
        if (reg_value & (1u32 << i)) != 0 {
            count = count + 1;
        }
        i = i + 1;
    }
    count
}

/// The position of the least significant set bit, or `None` when the
/// register is zero.
pub fn reg_find_first_set(mem: &RegisterSpace, reg_addr: u32) -> (r: Option<u32>)
    requires
        mem.wf(),
        reg_addr % 4 == 0,
    ensures
        r is None <==> mem.spec_read(reg_addr) == 0,
        r matches Some(pos) ==> pos < 32 && spec_bit(mem.spec_read(reg_addr), pos) && forall|j: u32|
            j < pos ==> !spec_bit(mem.spec_read(reg_addr), j),
{
    let reg_value = mem.read(reg_addr);
    if reg_value == 0 {
        None
    } else {
        let pos = reg_value.trailing_zeros();
        proof {
            vstd::std_specs::bits::axiom_u32_trailing_zeros(reg_value);
            assert(forall|j: u32|
                j < 32 ==> (spec_bit(reg_value, j) == ((reg_value >> j) & 1u32 == 1u32)))
                by (bit_vector);
        }
        Some(pos)
    }
}

/// Write `val` into a plain register cell.
pub fn reg_write_inplace(reg: &mut u32, val: u32)
    ensures
        *final(reg) == val,
{
    *reg = val;
}

/// Read a plain register cell.
pub fn reg_read_inplace(reg: &u32) -> (v: u32)
    ensures
        v == *reg,
{
    *reg
}

/// Set bit `pos` of a plain register cell; every other bit keeps its value.
pub fn reg_set_bit_inplace(reg: &mut u32, pos: u32)
    requires
        pos < 32,
    ensures
        *final(reg) == spec_set_bit(*old(reg), pos, true),
        spec_bit(*final(reg), pos),
        forall|i: u32| i < 32 && i != pos ==> spec_bit(*final(reg), i) == spec_bit(*old(reg), i),
{
    *reg = *reg | (1u32 << pos);
    proof {
        lemma_set_bit_effect(*old(reg), pos, true);
    }
}

/// Clear bit `pos` of a plain register cell; every other bit keeps its
/// value.
pub fn reg_clr_bit_inplace(reg: &mut u32, pos: u32)
    requires
        pos < 32,
    ensures
        *final(reg) == spec_set_bit(*old(reg), pos, false),
        !spec_bit(*final(reg), pos),
        forall|i: u32| i < 32 && i != pos ==> spec_bit(*final(reg), i) == spec_bit(*old(reg), i),
{
    *reg = *reg & !(1u32 << pos);
    proof {
        lemma_set_bit_effect(*old(reg), pos, false);
    }
}

/// Toggle bit `pos` of a plain register cell; every other bit keeps its
/// value.
pub fn reg_toggle_bit_inplace(reg: &mut u32, pos: u32)
    requires
        pos < 32,
    ensures
        *final(reg) == spec_toggle_bits(*old(reg), 1, pos),
        spec_bit(*final(reg), pos) == !spec_bit(*old(reg), pos),
        forall|i: u32| i < 32 && i != pos ==> spec_bit(*final(reg), i) == spec_bit(*old(reg), i),
{
    *reg = *reg ^ (1u32 << pos);
    proof {
        lemma_toggle_bit_effect(*old(reg), pos);
    }
}

/// Read bit `pos` of a plain register cell.
pub fn reg_read_bit_inplace(reg: &u32, pos: u32) -> (r: bool)
    requires
        pos < 32,
    ensures
        r == spec_bit(*reg, pos),
{
    (*reg & (1u32 << pos)) != 0
}

/// Clear the bits of a plain register cell selected by `clrmask` placed at
/// `pos`.
pub fn reg_clr_val_inplace(reg: &mut u32, clrmask: u32, pos: u32)
    requires
        pos < 32,
        spec_mask_fits(clrmask, pos),
    ensures
        *final(reg) == (*old(reg) & !(clrmask << pos)),
        forall|i: u32|
            i < 32 ==> spec_bit(*final(reg), i) == (spec_bit(*old(reg), i) && !(i >= pos
                && spec_bit(clrmask, (i - pos) as u32))),
{
    *reg = *reg & !(clrmask << pos);
    proof {
        lemma_clr_masked_effect(*old(reg), clrmask, pos);
    }
}

/// Write the bits of a plain register cell selected by `setmask` placed at
/// `pos` to the corresponding bits of `val`; `val` may only carry bits
/// inside `setmask`.
pub fn reg_set_val_inplace(reg: &mut u32, val: u32, setmask: u32, pos: u32)
    requires
        pos < 32,
        spec_mask_fits(setmask, pos),
        val & !setmask == 0,
    ensures
        *final(reg) == ((*old(reg) & !(setmask << pos)) | ((val & setmask) << pos)),
        forall|i: u32|
            i < 32 && i >= pos && spec_bit(setmask, (i - pos) as u32) ==> spec_bit(*final(reg), i)
                == spec_bit(val, (i - pos) as u32),
        forall|i: u32|
            i < 32 && !(i >= pos && spec_bit(setmask, (i - pos) as u32)) ==> spec_bit(
                *final(reg),
                i,
            ) == spec_bit(*old(reg), i),
{
    let current = *reg;
    let mask = setmask << pos;
    *reg = (current & !mask) | ((val & setmask) << pos);
    proof {
        lemma_set_masked_effect(current, val, setmask, pos);
    }
}

/// Read a plain register cell shifted right by `pos` and masked by
/// `rdmask`.
pub fn reg_read_val_inplace(reg: &u32, rdmask: u32, pos: u32) -> (r: u32)
    requires
        pos < 32,
        spec_mask_fits(rdmask, pos),
    ensures
        r == ((*reg >> pos) & rdmask),
{
    (*reg >> pos) & rdmask
}

} // verus!
