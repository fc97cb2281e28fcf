use stm32f429_bringup::bit_masks::{
    BYTE_1, HALF_WORD_1, NIBBLE_3, NIBBLE_7, mask_n_bits, single_bit,
};
use stm32f429_bringup::reg_space::RegisterSpace;
use stm32f429_bringup::reg_utils::{
    reg_clr_bit, reg_clr_val, reg_count_set_bits, reg_find_first_set, reg_mask_fits, reg_read,
    reg_read_bit, reg_read_bits, reg_read_val_masked, reg_set_bit, reg_set_bit_high, reg_set_bits,
    reg_set_val, reg_set_val_masked, reg_test_and_clear, reg_test_and_set, reg_toggle_bit,
    reg_toggle_bits, reg_write,
};

#[test]
fn mask_n_bits_values() {
    assert_eq!(mask_n_bits(0), 0);
    assert_eq!(mask_n_bits(1), 1);
    assert_eq!(mask_n_bits(4), 0xF);
    assert_eq!(mask_n_bits(16), 0xFFFF);
    assert_eq!(mask_n_bits(31), 0x7FFF_FFFF);
    assert_eq!(mask_n_bits(32), 0xFFFF_FFFF);
    assert_eq!(mask_n_bits(33), 0xFFFF_FFFF);
}

#[test]
fn predefined_masks() {
    assert_eq!(NIBBLE_3, 0x0000F000);
    assert_eq!(NIBBLE_7, 0xF0000000);
    assert_eq!(BYTE_1, 0x0000FF00);
    assert_eq!(HALF_WORD_1, 0xFFFF0000);
}

#[test]
fn single_bit_values() {
    assert_eq!(single_bit(0), 1);
    assert_eq!(single_bit(5), 0x20);
    assert_eq!(single_bit(31), 0x8000_0000);
    assert_eq!(single_bit(32), 0);
    assert_eq!(single_bit(200), 0);
}

#[test]
fn fresh_space_reads_zero() {
    let mem = RegisterSpace::new();
    assert_eq!(reg_read(&mem, 0x4002_3800), 0);
    assert_eq!(reg_read(&mem, 0), 0);
}

#[test]
fn whole_register_write_read() {
    let mut mem = RegisterSpace::new();
    reg_write(&mut mem, 0x100, 0xDEAD_BEEF);
    reg_set_val(&mut mem, 0x104, 0x1234_5678);
    assert_eq!(reg_read(&mem, 0x100), 0xDEAD_BEEF);
    assert_eq!(reg_read(&mem, 0x104), 0x1234_5678);
    // An untouched neighbour still reads as zero.
    assert_eq!(reg_read(&mem, 0x108), 0);
    // Overwriting replaces the whole value.
    reg_write(&mut mem, 0x100, 1);
    assert_eq!(reg_read(&mem, 0x100), 1);
}

// Example scenario: cell 0xA of the word-indexed register file (byte
// address 0x28), initial value 0b0000_0000.  Setting the field at
// position 2, width 3, value 0b101 yields 0b0001_0100; reading the field
// back yields 0b101; toggling bit 2 twice restores 0b0001_0100.
#[test]
fn field_scenario_on_one_cell() {
    let addr = 0xA * 4;
    let mut mem = RegisterSpace::new();
    assert_eq!(reg_read(&mem, addr), 0b0000_0000);

    reg_set_bits(&mut mem, addr, 0b101, 2, 3);
    assert_eq!(reg_read(&mem, addr), 0b0001_0100);
    assert_eq!(reg_read_bits(&mem, addr, 2, 3), 0b101);

    reg_toggle_bit(&mut mem, addr, 2);
    assert_eq!(reg_read(&mem, addr), 0b0001_0000);
    reg_toggle_bit(&mut mem, addr, 2);
    assert_eq!(reg_read(&mem, addr), 0b0001_0100);
}

// Round trip plus non-interference: the written field reads back exactly
// and every bit outside the field is unchanged.
#[test]
fn set_bits_round_trip_preserves_outside() {
    let addr = 0x200;
    let mut mem = RegisterSpace::new();
    reg_write(&mut mem, addr, 0xFFFF_FFFF);
    reg_set_bits(&mut mem, addr, 0x5, 8, 4);
    assert_eq!(reg_read_bits(&mem, addr, 8, 4), 0x5);
    assert_eq!(reg_read(&mem, addr), 0xFFFF_F5FF);

    // Full-width field replaces everything.
    reg_set_bits(&mut mem, addr, 0xCAFE_F00D, 0, 32);
    assert_eq!(reg_read(&mem, addr), 0xCAFE_F00D);

    // Top bit field.
    reg_set_bits(&mut mem, addr, 1, 31, 1);
    assert_eq!(reg_read(&mem, addr), 0xCAFE_F00D | 0x8000_0000);
}

// Set then clear (and clear then set) on one bit: the final state depends
// only on the last operation applied.
#[test]
fn set_then_clear_is_last_write_wins() {
    let addr = 0x300;
    let mut mem = RegisterSpace::new();
    reg_write(&mut mem, addr, 0xAAAA_AAAA);

    reg_set_bit(&mut mem, addr, 0, true);
    reg_set_bit(&mut mem, addr, 0, false);
    assert_eq!(reg_read(&mem, addr), 0xAAAA_AAAA);

    reg_set_bit(&mut mem, addr, 0, false);
    reg_set_bit(&mut mem, addr, 0, true);
    assert_eq!(reg_read(&mem, addr), 0xAAAA_AAAB);

    // Repeating the last operation changes nothing further.
    reg_set_bit_high(&mut mem, addr, 0);
    assert_eq!(reg_read(&mem, addr), 0xAAAA_AAAB);
    reg_clr_bit(&mut mem, addr, 1);
    reg_clr_bit(&mut mem, addr, 1);
    assert_eq!(reg_read(&mem, addr), 0xAAAA_AAA9);
}

// Toggle applied twice restores the original value exactly, for a single
// bit and for a multi-bit mask.
#[test]
fn toggle_twice_restores() {
    let addr = 0x400;
    let mut mem = RegisterSpace::new();
    reg_write(&mut mem, addr, 0x1234_5678);

    reg_toggle_bit(&mut mem, addr, 7);
    assert_ne!(reg_read(&mem, addr), 0x1234_5678);
    reg_toggle_bit(&mut mem, addr, 7);
    assert_eq!(reg_read(&mem, addr), 0x1234_5678);

    reg_toggle_bits(&mut mem, addr, 0b1011, 4);
    reg_toggle_bits(&mut mem, addr, 0b1011, 4);
    assert_eq!(reg_read(&mem, addr), 0x1234_5678);
}

#[test]
fn read_bit_and_read_bits() {
    let addr = 0x500;
    let mut mem = RegisterSpace::new();
    reg_write(&mut mem, addr, 0b1010_0100);
    assert!(reg_read_bit(&mem, addr, 2));
    assert!(!reg_read_bit(&mem, addr, 3));
    assert!(reg_read_bit(&mem, addr, 7));
    assert_eq!(reg_read_bits(&mem, addr, 2, 6), 0b101001);
    assert_eq!(reg_read_bits(&mem, addr, 0, 32), 0b1010_0100);
}

#[test]
fn masked_set_clear_read() {
    let addr = 0x600;
    let mut mem = RegisterSpace::new();
    reg_write(&mut mem, addr, 0xFFFF_FFFF);

    // Clear bits 4..=6 through a mask.
    reg_clr_val(&mut mem, addr, 0b111, 4);
    assert_eq!(reg_read(&mem, addr), 0xFFFF_FF8F);

    // Write 0b101 into bits 4..=6; the unselected bits stay.
    reg_set_val_masked(&mut mem, addr, 0b101, 0b111, 4);
    assert_eq!(reg_read(&mem, addr), 0xFFFF_FFDF);
    assert_eq!(reg_read_val_masked(&mem, addr, 0b111, 4), 0b101);

    // A sparse (non-contiguous) mask only touches its own bits.
    reg_write(&mut mem, addr, 0);
    reg_set_val_masked(&mut mem, addr, 0b100_0001, 0b101_0101, 8);
    assert_eq!(reg_read(&mem, addr), 0b100_0001 << 8);
    assert_eq!(reg_read_val_masked(&mem, addr, 0b101_0101, 8), 0b100_0001);
}

// The mask-fits check is permissive for sparse masks: it only requires
// that no set bit of the shifted mask passes bit 31.
#[test]
fn mask_fits_check() {
    assert!(reg_mask_fits(0, 0));
    assert!(reg_mask_fits(0, 31));
    assert!(reg_mask_fits(0b101, 2));
    assert!(reg_mask_fits(1, 31));
    assert!(reg_mask_fits(0b101, 29));
    assert!(!reg_mask_fits(0b101, 30));
    assert!(!reg_mask_fits(0x8000_0000, 1));
    assert!(reg_mask_fits(0xFFFF_FFFF, 0));
    assert!(!reg_mask_fits(0xFFFF_FFFF, 1));
}

#[test]
fn test_and_set_and_clear_report_prior_value() {
    let addr = 0x700;
    let mut mem = RegisterSpace::new();
    reg_write(&mut mem, addr, 0b10);

    assert!(!reg_test_and_set(&mut mem, addr, 0));
    assert_eq!(reg_read(&mem, addr), 0b11);
    assert!(reg_test_and_set(&mut mem, addr, 0));
    assert_eq!(reg_read(&mem, addr), 0b11);

    assert!(reg_test_and_clear(&mut mem, addr, 1));
    assert_eq!(reg_read(&mem, addr), 0b01);
    assert!(!reg_test_and_clear(&mut mem, addr, 1));
    assert_eq!(reg_read(&mem, addr), 0b01);
}

#[test]
fn count_set_bits_values() {
    let addr = 0x800;
    let mut mem = RegisterSpace::new();
    assert_eq!(reg_count_set_bits(&mem, addr), 0);
    reg_write(&mut mem, addr, 0xF0F0_F0F0);
    assert_eq!(reg_count_set_bits(&mem, addr), 16);
    reg_write(&mut mem, addr, 0xFFFF_FFFF);
    assert_eq!(reg_count_set_bits(&mem, addr), 32);
    reg_write(&mut mem, addr, 0x8000_0001);
    assert_eq!(reg_count_set_bits(&mem, addr), 2);
}

#[test]
fn find_first_set_distinguishes_empty() {
    let addr = 0x900;
    let mut mem = RegisterSpace::new();
    assert_eq!(reg_find_first_set(&mem, addr), None);
    reg_write(&mut mem, addr, 0b1000);
    assert_eq!(reg_find_first_set(&mem, addr), Some(3));
    reg_write(&mut mem, addr, 0x8000_0000);
    assert_eq!(reg_find_first_set(&mem, addr), Some(31));
    reg_write(&mut mem, addr, 0xFFFF_FFFF);
    assert_eq!(reg_find_first_set(&mem, addr), Some(0));
    reg_write(&mut mem, addr, 0);
    assert_eq!(reg_find_first_set(&mem, addr), None);
}

#[test]
fn modify_applies_function() {
    let addr = 0xA00;
    let mut mem = RegisterSpace::new();
    reg_write(&mut mem, addr, 0x0F0);
    stm32f429_bringup::reg_utils::reg_modify(&mut mem, addr, |v| v | 0xF00);
    assert_eq!(reg_read(&mem, addr), 0xFF0);
}
