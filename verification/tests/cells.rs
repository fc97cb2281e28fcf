use stm32f429_bringup::reg_utils::{
    reg_clr_bit_inplace, reg_clr_val_inplace, reg_read_bit_inplace, reg_read_inplace,
    reg_read_val_inplace, reg_set_bit_inplace, reg_set_val_inplace, reg_toggle_bit_inplace,
    reg_write_inplace,
};
use stm32f429_bringup::registers;

#[test]
fn inplace_write_read() {
    let mut cell: u32 = 0;
    reg_write_inplace(&mut cell, 0xABCD_1234);
    assert_eq!(reg_read_inplace(&cell), 0xABCD_1234);
}

#[test]
fn inplace_bit_operations() {
    let mut cell: u32 = 0;
    reg_set_bit_inplace(&mut cell, 3);
    assert_eq!(cell, 0b1000);
    assert!(reg_read_bit_inplace(&cell, 3));
    assert!(!reg_read_bit_inplace(&cell, 2));

    reg_clr_bit_inplace(&mut cell, 3);
    assert_eq!(cell, 0);

    reg_toggle_bit_inplace(&mut cell, 31);
    assert_eq!(cell, 0x8000_0000);
    reg_toggle_bit_inplace(&mut cell, 31);
    assert_eq!(cell, 0);
}

#[test]
fn inplace_masked_operations() {
    let mut cell: u32 = 0xFFFF_FFFF;
    reg_clr_val_inplace(&mut cell, 0xF, 8);
    assert_eq!(cell, 0xFFFF_F0FF);

    reg_set_val_inplace(&mut cell, 0xA, 0xF, 8);
    assert_eq!(cell, 0xFFFF_FAFF);
    assert_eq!(reg_read_val_inplace(&cell, 0xF, 8), 0xA);
}

// The scenario of the word-cell example, run on a plain memory cell: the
// register helpers are reusable for ordinary memory as well as hardware
// addresses.
#[test]
fn field_scenario_on_plain_cell() {
    let mut cell: u32 = 0b0000_0000;
    reg_set_val_inplace(&mut cell, 0b101, 0b111, 2);
    assert_eq!(cell, 0b0001_0100);
    assert_eq!(reg_read_val_inplace(&cell, 0b111, 2), 0b101);
    reg_toggle_bit_inplace(&mut cell, 2);
    reg_toggle_bit_inplace(&mut cell, 2);
    assert_eq!(cell, 0b0001_0100);
}

#[test]
fn reference_helpers_write_and_read() {
    let mut cell: u32 = 0;
    registers::reg_write(&mut cell, 77);
    assert_eq!(registers::reg_read(&cell), 77);

    registers::reg_set_bit(&mut cell, 8);
    assert_eq!(cell, 77 | 0x100);
    assert!(registers::reg_read_bit(&cell, 8));
    registers::reg_clr_bit(&mut cell, 8);
    assert_eq!(cell, 77);

    registers::reg_clr_val(&mut cell, 0xFF, 0);
    assert_eq!(cell, 0);

    registers::reg_set_val(&mut cell, 0b11, 0b11, 4);
    assert_eq!(cell, 0b11_0000);
    assert_eq!(registers::reg_read_val(&cell, 0b11, 4), 0b11);

    // Only the bits of the value inside the mask are used.
    registers::reg_set_val(&mut cell, 0xFF, 0x0F, 8);
    assert_eq!(cell, 0b11_0000 | 0xF00);
}

#[test]
fn pin_mask_constants() {
    assert_eq!(registers::GPIO_PIN_0, 1);
    assert_eq!(registers::GPIO_PIN_13, 0x2000);
    assert_eq!(registers::GPIO_PIN_15, 0x8000);
    assert_eq!(registers::GPIO_PIN_ALL, 0xFFFF);
    assert_eq!(registers::RCC_BASE, 0x4002_3800);
    assert_eq!(registers::NVIC_BASE, 0xE000_E100);
}
