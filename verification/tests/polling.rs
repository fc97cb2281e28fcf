use stm32f429_bringup::reg_space::RegisterSpace;
use stm32f429_bringup::reg_utils::{reg_wait_bit, reg_wait_bits, reg_write};

// An already-satisfied condition succeeds at once, without consuming the
// attempt budget — even a budget of 1 is enough, and the wait-forever
// sentinel returns too.
#[test]
fn wait_bit_succeeds_immediately_when_satisfied() {
    let addr = 0x40;
    let mut mem = RegisterSpace::new();
    reg_write(&mut mem, addr, 0b100);

    assert!(reg_wait_bit(&mem, addr, 2, true, 1));
    assert!(reg_wait_bit(&mem, addr, 2, true, 1_000_000));
    assert!(reg_wait_bit(&mem, addr, 2, true, 0));
    assert!(reg_wait_bit(&mem, addr, 3, false, 1));
}

// A condition that never becomes true with a finite budget returns
// failure, never success.
#[test]
fn wait_bit_times_out_when_never_true() {
    let addr = 0x40;
    let mut mem = RegisterSpace::new();
    reg_write(&mut mem, addr, 0b100);

    assert!(!reg_wait_bit(&mem, addr, 2, false, 1));
    assert!(!reg_wait_bit(&mem, addr, 2, false, 1000));
    assert!(!reg_wait_bit(&mem, addr, 5, true, 1000));
}

#[test]
fn wait_bits_succeeds_immediately_when_satisfied() {
    let addr = 0x80;
    let mut mem = RegisterSpace::new();
    reg_write(&mut mem, addr, 0b10_1100);

    assert!(reg_wait_bits(&mem, addr, 0b1011, 0xF, 2, 1));
    assert!(reg_wait_bits(&mem, addr, 0b1011, 0xF, 2, 0));
}

#[test]
fn wait_bits_times_out_when_never_true() {
    let addr = 0x80;
    let mut mem = RegisterSpace::new();
    reg_write(&mut mem, addr, 0b10_1100);

    assert!(!reg_wait_bits(&mem, addr, 0b0000, 0xF, 2, 1));
    assert!(!reg_wait_bits(&mem, addr, 0b1111, 0xF, 2, 500));
}
