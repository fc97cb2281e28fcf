use stm32f429_bringup::flash::{FLASH_ACR, flash_set_wait_states};
use stm32f429_bringup::gpio::{
    GPIO_PIN_3, GPIOX_AFRH, GPIOX_AFRL, GPIOX_BSRR, GPIOX_IDR, GPIOX_ODR, GPIOX_OTYPER, GpioMode,
    GpioType, PinState, gpio_get_pin_state, gpio_set_af, gpio_set_mode, gpio_set_mode_analog,
    gpio_set_mode_input, gpio_set_pin_state, gpio_set_type,
};
use stm32f429_bringup::led::{led_init, led_off, led_on, led_toggle};
use stm32f429_bringup::pwr::{PWR_CR, pwr_enable_overdrive, pwr_set_regulator_voltage_scale};
use stm32f429_bringup::rcc::{
    RCC_AHB1ENR, RCC_APB1ENR, RCC_APB2ENR, RCC_CFGR, RCC_CR, RCC_PLLCFGR, rcc_enable_gpio_clock,
    rcc_enable_power_clock, rcc_enable_syscfg_clock, rcc_configure_pll_180mhz,
};
use stm32f429_bringup::reg_cpu_cortex_m4::{STCSR_BASE, STCVR_BASE, STRVR_BASE};
use stm32f429_bringup::reg_mcu_stm32f429zi::{
    FLASH_INTERFACE_BASE, GPIOA_BASE, GPIOB_BASE, GPIOG_BASE, IRQn, PWR_BASE, RCC_BASE,
};
use stm32f429_bringup::reg_space::RegisterSpace;
use stm32f429_bringup::reg_utils::{reg_read, reg_set_bit, reg_write};
use stm32f429_bringup::system_clock::{system_clock_output_pa8, system_clock_setup};
use stm32f429_bringup::systick_delay::{delay_ms, systick_init};

#[test]
fn gpio_mode_writes_pin_field() {
    let mut mem = RegisterSpace::new();
    gpio_set_mode(&mut mem, GPIOB_BASE, 5, GpioMode::Alternate);
    assert_eq!(reg_read(&mem, GPIOB_BASE), 2 << 10);

    gpio_set_mode_analog(&mut mem, GPIOB_BASE, 0);
    assert_eq!(reg_read(&mem, GPIOB_BASE), (2 << 10) | 3);

    gpio_set_mode_input(&mut mem, GPIOB_BASE, 5);
    assert_eq!(reg_read(&mem, GPIOB_BASE), 3);
}

#[test]
fn gpio_type_writes_pin_bit() {
    let mut mem = RegisterSpace::new();
    gpio_set_type(&mut mem, GPIOB_BASE, GPIO_PIN_3, GpioType::OpenDrain);
    assert_eq!(reg_read(&mem, GPIOB_BASE + GPIOX_OTYPER), 1 << 3);
    gpio_set_type(&mut mem, GPIOB_BASE, GPIO_PIN_3, GpioType::PushPull);
    assert_eq!(reg_read(&mem, GPIOB_BASE + GPIOX_OTYPER), 0);
}

#[test]
fn gpio_af_uses_low_and_high_registers() {
    let mut mem = RegisterSpace::new();
    gpio_set_af(&mut mem, GPIOB_BASE, 2, 7);
    assert_eq!(reg_read(&mem, GPIOB_BASE + GPIOX_AFRL), 7 << 8);
    assert_eq!(reg_read(&mem, GPIOB_BASE + GPIOX_AFRH), 0);

    gpio_set_af(&mut mem, GPIOB_BASE, 10, 0xF);
    assert_eq!(reg_read(&mem, GPIOB_BASE + GPIOX_AFRH), 0xF << 8);
}

#[test]
fn gpio_pin_state_writes_bsrr() {
    let mut mem = RegisterSpace::new();
    gpio_set_pin_state(&mut mem, GPIOB_BASE, 4, PinState::High);
    assert_eq!(reg_read(&mem, GPIOB_BASE + GPIOX_BSRR), 1 << 4);

    gpio_set_pin_state(&mut mem, GPIOB_BASE, 4, PinState::Low);
    assert_eq!(reg_read(&mem, GPIOB_BASE + GPIOX_BSRR), 1 << 20);

    // Toggle reads the current output state: low output sets the pin...
    gpio_set_pin_state(&mut mem, GPIOB_BASE, 4, PinState::Toggle);
    assert_eq!(reg_read(&mem, GPIOB_BASE + GPIOX_BSRR), 1 << 4);

    // ...and a high output resets it.
    reg_write(&mut mem, GPIOB_BASE + GPIOX_ODR, 1 << 4);
    gpio_set_pin_state(&mut mem, GPIOB_BASE, 4, PinState::Toggle);
    assert_eq!(reg_read(&mem, GPIOB_BASE + GPIOX_BSRR), 1 << 20);
}

#[test]
fn gpio_pin_state_reads_idr() {
    let mut mem = RegisterSpace::new();
    assert!(!gpio_get_pin_state(&mem, GPIOB_BASE, 9));
    reg_write(&mut mem, GPIOB_BASE + GPIOX_IDR, 1 << 9);
    assert!(gpio_get_pin_state(&mem, GPIOB_BASE, 9));
}

#[test]
fn rcc_gpio_clock_bits() {
    let mut mem = RegisterSpace::new();
    let ahb1enr = RCC_BASE + RCC_AHB1ENR;

    rcc_enable_gpio_clock(&mut mem, GPIOA_BASE);
    assert_eq!(reg_read(&mem, ahb1enr), 1);
    rcc_enable_gpio_clock(&mut mem, GPIOG_BASE);
    assert_eq!(reg_read(&mem, ahb1enr), 1 | (1 << 6));

    // An address that is no GPIO port changes nothing.
    rcc_enable_gpio_clock(&mut mem, 0x1234_5678);
    assert_eq!(reg_read(&mem, ahb1enr), 1 | (1 << 6));
}

#[test]
fn rcc_interface_clocks() {
    let mut mem = RegisterSpace::new();
    rcc_enable_power_clock(&mut mem);
    assert_eq!(reg_read(&mem, RCC_BASE + RCC_APB1ENR), 1 << 28);
    rcc_enable_syscfg_clock(&mut mem);
    assert_eq!(reg_read(&mem, RCC_BASE + RCC_APB2ENR), 1 << 14);
}

#[test]
fn pll_configuration_registers() {
    let mut mem = RegisterSpace::new();
    rcc_configure_pll_180mhz(&mut mem);

    // PLLM = 8, PLLN = 180, PLLP = 0 (/2).
    assert_eq!(reg_read(&mem, RCC_BASE + RCC_PLLCFGR), 8 | (180 << 6));
    // AHB /1, APB1 = 0b101, APB2 = 0b100, SW = 0b10.
    assert_eq!(
        reg_read(&mem, RCC_BASE + RCC_CFGR),
        (0b101 << 10) | (0b100 << 13) | 0b10
    );
    // PLLON.
    assert_eq!(reg_read(&mem, RCC_BASE + RCC_CR), 1 << 24);
}

#[test]
fn pll_configuration_preserves_other_bits() {
    let mut mem = RegisterSpace::new();
    reg_write(&mut mem, RCC_BASE + RCC_PLLCFGR, 0xFFFF_FFFF);
    rcc_configure_pll_180mhz(&mut mem);

    // Bits 15 and 18..=31 of PLLCFGR keep their old value; the three
    // written fields read back exactly.
    let pllcfgr = reg_read(&mem, RCC_BASE + RCC_PLLCFGR);
    assert_eq!(pllcfgr & 0x3F, 8);
    assert_eq!((pllcfgr >> 6) & 0x1FF, 180);
    assert_eq!((pllcfgr >> 16) & 0x3, 0);
    assert_eq!(pllcfgr & 0x8000, 0x8000);
    assert_eq!(pllcfgr >> 18, 0x3FFF);
}

#[test]
fn flash_wait_states_field() {
    let mut mem = RegisterSpace::new();
    flash_set_wait_states(&mut mem, 5);
    assert_eq!(reg_read(&mem, FLASH_INTERFACE_BASE + FLASH_ACR), 5);
    // Only the four low-order bits count.
    flash_set_wait_states(&mut mem, 20);
    assert_eq!(reg_read(&mem, FLASH_INTERFACE_BASE + FLASH_ACR), 4);
}

#[test]
fn pwr_scale_and_overdrive() {
    let mut mem = RegisterSpace::new();
    pwr_set_regulator_voltage_scale(&mut mem, 3);
    assert_eq!(reg_read(&mem, PWR_BASE + PWR_CR), 3 << 14);
    // Only the two low-order bits of the scale count.
    pwr_set_regulator_voltage_scale(&mut mem, 5);
    assert_eq!(reg_read(&mem, PWR_BASE + PWR_CR), 1 << 14);

    pwr_enable_overdrive(&mut mem);
    assert_eq!(
        reg_read(&mem, PWR_BASE + PWR_CR),
        (1 << 14) | (1 << 16) | (1 << 17)
    );
}

#[test]
fn full_clock_setup_register_state() {
    let mut mem = RegisterSpace::new();
    system_clock_setup(&mut mem);

    assert_eq!(reg_read(&mem, FLASH_INTERFACE_BASE + FLASH_ACR), 5);
    assert_eq!(reg_read(&mem, RCC_BASE + RCC_APB1ENR), 1 << 28);
    assert_eq!(
        reg_read(&mem, PWR_BASE + PWR_CR),
        (3 << 14) | (1 << 16) | (1 << 17)
    );
    assert_eq!(reg_read(&mem, RCC_BASE + RCC_PLLCFGR), 8 | (180 << 6));
    assert_eq!(
        reg_read(&mem, RCC_BASE + RCC_CFGR),
        (0b101 << 10) | (0b100 << 13) | 0b10
    );
    assert_eq!(reg_read(&mem, RCC_BASE + RCC_CR), 1 << 24);
}

#[test]
fn clock_output_pa8_register_state() {
    let mut mem = RegisterSpace::new();
    system_clock_output_pa8(&mut mem);

    assert_eq!(reg_read(&mem, RCC_BASE + RCC_AHB1ENR), 1);
    // PA8 alternate mode at very high speed, AF0.
    assert_eq!(reg_read(&mem, GPIOA_BASE), 2 << 16);
    assert_eq!(reg_read(&mem, GPIOA_BASE + 0x08), 3 << 16);
    assert_eq!(reg_read(&mem, GPIOA_BASE + GPIOX_AFRH), 0);
    // MCO1 source = PLL (0b11 at 21), prescaler = /4 (0b110 at 24).
    assert_eq!(
        reg_read(&mem, RCC_BASE + RCC_CFGR),
        (0b11 << 21) | (0b110 << 24)
    );
}

#[test]
fn led_sequence_register_state() {
    let mut mem = RegisterSpace::new();
    led_init(&mut mem);

    // GPIOG clock on, PG13 as push-pull output.
    assert_eq!(reg_read(&mem, RCC_BASE + RCC_AHB1ENR), 1 << 6);
    assert_eq!(reg_read(&mem, GPIOG_BASE), 1 << 26);
    assert_eq!(reg_read(&mem, GPIOG_BASE + GPIOX_OTYPER), 0);

    led_on(&mut mem);
    assert_eq!(reg_read(&mem, GPIOG_BASE + GPIOX_BSRR), 1 << 13);
    led_off(&mut mem);
    assert_eq!(reg_read(&mem, GPIOG_BASE + GPIOX_BSRR), 1 << 29);

    // Toggle goes by the current ODR state of PG13.
    led_toggle(&mut mem);
    assert_eq!(reg_read(&mem, GPIOG_BASE + GPIOX_BSRR), 1 << 13);
    reg_write(&mut mem, GPIOG_BASE + GPIOX_ODR, 1 << 13);
    led_toggle(&mut mem);
    assert_eq!(reg_read(&mem, GPIOG_BASE + GPIOX_BSRR), 1 << 29);
}

#[test]
fn systick_init_and_delay() {
    let mut mem = RegisterSpace::new();
    systick_init(&mut mem);
    assert_eq!(reg_read(&mem, STCSR_BASE), 1);
    assert_eq!(reg_read(&mem, STRVR_BASE), 0x00FF_FFFF);
    assert_eq!(reg_read(&mem, STCVR_BASE), 0);

    // A zero delay changes nothing.
    delay_ms(&mut mem, 0);
    assert_eq!(reg_read(&mem, STRVR_BASE), 0x00FF_FFFF);

    // With COUNTFLAG present the delay reprograms the reload and current
    // values.
    reg_set_bit(&mut mem, STCSR_BASE, 16, true);
    delay_ms(&mut mem, 3);
    assert_eq!(reg_read(&mem, STRVR_BASE), 22_499);
    assert_eq!(reg_read(&mem, STCVR_BASE), 0);
}

#[test]
fn irq_numbers() {
    assert_eq!(IRQn::WWDG.irq_number(), 0);
    assert_eq!(IRQn::RCC.irq_number(), 5);
    assert_eq!(IRQn::EXTI0.irq_number(), 6);
    assert_eq!(IRQn::TIM2.irq_number(), 28);
    assert_eq!(IRQn::OTG_FS.irq_number(), 67);
    assert_eq!(IRQn::FPU.irq_number(), 81);
}
