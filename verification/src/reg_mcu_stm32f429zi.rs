//! STM32F429ZI peripheral base addresses and MCU interrupt numbers.
//!
//! Raw memory-mapped base addresses for STM32F429ZI (and compatible
//! STM32F42x/43x family parts), grouped by bus (AHB1, AHB2, APB1, APB2),
//! plus the MCU external interrupt numbers (IRQn).  These tables are data:
//! the register helpers take the addresses they form as plain values.
//!
//! Only touch peripherals whose clocks are enabled in RCC, and consult the
//! device reference manual for register layouts and bit definitions.

use vstd::prelude::*;

verus! {

/// GPIOA base address
pub const GPIOA_BASE: u32 = 0x4002_0000;

/// GPIOB base address
pub const GPIOB_BASE: u32 = 0x4002_0400;

/// GPIOC base address
pub const GPIOC_BASE: u32 = 0x4002_0800;

/// GPIOD base address
pub const GPIOD_BASE: u32 = 0x4002_0C00;

/// GPIOE base address
pub const GPIOE_BASE: u32 = 0x4002_1000;

/// GPIOF base address
pub const GPIOF_BASE: u32 = 0x4002_1400;

/// GPIOG base address
pub const GPIOG_BASE: u32 = 0x4002_1800;

/// GPIOH base address
pub const GPIOH_BASE: u32 = 0x4002_1C00;

/// GPIOI base address
pub const GPIOI_BASE: u32 = 0x4002_2000;

/// GPIOJ base address
pub const GPIOJ_BASE: u32 = 0x4002_2400;

/// GPIOK base address
pub const GPIOK_BASE: u32 = 0x4002_2800;

/// Backup SRAM
pub const BKPSRAM_BASE: u32 = 0x4002_4000;

/// DMA1
pub const DMA1_BASE: u32 = 0x4002_6000;

/// DMA2
pub const DMA2_BASE: u32 = 0x4002_6400;

/// Ethernet MAC (start)
pub const ETH_BASE: u32 = 0x4002_8000;

/// CRC base address
pub const CRC_BASE: u32 = 0x4002_3000;

/// RCC base address
pub const RCC_BASE: u32 = 0x4002_3800;

/// Flash interface register
pub const FLASH_INTERFACE_BASE: u32 = 0x4002_3C00;

/// USB OTG HS
pub const USB_OTG_HS_BASE: u32 = 0x4004_0000;

/// DMA2D
pub const DMA2D_BASE: u32 = 0x4002_B000;

/// Ethernet MAC
pub const ETH_MAC_BASE: u32 = 0x4002_8000;

/// SYSCFG base address
pub const SYSCFG_BASE: u32 = 0x4001_3800;

/// EXTI base address
pub const EXTI_BASE: u32 = 0x4001_3C00;

/// SPI1
pub const SPI1_BASE: u32 = 0x4001_3000;

/// SPI4
pub const SPI4_BASE: u32 = 0x4001_3400;

/// TIM1
pub const TIM1_BASE: u32 = 0x4001_0000;

/// TIM8
pub const TIM8_BASE: u32 = 0x4001_0400;

/// USART1
pub const USART1_BASE: u32 = 0x4001_1000;

/// USART6
pub const USART6_BASE: u32 = 0x4001_1400;

/// ADC1-3 shared base
pub const ADC1_BASE: u32 = 0x4001_2000;

/// LCD-TFT
pub const LCD_TFT_BASE: u32 = 0x4001_6800;

/// SAI1
pub const SAI1_BASE: u32 = 0x4001_5800;

/// SPI6
pub const SPI6_BASE: u32 = 0x4001_5400;

/// SPI5
pub const SPI5_BASE: u32 = 0x4001_5000;

/// TIM11
pub const TIM11_BASE: u32 = 0x4001_4800;

/// TIM10
pub const TIM10_BASE: u32 = 0x4001_4400;

/// TIM9
pub const TIM9_BASE: u32 = 0x4001_4000;

/// SDIO
pub const SDIO_BASE: u32 = 0x4001_2C00;

/// TIM2
pub const TIM2_BASE: u32 = 0x4000_0000;

/// TIM3
pub const TIM3_BASE: u32 = 0x4000_0400;

/// TIM4
pub const TIM4_BASE: u32 = 0x4000_0800;

/// TIM5
pub const TIM5_BASE: u32 = 0x4000_0C00;

/// TIM6
pub const TIM6_BASE: u32 = 0x4000_1000;

/// TIM7
pub const TIM7_BASE: u32 = 0x4000_1400;

/// TIM12
pub const TIM12_BASE: u32 = 0x4000_1800;

/// TIM13
pub const TIM13_BASE: u32 = 0x4000_1C00;

/// TIM14
pub const TIM14_BASE: u32 = 0x4000_2000;

/// WWDG (Window Watchdog Timer)
pub const WWDG_BASE: u32 = 0x4000_2C00;

/// IWDG (Independent Watchdog Timer)
pub const IWDG_BASE: u32 = 0x4000_3000;

/// SPI2/I2S2
pub const SPI2_BASE: u32 = 0x4000_3800;

/// SPI3/I2S3
pub const SPI3_BASE: u32 = 0x4000_3C00;

/// I2S3ext
pub const I2S3EXT_BASE: u32 = 0x4000_4000;

/// I2S2ext
pub const I2S2EXT_BASE: u32 = 0x4000_3400;

/// USART2
pub const USART2_BASE: u32 = 0x4000_4400;

/// USART3
pub const USART3_BASE: u32 = 0x4000_4800;

/// UART4
pub const UART4_BASE: u32 = 0x4000_4C00;

/// UART5
pub const UART5_BASE: u32 = 0x4000_5000;

/// I2C1
pub const I2C1_BASE: u32 = 0x4000_5400;

/// I2C2
pub const I2C2_BASE: u32 = 0x4000_5800;

/// I2C3
pub const I2C3_BASE: u32 = 0x4000_5C00;

/// CAN1
pub const CAN1_BASE: u32 = 0x4000_6400;

/// CAN2
pub const CAN2_BASE: u32 = 0x4000_6800;

/// PWR (Power control)
pub const PWR_BASE: u32 = 0x4000_7000;

/// DAC (Digital-to-Analog Converter)
pub const DAC_BASE: u32 = 0x4000_7400;

/// UART7
pub const UART7_BASE: u32 = 0x4000_7800;

/// UART8
pub const UART8_BASE: u32 = 0x4000_7C00;

/// RTC & Backup Registers
pub const RTC_BKP_BASE: u32 = 0x4000_2800;

/// USB OTG FS
pub const USB_OTG_FS_BASE: u32 = 0x5000_0000;

/// DCMI (Digital Camera Interface)
pub const DCMI_BASE: u32 = 0x5005_0000;

/// RNG (Random Number Generator)
pub const RNG_BASE: u32 = 0x5006_0800;

/// Start of Cortex-M4 internal peripherals
pub const CORTEX_M4_PERIPH_BASE: u32 = 0xE000_0000;

pub const FMC_BANK1_BASE: u32 = 0x6000_0000;

pub const FMC_BANK2_BASE: u32 = 0x7000_0000;

pub const FMC_BANK3_BASE: u32 = 0x8000_0000;

pub const FMC_BANK4_BASE: u32 = 0x9000_0000;

/// FMC control register
pub const FMC_CTRL_BASE: u32 = 0xA000_0000;

pub const FMC_BANK5_BASE: u32 = 0xC000_0000;

pub const FMC_BANK6_BASE: u32 = 0xD000_0000;

/// End of Cortex-M4 internal peripherals
pub const RESERVED_E00F_FFFF: u32 = 0xE00F_FFFF;

/// End of address space
pub const RESERVED_FFFF_FFFF: u32 = 0xFFFF_FFFF;

/// Interrupt request numbers (IRQn) for STM32F4 external interrupts.
///
/// Each variant maps to one NVIC external interrupt line (not a core
/// exception); its line number is given by [`IRQn::irq_number`].
/// Enable or disable lines via NVIC_ISERx/ICERx at the Cortex-M NVIC base
/// (see the core register module).
#[allow(non_camel_case_types)]
#[derive(Copy, Clone, PartialEq, Eq, Structural, Debug)]
pub enum IRQn {
    /// WWDG Window Watchdog interrupt; Address: 0x0000 0040
    WWDG,
    /// PVD PVD through EXTI line detection interrupt; Address: 0x0000 0044
    PVD,
    /// TAMP_STAMP Tamper and TimeStamp interrupts through the EXTI line; Address: 0x0000 0048
    TAMP_STAMP,
    /// RTC_WKUP RTC Wake-up interrupt through the EXTI line; Address: 0x0000 004C
    RTC_WKUP,
    /// FLASH Flash global interrupt; Address: 0x0000 0050
    FLASH,
    /// RCC RCC global interrupt; Address: 0x0000 0054
    RCC,
    /// EXTI0 EXTI Line0 interrupt; Address: 0x0000 0058
    EXTI0,
    /// EXTI1 EXTI Line1 interrupt; Address: 0x0000 005C
    EXTI1,
    /// EXTI2 EXTI Line2 interrupt; Address: 0x0000 0060
    EXTI2,
    /// EXTI3 EXTI Line3 interrupt; Address: 0x0000 0064
    EXTI3,
    /// EXTI4 EXTI Line4 interrupt; Address: 0x0000 0068
    EXTI4,
    /// DMA1_Stream0 DMA1 Stream0 global interrupt; Address: 0x0000 006C
    DMA1_Stream0,
    /// DMA1_Stream1 DMA1 Stream1 global interrupt; Address: 0x0000 0070
    DMA1_Stream1,
    /// DMA1_Stream2 DMA1 Stream2 global interrupt; Address: 0x0000 0074
    DMA1_Stream2,
    /// DMA1_Stream3 DMA1 Stream3 global interrupt; Address: 0x0000 0078
    DMA1_Stream3,
    /// DMA1_Stream4 DMA1 Stream4 global interrupt; Address: 0x0000 007C
    DMA1_Stream4,
    /// DMA1_Stream5 DMA1 Stream5 global interrupt; Address: 0x0000 0080
    DMA1_Stream5,
    /// DMA1_Stream6 DMA1 Stream6 global interrupt; Address: 0x0000 0084
    DMA1_Stream6,
    /// ADC ADC1, ADC2 and ADC3 global interrupts; Address: 0x0000 0088
    ADC,
    /// CAN1_TX CAN1 TX interrupts; Address: 0x0000 008C
    CAN1_TX,
    /// CAN1_RX0 CAN1 RX0 interrupts; Address: 0x0000 0090
    CAN1_RX0,
    /// CAN1_RX1 CAN1 RX1 interrupt; Address: 0x0000 0094
    CAN1_RX1,
    /// CAN1_SCE CAN1 SCE interrupt; Address: 0x0000 0098
    CAN1_SCE,
    /// EXTI9_5 EXTI Line[9:5] interrupts; Address: 0x0000 009C
    EXTI9_5,
    /// TIM1_BRK_TIM9 TIM1 Break interrupt and TIM9 global interrupt; Address: 0x0000 00A0
    TIM1_BRK_TIM9,
    /// TIM1_UP_TIM10 TIM1 Update interrupt and TIM10 global interrupt; Address: 0x0000 00A4
    TIM1_UP_TIM10,
    /// TIM1_TRG_COM_TIM11 TIM1 Trigger and Commutation interrupts and TIM11 global interrupt; Address: 0x0000 00A8
    TIM1_TRG_COM_TIM11,
    /// TIM1_CC TIM1 Capture Compare interrupt; Address: 0x0000 00AC
    TIM1_CC,
    /// TIM2 TIM2 global interrupt; Address: 0x0000 00B0
    TIM2,
    /// TIM3 TIM3 global interrupt; Address: 0x0000 00B4
    TIM3,
    /// TIM4 TIM4 global interrupt; Address: 0x0000 00B8
    TIM4,
    /// I2C1_EV I2C1 event interrupt; Address: 0x0000 00BC
    I2C1_EV,
    /// I2C1_ER I2C1 error interrupt; Address: 0x0000 00C0
    I2C1_ER,
    /// I2C2_EV I2C2 event interrupt; Address: 0x0000 00C4
    I2C2_EV,
    /// I2C2_ER I2C2 error interrupt; Address: 0x0000 00C8
    I2C2_ER,
    /// SPI1 SPI1 global interrupt; Address: 0x0000 00CC
    SPI1,
    /// SPI2 SPI2 global interrupt; Address: 0x0000 00D0
    SPI2,
    /// USART1 USART1 global interrupt; Address: 0x0000 00D4
    USART1,
    /// USART2 USART2 global interrupt; Address: 0x0000 00D8
    USART2,
    /// USART3 USART3 global interrupt; Address: 0x0000 00DC
    USART3,
    /// EXTI15_10 EXTI Line[15:10] interrupts; Address: 0x0000 00E0
    EXTI15_10,
    /// RTC_Alarm RTC Alarms (A and B) through EXTI line interrupt; Address: 0x0000 00E4
    RTC_Alarm,
    /// OTG_FS_WKUP USB On-The-Go FS Wake-up through EXTI line interrupt; Address: 0x0000 00E8
    OTG_FS_WKUP,
    /// TIM8_BRK_TIM12 TIM8 Break interrupt and TIM12 global interrupt; Address: 0x0000 00EC
    TIM8_BRK_TIM12,
    /// TIM8_UP_TIM13 TIM8 Update interrupt
    TIM8_UP_TIM13,
    /// TIM8_TRG_COM_TIM14 TIM8 Trigger and Commutation interrupts and TIM14 global interrupt; Address: 0x0000 00F4
    TIM8_TRG_COM_TIM14,
    /// TIM8_CC TIM8 Capture Compare interrupt; Address: 0x0000 00F8
    TIM8_CC,
    /// DMA1_Stream7 DMA1 Stream7 global interrupt; Address: 0x0000 00FC
    DMA1_Stream7,
    /// FSMC FSMC global interrupt; Address: 0x0000 0100
    FSMC,
    /// SDIO SDIO global interrupt; Address: 0x0000 0104
    SDIO,
    /// TIM5 TIM5 global interrupt; Address: 0x0000 0108
    TIM5,
    /// SPI3 SPI3 global interrupt; Address: 0x0000 010C
    SPI3,
    /// UART4 UART4 global interrupt; Address: 0x0000 0110
    UART4,
    /// UART5 UART5 global interrupt; Address: 0x0000 0114
    UART5,
    /// TIM6_DAC TIM6 global interrupt, DAC1 and DAC2 underrun errorinterrupts; Address: 0x0000 0118
    TIM6_DAC,
    /// TIM7 TIM7 global interrupt; Address: 0x0000 011C
    TIM7,
    /// DMA2_Stream0 DMA2 Stream0 global interrupt; Address: 0x0000 0120
    DMA2_Stream0,
    /// DMA2_Stream1 DMA2 Stream1 global interrupt; Address: 0x0000 0124
    DMA2_Stream1,
    /// DMA2_Stream2 DMA2 Stream2 global interrupt; Address: 0x0000 0128
    DMA2_Stream2,
    /// DMA2_Stream3 DMA2 Stream3 global interrupt; Address: 0x0000 012C
    DMA2_Stream3,
    /// DMA2_Stream4 DMA2 Stream4 global interrupt; Address: 0x0000 0130
    DMA2_Stream4,
    /// ETH Ethernet global interrupt; Address: 0x0000 0134
    ETH,
    /// ETH_WKUP Ethernet Wake-up through EXTI lineinterrupt; Address: 0x0000 0138
    ETH_WKUP,
    /// CAN2_TX CAN2 TX interrupts; Address: 0x0000 013C
    CAN2_TX,
    /// CAN2_RX0 CAN2 RX0 interrupts; Address: 0x0000 0140
    CAN2_RX0,
    /// CAN2_RX1 CAN2 RX1 interrupt; Address: 0x0000 0144
    CAN2_RX1,
    /// CAN2_SCE CAN2 SCE interrupt; Address: 0x0000 0148
    CAN2_SCE,
    /// OTG_FS USB On The Go FS global interrupt; Address: 0x0000 014C
    OTG_FS,
    /// DMA2_Stream5 DMA2 Stream5 global interrupt; Address: 0x0000 0150
    DMA2_Stream5,
    /// DMA2_Stream6 DMA2 Stream6 global interrupt; Address: 0x0000 0154
    DMA2_Stream6,
    /// DMA2_Stream7 DMA2 Stream7 global interrupt; Address: 0x0000 0158
    DMA2_Stream7,
    /// USART6 USART6 global interrupt; Address: 0x0000 015C
    USART6,
    /// I2C3_EV I2C3 event interrupt; Address: 0x0000 0160
    I2C3_EV,
    /// I2C3_ER I2C3 error interrupt; Address: 0x0000 0164
    I2C3_ER,
    /// OTG_HS_EP1_OUT USB On The Go HS End Point 1 Out global interrupt; Address: 0x0000 0168
    OTG_HS_EP1_OUT,
    /// OTG_HS_EP1_IN USB On The Go HS End Point 1 In global interrupt; Address: 0x0000 016C
    OTG_HS_EP1_IN,
    /// OTG_HS_WKUP USB On The Go HS Wake-up through EXTI interrupt; Address: 0x0000 0170
    OTG_HS_WKUP,
    /// OTG_HS USB On The Go HS global interrupt; Address: 0x0000 0174
    OTG_HS,
    /// DCMI DCMI global interrupt; Address: 0x0000 0178
    DCMI,
    /// CRYP CRYP crypto global interrupt; Address: 0x0000 017C
    CRYP,
    /// HASH_RNG Hash and Rng global interrupt; Address: 0x0000 0180
    HASH_RNG,
    /// FPU FPU global interrupt; Address: 0x0000 0184
    FPU,
}

/// The number of NVIC interrupt lines that [`IRQn`] names.
pub const IRQN_COUNT: u32 = 82;

impl IRQn {
    /// The NVIC interrupt line number of this interrupt source.
    pub open spec fn spec_irq_number(self) -> u32 {
        match self {
            IRQn::WWDG => 0,
            IRQn::PVD => 1,
            IRQn::TAMP_STAMP => 2,
            IRQn::RTC_WKUP => 3,
            IRQn::FLASH => 4,
            IRQn::RCC => 5,
            IRQn::EXTI0 => 6,
            IRQn::EXTI1 => 7,
            IRQn::EXTI2 => 8,
            IRQn::EXTI3 => 9,
            IRQn::EXTI4 => 10,
            IRQn::DMA1_Stream0 => 11,
            IRQn::DMA1_Stream1 => 12,
            IRQn::DMA1_Stream2 => 13,
            IRQn::DMA1_Stream3 => 14,
            IRQn::DMA1_Stream4 => 15,
            IRQn::DMA1_Stream5 => 16,
            IRQn::DMA1_Stream6 => 17,
            IRQn::ADC => 18,
            IRQn::CAN1_TX => 19,
            IRQn::CAN1_RX0 => 20,
            IRQn::CAN1_RX1 => 21,
            IRQn::CAN1_SCE => 22,
            IRQn::EXTI9_5 => 23,
            IRQn::TIM1_BRK_TIM9 => 24,
            IRQn::TIM1_UP_TIM10 => 25,
            IRQn::TIM1_TRG_COM_TIM11 => 26,
            IRQn::TIM1_CC => 27,
            IRQn::TIM2 => 28,
            IRQn::TIM3 => 29,
            IRQn::TIM4 => 30,
            IRQn::I2C1_EV => 31,
            IRQn::I2C1_ER => 32,
            IRQn::I2C2_EV => 33,
            IRQn::I2C2_ER => 34,
            IRQn::SPI1 => 35,
            IRQn::SPI2 => 36,
            IRQn::USART1 => 37,
            IRQn::USART2 => 38,
            IRQn::USART3 => 39,
            IRQn::EXTI15_10 => 40,
            IRQn::RTC_Alarm => 41,
            IRQn::OTG_FS_WKUP => 42,
            IRQn::TIM8_BRK_TIM12 => 43,
            IRQn::TIM8_UP_TIM13 => 44,
            IRQn::TIM8_TRG_COM_TIM14 => 45,
            IRQn::TIM8_CC => 46,
            IRQn::DMA1_Stream7 => 47,
            IRQn::FSMC => 48,
            IRQn::SDIO => 49,
            IRQn::TIM5 => 50,
            IRQn::SPI3 => 51,
            IRQn::UART4 => 52,
            IRQn::UART5 => 53,
            IRQn::TIM6_DAC => 54,
            IRQn::TIM7 => 55,
            IRQn::DMA2_Stream0 => 56,
            IRQn::DMA2_Stream1 => 57,
            IRQn::DMA2_Stream2 => 58,
            IRQn::DMA2_Stream3 => 59,
            IRQn::DMA2_Stream4 => 60,
            IRQn::ETH => 61,
            IRQn::ETH_WKUP => 62,
            IRQn::CAN2_TX => 63,
            IRQn::CAN2_RX0 => 64,
            IRQn::CAN2_RX1 => 65,
            IRQn::CAN2_SCE => 66,
            IRQn::OTG_FS => 67,
            IRQn::DMA2_Stream5 => 68,
            IRQn::DMA2_Stream6 => 69,
            IRQn::DMA2_Stream7 => 70,
            IRQn::USART6 => 71,
            IRQn::I2C3_EV => 72,
            IRQn::I2C3_ER => 73,
            IRQn::OTG_HS_EP1_OUT => 74,
            IRQn::OTG_HS_EP1_IN => 75,
            IRQn::OTG_HS_WKUP => 76,
            IRQn::OTG_HS => 77,
            IRQn::DCMI => 78,
            IRQn::CRYP => 79,
            IRQn::HASH_RNG => 80,
            IRQn::FPU => 81,
        }
    }

    /// The NVIC interrupt line number of this interrupt source; its vector
    /// table position is this number plus 16.
    #[verifier::when_used_as_spec(spec_irq_number)]
    pub fn irq_number(self) -> (n: u32)
        ensures
            n == self.spec_irq_number(),
            n < IRQN_COUNT,
    {
        match self {
            IRQn::WWDG => 0,
            IRQn::PVD => 1,
            IRQn::TAMP_STAMP => 2,
            IRQn::RTC_WKUP => 3,
            IRQn::FLASH => 4,
            IRQn::RCC => 5,
            IRQn::EXTI0 => 6,
            IRQn::EXTI1 => 7,
            IRQn::EXTI2 => 8,
            IRQn::EXTI3 => 9,
            IRQn::EXTI4 => 10,
            IRQn::DMA1_Stream0 => 11,
            IRQn::DMA1_Stream1 => 12,
            IRQn::DMA1_Stream2 => 13,
            IRQn::DMA1_Stream3 => 14,
            IRQn::DMA1_Stream4 => 15,
            IRQn::DMA1_Stream5 => 16,
            IRQn::DMA1_Stream6 => 17,
            IRQn::ADC => 18,
            IRQn::CAN1_TX => 19,
            IRQn::CAN1_RX0 => 20,
            IRQn::CAN1_RX1 => 21,
            IRQn::CAN1_SCE => 22,
            IRQn::EXTI9_5 => 23,
            IRQn::TIM1_BRK_TIM9 => 24,
            IRQn::TIM1_UP_TIM10 => 25,
            IRQn::TIM1_TRG_COM_TIM11 => 26,
            IRQn::TIM1_CC => 27,
            IRQn::TIM2 => 28,
            IRQn::TIM3 => 29,
            IRQn::TIM4 => 30,
            IRQn::I2C1_EV => 31,
            IRQn::I2C1_ER => 32,
            IRQn::I2C2_EV => 33,
            IRQn::I2C2_ER => 34,
            IRQn::SPI1 => 35,
            IRQn::SPI2 => 36,
            IRQn::USART1 => 37,
            IRQn::USART2 => 38,
            IRQn::USART3 => 39,
            IRQn::EXTI15_10 => 40,
            IRQn::RTC_Alarm => 41,
            IRQn::OTG_FS_WKUP => 42,
            IRQn::TIM8_BRK_TIM12 => 43,
            IRQn::TIM8_UP_TIM13 => 44,
            IRQn::TIM8_TRG_COM_TIM14 => 45,
            IRQn::TIM8_CC => 46,
            IRQn::DMA1_Stream7 => 47,
            IRQn::FSMC => 48,
            IRQn::SDIO => 49,
            IRQn::TIM5 => 50,
            IRQn::SPI3 => 51,
            IRQn::UART4 => 52,
            IRQn::UART5 => 53,
            IRQn::TIM6_DAC => 54,
            IRQn::TIM7 => 55,
            IRQn::DMA2_Stream0 => 56,
            IRQn::DMA2_Stream1 => 57,
            IRQn::DMA2_Stream2 => 58,
            IRQn::DMA2_Stream3 => 59,
            IRQn::DMA2_Stream4 => 60,
            IRQn::ETH => 61,
            IRQn::ETH_WKUP => 62,
            IRQn::CAN2_TX => 63,
            IRQn::CAN2_RX0 => 64,
            IRQn::CAN2_RX1 => 65,
            IRQn::CAN2_SCE => 66,
            IRQn::OTG_FS => 67,
            IRQn::DMA2_Stream5 => 68,
            IRQn::DMA2_Stream6 => 69,
            IRQn::DMA2_Stream7 => 70,
            IRQn::USART6 => 71,
            IRQn::I2C3_EV => 72,
            IRQn::I2C3_ER => 73,
            IRQn::OTG_HS_EP1_OUT => 74,
            IRQn::OTG_HS_EP1_IN => 75,
            IRQn::OTG_HS_WKUP => 76,
            IRQn::OTG_HS => 77,
            IRQn::DCMI => 78,
            IRQn::CRYP => 79,
            IRQn::HASH_RNG => 80,
            IRQn::FPU => 81,
        }
    }
}

} // verus!
