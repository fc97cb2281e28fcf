//! Cortex-M4 core and CoreSight base addresses.
//!
//! Memory-mapped register base addresses for ARMv7-M Cortex-M4 core
//! components and CoreSight debug/trace blocks present on STM32F429-class
//! MCUs: system control (SysTick, CPUID, vector table offset, fault
//! status), NVIC, MPU, floating-point context, debug, DWT, ITM and TPIU.
//!
//! These are base addresses as specified by the ARMv7-M Architecture
//! Reference Manual and the CoreSight specifications; some blocks are
//! arrays or span several words starting at these bases.

use vstd::prelude::*;

verus! {

/// Auxiliary Control Register, ACTLR
pub const ACTLR_BASE: u32 = 0xE000_E008;

/// SysTick Control and Status Register
pub const STCSR_BASE: u32 = 0xE000_E010;

/// SysTick Reload Value Register
pub const STRVR_BASE: u32 = 0xE000_E014;

/// SysTick Current Value Register
pub const STCVR_BASE: u32 = 0xE000_E018;

/// SysTick Calibration Value Register
pub const STCR_BASE: u32 = 0xE000_E01C;

/// Refer to the CPUID Base Register, CPUID
pub const CPUID_BASE: u32 = 0xE000_ED00;

/// Interrupt Control and State Register
pub const ICSR_BASE: u32 = 0xE000_ED04;

/// Vector Table Offset Register
pub const VTOR_BASE: u32 = 0xE000_ED08;

/// Application Interrupt and Reset Control Register.
pub const AIRCR_BASE: u32 = 0xE000_ED0C;

/// System Control Register
pub const SCR_BASE: u32 = 0xE000_ED10;

/// Configuration and Control Register.
pub const CCR_BASE: u32 = 0xE000_ED14;

/// System Handler Priority Register 1
pub const SHPR1_BASE: u32 = 0xE000_ED18;

/// System Handler Priority Register 2
pub const SHPR2_BASE: u32 = 0xE000_ED1C;

/// System Handler Priority Register 3
pub const SHPR3_BASE: u32 = 0xE000_ED20;

/// System Handler Control and State Register
pub const SHCSR_BASE: u32 = 0xE000_ED24;

/// Configurable Fault Status Registers
pub const CFSR_BASE: u32 = 0xE000_ED28;

/// HardFault Status Register
pub const HFSR_BASE: u32 = 0xE000_ED2C;

/// Debug Fault Status Register
pub const DFSR_BASE: u32 = 0xE000_ED30;

/// MemManage Fault Address Register.
pub const MMFAR_BASE: u32 = 0xE000_ED34;

/// BusFault Address Register.
pub const BFAR_BASE: u32 = 0xE000_ED38;

/// See the Auxiliary Fault Status Register, AFSR
pub const AFSR_BASE: u32 = 0xE000_ED3C;

/// Processor Feature Register 0
pub const ID_PFR0_BASE: u32 = 0xE000_ED40;

/// Processor Feature Register 1
pub const ID_PFR1_BASE: u32 = 0xE000_ED44;

/// Debug Features Register 0.
pub const ID_DFR0_BASE: u32 = 0xE000_ED48;

/// Auxiliary Features Register 0
pub const ID_AFR0_BASE: u32 = 0xE000_ED4C;

/// Memory Model Feature Register 0
pub const ID_MMFR0_BASE: u32 = 0xE000_ED50;

/// Memory Model Feature Register 1
pub const ID_MMFR1_BASE: u32 = 0xE000_ED54;

/// Memory Model Feature Register 2
pub const ID_MMFR2_BASE: u32 = 0xE000_ED58;

/// Memory Model Feature Register 3
pub const ID_MMFR3_BASE: u32 = 0xE000_ED5C;

/// Instruction Set Attributes Register 0
pub const ID_ISAR0_BASE: u32 = 0xE000_ED60;

/// Instruction Set Attributes Register 1
pub const ID_ISAR1_BASE: u32 = 0xE000_ED64;

/// Instruction Set Attributes Register 2
pub const ID_ISAR2_BASE: u32 = 0xE000_ED68;

/// Instruction Set Attributes Register 3
pub const ID_ISAR3_BASE: u32 = 0xE000_ED6C;

/// Instruction Set Attributes Register 4
pub const ID_ISAR4_BASE: u32 = 0xE000_ED70;

/// Coprocessor Access Control Register
pub const CPACR_BASE: u32 = 0xE000_ED88;

/// Software Triggered Interrupt Register
pub const STIR_BASE: u32 = 0xE000_EF00;

/// MPU Type Register
pub const MPU_TYPE_BASE: u32 = 0xE000_ED90;

/// MPU Control Register
pub const MPU_CTRL_BASE: u32 = 0xE000_ED94;

/// MPU Region Number Register
pub const MPU_RNR_BASE: u32 = 0xE000_ED98;

/// MPU Region Base Address Register
pub const MPU_RBAR_BASE: u32 = 0xE000_ED9C;

/// MPU Region Attribute and Size Register
pub const MPU_RASR_BASE: u32 = 0xE000_EDA0;

/// Interrupt Controller Type Register
pub const NVIC_ICTR_BASE: u32 = 0xE000_E004;

/// Interrupt Set-Enable Register
pub const NVIC_ISER_BASE: u32 = 0xE000_E100;

/// Interrupt Clear-Enable Register
pub const NVIC_ICER_BASE: u32 = 0xE000_E180;

/// Interrupt Set-Pending Register
pub const NVIC_ISPR_BASE: u32 = 0xE000_E200;

/// Interrupt Clear-Pending Register
pub const NVIC_ICPR_BASE: u32 = 0xE000_E280;

/// Interrupt Active Bit Register
pub const NVIC_IABR_BASE: u32 = 0xE000_E300;

/// Interrupt Priority Register
pub const NVIC_IPR_BASE: u32 = 0xE000_E400;

/// FP Context Control Register
pub const FPCCR_BASE: u32 = 0xE000_EF34;

/// FP Context Address Register
pub const FPCAR_BASE: u32 = 0xE000_EF38;

/// FP Default Status Control Register
pub const FPDSCR_BASE: u32 = 0xE000_EF3C;

/// Media and VFP Feature Register 0, MVFR0
pub const MVFR0_BASE: u32 = 0xE000_EF40;

/// Media and VFP Feature Register 1, MVFR1
pub const MVFR1_BASE: u32 = 0xE000_EF44;

/// Debug Halting Control and Status Register
pub const DHCSR_BASE: u32 = 0xE000_EDF0;

/// Debug Core Register Selector Register
pub const DCRSR_BASE: u32 = 0xE000_EDF4;

/// Debug Core Register Data Register
pub const DCRDR_BASE: u32 = 0xE000_EDF8;

/// Debug Exception and Monitor Control Register
pub const DEMCR_BASE: u32 = 0xE000_EDFC;

/// Control Register.
pub const DWT_CTRL_BASE: u32 = 0xE000_1000;

/// Cycle Count Register
pub const DWT_CYCCNT_BASE: u32 = 0xE000_1004;

/// CPI Count Register
pub const DWT_CPICNT_BASE: u32 = 0xE000_1008;

/// Exception Overhead Count Register
pub const DWT_EXCCNT_BASE: u32 = 0xE000_100C;

/// Sleep Count Register
pub const DWT_SLEEPCNT_BASE: u32 = 0xE000_1010;

/// LSU Count Register
pub const DWT_LSUCNT_BASE: u32 = 0xE000_1014;

/// Folded-instruction Count Register
pub const DWT_FOLDCNT_BASE: u32 = 0xE000_1018;

/// Program Counter Sample Register
pub const DWT_PCSR_BASE: u32 = 0xE000_101C;

/// Comparator Register0
pub const DWT_COMP0_BASE: u32 = 0xE000_1020;

/// Mask Register0.
pub const DWT_MASK0_BASE: u32 = 0xE000_1024;

/// Function Register0
pub const DWT_FUNCTION0_BASE: u32 = 0xE000_1028;

/// Comparator Register1
pub const DWT_COMP1_BASE: u32 = 0xE000_1030;

/// Mask Register1.
pub const DWT_MASK1_BASE: u32 = 0xE000_1034;

/// Function Register1
pub const DWT_FUNCTION1_BASE: u32 = 0xE000_1038;

/// Comparator Register2
pub const DWT_COMP2_BASE: u32 = 0xE000_1040;

/// Mask Register2.
pub const DWT_MASK2_BASE: u32 = 0xE000_1044;

/// Function Register2
pub const DWT_FUNCTION2_BASE: u32 = 0xE000_1048;

/// Comparator Register3
pub const DWT_COMP3_BASE: u32 = 0xE000_1050;

/// Mask Register3.
pub const DWT_MASK3_BASE: u32 = 0xE000_1054;

/// Function Register3
pub const DWT_FUNCTION3_BASE: u32 = 0xE000_1058;

/// Peripheral identification register 4
pub const PID4_BASE: u32 = 0xE000_1FD0;

/// Peripheral identification register 5
pub const PID5_BASE: u32 = 0xE000_1FD4;

/// Peripheral identification register 6
pub const PID6_BASE: u32 = 0xE000_1FD8;

/// Peripheral identification register 7
pub const PID7_BASE: u32 = 0xE000_1FDC;

/// Peripheral identification register 0
pub const PID0_BASE: u32 = 0xE000_1FE0;

/// Peripheral identification register 1
pub const PID1_BASE: u32 = 0xE000_1FE4;

/// Peripheral identification register 2
pub const PID2_BASE: u32 = 0xE000_1FE8;

/// Peripheral identification register 3
pub const PID3_BASE: u32 = 0xE000_1FEC;

/// Component identification register 0
pub const CID0_BASE: u32 = 0xE000_1FF0;

/// Component identification register 1
pub const CID1_BASE: u32 = 0xE000_1FF4;

/// Component identification register 2
pub const CID2_BASE: u32 = 0xE000_1FF8;

/// Component identification register 3
pub const CID3_BASE: u32 = 0xE000_1FFC;

pub const ITM_STIM_BASE: u32 = 0xE000_0000;

pub const ITM_TER_BASE: u32 = 0xE000_0E00;

pub const ITM_TPR_BASE: u32 = 0xE000_0E40;

pub const ITM_TCR_BASE: u32 = 0xE000_0E80;

pub const ITM_PID4_BASE: u32 = 0xE000_0FD0;

pub const ITM_PID5_BASE: u32 = 0xE000_0FD4;

pub const ITM_PID6_BASE: u32 = 0xE000_0FD8;

pub const ITM_PID7_BASE: u32 = 0xE000_0FDC;

pub const ITM_PID0_BASE: u32 = 0xE000_0FE0;

pub const ITM_PID1_BASE: u32 = 0xE000_0FE4;

pub const ITM_PID2_BASE: u32 = 0xE000_0FE8;

pub const ITM_PID3_BASE: u32 = 0xE000_0FEC;

pub const ITM_CID0_BASE: u32 = 0xE000_0FF0;

pub const ITM_CID1_BASE: u32 = 0xE000_0FF4;

pub const ITM_CID2_BASE: u32 = 0xE000_0FF8;

pub const ITM_CID3_BASE: u32 = 0xE000_0FFC;

pub const TPIU_SSPSR_BASE: u32 = 0xE004_0000;

pub const TPIU_CSPSR_BASE: u32 = 0xE004_0004;

pub const TPIU_ACPR_BASE: u32 = 0xE004_0010;

pub const TPIU_SPPR_BASE: u32 = 0xE004_00F0;

pub const TPIU_FFSR_BASE: u32 = 0xE004_0300;

pub const TPIU_FFCR_BASE: u32 = 0xE004_0304;

pub const TPIU_FSCR_BASE: u32 = 0xE004_0308;

pub const TPIU_TRIGGER_BASE: u32 = 0xE004_0EE8;

pub const TPIU_FIFO_DATA0_BASE: u32 = 0xE004_0EEC;

pub const TPIU_ITATBCTR2_BASE: u32 = 0xE004_0EF0;

pub const TPIU_FIFO_DATA1_BASE: u32 = 0xE004_0EFC;

pub const TPIU_ITATBCTR0_BASE: u32 = 0xE004_0EF8;

pub const TPIU_ITCTRL_BASE: u32 = 0xE004_0F00;

pub const TPIU_CLAIMSET_BASE: u32 = 0xE004_0FA0;

pub const TPIU_CLAIMCLR_BASE: u32 = 0xE004_0FA4;

pub const TPIU_DEVID_BASE: u32 = 0xE004_0FC8;

pub const TPIU_PID4_BASE: u32 = 0xE004_0FD0;

pub const TPIU_PID5_BASE: u32 = 0xE004_0FD4;

pub const TPIU_PID6_BASE: u32 = 0xE004_0FD8;

pub const TPIU_PID7_BASE: u32 = 0xE004_0FDC;

pub const TPIU_PID0_BASE: u32 = 0xE004_0FE0;

pub const TPIU_PID1_BASE: u32 = 0xE004_0FE4;

pub const TPIU_PID2_BASE: u32 = 0xE004_0FE8;

pub const TPIU_PID3_BASE: u32 = 0xE004_0FEC;

pub const TPIU_CID0_BASE: u32 = 0xE004_0FF0;

pub const TPIU_CID1_BASE: u32 = 0xE004_0FF4;

pub const TPIU_CID2_BASE: u32 = 0xE004_0FF8;

pub const TPIU_CID3_BASE: u32 = 0xE004_0FFC;

} // verus!
