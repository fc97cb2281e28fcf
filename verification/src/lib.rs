//! Register-access and startup layer for an STM32F429-class Cortex-M4 target.
//!
//! The crate models the 32-bit memory-mapped register space as an explicit
//! value ([`reg_space::RegisterSpace`]), so that every read-modify-write
//! primitive, every peripheral configuration sequence, and the reset-time
//! copy/zero phases carry a proved contract.  The volatile accesses that talk
//! to real hardware live outside this library, at its boundary.

pub mod bit_masks;
pub mod bitfield;
pub mod flash;
pub mod gpio;
pub mod led;
pub mod pwr;
pub mod rcc;
pub mod reg_cpu_cortex_m4;
pub mod reg_mcu_stm32f429zi;
pub mod reg_space;
pub mod reg_utils;
pub mod registers;
pub mod startup_stm32f429zi;
pub mod system_clock;
pub mod systick_delay;
