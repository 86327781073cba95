//! Verified register-level drivers for a lowRISC-style embedded platform.
//!
//! The centre of the crate is the flash page controller: an interrupt-driven
//! state machine that moves one page at a time between a caller's buffer and
//! the flash array through word-sized FIFOs, together with the region-based
//! memory-protection configuration that guards those transfers. The
//! controller's memory-mapped register block is modelled as plain data inside
//! the crate, so the whole protocol - request, FIFO pumping, completion - is
//! verified end to end against that model.

pub mod chip_config;
pub mod console;
pub mod csrng;
pub mod error;
pub mod flash_ctrl;
pub mod flash_regs;
pub mod hil;
pub mod pwm;
pub mod tsens;
