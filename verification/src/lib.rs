//! An emulator core for an 8-bit microprocessor of the 6502/65xx family.
//!
//! The crate models the register bank, the status-flag arithmetic, the
//! addressing-mode resolver and the instruction handlers that operate on a
//! flat 64 KiB byte-addressable memory.  Every handler carries a contract
//! that pins down the registers, flags and memory after the instruction.

use vstd::prelude::*;

pub mod addressing;
pub mod alu;
pub mod common;
pub mod control_flow;
pub mod cpu;
pub mod data_movement;
pub mod io;
pub mod memory;
pub mod register;
pub mod stack_ops;
pub mod status_ops;

verus! {

/// Sets up the virtual devices a driver needs before a program is loaded.
pub fn initialize() {
    let _virtual_memory = memory::VirtualMemory::new();
}

} // verus!
