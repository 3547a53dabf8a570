//! A 32-bit MIPS-style machine: instruction decoding and execution, a
//! memory-mapped bus, two-level paging, a system coprocessor with a timer,
//! and load-linked / store-conditional reservations.

pub mod utils;
pub mod exception;
pub mod instruction;
pub mod size;
pub mod ram;
pub mod device;
pub mod dram;
pub mod rom;
pub mod virtio;
pub mod bus;
pub mod coprocessor;
pub mod memory;
pub mod uart;
pub mod cpu;
pub mod execute;
pub mod kernel;
