//! An RV32I processor emulator: instruction decoding, execution semantics,
//! a register file with the hard-wired zero register, the virtual address
//! map, and a small bus of memory-mapped devices.

pub mod register;
pub mod inst;
pub mod error;
pub mod devices;
pub mod memory;
pub mod debugger;
pub mod alu;
pub mod loader;
pub mod cpu;
pub mod config;
pub mod tools;
pub mod cli;
