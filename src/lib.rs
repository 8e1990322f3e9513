//! Instruction-level core of a 65816-class CPU and the 24-bit memory bus it drives.

pub mod alu;
pub mod cpu;
pub mod decimal;
pub mod mem;
pub mod rom;
pub mod status;
