//! The processor: flags, registers, memory, addressing modes and instructions.

pub mod address_mode;
pub mod cpu_6502;
pub mod flags;
pub mod instructions;
pub mod laws;
pub mod model;
pub mod util;
