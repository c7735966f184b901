//! A cycle-approximate interpreter for the 6502 instruction set.
//!
//! The crate holds the processor state, its memory and stack, the addressing-mode
//! resolver, the opcode decode table and the fetch-decode-execute step. Every
//! operation is executable Rust whose effect is stated over a mathematical model
//! of the machine and proved against it.

pub mod cpu;
