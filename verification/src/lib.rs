//! Gate-level emulator of a 16-bit von-Neumann computer in the Hack style.
//!
//! Primitive boolean gates compose into word gates, arithmetic chips, an
//! ALU, clocked storage elements, a CPU, a memory subsystem, and a
//! top-level machine stepped one clock phase at a time.  A word is an
//! ordered `[bool; 16]` with the least-significant bit at index 0 and the
//! most-significant (sign) bit at index 15.

pub mod word;
pub mod gates;
pub mod adder;
pub mod alu;
pub mod convert_16b;
pub mod latch;
pub mod register_1bit;
pub mod register_16bit;
pub mod program_counter;
pub mod memory;
pub mod rom;
pub mod cpu;
pub mod computer;
