//! An instruction-level core for a 32-bit RISC processor of the ARM2 class:
//! a banked register file, a memory controller with a sticky ROM overlay,
//! and the units that execute and disassemble one instruction word.

pub mod boot;
pub mod cpu;
pub mod disassembly;
pub mod encoding;
pub mod fault;
pub mod instructions;
pub mod memory;
pub mod registers;
pub mod shifter;
pub mod text;
