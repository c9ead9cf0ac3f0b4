//! The processor: registers, instruction set, memory bus and execution engine.

pub mod cpu;
pub mod instructions;
pub mod memory;
pub mod registers;
