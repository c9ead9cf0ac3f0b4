//! Instruction-execution core of a Game Boy: register file, opcode decoding,
//! memory bus with tile memory, and the fetch/decode/execute engine.

pub mod cpu;
pub mod gpu;
