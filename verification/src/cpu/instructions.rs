//! The instruction set and the opcode tables.
//!
//! An opcode is one byte in one of two spaces of 256 entries each: the plain
//! space, and the space reached through the `0xCB` prefix byte. Decoding maps
//! an opcode to an instruction with its static operands, or to nothing where
//! the table has no entry. It reads no register and no memory.

use vstd::prelude::*;

verus! {

/// A decoded instruction with its static operands. What the operands hold
/// is resolved when the instruction is executed.
#[derive(Clone, Copy, Debug, PartialEq, Eq, Structural)]
pub enum Instruction {
    HALT,
    NOP,
    ADD(ArithmeticTarget),
    INC(IncDecTarget),
    CALL(JumpTest),
    RET(JumpTest),
    JP(JumpTest),
    RLC(PrefixTarget),
    LD(LoadType),
}

/// The register that an instruction of the prefixed space works on.
#[derive(Clone, Copy, Debug, PartialEq, Eq, Structural)]
pub enum PrefixTarget {
    B,
}

/// The register pair that an increment works on.
#[derive(Clone, Copy, Debug, PartialEq, Eq, Structural)]
pub enum IncDecTarget {
    BC,
}

/// The operand that an arithmetic instruction adds to the accumulator: a
/// register, or the byte that follows the opcode (`D8`).
#[derive(Clone, Copy, Debug, PartialEq, Eq, Structural)]
pub enum ArithmeticTarget {
    A,
    B,
    C,
    D,
    E,
    H,
    L,
    D8,
}

/// Where a byte load stores: a register, or the memory cell that `HL`
/// addresses (`HLI`).
#[derive(Clone, Copy, Debug, PartialEq, Eq, Structural)]
pub enum LoadByteTarget {
    A,
    B,
    C,
    D,
    E,
    H,
    L,
    HLI,
}

/// Where a byte load reads: a register, the byte that follows the opcode
/// (`D8`), or the memory cell that `HL` addresses (`HLI`).
#[derive(Clone, Copy, Debug, PartialEq, Eq, Structural)]
pub enum LoadByteSource {
    A,
    B,
    C,
    D,
    E,
    H,
    L,
    D8,
    HLI,
}

/// The form of a load: a byte from a source to a target.
#[derive(Clone, Copy, Debug, PartialEq, Eq, Structural)]
pub enum LoadType {
    Byte(LoadByteTarget, LoadByteSource),
}

/// The condition under which a jump, call or return is taken.
#[derive(Clone, Copy, Debug, PartialEq, Eq, Structural)]
pub enum JumpTest {
    NotZero,
    Zero,
    NotCarry,
    Carry,
    Always,
}

/// The load target that a three-bit register field names. The encoding
/// orders the operands `B, C, D, E, H, L, (HL), A`.
pub open spec fn load_target_field(field: int) -> LoadByteTarget {
    if field == 0 {
        LoadByteTarget::B
    } else if field == 1 {
        LoadByteTarget::C
    } else if field == 2 {
        LoadByteTarget::D
    } else if field == 3 {
        LoadByteTarget::E
    } else if field == 4 {
        LoadByteTarget::H
    } else if field == 5 {
        LoadByteTarget::L
    } else if field == 6 {
        LoadByteTarget::HLI
    } else {
        LoadByteTarget::A
    }
}

/// The load source that a three-bit register field names.
pub open spec fn load_source_field(field: int) -> LoadByteSource {
    if field == 0 {
        LoadByteSource::B
    } else if field == 1 {
        LoadByteSource::C
    } else if field == 2 {
        LoadByteSource::D
    } else if field == 3 {
        LoadByteSource::E
    } else if field == 4 {
        LoadByteSource::H
    } else if field == 5 {
        LoadByteSource::L
    } else if field == 6 {
        LoadByteSource::HLI
    } else {
        LoadByteSource::A
    }
}

/// The register operand of an addition that a three-bit register field
/// names. Field 6, the memory operand, is no register: it has no entry.
pub open spec fn arithmetic_field(field: int) -> Option<ArithmeticTarget> {
    if field == 0 {
        Some(ArithmeticTarget::B)
    } else if field == 1 {
        Some(ArithmeticTarget::C)
    } else if field == 2 {
        Some(ArithmeticTarget::D)
    } else if field == 3 {
        Some(ArithmeticTarget::E)
    } else if field == 4 {
        Some(ArithmeticTarget::H)
    } else if field == 5 {
        Some(ArithmeticTarget::L)
    } else if field == 7 {
        Some(ArithmeticTarget::A)
    } else {
        None
    }
}

/// The condition that a two-bit condition field names.
pub open spec fn condition_field(field: int) -> JumpTest {
    if field == 0 {
        JumpTest::NotZero
    } else if field == 1 {
        JumpTest::Zero
    } else if field == 2 {
        JumpTest::NotCarry
    } else {
        JumpTest::Carry
    }
}

impl Instruction {
    /// The plain opcode table, by the bit fields of the encoding.
    ///
    /// With the opcode written `xx yyy zzz`:
    /// - `01 ttt sss` loads register field `sss` into register field `ttt`,
    ///   but for `0x76`, which is `HALT`;
    /// - `00 ttt 110` loads the following byte into register field `ttt`;
    /// - `10 000 sss` adds register field `sss` to the accumulator, and
    ///   `0xC6` adds the following byte;
    /// - `11 0cc 010`, `11 0cc 100` and `11 0cc 000` are the conditional jump,
    ///   call and return on condition field `cc`; `0xC3`, `0xCD` and `0xC9`
    ///   are the unconditional ones;
    /// - `0x00` is `NOP` and `0x03` increments `BC`.
    pub open spec fn decode_unprefixed(byte: u8) -> Option<Instruction> {
        let op = byte as int;
        if op == 0x00 {
            Some(Instruction::NOP)
        } else if op == 0x03 {
            Some(Instruction::INC(IncDecTarget::BC))
        } else if op == 0x76 {
            Some(Instruction::HALT)
        } else if 0x40 <= op < 0x80 {
            Some(
                Instruction::LD(
                    LoadType::Byte(load_target_field((op - 0x40) / 8), load_source_field(op % 8)),
                ),
            )
        } else if op < 0x40 && op % 8 == 6 {
            Some(Instruction::LD(LoadType::Byte(load_target_field(op / 8), LoadByteSource::D8)))
        } else if 0x80 <= op < 0x88 {
            match arithmetic_field(op - 0x80) {
                Some(target) => Some(Instruction::ADD(target)),
                None => None,
            }
        } else if op == 0xC6 {
            Some(Instruction::ADD(ArithmeticTarget::D8))
        } else if op == 0xC3 {
            Some(Instruction::JP(JumpTest::Always))
        } else if op == 0xCD {
            Some(Instruction::CALL(JumpTest::Always))
        } else if op == 0xC9 {
            Some(Instruction::RET(JumpTest::Always))
        } else if 0xC0 <= op < 0xE0 && op % 8 == 2 {
            Some(Instruction::JP(condition_field((op - 0xC0) / 8)))
        } else if 0xC0 <= op < 0xE0 && op % 8 == 4 {
            Some(Instruction::CALL(condition_field((op - 0xC0) / 8)))
        } else if 0xC0 <= op < 0xE0 && op % 8 == 0 {
            Some(Instruction::RET(condition_field((op - 0xC0) / 8)))
        } else {
            None
        }
    }

    /// The table behind the `0xCB` prefix: `0x00` rotates `B` left.
    pub open spec fn decode_prefixed(byte: u8) -> Option<Instruction> {
        if byte == 0x00 {
            Some(Instruction::RLC(PrefixTarget::B))
        } else {
            None
        }
    }

    /// The instruction that an opcode stands for in the space that
    /// `prefix_instr` selects, `None` where that table has no entry.
    pub open spec fn decode(byte: u8, prefix_instr: bool) -> Option<Instruction> {
        if prefix_instr {
            Self::decode_prefixed(byte)
        } else {
            Self::decode_unprefixed(byte)
        }
    }

    /// Decodes an opcode of the space that `prefix_instr` selects.
    pub fn from_byte(byte: u8, prefix_instr: bool) -> (instruction: Option<Instruction>)
        ensures
            instruction == Self::decode(byte, prefix_instr),
    {
        if prefix_instr {
            Instruction::from_byte_prefixed(byte)
        } else {
            Instruction::from_byte_unprefixed(byte)
        }
    }

    /// Looks an opcode up in the table behind the prefix byte.
    pub fn from_byte_prefixed(byte: u8) -> (instruction: Option<Instruction>)
        ensures
            instruction == Self::decode_prefixed(byte),
    {
        match byte {
            0x00 => Some(Instruction::RLC(PrefixTarget::B)),
            _ => None,
        }
    }

    /// Looks an opcode up in the plain table.
    pub fn from_byte_unprefixed(byte: u8) -> (instruction: Option<Instruction>)
        ensures
            instruction == Self::decode_unprefixed(byte),
    {
        match byte {
            0x00 => Some(Instruction::NOP),
            0x03 => Some(Instruction::INC(IncDecTarget::BC)),
            0x76 => Some(Instruction::HALT),
            0x06 => Some(Instruction::LD(LoadType::Byte(LoadByteTarget::B, LoadByteSource::D8))),
            0x0E => Some(Instruction::LD(LoadType::Byte(LoadByteTarget::C, LoadByteSource::D8))),
            0x16 => Some(Instruction::LD(LoadType::Byte(LoadByteTarget::D, LoadByteSource::D8))),
            0x1E => Some(Instruction::LD(LoadType::Byte(LoadByteTarget::E, LoadByteSource::D8))),
            0x26 => Some(Instruction::LD(LoadType::Byte(LoadByteTarget::H, LoadByteSource::D8))),
            0x2E => Some(Instruction::LD(LoadType::Byte(LoadByteTarget::L, LoadByteSource::D8))),
            0x36 => Some(Instruction::LD(LoadType::Byte(LoadByteTarget::HLI, LoadByteSource::D8))),
            0x3E => Some(Instruction::LD(LoadType::Byte(LoadByteTarget::A, LoadByteSource::D8))),
            0x40 => Some(Instruction::LD(LoadType::Byte(LoadByteTarget::B, LoadByteSource::B))),
            0x41 => Some(Instruction::LD(LoadType::Byte(LoadByteTarget::B, LoadByteSource::C))),
            0x42 => Some(Instruction::LD(LoadType::Byte(LoadByteTarget::B, LoadByteSource::D))),
            0x43 => Some(Instruction::LD(LoadType::Byte(LoadByteTarget::B, LoadByteSource::E))),
            0x44 => Some(Instruction::LD(LoadType::Byte(LoadByteTarget::B, LoadByteSource::H))),
            0x45 => Some(Instruction::LD(LoadType::Byte(LoadByteTarget::B, LoadByteSource::L))),
            0x46 => Some(Instruction::LD(LoadType::Byte(LoadByteTarget::B, LoadByteSource::HLI))),
            0x47 => Some(Instruction::LD(LoadType::Byte(LoadByteTarget::B, LoadByteSource::A))),
            0x48 => Some(Instruction::LD(LoadType::Byte(LoadByteTarget::C, LoadByteSource::B))),
            0x49 => Some(Instruction::LD(LoadType::Byte(LoadByteTarget::C, LoadByteSource::C))),
            0x4A => Some(Instruction::LD(LoadType::Byte(LoadByteTarget::C, LoadByteSource::D))),
            0x4B => Some(Instruction::LD(LoadType::Byte(LoadByteTarget::C, LoadByteSource::E))),
            0x4C => Some(Instruction::LD(LoadType::Byte(LoadByteTarget::C, LoadByteSource::H))),
            0x4D => Some(Instruction::LD(LoadType::Byte(LoadByteTarget::C, LoadByteSource::L))),
            0x4E => Some(Instruction::LD(LoadType::Byte(LoadByteTarget::C, LoadByteSource::HLI))),
            0x4F => Some(Instruction::LD(LoadType::Byte(LoadByteTarget::C, LoadByteSource::A))),
            0x50 => Some(Instruction::LD(LoadType::Byte(LoadByteTarget::D, LoadByteSource::B))),
            0x51 => Some(Instruction::LD(LoadType::Byte(LoadByteTarget::D, LoadByteSource::C))),
            0x52 => Some(Instruction::LD(LoadType::Byte(LoadByteTarget::D, LoadByteSource::D))),
            0x53 => Some(Instruction::LD(LoadType::Byte(LoadByteTarget::D, LoadByteSource::E))),
            0x54 => Some(Instruction::LD(LoadType::Byte(LoadByteTarget::D, LoadByteSource::H))),
            0x55 => Some(Instruction::LD(LoadType::Byte(LoadByteTarget::D, LoadByteSource::L))),
            0x56 => Some(Instruction::LD(LoadType::Byte(LoadByteTarget::D, LoadByteSource::HLI))),
            0x57 => Some(Instruction::LD(LoadType::Byte(LoadByteTarget::D, LoadByteSource::A))),
            0x58 => Some(Instruction::LD(LoadType::Byte(LoadByteTarget::E, LoadByteSource::B))),
            0x59 => Some(Instruction::LD(LoadType::Byte(LoadByteTarget::E, LoadByteSource::C))),
            0x5A => Some(Instruction::LD(LoadType::Byte(LoadByteTarget::E, LoadByteSource::D))),
            0x5B => Some(Instruction::LD(LoadType::Byte(LoadByteTarget::E, LoadByteSource::E))),
            0x5C => Some(Instruction::LD(LoadType::Byte(LoadByteTarget::E, LoadByteSource::H))),
            0x5D => Some(Instruction::LD(LoadType::Byte(LoadByteTarget::E, LoadByteSource::L))),
            0x5E => Some(Instruction::LD(LoadType::Byte(LoadByteTarget::E, LoadByteSource::HLI))),
            0x5F => Some(Instruction::LD(LoadType::Byte(LoadByteTarget::E, LoadByteSource::A))),
            0x60 => Some(Instruction::LD(LoadType::Byte(LoadByteTarget::H, LoadByteSource::B))),
            0x61 => Some(Instruction::LD(LoadType::Byte(LoadByteTarget::H, LoadByteSource::C))),
            0x62 => Some(Instruction::LD(LoadType::Byte(LoadByteTarget::H, LoadByteSource::D))),
            0x63 => Some(Instruction::LD(LoadType::Byte(LoadByteTarget::H, LoadByteSource::E))),
            0x64 => Some(Instruction::LD(LoadType::Byte(LoadByteTarget::H, LoadByteSource::H))),
            0x65 => Some(Instruction::LD(LoadType::Byte(LoadByteTarget::H, LoadByteSource::L))),
            0x66 => Some(Instruction::LD(LoadType::Byte(LoadByteTarget::H, LoadByteSource::HLI))),
            0x67 => Some(Instruction::LD(LoadType::Byte(LoadByteTarget::H, LoadByteSource::A))),
            0x68 => Some(Instruction::LD(LoadType::Byte(LoadByteTarget::L, LoadByteSource::B))),
            0x69 => Some(Instruction::LD(LoadType::Byte(LoadByteTarget::L, LoadByteSource::C))),
            0x6A => Some(Instruction::LD(LoadType::Byte(LoadByteTarget::L, LoadByteSource::D))),
            0x6B => Some(Instruction::LD(LoadType::Byte(LoadByteTarget::L, LoadByteSource::E))),
            0x6C => Some(Instruction::LD(LoadType::Byte(LoadByteTarget::L, LoadByteSource::H))),
            0x6D => Some(Instruction::LD(LoadType::Byte(LoadByteTarget::L, LoadByteSource::L))),
            0x6E => Some(Instruction::LD(LoadType::Byte(LoadByteTarget::L, LoadByteSource::HLI))),
            0x6F => Some(Instruction::LD(LoadType::Byte(LoadByteTarget::L, LoadByteSource::A))),
            0x70 => Some(Instruction::LD(LoadType::Byte(LoadByteTarget::HLI, LoadByteSource::B))),
            0x71 => Some(Instruction::LD(LoadType::Byte(LoadByteTarget::HLI, LoadByteSource::C))),
            0x72 => Some(Instruction::LD(LoadType::Byte(LoadByteTarget::HLI, LoadByteSource::D))),
            0x73 => Some(Instruction::LD(LoadType::Byte(LoadByteTarget::HLI, LoadByteSource::E))),
            0x74 => Some(Instruction::LD(LoadType::Byte(LoadByteTarget::HLI, LoadByteSource::H))),
            0x75 => Some(Instruction::LD(LoadType::Byte(LoadByteTarget::HLI, LoadByteSource::L))),
            0x77 => Some(Instruction::LD(LoadType::Byte(LoadByteTarget::HLI, LoadByteSource::A))),
            0x78 => Some(Instruction::LD(LoadType::Byte(LoadByteTarget::A, LoadByteSource::B))),
            0x79 => Some(Instruction::LD(LoadType::Byte(LoadByteTarget::A, LoadByteSource::C))),
            0x7A => Some(Instruction::LD(LoadType::Byte(LoadByteTarget::A, LoadByteSource::D))),
            0x7B => Some(Instruction::LD(LoadType::Byte(LoadByteTarget::A, LoadByteSource::E))),
            0x7C => Some(Instruction::LD(LoadType::Byte(LoadByteTarget::A, LoadByteSource::H))),
            0x7D => Some(Instruction::LD(LoadType::Byte(LoadByteTarget::A, LoadByteSource::L))),
            0x7E => Some(Instruction::LD(LoadType::Byte(LoadByteTarget::A, LoadByteSource::HLI))),
            0x7F => Some(Instruction::LD(LoadType::Byte(LoadByteTarget::A, LoadByteSource::A))),
            0x80 => Some(Instruction::ADD(ArithmeticTarget::B)),
            0x81 => Some(Instruction::ADD(ArithmeticTarget::C)),
            0x82 => Some(Instruction::ADD(ArithmeticTarget::D)),
            0x83 => Some(Instruction::ADD(ArithmeticTarget::E)),
            0x84 => Some(Instruction::ADD(ArithmeticTarget::H)),
            0x85 => Some(Instruction::ADD(ArithmeticTarget::L)),
            0x87 => Some(Instruction::ADD(ArithmeticTarget::A)),
            0xC6 => Some(Instruction::ADD(ArithmeticTarget::D8)),
            0xC0 => Some(Instruction::RET(JumpTest::NotZero)),
            0xC8 => Some(Instruction::RET(JumpTest::Zero)),
            0xD0 => Some(Instruction::RET(JumpTest::NotCarry)),
            0xD8 => Some(Instruction::RET(JumpTest::Carry)),
            0xC9 => Some(Instruction::RET(JumpTest::Always)),
            0xC2 => Some(Instruction::JP(JumpTest::NotZero)),
            0xCA => Some(Instruction::JP(JumpTest::Zero)),
            0xD2 => Some(Instruction::JP(JumpTest::NotCarry)),
            0xDA => Some(Instruction::JP(JumpTest::Carry)),
            0xC3 => Some(Instruction::JP(JumpTest::Always)),
            0xC4 => Some(Instruction::CALL(JumpTest::NotZero)),
            0xCC => Some(Instruction::CALL(JumpTest::Zero)),
            0xD4 => Some(Instruction::CALL(JumpTest::NotCarry)),
            0xDC => Some(Instruction::CALL(JumpTest::Carry)),
            0xCD => Some(Instruction::CALL(JumpTest::Always)),
            _ => None,
        }
    }
}

} // verus!
