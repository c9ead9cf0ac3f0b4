//! The execution engine.
//!
//! One step fetches an opcode at the program counter, decodes it, executes
//! the instruction and commits the next program counter. A step that fails
//! changes nothing. The program counter and the stack pointer wrap round at
//! the end of the address space.

use crate::cpu::instructions::{
    ArithmeticTarget,
    Instruction,
    JumpTest,
    LoadByteSource,
    LoadByteTarget,
    LoadType,
};
use crate::cpu::memory::{
    lemma_read_after_write,
    lemma_write_preserves_coherence,
    lemma_write_well_shaped,
    BusView,
    MemoryBus,
};
use crate::cpu::registers::{
    high_byte,
    lemma_pair_bits,
    lemma_pair_of_halves,
    lemma_split_bits,
    low_byte,
    pair,
    Flags,
    Registers,
};
use vstd::prelude::*;

verus! {

/// The opcode that announces an instruction of the prefixed space.
pub const PREFIX_BYTE: u8 = 0xCB;

/// Why a step did not execute an instruction.
#[derive(Clone, Copy, Debug, PartialEq, Eq, Structural)]
pub enum StepError {
    /// The opcode has no entry in the table that was consulted.
    UnrecognizedOpcode { byte: u8, prefixed: bool },
    /// The opcode was decoded, but the engine does not execute the instruction.
    Unimplemented(Instruction),
}

/// The address `delta` cells away from `addr`, wrapping round at either end
/// of the address space.
pub open spec fn offset(addr: u16, delta: int) -> u16 {
    ((addr as int + delta) % 0x10000) as u16
}

/// What the engine holds: registers, program counter, stack pointer and bus.
#[verifier::ext_equal]
pub struct CpuView {
    pub registers: Registers,
    pub pc: u16,
    pub sp: u16,
    pub bus: BusView,
}

impl CpuView {
    /// The sizes that every view of an engine has.
    pub open spec fn well_shaped(self) -> bool {
        self.bus.well_shaped()
    }

    /// Whether the view has its sizes and the tile cache in it is what tile
    /// memory decodes to.
    pub open spec fn consistent(self) -> bool {
        self.well_shaped() && self.bus.gpu.coherent()
    }

    /// The state at start-up: every register, counter and byte zero.
    pub open spec fn initial() -> CpuView {
        CpuView {
            registers: Registers {
                a: 0,
                b: 0,
                c: 0,
                d: 0,
                e: 0,
                f: Flags { zero: false, subtract: false, half_carry: false, carry: false },
                h: 0,
                l: 0,
            },
            pc: 0,
            sp: 0,
            bus: BusView::initial(),
        }
    }

    /// The byte that follows the opcode at the program counter.
    pub open spec fn next_byte(self) -> u8 {
        self.bus.read(offset(self.pc, 1))
    }

    /// The 16-bit operand that follows the opcode at the program counter,
    /// low byte first.
    pub open spec fn next_word(self) -> u16 {
        pair(self.bus.read(offset(self.pc, 2)), self.bus.read(offset(self.pc, 1)))
    }

    /// Whether a jump, call or return under `test` is taken with the flags as
    /// they stand.
    pub open spec fn taken(self, test: JumpTest) -> bool {
        match test {
            JumpTest::NotZero => !self.registers.f.zero,
            JumpTest::Zero => self.registers.f.zero,
            JumpTest::NotCarry => !self.registers.f.carry,
            JumpTest::Carry => self.registers.f.carry,
            JumpTest::Always => true,
        }
    }

    /// The state after `val` was pushed: the stack pointer is two lower, the
    /// high byte lies at the higher of the two addresses, the low byte at the
    /// lower, where the stack pointer now points.
    pub open spec fn push(self, val: u16) -> CpuView {
        CpuView {
            sp: offset(self.sp, -2),
            bus: self.bus.write(offset(self.sp, -1), high_byte(val)).write(
                offset(self.sp, -2),
                low_byte(val),
            ),
            ..self
        }
    }

    /// The value on top of the stack: low byte at the stack pointer, high
    /// byte one above.
    pub open spec fn top(self) -> u16 {
        pair(self.bus.read(offset(self.sp, 1)), self.bus.read(self.sp))
    }

    /// The state after the top of the stack was popped: the stack pointer is
    /// two higher, nothing else changes.
    pub open spec fn pop(self) -> CpuView {
        CpuView { sp: offset(self.sp, 2), ..self }
    }

    /// The 8-bit sum of the accumulator and `val`.
    pub open spec fn sum(self, val: u8) -> u8 {
        ((self.registers.a as int + val as int) % 256) as u8
    }

    /// The flags after `val` was added to the accumulator.
    pub open spec fn sum_flags(self, val: u8) -> Flags {
        Flags {
            zero: self.sum(val) == 0,
            subtract: false,
            half_carry: self.registers.a as int % 16 + val as int % 16 > 15,
            carry: self.registers.a as int + val as int > 255,
        }
    }

    /// The state after the flags were set for the addition of `val` to the
    /// accumulator. The accumulator itself is not written yet.
    pub open spec fn with_sum_flags(self, val: u8) -> CpuView {
        CpuView { registers: Registers { f: self.sum_flags(val), ..self.registers }, ..self }
    }

    /// The next program counter of a jump: the operand where the jump is
    /// taken, the instruction after the three bytes of the jump where not.
    pub open spec fn jump(self, is_jump: bool) -> u16 {
        if is_jump {
            self.next_word()
        } else {
            offset(self.pc, 3)
        }
    }

    /// State and next program counter of a call. Where it is taken, the
    /// address of the instruction after the three bytes of the call is pushed
    /// and the operand, read after the push, is the next program counter.
    /// Where not, nothing changes and execution goes on after the call.
    pub open spec fn call(self, is_jump: bool) -> (CpuView, u16) {
        if is_jump {
            let pushed = self.push(offset(self.pc, 3));
            (pushed, pushed.next_word())
        } else {
            (self, offset(self.pc, 3))
        }
    }

    /// State and next program counter of a return. Where it is taken, the
    /// top of the stack is popped and is the next program counter. Where not,
    /// nothing changes and execution goes on after the one byte of the return.
    pub open spec fn ret(self, is_jump: bool) -> (CpuView, u16) {
        if is_jump {
            (self.pop(), self.top())
        } else {
            (self, offset(self.pc, 1))
        }
    }

    /// The byte that an addition takes as its operand.
    pub open spec fn arithmetic_operand(self, target: ArithmeticTarget) -> u8 {
        match target {
            ArithmeticTarget::A => self.registers.a,
            ArithmeticTarget::B => self.registers.b,
            ArithmeticTarget::C => self.registers.c,
            ArithmeticTarget::D => self.registers.d,
            ArithmeticTarget::E => self.registers.e,
            ArithmeticTarget::H => self.registers.h,
            ArithmeticTarget::L => self.registers.l,
            ArithmeticTarget::D8 => self.next_byte(),
        }
    }

    /// The byte that a load reads.
    pub open spec fn load_value(self, source: LoadByteSource) -> u8 {
        match source {
            LoadByteSource::A => self.registers.a,
            LoadByteSource::B => self.registers.b,
            LoadByteSource::C => self.registers.c,
            LoadByteSource::D => self.registers.d,
            LoadByteSource::E => self.registers.e,
            LoadByteSource::H => self.registers.h,
            LoadByteSource::L => self.registers.l,
            LoadByteSource::D8 => self.next_byte(),
            LoadByteSource::HLI => self.bus.read(self.registers.hl()),
        }
    }

    /// The state after a load stored `val`.
    pub open spec fn store(self, target: LoadByteTarget, val: u8) -> CpuView {
        match target {
            LoadByteTarget::A => CpuView { registers: Registers { a: val, ..self.registers }, ..self },
            LoadByteTarget::B => CpuView { registers: Registers { b: val, ..self.registers }, ..self },
            LoadByteTarget::C => CpuView { registers: Registers { c: val, ..self.registers }, ..self },
            LoadByteTarget::D => CpuView { registers: Registers { d: val, ..self.registers }, ..self },
            LoadByteTarget::E => CpuView { registers: Registers { e: val, ..self.registers }, ..self },
            LoadByteTarget::H => CpuView { registers: Registers { h: val, ..self.registers }, ..self },
            LoadByteTarget::L => CpuView { registers: Registers { l: val, ..self.registers }, ..self },
            LoadByteTarget::HLI => CpuView {
                bus: self.bus.write(self.registers.hl(), val),
                ..self
            },
        }
    }

    /// Whether the engine executes the instruction. It executes additions,
    /// loads, jumps, calls and returns.
    pub open spec fn implemented(instruction: Instruction) -> bool {
        match instruction {
            Instruction::ADD(_) => true,
            Instruction::LD(_) => true,
            Instruction::JP(_) => true,
            Instruction::CALL(_) => true,
            Instruction::RET(_) => true,
            Instruction::HALT => false,
            Instruction::NOP => false,
            Instruction::INC(_) => false,
            Instruction::RLC(_) => false,
        }
    }

    /// State and next program counter after the instruction was executed;
    /// the program counter itself is not committed yet. An instruction that
    /// the engine does not execute is an error.
    ///
    /// - An addition adds its operand to the accumulator, sets the flags, and
    ///   goes on after the opcode, or after the operand byte where it took one.
    /// - A load stores the byte it read and goes on in the same way.
    /// - A jump, call or return evaluates its condition and goes where that
    ///   leads.
    pub open spec fn execute(self, instruction: Instruction) -> Result<(CpuView, u16), StepError> {
        match instruction {
            Instruction::ADD(target) => {
                let val = self.arithmetic_operand(target);
                let flagged = self.with_sum_flags(val);
                let length: int = if target == ArithmeticTarget::D8 {
                    2
                } else {
                    1
                };
                Ok(
                    (
                        CpuView {
                            registers: Registers { a: self.sum(val), ..flagged.registers },
                            ..flagged
                        },
                        offset(self.pc, length),
                    ),
                )
            },
            Instruction::LD(LoadType::Byte(target, source)) => {
                let length: int = if source == LoadByteSource::D8 {
                    2
                } else {
                    1
                };
                Ok((self.store(target, self.load_value(source)), offset(self.pc, length)))
            },
            Instruction::JP(test) => Ok((self, self.jump(self.taken(test)))),
            Instruction::CALL(test) => Ok(self.call(self.taken(test))),
            Instruction::RET(test) => Ok(self.ret(self.taken(test))),
            Instruction::HALT => Err(StepError::Unimplemented(instruction)),
            Instruction::NOP => Err(StepError::Unimplemented(instruction)),
            Instruction::INC(_) => Err(StepError::Unimplemented(instruction)),
            Instruction::RLC(_) => Err(StepError::Unimplemented(instruction)),
        }
    }

    /// Whether the opcode at the program counter is the prefix byte.
    pub open spec fn prefixed(self) -> bool {
        self.bus.read(self.pc) == PREFIX_BYTE
    }

    /// The opcode to decode: the byte at the program counter, or the one after
    /// it where the first is the prefix byte.
    pub open spec fn opcode(self) -> u8 {
        if self.prefixed() {
            self.bus.read(offset(self.pc, 1))
        } else {
            self.bus.read(self.pc)
        }
    }

    /// The instruction at the program counter, `None` where the opcode has no
    /// entry in its table.
    pub open spec fn fetch(self) -> Option<Instruction> {
        Instruction::decode(self.opcode(), self.prefixed())
    }

    /// The state after one step, or why there was none.
    pub open spec fn step(self) -> Result<CpuView, StepError> {
        match self.fetch() {
            None => Err(
                StepError::UnrecognizedOpcode { byte: self.opcode(), prefixed: self.prefixed() },
            ),
            Some(instruction) => match self.execute(instruction) {
                Ok((after, next_pc)) => Ok(CpuView { pc: next_pc, ..after }),
                Err(error) => Err(error),
            },
        }
    }
}

/// Moving an address by two amounts in turn moves it by their sum, and
/// moving it by nothing leaves it.
pub proof fn lemma_offset_twice(addr: u16, first: int, second: int)
    ensures
        offset(offset(addr, first), second) == offset(addr, first + second),
        offset(addr, 0) == addr,
{
    let x = addr as int + first;
    assert(((x % 0x10000) + second) % 0x10000 == (x + second) % 0x10000) by {
        vstd::arithmetic::div_mod::lemma_add_mod_noop(x, second, 0x10000);
        vstd::arithmetic::div_mod::lemma_add_mod_noop(x % 0x10000, second, 0x10000);
        vstd::arithmetic::div_mod::lemma_mod_twice(x, 0x10000);
    }
}

/// Push and pop are inverses: after a push the top of the stack is the
/// pushed value, wherever the stack lies, and popping it puts the stack
/// pointer back where it was. Registers and program counter stay throughout.
pub proof fn lemma_push_then_pop(view: CpuView, val: u16)
    requires
        view.well_shaped(),
    ensures
        view.push(val).top() == val,
        view.push(val).pop().sp == view.sp,
        view.push(val).pop().registers == view.registers,
        view.push(val).pop().pc == view.pc,
        view.push(val).pop().bus == view.push(val).bus,
{
    let high_at = offset(view.sp, -1);
    let low_at = offset(view.sp, -2);
    let first = view.bus.write(high_at, high_byte(val));
    lemma_write_well_shaped(view.bus, high_at, high_byte(val));
    lemma_read_after_write(view.bus, high_at, high_byte(val), high_at);
    lemma_read_after_write(first, low_at, low_byte(val), high_at);
    lemma_read_after_write(first, low_at, low_byte(val), low_at);
    lemma_offset_twice(view.sp, -2, 1);
    lemma_offset_twice(view.sp, -2, 2);
    lemma_pair_of_halves(val);
}

/// A taken call followed by a taken return comes back to the instruction
/// after the call, with the stack pointer where it was before the call.
pub proof fn lemma_call_then_ret(view: CpuView)
    requires
        view.well_shaped(),
    ensures
        ({
            let (called, target) = view.call(true);
            let (returned, back) = (CpuView { pc: target, ..called }).ret(true);
            back == offset(view.pc, 3) && returned.sp == view.sp && returned.registers
                == view.registers
        }),
{
    lemma_push_then_pop(view, offset(view.pc, 3));
}

/// The state at start-up is consistent.
pub proof fn lemma_initial_consistent()
    ensures
        CpuView::initial().consistent(),
{
    crate::gpu::gpu::lemma_initial_coherent();
}

/// A push leaves a consistent state consistent.
pub proof fn lemma_push_keeps_consistent(view: CpuView, val: u16)
    requires
        view.consistent(),
    ensures
        view.push(val).consistent(),
{
    let first = view.bus.write(offset(view.sp, -1), high_byte(val));
    lemma_write_well_shaped(view.bus, offset(view.sp, -1), high_byte(val));
    lemma_write_preserves_coherence(view.bus, offset(view.sp, -1), high_byte(val));
    lemma_write_well_shaped(first, offset(view.sp, -2), low_byte(val));
    lemma_write_preserves_coherence(first, offset(view.sp, -2), low_byte(val));
}

/// Whatever instruction is executed, a consistent state stays consistent:
/// the tile cache follows every byte that the engine writes into tile
/// memory, by a load or by a push.
pub proof fn lemma_execute_keeps_consistent(view: CpuView, instruction: Instruction)
    requires
        view.consistent(),
    ensures
        view.execute(instruction) matches Ok((after, _)) ==> after.consistent(),
{
    match instruction {
        Instruction::LD(LoadType::Byte(target, source)) => {
            let val = view.load_value(source);
            lemma_write_well_shaped(view.bus, view.registers.hl(), val);
            lemma_write_preserves_coherence(view.bus, view.registers.hl(), val);
        },
        Instruction::CALL(_) => {
            lemma_push_keeps_consistent(view, offset(view.pc, 3));
        },
        _ => {},
    }
}

/// A step leaves a consistent state consistent. The state at start-up is
/// consistent, so every state that steps lead to is.
pub proof fn lemma_step_keeps_consistent(view: CpuView)
    requires
        view.consistent(),
    ensures
        view.step() matches Ok(next) ==> next.consistent(),
{
    match view.fetch() {
        Some(instruction) => {
            lemma_execute_keeps_consistent(view, instruction);
        },
        None => {},
    }
}

/// When a step succeeds and when it fails. It fails on an opcode without a
/// table entry, with the opcode and the table that was consulted, and on an
/// instruction that the engine does not execute, with that instruction. On
/// every other opcode it succeeds.
pub proof fn lemma_step_outcome(view: CpuView)
    ensures
        view.fetch() is None <==> view.step() == Err::<CpuView, StepError>(
            StepError::UnrecognizedOpcode { byte: view.opcode(), prefixed: view.prefixed() },
        ),
        forall|instruction: Instruction|
            view.fetch() == Some(instruction) && !CpuView::implemented(instruction)
                <==> view.step() == Err::<CpuView, StepError>(
                StepError::Unimplemented(instruction),
            ),
        view.step() is Ok <==> (view.fetch() matches Some(instruction) && CpuView::implemented(
            instruction,
        )),
{
}

/// The execution engine.
pub struct CPU {
    pub registers: Registers,
    /// Program counter.
    pub pc: u16,
    /// Stack pointer.
    pub sp: u16,
    pub bus: MemoryBus,
}

impl View for CPU {
    type V = CpuView;

    open spec fn view(&self) -> CpuView {
        CpuView { registers: self.registers, pc: self.pc, sp: self.sp, bus: self.bus@ }
    }
}

impl CPU {
    /// Every engine has a view of the fixed sizes.
    pub proof fn lemma_view_well_shaped(&self)
        ensures
            self@.well_shaped(),
    {
        self.bus.lemma_view_well_shaped();
    }

    /// An engine in its state at start-up. Registers, program counter and
    /// stack pointer are then set through the fields.
    pub fn new() -> (cpu: CPU)
        ensures
            cpu@ == CpuView::initial(),
    {
        CPU { registers: Registers::new(), pc: 0, sp: 0, bus: MemoryBus::new() }
    }

    /// Executes the instruction at the program counter and commits the next
    /// program counter. On an error nothing changes.
    pub fn step(&mut self) -> (result: Result<(), StepError>)
        ensures
            match old(self)@.step() {
                Ok(next) => result is Ok && final(self)@ == next,
                Err(error) => result == Err::<(), StepError>(error) && final(self)@ == old(self)@,
            },
            old(self)@.fetch() is None ==> result == Err::<(), StepError>(
                StepError::UnrecognizedOpcode {
                    byte: old(self)@.opcode(),
                    prefixed: old(self)@.prefixed(),
                },
            ) && final(self)@ == old(self)@,
    {
        let mut instruction_byte: u8 = self.bus.read_byte(self.pc);
        let prefix_instr = instruction_byte == PREFIX_BYTE;
        if prefix_instr {
            instruction_byte = self.bus.read_byte(self.pc.wrapping_add(1));
        }
        match Instruction::from_byte(instruction_byte, prefix_instr) {
            Some(instruction) => {
                match self.execute(instruction) {
                    Ok(next_pc) => {
                        self.pc = next_pc;
                        Ok(())
                    },
                    Err(error) => Err(error),
                }
            },
            None => Err(
                StepError::UnrecognizedOpcode { byte: instruction_byte, prefixed: prefix_instr },
            ),
        }
    }

    /// Reads the byte after the opcode.
    pub fn read_next_byte(&self) -> (byte: u8)
        ensures
            byte == self@.next_byte(),
    {
        self.bus.read_byte(self.pc.wrapping_add(1))
    }

    /// Reads the two bytes after the opcode as one value, low byte first.
    pub fn read_next_word(&self) -> (word: u16)
        ensures
            word == self@.next_word(),
    {
        let lsb: u8 = self.bus.read_byte(self.pc.wrapping_add(1));
        let msb: u8 = self.bus.read_byte(self.pc.wrapping_add(2));
        proof {
            lemma_pair_bits(msb, lsb);
        }
        ((msb as u16) << 8) | (lsb as u16)
    }

    /// Executes one instruction and returns the next program counter, which
    /// it does not commit. On an error nothing changes.
    pub fn execute(&mut self, instruction: Instruction) -> (result: Result<u16, StepError>)
        ensures
            match old(self)@.execute(instruction) {
                Ok((after, next_pc)) => result == Ok::<u16, StepError>(next_pc) && final(self)@
                    == after,
                Err(error) => result == Err::<u16, StepError>(error) && final(self)@ == old(
                    self,
                )@,
            },
            result is Ok <==> CpuView::implemented(instruction),
            result is Err ==> result == Err::<u16, StepError>(
                StepError::Unimplemented(instruction),
            ),
    {
        match instruction {
            Instruction::ADD(target) => {
                let val: u8 = match target {
                    ArithmeticTarget::A => self.registers.a,
                    ArithmeticTarget::B => self.registers.b,
                    ArithmeticTarget::C => self.registers.c,
                    ArithmeticTarget::D => self.registers.d,
                    ArithmeticTarget::E => self.registers.e,
                    ArithmeticTarget::H => self.registers.h,
                    ArithmeticTarget::L => self.registers.l,
                    ArithmeticTarget::D8 => self.read_next_byte(),
                };
                let new_val: u8 = self.add(val);
                self.registers.a = new_val;
                match target {
                    ArithmeticTarget::D8 => Ok(self.pc.wrapping_add(2)),
                    _ => Ok(self.pc.wrapping_add(1)),
                }
            },
            Instruction::CALL(test) => {
                let condition = match test {
                    JumpTest::NotZero => !self.registers.f.zero,
                    JumpTest::NotCarry => !self.registers.f.carry,
                    JumpTest::Zero => self.registers.f.zero,
                    JumpTest::Carry => self.registers.f.carry,
                    JumpTest::Always => true,
                };
                Ok(self.call(condition))
            },
            Instruction::RET(test) => {
                let condition = match test {
                    JumpTest::NotZero => !self.registers.f.zero,
                    JumpTest::NotCarry => !self.registers.f.carry,
                    JumpTest::Zero => self.registers.f.zero,
                    JumpTest::Carry => self.registers.f.carry,
                    JumpTest::Always => true,
                };
                Ok(self.ret(condition))
            },
            Instruction::LD(load_type) => {
                match load_type {
                    LoadType::Byte(target, source) => {
                        let src_val: u8 = match source {
                            LoadByteSource::A => self.registers.a,
                            LoadByteSource::B => self.registers.b,
                            LoadByteSource::C => self.registers.c,
                            LoadByteSource::D => self.registers.d,
                            LoadByteSource::E => self.registers.e,
                            LoadByteSource::H => self.registers.h,
                            LoadByteSource::L => self.registers.l,
                            LoadByteSource::D8 => self.read_next_byte(),
                            LoadByteSource::HLI => self.bus.read_byte(self.registers.get_hl()),
                        };
                        match target {
                            LoadByteTarget::A => self.registers.a = src_val,
                            LoadByteTarget::B => self.registers.b = src_val,
                            LoadByteTarget::C => self.registers.c = src_val,
                            LoadByteTarget::D => self.registers.d = src_val,
                            LoadByteTarget::E => self.registers.e = src_val,
                            LoadByteTarget::H => self.registers.h = src_val,
                            LoadByteTarget::L => self.registers.l = src_val,
                            LoadByteTarget::HLI => self.bus.write_byte(
                                self.registers.get_hl(),
                                src_val,
                            ),
                        }
                        match source {
                            LoadByteSource::D8 => Ok(self.pc.wrapping_add(2)),
                            _ => Ok(self.pc.wrapping_add(1)),
                        }
                    },
                }
            },
            Instruction::JP(test) => {
                let jump_condition = match test {
                    JumpTest::NotZero => !self.registers.f.zero,
                    JumpTest::NotCarry => !self.registers.f.carry,
                    JumpTest::Zero => self.registers.f.zero,
                    JumpTest::Carry => self.registers.f.carry,
                    JumpTest::Always => true,
                };
                Ok(self.jump(jump_condition))
            },
            Instruction::HALT => Err(StepError::Unimplemented(instruction)),
            Instruction::NOP => Err(StepError::Unimplemented(instruction)),
            Instruction::INC(_) => Err(StepError::Unimplemented(instruction)),
            Instruction::RLC(_) => Err(StepError::Unimplemented(instruction)),
        }
    }

    /// Calls the address in the operand where `is_jump` holds, and returns
    /// the next program counter.
    pub fn call(&mut self, is_jump: bool) -> (next_pc: u16)
        ensures
            final(self)@ == old(self)@.call(is_jump).0,
            next_pc == old(self)@.call(is_jump).1,
    {
        let next_pc: u16 = self.pc.wrapping_add(3);
        if is_jump {
            self.push(next_pc);
            self.read_next_word()
        } else {
            next_pc
        }
    }

    /// Returns to the address on top of the stack where `is_jump` holds, and
    /// returns the next program counter.
    pub fn ret(&mut self, is_jump: bool) -> (next_pc: u16)
        ensures
            final(self)@ == old(self)@.ret(is_jump).0,
            next_pc == old(self)@.ret(is_jump).1,
    {
        if is_jump {
            self.pop()
        } else {
            self.pc.wrapping_add(1)
        }
    }

    /// Pushes `val` onto the stack, which grows downward: the stack pointer
    /// is decremented before each of the two bytes is written, the high byte
    /// first.
    pub fn push(&mut self, val: u16)
        ensures
            final(self)@ == old(self)@.push(val),
    {
        proof {
            lemma_split_bits(val);
            lemma_offset_twice(self.sp, -1, -1);
        }
        self.sp = self.sp.wrapping_sub(1);
        self.bus.write_byte(self.sp, ((val & 0xFF00) >> 8) as u8);
        self.sp = self.sp.wrapping_sub(1);
        self.bus.write_byte(self.sp, (val & 0xFF) as u8);
    }

    /// Pops the top of the stack: the low byte at the stack pointer, the high
    /// byte one above.
    pub fn pop(&mut self) -> (val: u16)
        ensures
            val == old(self)@.top(),
            final(self)@ == old(self)@.pop(),
    {
        proof {
            lemma_offset_twice(self.sp, 1, 1);
        }
        let lsb: u8 = self.bus.read_byte(self.sp);
        self.sp = self.sp.wrapping_add(1);
        let msb: u8 = self.bus.read_byte(self.sp);
        self.sp = self.sp.wrapping_add(1);
        proof {
            lemma_pair_bits(msb, lsb);
        }
        ((msb as u16) << 8) | (lsb as u16)
    }

    /// The next program counter of a jump that is taken where `is_jump`
    /// holds. The operand follows the opcode, low byte first.
    pub fn jump(&self, is_jump: bool) -> (next_pc: u16)
        ensures
            next_pc == self@.jump(is_jump),
    {
        if is_jump {
            let lsb: u8 = self.bus.read_byte(self.pc.wrapping_add(1));
            let msb: u8 = self.bus.read_byte(self.pc.wrapping_add(2));
            proof {
                lemma_pair_bits(msb, lsb);
            }
            ((msb as u16) << 8) | (lsb as u16)
        } else {
            self.pc.wrapping_add(3)
        }
    }

    /// Adds `val` to the accumulator's value: sets the flags and returns the
    /// 8-bit sum, which the caller writes to the accumulator.
    pub fn add(&mut self, val: u8) -> (new_val: u8)
        ensures
            new_val == old(self)@.sum(val),
            final(self)@ == old(self)@.with_sum_flags(val),
    {
        let a: u8 = self.registers.a;
        let new_val: u8 = a.wrapping_add(val);
        let was_overflow = (a as u16) + (val as u16) > 0xFF;
        assert(a & 0xF == a % 16 && val & 0xF == val % 16) by (bit_vector);

        self.registers.f.zero = new_val == 0;
        self.registers.f.subtract = false;
        self.registers.f.carry = was_overflow;
        self.registers.f.half_carry = (a & 0xF) + (val & 0xF) > 0xF;

        new_val
    }
}

} // verus!
