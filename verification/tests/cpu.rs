use gameboy_core::cpu::cpu::{StepError, CPU, PREFIX_BYTE};
use gameboy_core::cpu::instructions::{
    ArithmeticTarget, IncDecTarget, Instruction, JumpTest, LoadByteSource, LoadByteTarget,
    LoadType, PrefixTarget,
};
use gameboy_core::cpu::registers::{Flags, Registers};
use gameboy_core::gpu::gpu::TilePixelValue;

fn flags(zero: bool, subtract: bool, half_carry: bool, carry: bool) -> Flags {
    Flags { zero, subtract, half_carry, carry }
}

fn cpu_with(pc: u16, bytes: &[u8]) -> CPU {
    let mut cpu = CPU::new();
    cpu.pc = pc;
    let mut addr = pc;
    for b in bytes {
        cpu.bus.write_byte(addr, *b);
        addr = addr.wrapping_add(1);
    }
    cpu
}

fn memory_of(cpu: &CPU) -> Vec<u8> {
    let mut out = Vec::with_capacity(0x10000);
    for addr in 0u16..=0xFFFF {
        out.push(cpu.bus.read_byte(addr));
    }
    out
}

fn ld(target: LoadByteTarget, source: LoadByteSource) -> Instruction {
    Instruction::LD(LoadType::Byte(target, source))
}

#[test]
fn a_new_engine_is_all_zero() {
    let cpu = CPU::new();
    assert_eq!(cpu.registers, Registers::new());
    assert_eq!(cpu.pc, 0);
    assert_eq!(cpu.sp, 0);
    assert!(memory_of(&cpu).iter().all(|b| *b == 0));
    assert_eq!(PREFIX_BYTE, 0xCB);
}

#[test]
fn add_overflowing_sets_zero_carry_and_half_carry() {
    let mut cpu = CPU::new();
    cpu.registers.a = 0xFF;
    let result = cpu.add(0x01);
    assert_eq!(result, 0x00);
    assert_eq!(cpu.registers.f, flags(true, false, true, true));
}

#[test]
fn add_out_of_the_low_nibble_sets_half_carry_only() {
    let mut cpu = CPU::new();
    cpu.registers.a = 0x0F;
    let result = cpu.add(0x01);
    assert_eq!(result, 0x10);
    assert_eq!(cpu.registers.f, flags(false, false, true, false));
}

#[test]
fn add_without_any_carry_clears_the_flags() {
    let mut cpu = CPU::new();
    cpu.registers.a = 0x12;
    cpu.registers.f = flags(true, true, true, true);
    let result = cpu.add(0x21);
    assert_eq!(result, 0x33);
    assert_eq!(cpu.registers.f, flags(false, false, false, false));
}

#[test]
fn add_with_carry_out_of_bit_seven_only() {
    let mut cpu = CPU::new();
    cpu.registers.a = 0xF0;
    let result = cpu.add(0x20);
    assert_eq!(result, 0x10);
    assert_eq!(cpu.registers.f, flags(false, false, false, true));
}

#[test]
fn add_of_zero_to_zero_sets_zero() {
    let mut cpu = CPU::new();
    let result = cpu.add(0x00);
    assert_eq!(result, 0x00);
    assert_eq!(cpu.registers.f, flags(true, false, false, false));
}

#[test]
fn add_sets_flags_and_leaves_the_accumulator_to_the_caller() {
    let mut cpu = CPU::new();
    cpu.registers.a = 0x0F;
    cpu.registers.b = 0x77;
    cpu.pc = 0x0200;
    cpu.sp = 0x0300;
    let result = cpu.add(0x01);
    assert_eq!(result, 0x10);
    assert_eq!(cpu.registers.a, 0x0F);
    assert_eq!(cpu.registers.b, 0x77);
    assert_eq!(cpu.pc, 0x0200);
    assert_eq!(cpu.sp, 0x0300);
}

#[test]
fn add_agrees_with_wide_arithmetic_on_all_inputs() {
    for a in 0u16..=0xFF {
        for v in 0u16..=0xFF {
            let mut cpu = CPU::new();
            cpu.registers.a = a as u8;
            let result = cpu.add(v as u8);
            assert_eq!(result as u16, (a + v) & 0xFF);
            assert_eq!(
                cpu.registers.f,
                flags((a + v) & 0xFF == 0, false, (a & 0xF) + (v & 0xF) > 0xF, a + v > 0xFF)
            );
        }
    }
}

#[test]
fn execute_add_register_writes_the_accumulator() {
    let mut cpu = CPU::new();
    cpu.pc = 0x0100;
    cpu.registers.a = 0x0F;
    cpu.registers.c = 0x01;
    let next = cpu.execute(Instruction::ADD(ArithmeticTarget::C));
    assert_eq!(next, Ok(0x0101));
    assert_eq!(cpu.registers.a, 0x10);
    assert_eq!(cpu.registers.c, 0x01);
    assert_eq!(cpu.registers.f, flags(false, false, true, false));
    assert_eq!(cpu.pc, 0x0100);
}

#[test]
fn execute_add_reads_each_register() {
    let targets = [
        (ArithmeticTarget::B, 1u8),
        (ArithmeticTarget::C, 2),
        (ArithmeticTarget::D, 3),
        (ArithmeticTarget::E, 4),
        (ArithmeticTarget::H, 5),
        (ArithmeticTarget::L, 6),
    ];
    for (target, expected) in targets {
        let mut cpu = CPU::new();
        cpu.registers.a = 0x10;
        cpu.registers.b = 1;
        cpu.registers.c = 2;
        cpu.registers.d = 3;
        cpu.registers.e = 4;
        cpu.registers.h = 5;
        cpu.registers.l = 6;
        assert_eq!(cpu.execute(Instruction::ADD(target)), Ok(1));
        assert_eq!(cpu.registers.a, 0x10 + expected);
    }
}

#[test]
fn execute_add_accumulator_doubles_it() {
    let mut cpu = CPU::new();
    cpu.registers.a = 0x88;
    assert_eq!(cpu.execute(Instruction::ADD(ArithmeticTarget::A)), Ok(1));
    assert_eq!(cpu.registers.a, 0x10);
    assert_eq!(cpu.registers.f, flags(false, false, true, true));
}

#[test]
fn execute_add_immediate_consumes_a_byte() {
    let mut cpu = cpu_with(0x0100, &[0xC6, 0x01]);
    cpu.registers.a = 0xFF;
    let next = cpu.execute(Instruction::ADD(ArithmeticTarget::D8));
    assert_eq!(next, Ok(0x0102));
    assert_eq!(cpu.registers.a, 0x00);
    assert_eq!(cpu.registers.f, flags(true, false, true, true));
}

#[test]
fn step_add_register() {
    let mut cpu = cpu_with(0x0100, &[0x80]);
    cpu.registers.a = 0x01;
    cpu.registers.b = 0x02;
    assert_eq!(cpu.step(), Ok(()));
    assert_eq!(cpu.registers.a, 0x03);
    assert_eq!(cpu.pc, 0x0101);
}

#[test]
fn read_next_byte_and_word_follow_the_opcode() {
    let cpu = cpu_with(0x0100, &[0xC3, 0x34, 0x12]);
    assert_eq!(cpu.read_next_byte(), 0x34);
    assert_eq!(cpu.read_next_word(), 0x1234);
}

#[test]
fn read_next_word_wraps_round_the_address_space() {
    let mut cpu = CPU::new();
    cpu.pc = 0xFFFF;
    cpu.bus.write_byte(0x0000, 0xCD);
    cpu.bus.write_byte(0x0001, 0xAB);
    assert_eq!(cpu.read_next_byte(), 0xCD);
    assert_eq!(cpu.read_next_word(), 0xABCD);
}

#[test]
fn jp_always_jumps_to_the_little_endian_operand() {
    let mut cpu = cpu_with(0x0100, &[0xC3, 0x34, 0x12]);
    assert_eq!(cpu.step(), Ok(()));
    assert_eq!(cpu.pc, 0x1234);
}

#[test]
fn jp_always_through_execute() {
    let mut cpu = cpu_with(0x0100, &[0xC3, 0x34, 0x12]);
    assert_eq!(cpu.execute(Instruction::JP(JumpTest::Always)), Ok(0x1234));
    assert_eq!(cpu.pc, 0x0100);
}

#[test]
fn jp_not_zero_with_zero_set_does_not_jump() {
    let mut cpu = cpu_with(0x0100, &[0xC2, 0x34, 0x12]);
    cpu.registers.f.zero = true;
    assert_eq!(cpu.execute(Instruction::JP(JumpTest::NotZero)), Ok(0x0103));
    assert_eq!(cpu.step(), Ok(()));
    assert_eq!(cpu.pc, 0x0103);
}

#[test]
fn jump_conditions_follow_the_flags() {
    let cases = [
        (JumpTest::NotZero, flags(false, false, false, false), true),
        (JumpTest::NotZero, flags(true, false, false, false), false),
        (JumpTest::Zero, flags(true, false, false, false), true),
        (JumpTest::Zero, flags(false, false, false, true), false),
        (JumpTest::NotCarry, flags(true, false, false, false), true),
        (JumpTest::NotCarry, flags(false, false, false, true), false),
        (JumpTest::Carry, flags(false, false, false, true), true),
        (JumpTest::Carry, flags(true, true, true, false), false),
        (JumpTest::Always, flags(false, false, false, false), true),
        (JumpTest::Always, flags(true, true, true, true), true),
    ];
    for (test, f, taken) in cases {
        let mut cpu = cpu_with(0x0100, &[0x00, 0x34, 0x12]);
        cpu.registers.f = f;
        let expected = if taken { 0x1234 } else { 0x0103 };
        assert_eq!(cpu.execute(Instruction::JP(test)), Ok(expected));
    }
}

#[test]
fn jump_taken_and_not_taken() {
    let cpu = cpu_with(0x0100, &[0xC3, 0x34, 0x12]);
    assert_eq!(cpu.jump(true), 0x1234);
    assert_eq!(cpu.jump(false), 0x0103);
}

#[test]
fn jump_not_taken_wraps_round() {
    let mut cpu = CPU::new();
    cpu.pc = 0xFFFF;
    assert_eq!(cpu.jump(false), 0x0002);
    cpu.pc = 0xFFFD;
    assert_eq!(cpu.jump(false), 0x0000);
}

#[test]
fn push_writes_high_byte_at_the_higher_address() {
    let mut cpu = CPU::new();
    cpu.sp = 0xFFFE;
    cpu.push(0x1234);
    assert_eq!(cpu.sp, 0xFFFC);
    assert_eq!(cpu.bus.read_byte(0xFFFD), 0x12);
    assert_eq!(cpu.bus.read_byte(0xFFFC), 0x34);
    assert_eq!(cpu.bus.read_byte(0xFFFE), 0x00);
}

#[test]
fn push_stores_the_low_byte_itself() {
    let mut cpu = CPU::new();
    cpu.sp = 0x2000;
    cpu.push(0x00FF);
    assert_eq!(cpu.bus.read_byte(0x1FFF), 0x00);
    assert_eq!(cpu.bus.read_byte(0x1FFE), 0xFF);
}

#[test]
fn pop_reads_low_byte_first() {
    let mut cpu = CPU::new();
    cpu.sp = 0x1000;
    cpu.bus.write_byte(0x1000, 0xCD);
    cpu.bus.write_byte(0x1001, 0xAB);
    assert_eq!(cpu.pop(), 0xABCD);
    assert_eq!(cpu.sp, 0x1002);
    assert_eq!(cpu.bus.read_byte(0x1000), 0xCD);
    assert_eq!(cpu.bus.read_byte(0x1001), 0xAB);
}

#[test]
fn push_then_pop_returns_the_value_and_the_stack_pointer() {
    for sp in [0x0000u16, 0x0001, 0x0002, 0x8000, 0x8001, 0x8002, 0xA000, 0xA001, 0xFFFE, 0xFFFF] {
        for val in [0x0000u16, 0x0001, 0x00FF, 0x0100, 0x1234, 0x8000, 0xFF00, 0xFFFF] {
            let mut cpu = CPU::new();
            cpu.sp = sp;
            cpu.push(val);
            assert_eq!(cpu.sp, sp.wrapping_sub(2));
            assert_eq!(cpu.pop(), val);
            assert_eq!(cpu.sp, sp);
        }
    }
}

#[test]
fn push_then_pop_on_all_values() {
    let mut cpu = CPU::new();
    cpu.sp = 0xD000;
    for val in 0u16..=0xFFFF {
        cpu.push(val);
        assert_eq!(cpu.pop(), val);
    }
    assert_eq!(cpu.sp, 0xD000);
}

#[test]
fn the_stack_pointer_wraps_round() {
    let mut cpu = CPU::new();
    cpu.sp = 0x0001;
    cpu.push(0xBEEF);
    assert_eq!(cpu.sp, 0xFFFF);
    assert_eq!(cpu.bus.read_byte(0x0000), 0xBE);
    assert_eq!(cpu.bus.read_byte(0xFFFF), 0xEF);
    assert_eq!(cpu.pop(), 0xBEEF);
    assert_eq!(cpu.sp, 0x0001);
}

#[test]
fn pushes_and_pops_nest() {
    let mut cpu = CPU::new();
    cpu.sp = 0xFFFE;
    cpu.push(0x1111);
    cpu.push(0x2222);
    cpu.push(0x3333);
    assert_eq!(cpu.sp, 0xFFF8);
    assert_eq!(cpu.pop(), 0x3333);
    assert_eq!(cpu.pop(), 0x2222);
    assert_eq!(cpu.pop(), 0x1111);
    assert_eq!(cpu.sp, 0xFFFE);
}

#[test]
fn a_push_into_tile_memory_fills_the_cache() {
    let mut cpu = CPU::new();
    cpu.sp = 0x8002;
    cpu.push(0xFFFF);
    assert_eq!(cpu.sp, 0x8000);
    for p in 0..8 {
        assert_eq!(cpu.bus.gpu().tile_pixel(0, 0, p), TilePixelValue::Three);
    }
    assert_eq!(cpu.pop(), 0xFFFF);
}

#[test]
fn call_always_pushes_the_return_address_and_ret_restores_it() {
    let mut cpu = cpu_with(0x0100, &[0xCD, 0x00, 0x02]);
    cpu.sp = 0xFFFE;
    cpu.bus.write_byte(0x0200, 0xC9);
    assert_eq!(cpu.step(), Ok(()));
    assert_eq!(cpu.pc, 0x0200);
    assert_eq!(cpu.sp, 0xFFFC);
    assert_eq!(cpu.bus.read_byte(0xFFFD), 0x01);
    assert_eq!(cpu.bus.read_byte(0xFFFC), 0x03);
    assert_eq!(cpu.step(), Ok(()));
    assert_eq!(cpu.pc, 0x0103);
    assert_eq!(cpu.sp, 0xFFFE);
}

#[test]
fn call_and_ret_through_execute() {
    let mut cpu = cpu_with(0x0100, &[0xCD, 0x00, 0x02]);
    cpu.sp = 0xFFFE;
    assert_eq!(cpu.execute(Instruction::CALL(JumpTest::Always)), Ok(0x0200));
    assert_eq!(cpu.pc, 0x0100);
    assert_eq!(cpu.sp, 0xFFFC);
    cpu.pc = 0x0200;
    assert_eq!(cpu.execute(Instruction::RET(JumpTest::Always)), Ok(0x0103));
    assert_eq!(cpu.sp, 0xFFFE);
}

#[test]
fn call_not_taken_leaves_the_stack() {
    let mut cpu = cpu_with(0x0100, &[0xC4, 0x00, 0x02]);
    cpu.sp = 0xFFFE;
    cpu.registers.f.zero = true;
    let before = memory_of(&cpu);
    assert_eq!(cpu.call(false), 0x0103);
    assert_eq!(cpu.step(), Ok(()));
    assert_eq!(cpu.pc, 0x0103);
    assert_eq!(cpu.sp, 0xFFFE);
    assert_eq!(memory_of(&cpu), before);
}

#[test]
fn call_taken_returns_the_operand() {
    let mut cpu = cpu_with(0x0100, &[0xCD, 0x78, 0x56]);
    cpu.sp = 0x4000;
    assert_eq!(cpu.call(true), 0x5678);
    assert_eq!(cpu.sp, 0x3FFE);
    assert_eq!(cpu.bus.read_byte(0x3FFF), 0x01);
    assert_eq!(cpu.bus.read_byte(0x3FFE), 0x03);
}

#[test]
fn call_reads_its_operand_after_the_push() {
    let mut cpu = cpu_with(0x0100, &[0xCD, 0x00, 0x02]);
    // the two bytes pushed land on the operand
    cpu.sp = 0x0103;
    assert_eq!(cpu.call(true), 0x0103);
    assert_eq!(cpu.bus.read_byte(0x0102), 0x01);
    assert_eq!(cpu.bus.read_byte(0x0101), 0x03);
}

#[test]
fn conditional_call_is_taken_on_its_condition() {
    let mut cpu = cpu_with(0x0100, &[0xDC, 0x00, 0x02]);
    cpu.sp = 0xFFFE;
    cpu.registers.f.carry = true;
    assert_eq!(cpu.step(), Ok(()));
    assert_eq!(cpu.pc, 0x0200);
    assert_eq!(cpu.sp, 0xFFFC);
}

#[test]
fn ret_not_taken_goes_to_the_next_byte() {
    let mut cpu = cpu_with(0x0100, &[0xC8]);
    cpu.sp = 0xFFFC;
    cpu.bus.write_byte(0xFFFC, 0x03);
    cpu.bus.write_byte(0xFFFD, 0x01);
    assert_eq!(cpu.ret(false), 0x0101);
    assert_eq!(cpu.sp, 0xFFFC);
    assert_eq!(cpu.step(), Ok(()));
    assert_eq!(cpu.pc, 0x0101);
    assert_eq!(cpu.sp, 0xFFFC);
}

#[test]
fn ret_taken_pops_the_next_program_counter() {
    let mut cpu = CPU::new();
    cpu.sp = 0xFFFC;
    cpu.bus.write_byte(0xFFFC, 0x03);
    cpu.bus.write_byte(0xFFFD, 0x01);
    assert_eq!(cpu.ret(true), 0x0103);
    assert_eq!(cpu.sp, 0xFFFE);
}

#[test]
fn conditional_ret_is_taken_on_its_condition() {
    let mut cpu = cpu_with(0x0300, &[0xD0]);
    cpu.sp = 0xFFFC;
    cpu.bus.write_byte(0xFFFC, 0x34);
    cpu.bus.write_byte(0xFFFD, 0x12);
    assert_eq!(cpu.step(), Ok(()));
    assert_eq!(cpu.pc, 0x1234);
    assert_eq!(cpu.sp, 0xFFFE);
}

#[test]
fn load_register_to_register() {
    let mut cpu = CPU::new();
    cpu.pc = 0x0100;
    cpu.registers.b = 0x42;
    assert_eq!(cpu.execute(ld(LoadByteTarget::A, LoadByteSource::B)), Ok(0x0101));
    assert_eq!(cpu.registers.a, 0x42);
    assert_eq!(cpu.registers.b, 0x42);
}

#[test]
fn load_reads_each_source_register() {
    let sources = [
        (LoadByteSource::A, 1u8),
        (LoadByteSource::B, 2),
        (LoadByteSource::C, 3),
        (LoadByteSource::D, 4),
        (LoadByteSource::E, 5),
        (LoadByteSource::H, 6),
        (LoadByteSource::L, 7),
    ];
    for (source, expected) in sources {
        let mut cpu = CPU::new();
        cpu.registers =
            Registers { a: 1, b: 2, c: 3, d: 4, e: 5, f: Flags::new(), h: 6, l: 7 };
        let target = if expected == 4 { LoadByteTarget::E } else { LoadByteTarget::D };
        assert_eq!(cpu.execute(ld(target, source)), Ok(1));
        if expected == 4 {
            assert_eq!(cpu.registers.e, expected);
        } else {
            assert_eq!(cpu.registers.d, expected);
        }
    }
}

#[test]
fn load_writes_each_target_register() {
    let base = Registers { a: 0, b: 0, c: 0, d: 0, e: 0, f: Flags::new(), h: 0, l: 0 };
    let cases = [
        (LoadByteTarget::A, Registers { a: 0x99, ..base }),
        (LoadByteTarget::B, Registers { b: 0x99, ..base }),
        (LoadByteTarget::C, Registers { c: 0x99, ..base }),
        (LoadByteTarget::D, Registers { d: 0x99, ..base }),
        (LoadByteTarget::E, Registers { e: 0x99, ..base }),
        (LoadByteTarget::H, Registers { h: 0x99, ..base }),
        (LoadByteTarget::L, Registers { l: 0x99, ..base }),
    ];
    for (target, expected) in cases {
        let mut cpu = cpu_with(0x0100, &[0x00, 0x99]);
        assert_eq!(cpu.execute(ld(target, LoadByteSource::D8)), Ok(0x0102));
        assert_eq!(cpu.registers, expected);
    }
}

#[test]
fn load_immediate_consumes_a_byte() {
    let mut cpu = cpu_with(0x0100, &[0x3E, 0x7F]);
    assert_eq!(cpu.step(), Ok(()));
    assert_eq!(cpu.registers.a, 0x7F);
    assert_eq!(cpu.pc, 0x0102);
}

#[test]
fn load_from_memory_at_hl() {
    let mut cpu = cpu_with(0x0100, &[0x7E]);
    cpu.registers.set_hl(0xC000);
    cpu.bus.write_byte(0xC000, 0x5A);
    assert_eq!(cpu.step(), Ok(()));
    assert_eq!(cpu.registers.a, 0x5A);
    assert_eq!(cpu.pc, 0x0101);
}

#[test]
fn load_to_memory_at_hl() {
    let mut cpu = cpu_with(0x0100, &[0x77]);
    cpu.registers.a = 0xA5;
    cpu.registers.set_hl(0xC123);
    assert_eq!(cpu.step(), Ok(()));
    assert_eq!(cpu.bus.read_byte(0xC123), 0xA5);
    assert_eq!(cpu.pc, 0x0101);
}

#[test]
fn load_immediate_to_memory_at_hl() {
    let mut cpu = cpu_with(0x0100, &[0x36, 0xFF]);
    cpu.registers.set_hl(0x8000);
    assert_eq!(cpu.step(), Ok(()));
    assert_eq!(cpu.bus.read_byte(0x8000), 0xFF);
    assert_eq!(cpu.pc, 0x0102);
    for p in 0..8 {
        assert_eq!(cpu.bus.gpu().tile_pixel(0, 0, p), TilePixelValue::One);
    }
}

#[test]
fn load_memory_to_memory_keeps_the_byte() {
    let mut cpu = CPU::new();
    cpu.registers.set_hl(0xC000);
    cpu.bus.write_byte(0xC000, 0x33);
    assert_eq!(cpu.execute(ld(LoadByteTarget::HLI, LoadByteSource::HLI)), Ok(1));
    assert_eq!(cpu.bus.read_byte(0xC000), 0x33);
}

#[test]
fn loads_leave_the_flags() {
    let mut cpu = cpu_with(0x0100, &[0x06, 0x00]);
    cpu.registers.f = flags(true, false, true, false);
    assert_eq!(cpu.step(), Ok(()));
    assert_eq!(cpu.registers.f, flags(true, false, true, false));
}

#[test]
fn the_program_counter_wraps_round() {
    let mut cpu = cpu_with(0xFFFF, &[0x78]);
    cpu.registers.b = 9;
    assert_eq!(cpu.step(), Ok(()));
    assert_eq!(cpu.pc, 0x0000);
    assert_eq!(cpu.registers.a, 9);
    let mut cpu = cpu_with(0xFFFF, &[0x3E, 0x21]);
    assert_eq!(cpu.bus.read_byte(0x0000), 0x21);
    assert_eq!(cpu.step(), Ok(()));
    assert_eq!(cpu.pc, 0x0001);
    assert_eq!(cpu.registers.a, 0x21);
}

#[test]
fn an_unknown_opcode_is_reported_and_changes_nothing() {
    let mut cpu = cpu_with(0x0100, &[0xD3, 0x11, 0x22]);
    cpu.sp = 0xFFFE;
    cpu.registers = Registers {
        a: 1,
        b: 2,
        c: 3,
        d: 4,
        e: 5,
        f: flags(true, false, true, false),
        h: 6,
        l: 7,
    };
    let registers = cpu.registers;
    let memory = memory_of(&cpu);
    assert_eq!(
        cpu.step(),
        Err(StepError::UnrecognizedOpcode { byte: 0xD3, prefixed: false })
    );
    assert_eq!(cpu.pc, 0x0100);
    assert_eq!(cpu.sp, 0xFFFE);
    assert_eq!(cpu.registers, registers);
    assert_eq!(memory_of(&cpu), memory);
}

#[test]
fn an_unknown_prefixed_opcode_is_reported_and_changes_nothing() {
    let mut cpu = cpu_with(0x0100, &[0xCB, 0x37]);
    cpu.sp = 0xFFFE;
    let registers = cpu.registers;
    let memory = memory_of(&cpu);
    assert_eq!(
        cpu.step(),
        Err(StepError::UnrecognizedOpcode { byte: 0x37, prefixed: true })
    );
    assert_eq!(cpu.pc, 0x0100);
    assert_eq!(cpu.sp, 0xFFFE);
    assert_eq!(cpu.registers, registers);
    assert_eq!(memory_of(&cpu), memory);
}

#[test]
fn the_same_failure_repeats_on_the_same_state() {
    let mut cpu = cpu_with(0x0100, &[0xFF]);
    let first = cpu.step();
    let second = cpu.step();
    assert_eq!(first, Err(StepError::UnrecognizedOpcode { byte: 0xFF, prefixed: false }));
    assert_eq!(second, first);
}

#[test]
fn the_prefix_byte_selects_the_second_table() {
    let mut cpu = cpu_with(0x0100, &[0xCB, 0x00]);
    assert_eq!(
        cpu.step(),
        Err(StepError::Unimplemented(Instruction::RLC(PrefixTarget::B)))
    );
    assert_eq!(cpu.pc, 0x0100);
}

#[test]
fn the_prefix_operand_wraps_round() {
    let mut cpu = cpu_with(0xFFFF, &[0xCB, 0x01]);
    assert_eq!(
        cpu.step(),
        Err(StepError::UnrecognizedOpcode { byte: 0x01, prefixed: true })
    );
    assert_eq!(cpu.pc, 0xFFFF);
}

#[test]
fn an_instruction_without_an_execution_is_reported_as_such() {
    let mut cpu = CPU::new();
    cpu.pc = 0x0100;
    cpu.sp = 0xFFFE;
    cpu.registers.b = 0x12;
    let registers = cpu.registers;
    let memory = memory_of(&cpu);
    for instruction in [
        Instruction::HALT,
        Instruction::NOP,
        Instruction::INC(IncDecTarget::BC),
        Instruction::RLC(PrefixTarget::B),
    ] {
        assert_eq!(cpu.execute(instruction), Err(StepError::Unimplemented(instruction)));
        assert_eq!(cpu.pc, 0x0100);
        assert_eq!(cpu.sp, 0xFFFE);
        assert_eq!(cpu.registers, registers);
    }
    assert_eq!(memory_of(&cpu), memory);
}

#[test]
fn a_step_onto_an_instruction_without_an_execution_changes_nothing() {
    for (opcode, instruction) in [
        (0x00u8, Instruction::NOP),
        (0x76, Instruction::HALT),
        (0x03, Instruction::INC(IncDecTarget::BC)),
    ] {
        let mut cpu = cpu_with(0x0100, &[opcode]);
        let memory = memory_of(&cpu);
        assert_eq!(cpu.step(), Err(StepError::Unimplemented(instruction)));
        assert_eq!(cpu.pc, 0x0100);
        assert_eq!(cpu.registers, Registers::new());
        assert_eq!(memory_of(&cpu), memory);
    }
}

#[test]
fn the_two_errors_are_distinct() {
    let mut unknown = cpu_with(0, &[0xD3]);
    let mut known = cpu_with(0, &[0x00]);
    let a = unknown.step();
    let b = known.step();
    assert!(matches!(a, Err(StepError::UnrecognizedOpcode { .. })));
    assert!(matches!(b, Err(StepError::Unimplemented(_))));
    assert_ne!(a, b);
}

#[test]
fn a_short_program_runs_step_by_step() {
    // 0x0100: LD A, 0x0F ; LD B, 0x01 ; ADD A, B ; CALL 0x0200 ; JP 0x0100
    // 0x0200: LD (HL), A ; RET
    let mut cpu = cpu_with(
        0x0100,
        &[0x3E, 0x0F, 0x06, 0x01, 0x80, 0xCD, 0x00, 0x02, 0xC3, 0x00, 0x01],
    );
    cpu.bus.write_byte(0x0200, 0x77);
    cpu.bus.write_byte(0x0201, 0xC9);
    cpu.sp = 0xFFFE;
    cpu.registers.set_hl(0xC000);
    let expected_pc = [0x0102u16, 0x0104, 0x0105, 0x0200, 0x0201, 0x0108, 0x0100];
    for pc in expected_pc {
        assert_eq!(cpu.step(), Ok(()));
        assert_eq!(cpu.pc, pc);
    }
    assert_eq!(cpu.registers.a, 0x10);
    assert_eq!(cpu.registers.b, 0x01);
    assert_eq!(cpu.registers.f, flags(false, false, true, false));
    assert_eq!(cpu.bus.read_byte(0xC000), 0x10);
    assert_eq!(cpu.sp, 0xFFFE);
}
