use console16::rng;
use console16::{
    ArithmeticFault, Condition, Cpu, DecodeError, Effect, Fault, Flags, Instruction, MemoryError,
    StackFault,
};

const SIZE: usize = 0x1_0000;

/// A machine with `program` loaded at address 0.
fn machine(program: &[Instruction]) -> Cpu {
    let mut cpu = Cpu::new(SIZE);
    let mut image = Vec::new();
    for instruction in program {
        image.extend_from_slice(&instruction.encode().to_be_bytes());
    }
    assert_eq!(cpu.load(0, &image), Ok(()));
    cpu
}

/// Runs `instruction` on `cpu` and expects it to ask nothing of the host.
fn run(cpu: &mut Cpu, instruction: Instruction) {
    assert_eq!(cpu.execute(&instruction), Ok(Effect::Nothing), "{:?}", instruction);
}

fn registers(cpu: &Cpu) -> Vec<u16> {
    (0..16u8).map(|k| cpu.register(k)).collect()
}

fn flags(carry: bool, zero: bool, overflow: bool, negative: bool) -> Flags {
    Flags { carry, zero, overflow, negative }
}

#[test]
fn create_cpu() {
    let mut cpu = Cpu::new(SIZE);
    let _ = cpu.step();
}

#[test]
fn power_on_state() {
    let cpu = Cpu::new(SIZE);
    assert_eq!(cpu.pc(), 0);
    assert_eq!(cpu.sp(), 0xFFFF);
    assert_eq!(cpu.flags(), Flags::new());
    assert_eq!(registers(&cpu), vec![0; 16]);
    assert_eq!(cpu.background(), 0);
    assert_eq!(cpu.sprite_size(), (0, 0));
    assert_eq!(cpu.flip(), (false, false));
    assert_eq!(cpu.seed(), 0);
    assert_eq!(cpu.memory().size(), SIZE);
    assert_eq!(cpu.memory().read_u32(0), Ok(0));
    assert_eq!(cpu.memory().read_u8(0xFFFF), Ok(0));
    assert_eq!(Cpu::new(0).sp(), 0);
    assert_eq!(Cpu::new(1).sp(), 0);
    assert_eq!(Cpu::new(0x100).sp(), 0xFF);
    assert_eq!(Cpu::new(0x2_0000).sp(), 0xFFFF);
    assert_eq!(Cpu::with_seed(16, 77).seed(), 77);
}

#[test]
fn a_zeroed_memory_is_a_run_of_nops() {
    let mut cpu = Cpu::new(SIZE);
    for k in 1..=5u16 {
        assert_eq!(cpu.step(), Ok(Effect::Nothing));
        assert_eq!(cpu.pc(), 4 * k);
    }
    assert_eq!(registers(&cpu), vec![0; 16]);
    assert_eq!(cpu.flags(), Flags::new());
    assert_eq!(cpu.sp(), 0xFFFF);
}

#[test]
fn load_two_immediates_and_add() {
    let mut cpu = Cpu::new(SIZE);
    let image = [0x20, 0x00, 0x00, 0x05, 0x21, 0x01, 0x00, 0x03, 0x41, 0x00, 0x10, 0x00];
    assert_eq!(cpu.load(0, &image), Ok(()));
    assert_eq!(cpu.step(), Ok(Effect::Nothing));
    assert_eq!(cpu.register(0), 5);
    assert_eq!(cpu.step(), Ok(Effect::Nothing));
    assert_eq!(cpu.register(1), 3);
    assert_eq!(cpu.step(), Ok(Effect::Nothing));
    assert_eq!(cpu.register(0), 8);
    assert_eq!(cpu.register(1), 3);
    assert!(!cpu.flags().zero);
    assert!(!cpu.flags().carry);
    assert_eq!(cpu.flags(), Flags::new());
    assert_eq!(cpu.pc(), 12);
}

#[test]
fn load_places_the_image_and_checks_its_end() {
    let mut cpu = Cpu::new(16);
    assert_eq!(cpu.load(12, &[1, 2, 3, 4, 5]), Err(MemoryError::OutOfBounds));
    assert_eq!(cpu.memory().read_u32(12), Ok(0));
    assert_eq!(cpu.load(12, &[1, 2, 3, 4]), Ok(()));
    assert_eq!(cpu.memory().read_u32(12), Ok(0x0102_0304));
    assert_eq!(cpu.memory().read_u8(11), Ok(0));
    assert_eq!(cpu.pc(), 0);
    assert_eq!(cpu.sp(), 15);
}

#[test]
fn set_register_sets_one_register() {
    let mut cpu = Cpu::new(16);
    cpu.set_register(3, 0xABCD);
    cpu.set_register(15, 1);
    let mut expected = vec![0u16; 16];
    expected[3] = 0xABCD;
    expected[15] = 1;
    assert_eq!(registers(&cpu), expected);
    assert_eq!(cpu.pc(), 0);
}

#[test]
fn pushall_then_popall_restores_the_registers() {
    let mut cpu = Cpu::new(SIZE);
    let values: Vec<u16> = (0..16u16).map(|k| 0x1100 * k + 0x00A0 + k).collect();
    for k in 0..16u8 {
        cpu.set_register(k, values[k as usize]);
    }
    let sp = cpu.sp();
    run(&mut cpu, Instruction::PUSHALL);
    assert_eq!(cpu.sp(), sp - 32);
    assert_eq!(registers(&cpu), values);
    // Register k lies at sp - 2 * (k + 1): r0 highest, r15 lowest.
    for k in 0..16u16 {
        assert_eq!(cpu.memory().read_u16(sp - 2 * (k + 1)), Ok(values[k as usize]));
    }
    for k in 0..16u8 {
        cpu.set_register(k, 0xDEAD);
    }
    run(&mut cpu, Instruction::POPALL);
    assert_eq!(registers(&cpu), values);
    assert_eq!(cpu.sp(), sp);
    assert_eq!(cpu.pc(), 8);
}

#[test]
fn pushall_then_popall_by_steps() {
    let mut cpu = machine(&[Instruction::PUSHALL, Instruction::POPALL]);
    for k in 0..16u8 {
        cpu.set_register(k, 1000 + k as u16);
    }
    let (before, sp) = (registers(&cpu), cpu.sp());
    assert_eq!(cpu.step(), Ok(Effect::Nothing));
    assert_eq!(cpu.step(), Ok(Effect::Nothing));
    assert_eq!(registers(&cpu), before);
    assert_eq!(cpu.sp(), sp);
}

#[test]
fn pushall_is_the_same_as_sixteen_pushes() {
    let mut one = Cpu::new(0x100);
    let mut other = Cpu::new(0x100);
    for k in 0..16u8 {
        one.set_register(k, 3 * k as u16 + 1);
        other.set_register(k, 3 * k as u16 + 1);
    }
    run(&mut one, Instruction::PUSHALL);
    for k in 0..16u8 {
        run(&mut other, Instruction::PUSH { src: k });
    }
    assert_eq!(one.sp(), other.sp());
    for address in 0..0x100u16 {
        assert_eq!(one.memory().read_u8(address), other.memory().read_u8(address));
    }
    for k in 0..16u8 {
        other.set_register(k, 0);
    }
    for k in (0..16u8).rev() {
        run(&mut other, Instruction::POP { dst: k });
    }
    for k in 0..16u8 {
        one.set_register(k, 0);
    }
    run(&mut one, Instruction::POPALL);
    assert_eq!(registers(&one), registers(&other));
    assert_eq!(one.register(7), 22);
    assert_eq!(one.sp(), 0xFF);
}

#[test]
fn pushall_needs_thirty_two_bytes() {
    let mut cpu = Cpu::new(32);
    assert_eq!(cpu.sp(), 31);
    cpu.set_register(0, 0xFFFF);
    assert_eq!(
        cpu.execute(&Instruction::PUSHALL),
        Err(Fault::Stack(StackFault::Overflow))
    );
    assert_eq!(cpu.sp(), 31);
    assert_eq!(cpu.pc(), 0);
    for address in 0..32u16 {
        assert_eq!(cpu.memory().read_u8(address), Ok(0));
    }
    let mut cpu = Cpu::new(33);
    run(&mut cpu, Instruction::PUSHALL);
    assert_eq!(cpu.sp(), 0);
}

#[test]
fn popall_needs_thirty_two_bytes() {
    let mut cpu = Cpu::new(SIZE);
    cpu.set_register(5, 55);
    assert_eq!(
        cpu.execute(&Instruction::POPALL),
        Err(Fault::Stack(StackFault::Underflow))
    );
    assert_eq!(cpu.register(5), 55);
    run(&mut cpu, Instruction::PUSH { src: 5 });
    for _ in 0..14 {
        run(&mut cpu, Instruction::PUSH { src: 0 });
    }
    assert_eq!(
        cpu.execute(&Instruction::POPALL),
        Err(Fault::Stack(StackFault::Underflow))
    );
    assert_eq!(cpu.sp(), 0xFFFF - 30);
    assert_eq!(cpu.register(5), 55);
}

#[test]
fn call_then_ret_comes_back_behind_the_call() {
    let mut cpu = Cpu::new(SIZE);
    assert_eq!(cpu.load(0x0100, &[0x14, 0x00, 0x02, 0x00]), Ok(()));
    assert_eq!(cpu.load(0x0200, &[0x15, 0x00, 0x00, 0x00]), Ok(()));
    run(&mut cpu, Instruction::JMP0 { target: 0x0100 });
    let sp = cpu.sp();
    assert_eq!(cpu.step(), Ok(Effect::Nothing));
    assert_eq!(cpu.pc(), 0x0200);
    assert_eq!(cpu.sp(), sp - 2);
    assert_eq!(cpu.memory().read_u16(sp - 2), Ok(0x0104));
    assert_eq!(cpu.step(), Ok(Effect::Nothing));
    assert_eq!(cpu.pc(), 0x0104);
    assert_eq!(cpu.sp(), sp);
}

#[test]
fn call_by_register_and_by_condition() {
    let mut cpu = Cpu::new(SIZE);
    cpu.set_register(4, 0x4000);
    run(&mut cpu, Instruction::CALL1 { src: 4 });
    assert_eq!(cpu.pc(), 0x4000);
    run(&mut cpu, Instruction::RET);
    assert_eq!(cpu.pc(), 4);
    assert_eq!(cpu.sp(), 0xFFFF);

    // The zero flag is clear: the call is not made.
    run(&mut cpu, Instruction::CX { condition: Condition::Zero, target: 0x5000 });
    assert_eq!(cpu.pc(), 8);
    assert_eq!(cpu.sp(), 0xFFFF);
    run(&mut cpu, Instruction::CX { condition: Condition::NotZero, target: 0x5000 });
    assert_eq!(cpu.pc(), 0x5000);
    assert_eq!(cpu.sp(), 0xFFFD);
    assert_eq!(cpu.memory().read_u16(0xFFFD), Ok(12));
    run(&mut cpu, Instruction::RET);
    assert_eq!(cpu.pc(), 12);
}

#[test]
fn the_return_address_wraps_at_the_end_of_the_address_space() {
    let mut cpu = Cpu::new(SIZE);
    run(&mut cpu, Instruction::JMP0 { target: 0xFFFC });
    run(&mut cpu, Instruction::CALL0 { target: 0x0300 });
    assert_eq!(cpu.memory().read_u16(0xFFFD), Ok(0x0000));
    run(&mut cpu, Instruction::RET);
    assert_eq!(cpu.pc(), 0);
    run(&mut cpu, Instruction::JMP0 { target: 0xFFFE });
    run(&mut cpu, Instruction::NOP);
    assert_eq!(cpu.pc(), 2);
}

#[test]
fn ret_on_an_empty_stack_underflows() {
    let mut cpu = Cpu::new(SIZE);
    assert_eq!(cpu.execute(&Instruction::RET), Err(Fault::Stack(StackFault::Underflow)));
    assert_eq!(cpu.execute(&Instruction::POP { dst: 0 }), Err(Fault::Stack(StackFault::Underflow)));
    assert_eq!(cpu.execute(&Instruction::POPF), Err(Fault::Stack(StackFault::Underflow)));
    assert_eq!(cpu.pc(), 0);
    assert_eq!(cpu.sp(), 0xFFFF);
    // One more than was pushed.
    run(&mut cpu, Instruction::PUSH { src: 0 });
    run(&mut cpu, Instruction::POP { dst: 1 });
    assert_eq!(cpu.execute(&Instruction::POP { dst: 1 }), Err(Fault::Stack(StackFault::Underflow)));
}

#[test]
fn a_push_below_address_zero_overflows() {
    let mut cpu = Cpu::new(4);
    assert_eq!(cpu.sp(), 3);
    cpu.set_register(2, 0xAABB);
    run(&mut cpu, Instruction::PUSH { src: 2 });
    assert_eq!(cpu.sp(), 1);
    assert_eq!(cpu.memory().read_u16(1), Ok(0xAABB));
    let pc = cpu.pc();
    assert_eq!(
        cpu.execute(&Instruction::PUSH { src: 2 }),
        Err(Fault::Stack(StackFault::Overflow))
    );
    assert_eq!(cpu.execute(&Instruction::PUSHF), Err(Fault::Stack(StackFault::Overflow)));
    assert_eq!(
        cpu.execute(&Instruction::CALL0 { target: 0 }),
        Err(Fault::Stack(StackFault::Overflow))
    );
    assert_eq!(cpu.sp(), 1);
    assert_eq!(cpu.pc(), pc);
    assert_eq!(cpu.memory().read_u8(0), Ok(0));
    assert_eq!(
        Cpu::new(0).execute(&Instruction::PUSH { src: 0 }),
        Err(Fault::Stack(StackFault::Overflow))
    );
    assert_eq!(
        Cpu::new(0).execute(&Instruction::POP { dst: 0 }),
        Err(Fault::Stack(StackFault::Underflow))
    );
}

#[test]
fn push_and_pop_move_one_word() {
    let mut cpu = Cpu::new(SIZE);
    cpu.set_register(1, 0x1234);
    run(&mut cpu, Instruction::PUSH { src: 1 });
    assert_eq!(cpu.sp(), 0xFFFD);
    assert_eq!(cpu.memory().read_u8(0xFFFD), Ok(0x12));
    assert_eq!(cpu.memory().read_u8(0xFFFE), Ok(0x34));
    run(&mut cpu, Instruction::POP { dst: 9 });
    assert_eq!(cpu.register(9), 0x1234);
    assert_eq!(cpu.sp(), 0xFFFF);
}

#[test]
fn pushf_and_popf_move_the_flags_byte() {
    let mut cpu = Cpu::new(SIZE);
    cpu.set_register(0, 0xFFFF);
    run(&mut cpu, Instruction::ADDI { dst: 0, imm: 1 });
    assert_eq!(cpu.flags(), flags(true, true, false, false));
    run(&mut cpu, Instruction::PUSHF);
    assert_eq!(cpu.memory().read_u16(0xFFFD), Ok(0x0006));
    run(&mut cpu, Instruction::CMPI { lhs: 0, imm: 1 });
    assert_eq!(cpu.flags(), flags(true, false, false, true));
    run(&mut cpu, Instruction::POPF);
    assert_eq!(cpu.flags(), flags(true, true, false, false));
    assert_eq!(cpu.sp(), 0xFFFF);
    // Only the low byte of the word is read, and of it only the four bits.
    cpu.set_register(3, 0xFFFF);
    run(&mut cpu, Instruction::PUSH { src: 3 });
    run(&mut cpu, Instruction::POPF);
    assert_eq!(cpu.flags(), flags(true, true, true, true));
    cpu.set_register(3, 0xFF80);
    run(&mut cpu, Instruction::PUSH { src: 3 });
    run(&mut cpu, Instruction::POPF);
    assert_eq!(cpu.flags(), flags(false, false, false, true));
}

#[test]
fn division_by_zero_leaves_the_machine_alone() {
    let mut cpu = Cpu::new(SIZE);
    cpu.set_register(1, 7);
    cpu.set_register(2, 0);
    cpu.set_register(3, 9);
    run(&mut cpu, Instruction::CMPI { lhs: 1, imm: 8 });
    let (pc, before) = (cpu.pc(), cpu.flags());
    let fault = Err(Fault::Arithmetic(ArithmeticFault::DivisionByZero));
    let all = [
        Instruction::DIV0 { dst: 1, src: 2 },
        Instruction::MOD0 { dst: 1, src: 2 },
        Instruction::REM0 { dst: 1, src: 2 },
        Instruction::DIVI { dst: 1, imm: 0 },
        Instruction::MODI { dst: 1, imm: 0 },
        Instruction::REMI { dst: 1, imm: 0 },
        Instruction::DIV1 { dst: 1, lhs: 3, rhs: 2 },
        Instruction::MOD1 { dst: 1, lhs: 3, rhs: 2 },
        Instruction::REM1 { dst: 1, lhs: 3, rhs: 2 },
    ];
    for instruction in all {
        assert_eq!(cpu.execute(&instruction), fault, "{:?}", instruction);
        assert_eq!(cpu.register(1), 7);
        assert_eq!(cpu.pc(), pc);
        assert_eq!(cpu.flags(), before);
    }
}

#[test]
fn division_by_zero_by_steps() {
    let mut cpu = machine(&[
        Instruction::LDI0 { dst: 0, imm: 100 },
        Instruction::DIV0 { dst: 0, src: 1 },
    ]);
    assert_eq!(cpu.step(), Ok(Effect::Nothing));
    assert_eq!(cpu.step(), Err(Fault::Arithmetic(ArithmeticFault::DivisionByZero)));
    assert_eq!(cpu.register(0), 100);
    assert_eq!(cpu.pc(), 4);
    // The same state faults the same way again.
    assert_eq!(cpu.step(), Err(Fault::Arithmetic(ArithmeticFault::DivisionByZero)));
}

#[test]
fn division_instructions() {
    let mut cpu = Cpu::new(SIZE);
    cpu.set_register(1, 0xFFF9);
    cpu.set_register(2, 2);
    run(&mut cpu, Instruction::DIV1 { dst: 3, lhs: 1, rhs: 2 });
    run(&mut cpu, Instruction::MOD1 { dst: 4, lhs: 1, rhs: 2 });
    run(&mut cpu, Instruction::REM1 { dst: 5, lhs: 1, rhs: 2 });
    assert_eq!(cpu.register(3), 0xFFFD);
    assert_eq!(cpu.register(4), 1);
    assert_eq!(cpu.register(5), 0xFFFF);
    assert_eq!(cpu.flags(), flags(false, false, false, true));
    run(&mut cpu, Instruction::DIVI { dst: 2, imm: 2 });
    assert_eq!(cpu.register(2), 1);
    run(&mut cpu, Instruction::MOD0 { dst: 1, src: 2 });
    assert_eq!(cpu.register(1), 0);
    assert_eq!(cpu.flags(), flags(false, true, false, false));
    cpu.set_register(6, 17);
    run(&mut cpu, Instruction::REMI { dst: 6, imm: 5 });
    assert_eq!(cpu.register(6), 2);
    run(&mut cpu, Instruction::MODI { dst: 6, imm: 0xFFFD });
    assert_eq!(cpu.register(6), 0xFFFF);
    cpu.set_register(7, 40);
    cpu.set_register(8, 6);
    run(&mut cpu, Instruction::DIV0 { dst: 7, src: 8 });
    assert_eq!(cpu.register(7), 6);
    run(&mut cpu, Instruction::REM0 { dst: 7, src: 8 });
    assert_eq!(cpu.register(7), 0);
}

#[test]
fn vblnk_twice_signals_twice() {
    let mut cpu = machine(&[Instruction::VBLNK, Instruction::VBLNK]);
    assert_eq!(cpu.step(), Ok(Effect::WaitVblank));
    assert_eq!(cpu.pc(), 4);
    assert_eq!(cpu.step(), Ok(Effect::WaitVblank));
    assert_eq!(cpu.pc(), 8);
    assert_eq!(registers(&cpu), vec![0; 16]);
    assert_eq!(cpu.flags(), Flags::new());
    assert_eq!(cpu.sp(), 0xFFFF);
}

#[test]
fn an_unknown_opcode_faults_and_changes_nothing() {
    let mut cpu = Cpu::new(SIZE);
    assert_eq!(cpu.load(0, &[0x00, 0, 0, 0, 0x0F, 0x12, 0x34, 0x56]), Ok(()));
    cpu.set_register(1, 11);
    assert_eq!(cpu.step(), Ok(Effect::Nothing));
    let unknown = Err(Fault::Decode(DecodeError::UnknownOpcode(0x0F)));
    assert_eq!(cpu.step(), unknown);
    assert_eq!(cpu.pc(), 4);
    assert_eq!(cpu.sp(), 0xFFFF);
    assert_eq!(cpu.register(1), 11);
    assert_eq!(cpu.flags(), Flags::new());
    assert_eq!(cpu.memory().read_u32(4), Ok(0x0F12_3456));
    assert_eq!(cpu.step(), unknown);
}

#[test]
fn a_fetch_past_the_end_of_memory_faults() {
    let mut cpu = Cpu::new(6);
    assert_eq!(cpu.step(), Ok(Effect::Nothing));
    assert_eq!(cpu.pc(), 4);
    assert_eq!(cpu.step(), Err(Fault::Memory(MemoryError::OutOfBounds)));
    assert_eq!(cpu.pc(), 4);
    assert_eq!(Cpu::new(3).step(), Err(Fault::Memory(MemoryError::OutOfBounds)));
    assert_eq!(Cpu::new(0).step(), Err(Fault::Memory(MemoryError::OutOfBounds)));
    let mut cpu = Cpu::new(SIZE);
    run(&mut cpu, Instruction::JMP0 { target: 0xFFFD });
    assert_eq!(cpu.step(), Err(Fault::Memory(MemoryError::OutOfBounds)));
    run(&mut cpu, Instruction::JMP0 { target: 0xFFFC });
    assert_eq!(cpu.step(), Ok(Effect::Nothing));
    assert_eq!(cpu.pc(), 0);
}

#[test]
fn loads_and_stores() {
    let mut cpu = Cpu::new(SIZE);
    run(&mut cpu, Instruction::LDI0 { dst: 1, imm: 0xCAFE });
    run(&mut cpu, Instruction::LDI1 { dst: 2, imm: 0x3000 });
    run(&mut cpu, Instruction::STM0 { src: 1, address: 0x2000 });
    assert_eq!(cpu.memory().read_u8(0x2000), Ok(0xCA));
    assert_eq!(cpu.memory().read_u8(0x2001), Ok(0xFE));
    run(&mut cpu, Instruction::STM1 { src: 1, at: 2 });
    assert_eq!(cpu.memory().read_u16(0x3000), Ok(0xCAFE));
    run(&mut cpu, Instruction::LDM0 { dst: 3, address: 0x2000 });
    run(&mut cpu, Instruction::LDM1 { dst: 4, at: 2 });
    run(&mut cpu, Instruction::MOV { dst: 5, src: 4 });
    assert_eq!(cpu.register(3), 0xCAFE);
    assert_eq!(cpu.register(4), 0xCAFE);
    assert_eq!(cpu.register(5), 0xCAFE);
    assert_eq!(cpu.flags(), Flags::new());
    assert_eq!(cpu.pc(), 28);
}

#[test]
fn loads_and_stores_out_of_bounds() {
    let mut cpu = Cpu::new(0x100);
    cpu.set_register(1, 0x00FF);
    cpu.set_register(2, 0x7777);
    let fault = Err(Fault::Memory(MemoryError::OutOfBounds));
    assert_eq!(cpu.execute(&Instruction::STM0 { src: 2, address: 0x00FF }), fault);
    assert_eq!(cpu.execute(&Instruction::STM1 { src: 2, at: 1 }), fault);
    assert_eq!(cpu.execute(&Instruction::LDM0 { dst: 2, address: 0x0100 }), fault);
    assert_eq!(cpu.execute(&Instruction::LDM1 { dst: 2, at: 1 }), fault);
    assert_eq!(cpu.execute(&Instruction::SNP { at: 1, duration: 5 }), fault);
    assert_eq!(cpu.execute(&Instruction::PAL0 { slot: 0, address: 0x00FE }), fault);
    assert_eq!(cpu.execute(&Instruction::PAL1 { slot: 0, at: 1 }), fault);
    assert_eq!(cpu.memory().read_u8(0xFF), Ok(0));
    assert_eq!(cpu.register(2), 0x7777);
    assert_eq!(cpu.pc(), 0);
    run(&mut cpu, Instruction::STM0 { src: 2, address: 0x00FE });
    assert_eq!(cpu.memory().read_u16(0xFE), Ok(0x7777));
}

#[test]
fn arithmetic_instructions_in_their_three_forms() {
    let mut cpu = Cpu::new(SIZE);
    cpu.set_register(1, 10);
    cpu.set_register(2, 3);
    run(&mut cpu, Instruction::ADD1 { dst: 3, lhs: 1, rhs: 2 });
    run(&mut cpu, Instruction::SUB1 { dst: 4, lhs: 1, rhs: 2 });
    run(&mut cpu, Instruction::SUB1 { dst: 5, lhs: 2, rhs: 1 });
    run(&mut cpu, Instruction::MUL1 { dst: 6, lhs: 1, rhs: 2 });
    assert_eq!(cpu.register(3), 13);
    assert_eq!(cpu.register(4), 7);
    assert_eq!(cpu.register(5), 0xFFF9);
    assert_eq!(cpu.register(6), 30);
    assert_eq!(cpu.register(1), 10);
    assert_eq!(cpu.register(2), 3);
    run(&mut cpu, Instruction::SUB0 { dst: 1, src: 2 });
    assert_eq!(cpu.register(1), 7);
    run(&mut cpu, Instruction::SUBI { dst: 1, imm: 8 });
    assert_eq!(cpu.register(1), 0xFFFF);
    assert_eq!(cpu.flags(), flags(true, false, false, true));
    run(&mut cpu, Instruction::ADDI { dst: 1, imm: 1 });
    assert_eq!(cpu.register(1), 0);
    assert_eq!(cpu.flags(), flags(true, true, false, false));
    run(&mut cpu, Instruction::MULI { dst: 2, imm: 0x8000 });
    assert_eq!(cpu.register(2), 0x8000);
    assert_eq!(cpu.flags(), flags(true, false, false, true));
    run(&mut cpu, Instruction::MUL0 { dst: 6, src: 6 });
    assert_eq!(cpu.register(6), 900);
    assert_eq!(cpu.flags(), Flags::new());
}

#[test]
fn logic_instructions_keep_the_carry() {
    let mut cpu = Cpu::new(SIZE);
    cpu.set_register(0, 0xFFFF);
    run(&mut cpu, Instruction::ADDI { dst: 0, imm: 2 });
    assert!(cpu.flags().carry);
    cpu.set_register(1, 0xF0F0);
    cpu.set_register(2, 0x0FF0);
    run(&mut cpu, Instruction::AND1 { dst: 3, lhs: 1, rhs: 2 });
    run(&mut cpu, Instruction::OR1 { dst: 4, lhs: 1, rhs: 2 });
    run(&mut cpu, Instruction::XOR1 { dst: 5, lhs: 1, rhs: 2 });
    assert_eq!(cpu.register(3), 0x00F0);
    assert_eq!(cpu.register(4), 0xFFF0);
    assert_eq!(cpu.register(5), 0xFF00);
    assert_eq!(cpu.flags(), flags(true, false, false, true));
    run(&mut cpu, Instruction::ANDI { dst: 3, imm: 0x0F0F });
    assert_eq!(cpu.register(3), 0);
    assert_eq!(cpu.flags(), flags(true, true, false, false));
    run(&mut cpu, Instruction::ORI { dst: 3, imm: 0x0001 });
    run(&mut cpu, Instruction::XORI { dst: 3, imm: 0x0003 });
    assert_eq!(cpu.register(3), 2);
    run(&mut cpu, Instruction::AND0 { dst: 4, src: 5 });
    run(&mut cpu, Instruction::OR0 { dst: 2, src: 3 });
    run(&mut cpu, Instruction::XOR0 { dst: 1, src: 1 });
    assert_eq!(cpu.register(4), 0xFF00);
    assert_eq!(cpu.register(2), 0x0FF2);
    assert_eq!(cpu.register(1), 0);
    assert_eq!(cpu.flags(), flags(true, true, false, false));
    run(&mut cpu, Instruction::NOTI { dst: 6, imm: 0x00FF });
    run(&mut cpu, Instruction::NOT1 { dst: 7, src: 6 });
    run(&mut cpu, Instruction::NOT0 { dst: 6 });
    assert_eq!(cpu.register(6), 0x00FF);
    assert_eq!(cpu.register(7), 0x00FF);
    run(&mut cpu, Instruction::NEGI { dst: 8, imm: 1 });
    run(&mut cpu, Instruction::NEG1 { dst: 9, src: 8 });
    run(&mut cpu, Instruction::NEG0 { dst: 8 });
    assert_eq!(cpu.register(8), 1);
    assert_eq!(cpu.register(9), 1);
    assert_eq!(cpu.flags(), flags(true, false, false, false));
}

#[test]
fn compare_and_test_write_no_register() {
    let mut cpu = Cpu::new(SIZE);
    cpu.set_register(1, 5);
    cpu.set_register(2, 9);
    run(&mut cpu, Instruction::CMP { lhs: 1, rhs: 2 });
    assert_eq!(cpu.flags(), flags(true, false, false, true));
    run(&mut cpu, Instruction::CMP { lhs: 2, rhs: 1 });
    assert_eq!(cpu.flags(), Flags::new());
    run(&mut cpu, Instruction::CMPI { lhs: 1, imm: 5 });
    assert_eq!(cpu.flags(), flags(false, true, false, false));
    run(&mut cpu, Instruction::TSTI { lhs: 1, imm: 0x000A });
    assert_eq!(cpu.flags(), flags(false, true, false, false));
    run(&mut cpu, Instruction::TST { lhs: 1, rhs: 2 });
    assert_eq!(cpu.flags(), Flags::new());
    assert_eq!(cpu.register(1), 5);
    assert_eq!(cpu.register(2), 9);
    assert_eq!(cpu.pc(), 20);
}

#[test]
fn shift_instructions() {
    let mut cpu = Cpu::new(SIZE);
    cpu.set_register(1, 0x8001);
    run(&mut cpu, Instruction::SHL0 { dst: 1, amount: 1 });
    assert_eq!(cpu.register(1), 0x0002);
    assert_eq!(cpu.flags(), flags(true, false, false, false));
    run(&mut cpu, Instruction::SHR0 { dst: 1, amount: 2 });
    assert_eq!(cpu.register(1), 0);
    assert_eq!(cpu.flags(), flags(true, true, false, false));
    cpu.set_register(2, 0x8000);
    run(&mut cpu, Instruction::SAR0 { dst: 2, amount: 3 });
    assert_eq!(cpu.register(2), 0xF000);
    assert_eq!(cpu.flags(), flags(false, false, false, true));
    // By register: only the low four bits of the amount count.
    cpu.set_register(3, 0x0014);
    cpu.set_register(4, 0x00FF);
    run(&mut cpu, Instruction::SHL1 { dst: 4, src: 3 });
    assert_eq!(cpu.register(4), 0x0FF0);
    run(&mut cpu, Instruction::SHR1 { dst: 4, src: 3 });
    assert_eq!(cpu.register(4), 0x00FF);
    run(&mut cpu, Instruction::SAR1 { dst: 2, src: 3 });
    assert_eq!(cpu.register(2), 0xFF00);
    assert_eq!(cpu.register(3), 0x0014);
}

#[test]
fn jumps() {
    let mut cpu = Cpu::new(SIZE);
    run(&mut cpu, Instruction::JMP0 { target: 0x1000 });
    assert_eq!(cpu.pc(), 0x1000);
    // Carry clear: not taken.
    run(&mut cpu, Instruction::JMC { target: 0x2000 });
    assert_eq!(cpu.pc(), 0x1004);
    cpu.set_register(1, 3);
    run(&mut cpu, Instruction::CMPI { lhs: 1, imm: 4 });
    run(&mut cpu, Instruction::JMC { target: 0x2000 });
    assert_eq!(cpu.pc(), 0x2000);
    run(&mut cpu, Instruction::JX { condition: Condition::Zero, target: 0x3000 });
    assert_eq!(cpu.pc(), 0x2004);
    run(&mut cpu, Instruction::JX { condition: Condition::Less, target: 0x3000 });
    assert_eq!(cpu.pc(), 0x3000);
    run(&mut cpu, Instruction::JX { condition: Condition::Always, target: 0x3100 });
    assert_eq!(cpu.pc(), 0x3100);
    cpu.set_register(2, 3);
    run(&mut cpu, Instruction::JME { x: 1, y: 2, target: 0x4000 });
    assert_eq!(cpu.pc(), 0x4000);
    run(&mut cpu, Instruction::JME { x: 1, y: 3, target: 0x5000 });
    assert_eq!(cpu.pc(), 0x4004);
    cpu.set_register(5, 0x6002);
    run(&mut cpu, Instruction::JMP1 { src: 5 });
    assert_eq!(cpu.pc(), 0x6002);
    assert_eq!(cpu.sp(), 0xFFFF);
    assert_eq!(cpu.flags(), flags(true, false, false, true));
}

#[test]
fn a_loop_that_counts_down() {
    let mut cpu = machine(&[
        Instruction::LDI0 { dst: 0, imm: 5 },
        Instruction::ADDI { dst: 1, imm: 3 },
        Instruction::SUBI { dst: 0, imm: 1 },
        Instruction::JX { condition: Condition::NotZero, target: 4 },
        Instruction::VBLNK,
    ]);
    let mut steps = 0;
    loop {
        steps += 1;
        match cpu.step() {
            Ok(Effect::Nothing) => {},
            Ok(Effect::WaitVblank) => break,
            other => panic!("{:?}", other),
        }
    }
    assert_eq!(steps, 1 + 3 * 5 + 1);
    assert_eq!(cpu.register(0), 0);
    assert_eq!(cpu.register(1), 15);
    assert_eq!(cpu.pc(), 20);
}

#[test]
fn picture_registers_and_requests() {
    let mut cpu = Cpu::new(SIZE);
    assert_eq!(cpu.execute(&Instruction::CLS), Ok(Effect::ClearScreen));
    assert_eq!(
        cpu.execute(&Instruction::BGC { color: 7 }),
        Ok(Effect::SetBackground { color_index: 7 })
    );
    assert_eq!(cpu.background(), 7);
    run(&mut cpu, Instruction::SPR { width: 8, height: 16 });
    assert_eq!(cpu.sprite_size(), (8, 16));
    run(&mut cpu, Instruction::FLIP2);
    assert_eq!(cpu.flip(), (true, false));
    cpu.set_register(1, 100);
    cpu.set_register(2, 0xFFF0);
    cpu.set_register(3, 0x4000);
    let drawn = Effect::DrawSprite {
        address: 0x4000,
        x: 100,
        y: 0xFFF0,
        width: 8,
        height: 16,
        color_start_index: 7,
        hflip: true,
        vflip: false,
    };
    assert_eq!(cpu.execute(&Instruction::DRW0 { x: 1, y: 2, address: 0x4000 }), Ok(drawn));
    assert_eq!(cpu.execute(&Instruction::DRW1 { x: 1, y: 2, at: 3 }), Ok(drawn));
    run(&mut cpu, Instruction::FLIP1);
    assert_eq!(cpu.flip(), (false, true));
    run(&mut cpu, Instruction::FLIP3);
    assert_eq!(cpu.flip(), (true, true));
    run(&mut cpu, Instruction::FLIP0);
    assert_eq!(cpu.flip(), (false, false));
    assert_eq!(cpu.pc(), 36);
    assert_eq!(cpu.flags(), Flags::new());
}

#[test]
fn palette_requests() {
    let mut cpu = Cpu::new(SIZE);
    assert_eq!(cpu.load(0x5000, &[0x11, 0x22, 0x33, 0x44]), Ok(()));
    assert_eq!(
        cpu.execute(&Instruction::PAL0 { slot: 3, address: 0x5000 }),
        Ok(Effect::SetPalette { slot: 3, rgb: 0x112233 })
    );
    cpu.set_register(6, 0x5001);
    assert_eq!(
        cpu.execute(&Instruction::PAL1 { slot: 15, at: 6 }),
        Ok(Effect::SetPalette { slot: 15, rgb: 0x223344 })
    );
    assert_eq!(
        cpu.execute(&Instruction::PAL0 { slot: 0, address: 0xFFFD }),
        Ok(Effect::SetPalette { slot: 0, rgb: 0 })
    );
    assert_eq!(
        cpu.execute(&Instruction::PAL0 { slot: 0, address: 0xFFFE }),
        Err(Fault::Memory(MemoryError::OutOfBounds))
    );
    assert_eq!(cpu.pc(), 12);
}

#[test]
fn sound_requests() {
    let mut cpu = Cpu::new(SIZE);
    let tone = |channel: u8, frequency: u16, duration: u16| Effect::PlayTone {
        channel,
        frequency,
        duration,
        attack: 0,
        decay: 0,
        sustain: 0,
        release: 0,
    };
    assert_eq!(cpu.execute(&Instruction::SND0), Ok(tone(0, 0, 0)));
    assert_eq!(cpu.execute(&Instruction::SND1 { duration: 250 }), Ok(tone(1, 500, 250)));
    assert_eq!(cpu.execute(&Instruction::SND2 { duration: 10 }), Ok(tone(2, 1000, 10)));
    assert_eq!(cpu.execute(&Instruction::SND3 { duration: 0xFFFF }), Ok(tone(3, 1500, 0xFFFF)));
    assert_eq!(cpu.load(0x0800, &[0x01, 0xB8]), Ok(()));
    cpu.set_register(2, 0x0800);
    assert_eq!(cpu.execute(&Instruction::SNP { at: 2, duration: 300 }), Ok(tone(0, 440, 300)));
    assert_eq!(
        cpu.execute(&Instruction::SNG { attack: 1, decay: 2, sustain: 3, release: 4 }),
        Ok(Effect::PlayTone {
            channel: 0,
            frequency: 0,
            duration: 0,
            attack: 1,
            decay: 2,
            sustain: 3,
            release: 4,
        })
    );
    assert_eq!(cpu.pc(), 24);
}

#[test]
fn the_generator_is_a_fixed_sequence() {
    assert_eq!(rng::next_seed(0), 1013904223);
    assert_eq!(rng::next_seed(1), 1015568748);
    assert_eq!(rng::next_seed(1013904223), 1196435762);
    assert_eq!(rng::next_seed(0xFFFF_FFFF), 1012239698);
    assert_eq!(rng::draw(0, 100), 70);
    assert_eq!(rng::draw(0, 0xFFFF), 15470);
    assert_eq!(rng::draw(0, 1), 0);
    assert_eq!(rng::draw(1013904223, 1000), 256);
}

#[test]
fn a_random_draw_with_bound_zero_is_zero() {
    for seed in [0u32, 1, 12345, 0xFFFF_FFFF] {
        assert_eq!(rng::draw(seed, 0), 0);
        let mut cpu = Cpu::with_seed(SIZE, seed);
        cpu.set_register(4, 0xAAAA);
        run(&mut cpu, Instruction::RND { dst: 4, bound: 0 });
        assert_eq!(cpu.register(4), 0);
        assert_eq!(cpu.seed(), rng::next_seed(seed));
    }
}

#[test]
fn random_draws_stay_below_the_bound_and_repeat_with_the_seed() {
    let mut one = Cpu::with_seed(SIZE, 2024);
    let mut other = Cpu::with_seed(SIZE, 2024);
    let mut third = Cpu::with_seed(SIZE, 2025);
    let mut differs = false;
    for round in 0..200u16 {
        let bound = 1 + round * 7;
        run(&mut one, Instruction::RND { dst: 1, bound });
        run(&mut other, Instruction::RND { dst: 1, bound });
        run(&mut third, Instruction::RND { dst: 1, bound });
        assert!(one.register(1) < bound);
        assert_eq!(one.register(1), other.register(1));
        assert_eq!(one.seed(), other.seed());
        differs = differs || one.register(1) != third.register(1);
    }
    assert!(differs);
    let mut cpu = Cpu::new(SIZE);
    run(&mut cpu, Instruction::RND { dst: 0, bound: 100 });
    assert_eq!(cpu.register(0), 70);
    assert_eq!(cpu.seed(), 1013904223);
    assert_eq!(cpu.flags(), Flags::new());
}

#[test]
fn two_machines_are_independent() {
    let mut one = Cpu::new(64);
    let other = Cpu::new(64);
    run(&mut one, Instruction::LDI0 { dst: 0, imm: 1 });
    run(&mut one, Instruction::STM0 { src: 0, address: 32 });
    assert_eq!(one.memory().read_u16(32), Ok(1));
    assert_eq!(other.memory().read_u16(32), Ok(0));
    assert_eq!(other.register(0), 0);
    assert_eq!(other.pc(), 0);
}

/// All that a test can see of a machine with 64 bytes of memory.
fn snapshot(cpu: &Cpu) -> (Vec<u16>, Vec<u8>, u16, u16, Flags, u8, (u8, u8), (bool, bool), u32) {
    let memory = (0..64u16).map(|a| cpu.memory().read_u8(a).unwrap()).collect();
    (
        registers(cpu),
        memory,
        cpu.pc(),
        cpu.sp(),
        cpu.flags(),
        cpu.background(),
        cpu.sprite_size(),
        cpu.flip(),
        cpu.seed(),
    )
}

/// A machine with 64 bytes of memory in which nothing is zero.
fn busy_machine() -> Cpu {
    let mut cpu = Cpu::with_seed(64, 99);
    let image: Vec<u8> = (0..64u8).map(|a| a.wrapping_mul(7).wrapping_add(3)).collect();
    assert_eq!(cpu.load(0, &image), Ok(()));
    for k in 0..16u8 {
        cpu.set_register(k, 2 * k as u16 + 2);
    }
    run(&mut cpu, Instruction::PUSH { src: 0 });
    run(&mut cpu, Instruction::PUSH { src: 1 });
    run(&mut cpu, Instruction::CMPI { lhs: 0, imm: 3 });
    assert_eq!(cpu.execute(&Instruction::BGC { color: 5 }), Ok(Effect::SetBackground {
        color_index: 5
    }));
    run(&mut cpu, Instruction::SPR { width: 4, height: 8 });
    run(&mut cpu, Instruction::FLIP3);
    cpu
}

#[test]
fn a_fault_changes_nothing_at_all() {
    let faulting = [
        Instruction::DIVI { dst: 1, imm: 0 },
        Instruction::LDM0 { dst: 1, address: 63 },
        Instruction::STM0 { src: 1, address: 63 },
        Instruction::PAL0 { slot: 1, address: 62 },
        Instruction::SNP { at: 15, duration: 1 },
        Instruction::POPALL,
    ];
    for instruction in faulting {
        let mut cpu = busy_machine();
        cpu.set_register(15, 0xFFFF);
        let before = snapshot(&cpu);
        assert!(cpu.execute(&instruction).is_err(), "{:?}", instruction);
        assert_eq!(snapshot(&cpu), before, "{:?}", instruction);
    }
    // After one PUSHALL there is no room for a second.
    let mut cpu = busy_machine();
    run(&mut cpu, Instruction::PUSHALL);
    assert_eq!(cpu.sp(), 27);
    let before = snapshot(&cpu);
    assert_eq!(cpu.execute(&Instruction::PUSHALL), Err(Fault::Stack(StackFault::Overflow)));
    assert_eq!(snapshot(&cpu), before);
}

#[test]
fn an_instruction_changes_only_what_it_is_made_for() {
    // Data movement: one register, the program counter, nothing else.
    let mut cpu = busy_machine();
    let mut expected = snapshot(&cpu);
    run(&mut cpu, Instruction::MOV { dst: 3, src: 9 });
    expected.0[3] = 20;
    expected.2 += 4;
    assert_eq!(snapshot(&cpu), expected);

    // A comparison: the flags, the program counter, nothing else.
    run(&mut cpu, Instruction::CMP { lhs: 3, rhs: 9 });
    expected.4 = flags(false, true, false, false);
    expected.2 += 4;
    assert_eq!(snapshot(&cpu), expected);

    // A jump: the program counter alone.
    run(&mut cpu, Instruction::JX { condition: Condition::Zero, target: 32 });
    expected.2 = 32;
    assert_eq!(snapshot(&cpu), expected);

    // A store: two bytes of memory and the program counter.
    run(&mut cpu, Instruction::STM0 { src: 4, address: 10 });
    expected.1[10] = 0;
    expected.1[11] = 10;
    expected.2 += 4;
    assert_eq!(snapshot(&cpu), expected);

    // A draw: the seed, one register, the program counter.
    run(&mut cpu, Instruction::RND { dst: 5, bound: 50 });
    expected.0[5] = rng::draw(99, 50);
    expected.8 = rng::next_seed(99);
    expected.2 += 4;
    assert_eq!(snapshot(&cpu), expected);

    // A request to the host: the program counter alone.
    assert_eq!(cpu.execute(&Instruction::CLS), Ok(Effect::ClearScreen));
    expected.2 += 4;
    assert_eq!(snapshot(&cpu), expected);

    // A pop: the stack pointer, one register, the program counter.
    run(&mut cpu, Instruction::POP { dst: 7 });
    expected.0[7] = 4;
    expected.3 += 2;
    expected.2 += 4;
    assert_eq!(snapshot(&cpu), expected);
}
