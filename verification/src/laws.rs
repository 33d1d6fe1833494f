//! Laws of the machine: what holds of every state, every word and every
//! instruction, proved from the definitions in the other modules.

use vstd::prelude::*;
use crate::alu::ArithmeticFault;
use crate::bits::{byte0, high_byte, lemma_split_then_join, low_byte};
use crate::effect::Effect;
use crate::fault::{Fault, StackFault};
use crate::instruction::{is_opcode, DecodeError, Instruction};
use crate::memory::{with_word, word_at};
use crate::state::{next_pc, stacked, unstacked, State};

verus! {

/// A word is decoded if and only if its first byte is an opcode. A word
/// that is not decoded is answered with `UnknownOpcode` and its first byte,
/// whatever its other 24 bits are.
pub proof fn lemma_decode_accepts_opcodes(word: u32)
    ensures
        is_opcode(byte0(word)) <==> Instruction::decode_spec(word) is Ok,
        !is_opcode(byte0(word)) ==> Instruction::decode_spec(word) == Err::<
            Instruction,
            DecodeError,
        >(DecodeError::UnknownOpcode(byte0(word))),
{
}

/// A step onto a word whose first byte is no opcode faults with
/// `UnknownOpcode`. (A fault leaves the machine as it was: see
/// `Cpu::step`.)
pub proof fn lemma_step_unknown_opcode(s: State, word: u32)
    requires
        s.fetch() == Ok::<u32, Fault>(word),
        !is_opcode(byte0(word)),
    ensures
        s.step() == Err::<(State, Effect), Fault>(
            Fault::Decode(DecodeError::UnknownOpcode(byte0(word))),
        ),
{
}

/// A word read back from where it was written is the word written, and a
/// byte likewise.
pub proof fn lemma_write_then_read(bytes: Seq<u8>, address: int, value: u16, byte: u8)
    requires
        0 <= address,
        address + 1 < bytes.len(),
    ensures
        word_at(with_word(bytes, address, value), address) == value,
        bytes.update(address, byte)[address] == byte,
{
    lemma_split_then_join(value);
}

/// A word written does not change what is read elsewhere: a word that
/// shares no byte with it reads as before.
pub proof fn lemma_write_elsewhere(bytes: Seq<u8>, address: int, value: u16, other: int)
    requires
        0 <= address,
        address + 1 < bytes.len(),
        0 <= other,
        other + 1 < bytes.len(),
        other + 1 < address || address + 1 < other,
    ensures
        word_at(with_word(bytes, address, value), other) == word_at(bytes, other),
{
}

/// Registers popped off where they were pushed are the registers pushed:
/// the sixteen words that `stacked` lays down below `sp` are the words that
/// `unstacked` picks up from `sp - 32` on.
pub proof fn lemma_unstacked_stacked(
    memory: Seq<u8>,
    registers: Seq<u16>,
    others: Seq<u16>,
    sp: int,
)
    requires
        registers.len() == 16,
        32 <= sp <= memory.len(),
    ensures
        unstacked(stacked(memory, registers, sp, 16), others, sp - 32, 16) == registers,
{
    let below = stacked(memory, registers, sp, 16);
    let back = unstacked(below, others, sp - 32, 16);
    assert forall|k: int| 0 <= k < 16 implies back[k] == registers[k] by {
        let a = sp - 2 * k - 2;
        assert(sp - 32 + 2 * (15 - k) == a);
        assert((sp - a) % 2 == 0 && (sp - 1 - a) / 2 == k);
        assert((sp - (a + 1)) % 2 == 1 && (sp - 1 - (a + 1)) / 2 == k);
        assert(below[a] == high_byte(registers[k]));
        assert(below[a + 1] == low_byte(registers[k]));
        lemma_split_then_join(registers[k]);
    }
    assert(back =~= registers);
}

/// `PUSHALL` faults only with a stack overflow, and then `sp` is below 32.
/// Where it succeeds, a `POPALL` right after it succeeds too, and leaves
/// every general register and the stack pointer as they were before the
/// `PUSHALL`.
pub proof fn lemma_push_all_pop_all(s: State)
    requires
        s.wf(),
    ensures
        match s.execute(Instruction::PUSHALL) {
            Ok((pushed, _)) => match pushed.execute(Instruction::POPALL) {
                Ok((popped, _)) => popped.registers == s.registers && popped.sp == s.sp,
                Err(_) => false,
            },
            Err(fault) => fault == Fault::Stack(StackFault::Overflow) && s.sp < 32,
        },
{
    assert(s.execute(Instruction::PUSHALL) == s.push_all_done());
    if s.sp >= 32 {
        let below = stacked(s.memory, s.registers, s.sp as int, 16);
        let pushed = (State { sp: (s.sp - 32) as u16, memory: below, ..s }).advance();
        assert(s.push_all_done() == Ok::<(State, Effect), Fault>((pushed, Effect::Nothing)));
        assert(pushed.execute(Instruction::POPALL) == pushed.pop_all_done());
        assert(pushed.can_release(32));
        lemma_unstacked_stacked(s.memory, s.registers, pushed.registers, s.sp as int);
    }
}

/// What a call leads to: `CALL0`, `CALL1` with the target in a register,
/// and `CX` with a condition that holds all push the address of the
/// following instruction and jump.
pub open spec fn is_call_to(s: State, instruction: Instruction, target: u16) -> bool {
    match instruction {
        Instruction::CALL0 { target: t } => t == target,
        Instruction::CALL1 { src } => src < 16 && s.reg(src) == target,
        Instruction::CX { condition, target: t } => condition.holds_spec(s.flags) && t == target,
        _ => false,
    }
}

/// A call faults only with a stack overflow. Where it succeeds, the program
/// counter is at the target, and a `RET` executed next succeeds and leaves
/// the program counter at the instruction after the call and the stack
/// pointer where it was before the call.
pub proof fn lemma_call_ret(s: State, call: Instruction, target: u16)
    requires
        s.wf(),
        is_call_to(s, call, target),
    ensures
        match s.execute(call) {
            Ok((inside, _)) => inside.pc == target && match inside.execute(Instruction::RET) {
                Ok((back, _)) => back.pc == next_pc(s.pc) && back.sp == s.sp,
                Err(_) => false,
            },
            Err(fault) => fault == Fault::Stack(StackFault::Overflow) && s.sp < 2,
        },
{
    assert(s.execute(call) == s.called(target));
    lemma_split_then_join(next_pc(s.pc));
}

/// `PUSH` of a register and `POP` into the same register right after it
/// leave the register and the stack pointer as they were.
pub proof fn lemma_push_pop(s: State, register: u8)
    requires
        s.wf(),
        register < 16,
    ensures
        match s.execute(Instruction::PUSH { src: register }) {
            Ok((pushed, _)) => match pushed.execute(Instruction::POP { dst: register }) {
                Ok((popped, _)) => popped.registers == s.registers && popped.sp == s.sp,
                Err(_) => false,
            },
            Err(fault) => fault == Fault::Stack(StackFault::Overflow) && s.sp < 2,
        },
{
    lemma_split_then_join(s.reg(register));
    if let Ok((pushed, _)) = s.execute(Instruction::PUSH { src: register }) {
        let (popped, _) = pushed.execute(Instruction::POP { dst: register })->Ok_0;
        assert(popped.registers =~= s.registers);
    }
}

/// The divisor of a division, modulo or remainder instruction in state
/// `s`, and `None` for every other instruction.
pub open spec fn divisor_of(s: State, instruction: Instruction) -> Option<u16> {
    match instruction {
        Instruction::DIVI { dst, imm } => Some(imm),
        Instruction::DIV0 { dst, src } => Some(s.reg(src)),
        Instruction::DIV1 { dst, lhs, rhs } => Some(s.reg(rhs)),
        Instruction::MODI { dst, imm } => Some(imm),
        Instruction::MOD0 { dst, src } => Some(s.reg(src)),
        Instruction::MOD1 { dst, lhs, rhs } => Some(s.reg(rhs)),
        Instruction::REMI { dst, imm } => Some(imm),
        Instruction::REM0 { dst, src } => Some(s.reg(src)),
        Instruction::REM1 { dst, lhs, rhs } => Some(s.reg(rhs)),
        _ => None,
    }
}

/// A division, modulo or remainder faults with `DivisionByZero` if and only
/// if its divisor is zero, and no other instruction ever does. (A fault
/// leaves the machine, and so the destination register, as it was: see
/// `Cpu::execute`.)
pub proof fn lemma_division_by_zero(s: State, instruction: Instruction)
    ensures
        s.execute(instruction) == Err::<(State, Effect), Fault>(
            Fault::Arithmetic(ArithmeticFault::DivisionByZero),
        ) <==> divisor_of(s, instruction) == Some(0u16),
{
    match instruction {
        Instruction::NOP => {},
        Instruction::CLS => {},
        Instruction::VBLNK => {},
        Instruction::BGC { .. } => {},
        Instruction::SPR { .. } => {},
        Instruction::DRW0 { .. } => {},
        Instruction::DRW1 { .. } => {},
        Instruction::RND { .. } => {},
        Instruction::FLIP0 => {},
        Instruction::FLIP1 => {},
        Instruction::FLIP2 => {},
        Instruction::FLIP3 => {},
        Instruction::SND0 => {},
        Instruction::SND1 { .. } => {},
        Instruction::SND2 { .. } => {},
        Instruction::SND3 { .. } => {},
        Instruction::SNP { .. } => {},
        Instruction::SNG { .. } => {},
        Instruction::JMP0 { .. } => {},
        Instruction::JMC { .. } => {},
        Instruction::JX { .. } => {},
        Instruction::JME { .. } => {},
        Instruction::CALL0 { .. } => {},
        Instruction::RET => {},
        Instruction::JMP1 { .. } => {},
        Instruction::CX { .. } => {},
        Instruction::CALL1 { .. } => {},
        Instruction::LDI0 { .. } => {},
        Instruction::LDI1 { .. } => {},
        Instruction::LDM0 { .. } => {},
        Instruction::LDM1 { .. } => {},
        Instruction::MOV { .. } => {},
        Instruction::STM0 { .. } => {},
        Instruction::STM1 { .. } => {},
        Instruction::ADDI { .. } => {},
        Instruction::ADD0 { .. } => {},
        Instruction::ADD1 { .. } => {},
        Instruction::SUBI { .. } => {},
        Instruction::SUB0 { .. } => {},
        Instruction::SUB1 { .. } => {},
        Instruction::CMPI { .. } => {},
        Instruction::CMP { .. } => {},
        Instruction::ANDI { .. } => {},
        Instruction::AND0 { .. } => {},
        Instruction::AND1 { .. } => {},
        Instruction::TSTI { .. } => {},
        Instruction::TST { .. } => {},
        Instruction::ORI { .. } => {},
        Instruction::OR0 { .. } => {},
        Instruction::OR1 { .. } => {},
        Instruction::XORI { .. } => {},
        Instruction::XOR0 { .. } => {},
        Instruction::XOR1 { .. } => {},
        Instruction::MULI { .. } => {},
        Instruction::MUL0 { .. } => {},
        Instruction::MUL1 { .. } => {},
        Instruction::DIVI { .. } => {},
        Instruction::DIV0 { .. } => {},
        Instruction::DIV1 { .. } => {},
        Instruction::MODI { .. } => {},
        Instruction::MOD0 { .. } => {},
        Instruction::MOD1 { .. } => {},
        Instruction::REMI { .. } => {},
        Instruction::REM0 { .. } => {},
        Instruction::REM1 { .. } => {},
        Instruction::SHL0 { .. } => {},
        Instruction::SHR0 { .. } => {},
        Instruction::SAR0 { .. } => {},
        Instruction::SHL1 { .. } => {},
        Instruction::SHR1 { .. } => {},
        Instruction::SAR1 { .. } => {},
        Instruction::PUSH { .. } => {},
        Instruction::POP { .. } => {},
        Instruction::PUSHALL => {},
        Instruction::POPALL => {},
        Instruction::PUSHF => {},
        Instruction::POPF => {},
        Instruction::PAL0 { .. } => {},
        Instruction::PAL1 { .. } => {},
        Instruction::NOTI { .. } => {},
        Instruction::NOT0 { .. } => {},
        Instruction::NOT1 { .. } => {},
        Instruction::NEGI { .. } => {},
        Instruction::NEG0 { .. } => {},
        Instruction::NEG1 { .. } => {},
    }
}

/// `VBLNK` never faults. It hands the host the sign that the program waits
/// and moves the program counter on by one instruction, so that two of
/// them in a row give the sign twice and move it on by two; nothing else
/// changes.
pub proof fn lemma_vblnk_twice(s: State)
    ensures
        s.execute(Instruction::VBLNK) == Ok::<(State, Effect), Fault>(
            (s.jump(next_pc(s.pc)), Effect::WaitVblank),
        ),
        s.jump(next_pc(s.pc)).execute(Instruction::VBLNK) == Ok::<(State, Effect), Fault>(
            (s.jump(next_pc(next_pc(s.pc))), Effect::WaitVblank),
        ),
{
}

/// Whether the instruction is one of those that set the flags: arithmetic,
/// logic, shifts, comparisons, tests, and `POPF`.
pub open spec fn sets_flags(instruction: Instruction) -> bool {
    match instruction {
        Instruction::ADDI { .. }
        | Instruction::ADD0 { .. }
        | Instruction::ADD1 { .. }
        | Instruction::SUBI { .. }
        | Instruction::SUB0 { .. }
        | Instruction::SUB1 { .. }
        | Instruction::CMPI { .. }
        | Instruction::CMP { .. }
        | Instruction::ANDI { .. }
        | Instruction::AND0 { .. }
        | Instruction::AND1 { .. }
        | Instruction::TSTI { .. }
        | Instruction::TST { .. }
        | Instruction::ORI { .. }
        | Instruction::OR0 { .. }
        | Instruction::OR1 { .. }
        | Instruction::XORI { .. }
        | Instruction::XOR0 { .. }
        | Instruction::XOR1 { .. }
        | Instruction::MULI { .. }
        | Instruction::MUL0 { .. }
        | Instruction::MUL1 { .. }
        | Instruction::DIVI { .. }
        | Instruction::DIV0 { .. }
        | Instruction::DIV1 { .. }
        | Instruction::MODI { .. }
        | Instruction::MOD0 { .. }
        | Instruction::MOD1 { .. }
        | Instruction::REMI { .. }
        | Instruction::REM0 { .. }
        | Instruction::REM1 { .. }
        | Instruction::SHL0 { .. }
        | Instruction::SHR0 { .. }
        | Instruction::SAR0 { .. }
        | Instruction::SHL1 { .. }
        | Instruction::SHR1 { .. }
        | Instruction::SAR1 { .. }
        | Instruction::NOTI { .. }
        | Instruction::NOT0 { .. }
        | Instruction::NOT1 { .. }
        | Instruction::NEGI { .. }
        | Instruction::NEG0 { .. }
        | Instruction::NEG1 { .. }
        | Instruction::POPF => true,
        _ => false,
    }
}

/// Whether the instruction is a jump, a call or a return: one that may set
/// the program counter to something else than the following instruction.
pub open spec fn may_jump(instruction: Instruction) -> bool {
    match instruction {
        Instruction::JMP0 { .. }
        | Instruction::JMC { .. }
        | Instruction::JX { .. }
        | Instruction::JME { .. }
        | Instruction::CALL0 { .. }
        | Instruction::RET
        | Instruction::JMP1 { .. }
        | Instruction::CX { .. }
        | Instruction::CALL1 { .. } => true,
        _ => false,
    }
}

/// Whether the instruction is one of those that write to memory: stores,
/// pushes and calls.
pub open spec fn writes_memory(instruction: Instruction) -> bool {
    match instruction {
        Instruction::STM0 { .. }
        | Instruction::STM1 { .. }
        | Instruction::PUSH { .. }
        | Instruction::PUSHALL
        | Instruction::PUSHF
        | Instruction::CALL0 { .. }
        | Instruction::CALL1 { .. }
        | Instruction::CX { .. } => true,
        _ => false,
    }
}

/// Whether the instruction is one of those that move the stack pointer:
/// pushes, pops, calls and returns.
pub open spec fn moves_stack(instruction: Instruction) -> bool {
    match instruction {
        Instruction::PUSH { .. }
        | Instruction::POP { .. }
        | Instruction::PUSHALL
        | Instruction::POPALL
        | Instruction::PUSHF
        | Instruction::POPF
        | Instruction::CALL0 { .. }
        | Instruction::CALL1 { .. }
        | Instruction::CX { .. }
        | Instruction::RET => true,
        _ => false,
    }
}

/// The register that the instruction may write, and `None` where it writes
/// none. `POPALL`, which writes them all, is not covered here.
pub open spec fn destination(instruction: Instruction) -> Option<u8> {
    match instruction {
        Instruction::RND { dst, .. }
        | Instruction::LDI0 { dst, .. }
        | Instruction::LDI1 { dst, .. }
        | Instruction::LDM0 { dst, .. }
        | Instruction::LDM1 { dst, .. }
        | Instruction::MOV { dst, .. }
        | Instruction::ADDI { dst, .. }
        | Instruction::ADD0 { dst, .. }
        | Instruction::ADD1 { dst, .. }
        | Instruction::SUBI { dst, .. }
        | Instruction::SUB0 { dst, .. }
        | Instruction::SUB1 { dst, .. }
        | Instruction::ANDI { dst, .. }
        | Instruction::AND0 { dst, .. }
        | Instruction::AND1 { dst, .. }
        | Instruction::ORI { dst, .. }
        | Instruction::OR0 { dst, .. }
        | Instruction::OR1 { dst, .. }
        | Instruction::XORI { dst, .. }
        | Instruction::XOR0 { dst, .. }
        | Instruction::XOR1 { dst, .. }
        | Instruction::MULI { dst, .. }
        | Instruction::MUL0 { dst, .. }
        | Instruction::MUL1 { dst, .. }
        | Instruction::DIVI { dst, .. }
        | Instruction::DIV0 { dst, .. }
        | Instruction::DIV1 { dst, .. }
        | Instruction::MODI { dst, .. }
        | Instruction::MOD0 { dst, .. }
        | Instruction::MOD1 { dst, .. }
        | Instruction::REMI { dst, .. }
        | Instruction::REM0 { dst, .. }
        | Instruction::REM1 { dst, .. }
        | Instruction::SHL0 { dst, .. }
        | Instruction::SHR0 { dst, .. }
        | Instruction::SAR0 { dst, .. }
        | Instruction::SHL1 { dst, .. }
        | Instruction::SHR1 { dst, .. }
        | Instruction::SAR1 { dst, .. }
        | Instruction::POP { dst }
        | Instruction::NOTI { dst, .. }
        | Instruction::NOT0 { dst }
        | Instruction::NOT1 { dst, .. }
        | Instruction::NEGI { dst, .. }
        | Instruction::NEG0 { dst }
        | Instruction::NEG1 { dst, .. } => Some(dst),
        _ => None,
    }
}

/// Whether the instruction is one of those that set a picture register:
/// `BGC`, `SPR` and the four `FLIP`s.
pub open spec fn sets_picture(instruction: Instruction) -> bool {
    match instruction {
        Instruction::BGC { .. }
        | Instruction::SPR { .. }
        | Instruction::FLIP0
        | Instruction::FLIP1
        | Instruction::FLIP2
        | Instruction::FLIP3 => true,
        _ => false,
    }
}

/// What `instruction` leaves alone when it runs from `s` to its end in
/// `next`: every part of the machine is changed only by the instructions
/// made for it.
/// - The program counter is at the following instruction, unless the
///   instruction is a jump, a call or a return.
/// - The flags are as before, unless the instruction sets flags.
/// - Memory is as before, unless the instruction stores, pushes or calls,
///   and its size is as before in any case.
/// - The stack pointer is as before, unless the instruction pushes, pops,
///   calls or returns.
/// - Every register but the destination is as before, unless the
///   instruction is `POPALL`: the registers are independent, and
///   comparisons and tests write none.
/// - The picture registers are as before, unless the instruction sets one.
/// - The seed is as before, unless the instruction is `RND`.
/// - The invariant of the machine holds again.
pub open spec fn left_alone(s: State, instruction: Instruction, next: State) -> bool {
    &&& !may_jump(instruction) ==> next.pc == next_pc(s.pc)
    &&& !sets_flags(instruction) ==> next.flags == s.flags
    &&& !writes_memory(instruction) ==> next.memory == s.memory
    &&& next.memory.len() == s.memory.len()
    &&& !moves_stack(instruction) ==> next.sp == s.sp
    &&& instruction != Instruction::POPALL ==> forall|k: u8|
        k < 16 && destination(instruction) != Some(k) ==> next.reg(k) == s.reg(k)
    &&& !sets_picture(instruction) ==> {
        &&& next.background == s.background
        &&& next.sprite_width == s.sprite_width
        &&& next.sprite_height == s.sprite_height
        &&& next.hflip == s.hflip
        &&& next.vflip == s.vflip
    }
    &&& !(instruction is RND) ==> next.seed == s.seed
    &&& next.wf()
}

/// An instruction that runs to its end changes only what it is made to
/// change, and keeps the invariant of the machine.
pub proof fn lemma_frame(s: State, instruction: Instruction)
    requires
        s.wf(),
        instruction.wf(),
    ensures
        s.execute(instruction) is Ok ==> left_alone(
            s,
            instruction,
            s.execute(instruction)->Ok_0.0,
        ),
{
    match instruction {
        Instruction::NOP => {},
        Instruction::CLS => {},
        Instruction::VBLNK => {},
        Instruction::BGC { .. } => {},
        Instruction::SPR { .. } => {},
        Instruction::DRW0 { .. } => {},
        Instruction::DRW1 { .. } => {},
        Instruction::RND { .. } => {},
        Instruction::FLIP0 => {},
        Instruction::FLIP1 => {},
        Instruction::FLIP2 => {},
        Instruction::FLIP3 => {},
        Instruction::SND0 => {},
        Instruction::SND1 { .. } => {},
        Instruction::SND2 { .. } => {},
        Instruction::SND3 { .. } => {},
        Instruction::SNP { .. } => {},
        Instruction::SNG { .. } => {},
        Instruction::JMP0 { .. } => {},
        Instruction::JMC { .. } => {},
        Instruction::JX { .. } => {},
        Instruction::JME { .. } => {},
        Instruction::CALL0 { .. } => {},
        Instruction::RET => {},
        Instruction::JMP1 { .. } => {},
        Instruction::CX { .. } => {},
        Instruction::CALL1 { .. } => {},
        Instruction::LDI0 { .. } => {},
        Instruction::LDI1 { .. } => {},
        Instruction::LDM0 { .. } => {},
        Instruction::LDM1 { .. } => {},
        Instruction::MOV { .. } => {},
        Instruction::STM0 { .. } => {},
        Instruction::STM1 { .. } => {},
        Instruction::ADDI { .. } => {},
        Instruction::ADD0 { .. } => {},
        Instruction::ADD1 { .. } => {},
        Instruction::SUBI { .. } => {},
        Instruction::SUB0 { .. } => {},
        Instruction::SUB1 { .. } => {},
        Instruction::CMPI { .. } => {},
        Instruction::CMP { .. } => {},
        Instruction::ANDI { .. } => {},
        Instruction::AND0 { .. } => {},
        Instruction::AND1 { .. } => {},
        Instruction::TSTI { .. } => {},
        Instruction::TST { .. } => {},
        Instruction::ORI { .. } => {},
        Instruction::OR0 { .. } => {},
        Instruction::OR1 { .. } => {},
        Instruction::XORI { .. } => {},
        Instruction::XOR0 { .. } => {},
        Instruction::XOR1 { .. } => {},
        Instruction::MULI { .. } => {},
        Instruction::MUL0 { .. } => {},
        Instruction::MUL1 { .. } => {},
        Instruction::DIVI { .. } => {},
        Instruction::DIV0 { .. } => {},
        Instruction::DIV1 { .. } => {},
        Instruction::MODI { .. } => {},
        Instruction::MOD0 { .. } => {},
        Instruction::MOD1 { .. } => {},
        Instruction::REMI { .. } => {},
        Instruction::REM0 { .. } => {},
        Instruction::REM1 { .. } => {},
        Instruction::SHL0 { .. } => {},
        Instruction::SHR0 { .. } => {},
        Instruction::SAR0 { .. } => {},
        Instruction::SHL1 { .. } => {},
        Instruction::SHR1 { .. } => {},
        Instruction::SAR1 { .. } => {},
        Instruction::PUSH { .. } => {},
        Instruction::POP { .. } => {},
        Instruction::PUSHALL => {},
        Instruction::POPALL => {},
        Instruction::PUSHF => {},
        Instruction::POPF => {},
        Instruction::PAL0 { .. } => {},
        Instruction::PAL1 { .. } => {},
        Instruction::NOTI { .. } => {},
        Instruction::NOT0 { .. } => {},
        Instruction::NOT1 { .. } => {},
        Instruction::NEGI { .. } => {},
        Instruction::NEG0 { .. } => {},
        Instruction::NEG1 { .. } => {},
    }
}

} // verus!
