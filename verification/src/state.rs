//! The machine as a mathematical value, and the meaning of every
//! instruction as a function from one such value to the next.
//!
//! The program counter of a state is the address of the instruction about
//! to run. An instruction that does not jump leaves it four bytes further,
//! wrapping from the end of the address space to its start.
//!
//! The stack lies in ordinary memory and grows downward. The stack pointer
//! is the address of the word pushed last. A push first moves it down by
//! two, then stores; a pop loads, then moves it up by two. The stack
//! pointer never leaves memory: a push that would take it below address 0
//! is a stack overflow, and a pop that would take it to the end of memory
//! or beyond, or past the last 16-bit address, is a stack underflow.

use vstd::prelude::*;
use crate::alu::{
    add_spec, and_spec, div_spec, modulo_spec, mul_spec, neg_spec, not_spec, or_spec, rem_spec,
    sar_spec, shl_spec, shr_spec, sub_spec, xor_spec, AluResult, ArithmeticFault,
};
use crate::bits::{high_byte, low_byte, word_of};
use crate::effect::Effect;
use crate::fault::{Fault, StackFault};
use crate::flags::Flags;
use crate::instruction::Instruction;
use crate::memory::{with_word, word24_at, word32_at, word_at, MemoryError};
use crate::rng::{draw_spec, next_seed_spec};

verus! {

/// Everything that the processor holds at one instant.
pub struct State {
    /// The bytes of memory.
    pub memory: Seq<u8>,
    /// The sixteen general registers.
    pub registers: Seq<u16>,
    /// The address of the next instruction.
    pub pc: u16,
    /// The address of the word on top of the stack.
    pub sp: u16,
    /// The condition flags.
    pub flags: Flags,
    /// The background colour.
    pub background: u8,
    /// The width of a sprite.
    pub sprite_width: u8,
    /// The height of a sprite.
    pub sprite_height: u8,
    /// Whether sprites are drawn mirrored left to right.
    pub hflip: bool,
    /// Whether sprites are drawn mirrored top to bottom.
    pub vflip: bool,
    /// The seed of the random number generator.
    pub seed: u32,
}

/// How executing one instruction ends: with the next state and a request to
/// the host, or with a fault.
pub type Outcome = Result<(State, Effect), Fault>;

/// The address four bytes after `pc`, wrapping at the end of the address
/// space.
pub open spec fn next_pc(pc: u16) -> u16 {
    ((pc + 4) % 0x1_0000) as u16
}

/// The stack pointer at power-on: the last address of memory, as far as 16
/// bits reach, and 0 where there is no memory.
pub open spec fn initial_sp(size: nat) -> u16 {
    if size == 0 {
        0
    } else if size > 0x1_0000 {
        0xFFFF
    } else {
        (size - 1) as u16
    }
}

/// Memory after the registers `r0` to `r(count - 1)` have been pushed, in
/// this order, on a stack whose pointer was `sp`: register `k` lies at
/// address `sp - 2 * (k + 1)`, high byte first.
pub open spec fn stacked(memory: Seq<u8>, registers: Seq<u16>, sp: int, count: int) -> Seq<u8> {
    Seq::new(
        memory.len(),
        |a: int|
            if sp - 2 * count <= a < sp {
                if (sp - a) % 2 == 0 {
                    high_byte(registers[(sp - 1 - a) / 2])
                } else {
                    low_byte(registers[(sp - 1 - a) / 2])
                }
            } else {
                memory[a]
            },
    )
}

/// The registers after the topmost `count` of them, `r15` first, have been
/// popped off a stack whose pointer was `sp`: register `k` comes from
/// address `sp + 2 * (15 - k)`.
pub open spec fn unstacked(memory: Seq<u8>, registers: Seq<u16>, sp: int, count: int) -> Seq<
    u16,
> {
    Seq::new(
        16,
        |k: int|
            if 16 - count <= k {
                word_at(memory, sp + 2 * (15 - k))
            } else {
                registers[k]
            },
    )
}

/// The request for a tone without an envelope.
pub open spec fn tone(channel: u8, frequency: u16, duration: u16) -> Effect {
    Effect::PlayTone { channel, frequency, duration, attack: 0, decay: 0, sustain: 0, release: 0 }
}

/// Whether a call that led from `before` to `after` and returned `result`
/// did what `outcome` says: on success the machine is in the next state and
/// the result is the effect; on a fault the machine is as it was and the
/// result is the fault.
pub open spec fn follows(
    before: State,
    after: State,
    result: Result<Effect, Fault>,
    outcome: Outcome,
) -> bool {
    match outcome {
        Ok((next, effect)) => after == next && result == Ok::<Effect, Fault>(effect),
        Err(fault) => after == before && result == Err::<Effect, Fault>(fault),
    }
}

impl State {
    /// The machine at power-on: `size` bytes of memory and all registers
    /// zero, the program counter at address 0, the stack pointer at the end
    /// of memory, all flags clear, no flip, and the given seed.
    pub open spec fn power_on(size: nat, seed: u32) -> State {
        State {
            memory: Seq::new(size, |a: int| 0u8),
            registers: Seq::new(16, |k: int| 0u16),
            pc: 0,
            sp: initial_sp(size),
            flags: Flags { carry: false, zero: false, overflow: false, negative: false },
            background: 0,
            sprite_width: 0,
            sprite_height: 0,
            hflip: false,
            vflip: false,
            seed,
        }
    }

    /// There are sixteen registers, and the stack pointer is an address
    /// inside memory (or 0 where there is no memory).
    pub open spec fn wf(self) -> bool {
        &&& self.registers.len() == 16
        &&& (self.sp == 0 || self.sp < self.memory.len())
    }

    /// The value of register `index`.
    pub open spec fn reg(self, index: u8) -> u16 {
        self.registers[index as int]
    }

    /// The state with register `index` set to `value`.
    pub open spec fn with_reg(self, index: u8, value: u16) -> State {
        State { registers: self.registers.update(index as int, value), ..self }
    }

    /// The state with the flags replaced.
    pub open spec fn with_flags(self, flags: Flags) -> State {
        State { flags, ..self }
    }

    /// The state with the program counter at `target`.
    pub open spec fn jump(self, target: u16) -> State {
        State { pc: target, ..self }
    }

    /// The state with the program counter at the following instruction.
    pub open spec fn advance(self) -> State {
        self.jump(next_pc(self.pc))
    }

    /// Whether a 16-bit value can be read or written at `address`.
    pub open spec fn holds_word(self, address: u16) -> bool {
        address + 1 < self.memory.len()
    }

    /// The instruction is finished and asks nothing of the host.
    pub open spec fn done(self) -> Outcome {
        Ok((self.advance(), Effect::Nothing))
    }

    /// The instruction is finished and asks `effect` of the host.
    pub open spec fn request(self, effect: Effect) -> Outcome {
        Ok((self.advance(), effect))
    }

    /// An arithmetic instruction: the result goes to register `dst`, and the
    /// flags are those of the result.
    pub open spec fn computed(self, dst: u8, result: AluResult) -> Outcome {
        self.with_reg(dst, result.value).with_flags(result.flags).done()
    }

    /// A division, modulo or remainder: a fault where the divisor is zero,
    /// and else as any arithmetic instruction.
    pub open spec fn divided(self, dst: u8, divisor: u16, result: AluResult) -> Outcome {
        if divisor == 0 {
            Err(Fault::Arithmetic(ArithmeticFault::DivisionByZero))
        } else {
            self.computed(dst, result)
        }
    }

    /// A comparison or test: only the flags change.
    pub open spec fn flagged(self, flags: Flags) -> Outcome {
        self.with_flags(flags).done()
    }

    /// A jump that is taken or not.
    pub open spec fn branch(self, taken: bool, target: u16) -> Outcome {
        if taken {
            Ok((self.jump(target), Effect::Nothing))
        } else {
            self.done()
        }
    }

    /// A load of the word at `address` into register `dst`.
    pub open spec fn loaded(self, dst: u8, address: u16) -> Outcome {
        if self.holds_word(address) {
            self.with_reg(dst, word_at(self.memory, address as int)).done()
        } else {
            Err(Fault::Memory(MemoryError::OutOfBounds))
        }
    }

    /// A store of `value` at `address`.
    pub open spec fn stored(self, address: u16, value: u16) -> Outcome {
        if self.holds_word(address) {
            (State { memory: with_word(self.memory, address as int, value), ..self }).done()
        } else {
            Err(Fault::Memory(MemoryError::OutOfBounds))
        }
    }

    /// The state after `value` has been pushed, or a stack overflow.
    pub open spec fn pushed(self, value: u16) -> Result<State, Fault> {
        if self.sp >= 2 {
            Ok(
                State {
                    sp: (self.sp - 2) as u16,
                    memory: with_word(self.memory, self.sp - 2, value),
                    ..self
                },
            )
        } else {
            Err(Fault::Stack(StackFault::Overflow))
        }
    }

    /// Whether the stack pointer can move up by `count` bytes and stay an
    /// address inside memory.
    pub open spec fn can_release(self, count: int) -> bool {
        self.sp + count < self.memory.len() && self.sp + count <= 0xFFFF
    }

    /// The state after a word has been popped, and that word; or a stack
    /// underflow.
    pub open spec fn popped(self) -> Result<(State, u16), Fault> {
        if self.can_release(2) {
            Ok((State { sp: (self.sp + 2) as u16, ..self }, word_at(self.memory, self.sp as int)))
        } else {
            Err(Fault::Stack(StackFault::Underflow))
        }
    }

    /// A push of `value` as a whole instruction.
    pub open spec fn push_done(self, value: u16) -> Outcome {
        match self.pushed(value) {
            Ok(next) => next.done(),
            Err(fault) => Err(fault),
        }
    }

    /// A call: the address of the following instruction is pushed, and the
    /// program counter goes to `target`.
    pub open spec fn called(self, target: u16) -> Outcome {
        match self.pushed(next_pc(self.pc)) {
            Ok(next) => Ok((next.jump(target), Effect::Nothing)),
            Err(fault) => Err(fault),
        }
    }

    /// A return: the program counter goes to the address popped.
    pub open spec fn returned(self) -> Outcome {
        match self.popped() {
            Ok((next, target)) => Ok((next.jump(target), Effect::Nothing)),
            Err(fault) => Err(fault),
        }
    }

    /// A pop into register `dst`.
    pub open spec fn pop_done(self, dst: u8) -> Outcome {
        match self.popped() {
            Ok((next, value)) => next.with_reg(dst, value).done(),
            Err(fault) => Err(fault),
        }
    }

    /// A pop into the flags: they are read off the low byte of the word.
    pub open spec fn pop_flags_done(self) -> Outcome {
        match self.popped() {
            Ok((next, value)) => next.with_flags(Flags::of_byte(low_byte(value))).done(),
            Err(fault) => Err(fault),
        }
    }

    /// A push of all sixteen registers, `r0` first. It needs 32 bytes below
    /// the stack pointer.
    pub open spec fn push_all_done(self) -> Outcome {
        if self.sp >= 32 {
            (State {
                sp: (self.sp - 32) as u16,
                memory: stacked(self.memory, self.registers, self.sp as int, 16),
                ..self
            }).done()
        } else {
            Err(Fault::Stack(StackFault::Overflow))
        }
    }

    /// A pop of all sixteen registers, `r15` first. It needs 32 bytes at
    /// the stack pointer and must leave the pointer inside memory.
    pub open spec fn pop_all_done(self) -> Outcome {
        if self.can_release(32) {
            (State {
                sp: (self.sp + 32) as u16,
                registers: unstacked(self.memory, self.registers, self.sp as int, 16),
                ..self
            }).done()
        } else {
            Err(Fault::Stack(StackFault::Underflow))
        }
    }

    /// The request to draw the sprite at `address` at the coordinates held
    /// in registers `x` and `y`.
    pub open spec fn sprite(self, address: u16, x: u8, y: u8) -> Outcome {
        self.request(
            Effect::DrawSprite {
                address,
                x: self.reg(x),
                y: self.reg(y),
                width: self.sprite_width,
                height: self.sprite_height,
                color_start_index: self.background,
                hflip: self.hflip,
                vflip: self.vflip,
            },
        )
    }

    /// The flip mode is set; the host is told nothing until it draws.
    pub open spec fn flipped(self, hflip: bool, vflip: bool) -> Outcome {
        (State { hflip, vflip, ..self }).done()
    }

    /// The request to play a tone of the frequency stored at `address`.
    pub open spec fn tone_from(self, address: u16, duration: u16) -> Outcome {
        if self.holds_word(address) {
            self.request(tone(0, word_at(self.memory, address as int), duration))
        } else {
            Err(Fault::Memory(MemoryError::OutOfBounds))
        }
    }

    /// The request to set palette entry `slot` to the colour stored at
    /// `address`.
    pub open spec fn palette(self, slot: u8, address: u16) -> Outcome {
        if address + 2 < self.memory.len() {
            self.request(Effect::SetPalette { slot, rgb: word24_at(self.memory, address as int) })
        } else {
            Err(Fault::Memory(MemoryError::OutOfBounds))
        }
    }

    /// A random draw below `bound` into register `dst`; the seed moves on.
    pub open spec fn drawn(self, dst: u8, bound: u16) -> Outcome {
        (State { seed: next_seed_spec(self.seed), ..self }).with_reg(
            dst,
            draw_spec(self.seed, bound),
        ).done()
    }

    /// What executing `instruction` in this state leads to. The program
    /// counter is taken to be the address of the instruction.
    pub open spec fn execute(self, instruction: Instruction) -> Outcome
        recommends
            self.wf(),
            instruction.wf(),
    {
        let carry = self.flags.carry;
        match instruction {
            Instruction::NOP => self.done(),
            Instruction::CLS => self.request(Effect::ClearScreen),
            Instruction::VBLNK => self.request(Effect::WaitVblank),
            Instruction::BGC { color } => (State { background: color, ..self }).request(
                Effect::SetBackground { color_index: color },
            ),
            Instruction::SPR { width, height } => (State {
                sprite_width: width,
                sprite_height: height,
                ..self
            }).done(),
            Instruction::DRW0 { x, y, address } => self.sprite(address, x, y),
            Instruction::DRW1 { x, y, at } => self.sprite(self.reg(at), x, y),
            Instruction::RND { dst, bound } => self.drawn(dst, bound),
            Instruction::FLIP0 => self.flipped(false, false),
            Instruction::FLIP1 => self.flipped(false, true),
            Instruction::FLIP2 => self.flipped(true, false),
            Instruction::FLIP3 => self.flipped(true, true),
            Instruction::SND0 => self.request(tone(0, 0, 0)),
            Instruction::SND1 { duration } => self.request(tone(1, 500, duration)),
            Instruction::SND2 { duration } => self.request(tone(2, 1000, duration)),
            Instruction::SND3 { duration } => self.request(tone(3, 1500, duration)),
            Instruction::SNP { at, duration } => self.tone_from(self.reg(at), duration),
            Instruction::SNG { attack, decay, sustain, release } => self.request(
                Effect::PlayTone {
                    channel: 0,
                    frequency: 0,
                    duration: 0,
                    attack,
                    decay,
                    sustain,
                    release,
                },
            ),
            Instruction::JMP0 { target } => self.branch(true, target),
            Instruction::JMC { target } => self.branch(carry, target),
            Instruction::JX { condition, target } => self.branch(
                condition.holds_spec(self.flags),
                target,
            ),
            Instruction::JME { x, y, target } => self.branch(self.reg(x) == self.reg(y), target),
            Instruction::CALL0 { target } => self.called(target),
            Instruction::RET => self.returned(),
            Instruction::JMP1 { src } => self.branch(true, self.reg(src)),
            Instruction::CX { condition, target } => if condition.holds_spec(self.flags) {
                self.called(target)
            } else {
                self.done()
            },
            Instruction::CALL1 { src } => self.called(self.reg(src)),
            Instruction::LDI0 { dst, imm } => self.with_reg(dst, imm).done(),
            Instruction::LDI1 { dst, imm } => self.with_reg(dst, imm).done(),
            Instruction::LDM0 { dst, address } => self.loaded(dst, address),
            Instruction::LDM1 { dst, at } => self.loaded(dst, self.reg(at)),
            Instruction::MOV { dst, src } => self.with_reg(dst, self.reg(src)).done(),
            Instruction::STM0 { src, address } => self.stored(address, self.reg(src)),
            Instruction::STM1 { src, at } => self.stored(self.reg(at), self.reg(src)),
            Instruction::ADDI { dst, imm } => self.computed(dst, add_spec(self.reg(dst), imm)),
            Instruction::ADD0 { dst, src } => self.computed(
                dst,
                add_spec(self.reg(dst), self.reg(src)),
            ),
            Instruction::ADD1 { dst, lhs, rhs } => self.computed(
                dst,
                add_spec(self.reg(lhs), self.reg(rhs)),
            ),
            Instruction::SUBI { dst, imm } => self.computed(dst, sub_spec(self.reg(dst), imm)),
            Instruction::SUB0 { dst, src } => self.computed(
                dst,
                sub_spec(self.reg(dst), self.reg(src)),
            ),
            Instruction::SUB1 { dst, lhs, rhs } => self.computed(
                dst,
                sub_spec(self.reg(lhs), self.reg(rhs)),
            ),
            Instruction::CMPI { lhs, imm } => self.flagged(sub_spec(self.reg(lhs), imm).flags),
            Instruction::CMP { lhs, rhs } => self.flagged(
                sub_spec(self.reg(lhs), self.reg(rhs)).flags,
            ),
            Instruction::ANDI { dst, imm } => self.computed(
                dst,
                and_spec(self.reg(dst), imm, carry),
            ),
            Instruction::AND0 { dst, src } => self.computed(
                dst,
                and_spec(self.reg(dst), self.reg(src), carry),
            ),
            Instruction::AND1 { dst, lhs, rhs } => self.computed(
                dst,
                and_spec(self.reg(lhs), self.reg(rhs), carry),
            ),
            Instruction::TSTI { lhs, imm } => self.flagged(
                and_spec(self.reg(lhs), imm, carry).flags,
            ),
            Instruction::TST { lhs, rhs } => self.flagged(
                and_spec(self.reg(lhs), self.reg(rhs), carry).flags,
            ),
            Instruction::ORI { dst, imm } => self.computed(dst, or_spec(self.reg(dst), imm, carry)),
            Instruction::OR0 { dst, src } => self.computed(
                dst,
                or_spec(self.reg(dst), self.reg(src), carry),
            ),
            Instruction::OR1 { dst, lhs, rhs } => self.computed(
                dst,
                or_spec(self.reg(lhs), self.reg(rhs), carry),
            ),
            Instruction::XORI { dst, imm } => self.computed(
                dst,
                xor_spec(self.reg(dst), imm, carry),
            ),
            Instruction::XOR0 { dst, src } => self.computed(
                dst,
                xor_spec(self.reg(dst), self.reg(src), carry),
            ),
            Instruction::XOR1 { dst, lhs, rhs } => self.computed(
                dst,
                xor_spec(self.reg(lhs), self.reg(rhs), carry),
            ),
            Instruction::MULI { dst, imm } => self.computed(dst, mul_spec(self.reg(dst), imm)),
            Instruction::MUL0 { dst, src } => self.computed(
                dst,
                mul_spec(self.reg(dst), self.reg(src)),
            ),
            Instruction::MUL1 { dst, lhs, rhs } => self.computed(
                dst,
                mul_spec(self.reg(lhs), self.reg(rhs)),
            ),
            Instruction::DIVI { dst, imm } => self.divided(
                dst,
                imm,
                div_spec(self.reg(dst), imm),
            ),
            Instruction::DIV0 { dst, src } => self.divided(
                dst,
                self.reg(src),
                div_spec(self.reg(dst), self.reg(src)),
            ),
            Instruction::DIV1 { dst, lhs, rhs } => self.divided(
                dst,
                self.reg(rhs),
                div_spec(self.reg(lhs), self.reg(rhs)),
            ),
            Instruction::MODI { dst, imm } => self.divided(
                dst,
                imm,
                modulo_spec(self.reg(dst), imm),
            ),
            Instruction::MOD0 { dst, src } => self.divided(
                dst,
                self.reg(src),
                modulo_spec(self.reg(dst), self.reg(src)),
            ),
            Instruction::MOD1 { dst, lhs, rhs } => self.divided(
                dst,
                self.reg(rhs),
                modulo_spec(self.reg(lhs), self.reg(rhs)),
            ),
            Instruction::REMI { dst, imm } => self.divided(
                dst,
                imm,
                rem_spec(self.reg(dst), imm),
            ),
            Instruction::REM0 { dst, src } => self.divided(
                dst,
                self.reg(src),
                rem_spec(self.reg(dst), self.reg(src)),
            ),
            Instruction::REM1 { dst, lhs, rhs } => self.divided(
                dst,
                self.reg(rhs),
                rem_spec(self.reg(lhs), self.reg(rhs)),
            ),
            Instruction::SHL0 { dst, amount } => self.computed(
                dst,
                shl_spec(self.reg(dst), amount as u16),
            ),
            Instruction::SHR0 { dst, amount } => self.computed(
                dst,
                shr_spec(self.reg(dst), amount as u16),
            ),
            Instruction::SAR0 { dst, amount } => self.computed(
                dst,
                sar_spec(self.reg(dst), amount as u16),
            ),
            Instruction::SHL1 { dst, src } => self.computed(
                dst,
                shl_spec(self.reg(dst), self.reg(src)),
            ),
            Instruction::SHR1 { dst, src } => self.computed(
                dst,
                shr_spec(self.reg(dst), self.reg(src)),
            ),
            Instruction::SAR1 { dst, src } => self.computed(
                dst,
                sar_spec(self.reg(dst), self.reg(src)),
            ),
            Instruction::PUSH { src } => self.push_done(self.reg(src)),
            Instruction::POP { dst } => self.pop_done(dst),
            Instruction::PUSHALL => self.push_all_done(),
            Instruction::POPALL => self.pop_all_done(),
            Instruction::PUSHF => self.push_done(word_of(0, self.flags.byte())),
            Instruction::POPF => self.pop_flags_done(),
            Instruction::PAL0 { slot, address } => self.palette(slot, address),
            Instruction::PAL1 { slot, at } => self.palette(slot, self.reg(at)),
            Instruction::NOTI { dst, imm } => self.computed(dst, not_spec(imm, carry)),
            Instruction::NOT0 { dst } => self.computed(dst, not_spec(self.reg(dst), carry)),
            Instruction::NOT1 { dst, src } => self.computed(dst, not_spec(self.reg(src), carry)),
            Instruction::NEGI { dst, imm } => self.computed(dst, neg_spec(imm, carry)),
            Instruction::NEG0 { dst } => self.computed(dst, neg_spec(self.reg(dst), carry)),
            Instruction::NEG1 { dst, src } => self.computed(dst, neg_spec(self.reg(src), carry)),
        }
    }

    /// The instruction word at the program counter: four bytes, the first
    /// of them on top; or a memory fault where they do not all lie in
    /// memory.
    pub open spec fn fetch(self) -> Result<u32, Fault> {
        if self.pc + 3 < self.memory.len() {
            Ok(word32_at(self.memory, self.pc as int))
        } else {
            Err(Fault::Memory(MemoryError::OutOfBounds))
        }
    }

    /// One step of the machine: fetch the word at the program counter,
    /// decode it, execute the instruction.
    pub open spec fn step(self) -> Outcome {
        match self.fetch() {
            Err(fault) => Err(fault),
            Ok(word) => match Instruction::decode_spec(word) {
                Err(error) => Err(Fault::Decode(error)),
                Ok(instruction) => self.execute(instruction),
            },
        }
    }
}

} // verus!
