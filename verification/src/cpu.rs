//! The processor: the machine state in executable form, and the engine that
//! fetches, decodes and executes one instruction at a time.
//!
//! Every method that changes the machine says which mathematical state
//! follows, in terms of [`State`]. An instruction either runs to its end or
//! faults and changes nothing.

use vstd::prelude::*;
use crate::alu::{AluResult, ArithmeticFault};
use crate::bits::make_word;
use crate::effect::Effect;
use crate::fault::{Fault, StackFault};
use crate::flags::Flags;
use crate::instruction::Instruction;
use crate::memory::{overlaid, Memory, MemoryError};
use crate::registers::RegisterFile;
use crate::rng::{draw, next_seed};
use crate::state::{follows, stacked, unstacked, State};

verus! {

/// One emulated processor with its memory. Machines are independent of each
/// other: all state is in the value.
#[derive(Debug)]
pub struct Cpu {
    memory: Memory,
    registers: RegisterFile,
    pc: u16,
    sp: u16,
    flags: Flags,
    background: u8,
    sprite_width: u8,
    sprite_height: u8,
    hflip: bool,
    vflip: bool,
    seed: u32,
}

impl View for Cpu {
    type V = State;

    closed spec fn view(&self) -> State {
        State {
            memory: self.memory@,
            registers: self.registers@,
            pc: self.pc,
            sp: self.sp,
            flags: self.flags,
            background: self.background,
            sprite_width: self.sprite_width,
            sprite_height: self.sprite_height,
            hflip: self.hflip,
            vflip: self.vflip,
            seed: self.seed,
        }
    }
}

impl Cpu {
    /// The invariant of the machine: that of its state.
    pub open spec fn wf(&self) -> bool {
        self@.wf()
    }

    /// A machine at power-on with `memory_size` bytes of memory and the
    /// random seed 0.
    pub fn new(memory_size: usize) -> (cpu: Cpu)
        ensures
            cpu@ == State::power_on(memory_size as nat, 0),
            cpu.wf(),
    {
        Cpu::with_seed(memory_size, 0)
    }

    /// A machine at power-on with `memory_size` bytes of memory and the
    /// given random seed.
    pub fn with_seed(memory_size: usize, seed: u32) -> (cpu: Cpu)
        ensures
            cpu@ == State::power_on(memory_size as nat, seed),
            cpu.wf(),
    {
        let sp: u16 = if memory_size == 0 {
            0
        } else if memory_size > 0x1_0000 {
            0xFFFF
        } else {
            (memory_size - 1) as u16
        };
        let cpu = Cpu {
            memory: Memory::new(memory_size),
            registers: RegisterFile::new(),
            pc: 0,
            sp,
            flags: Flags::new(),
            background: 0,
            sprite_width: 0,
            sprite_height: 0,
            hflip: false,
            vflip: false,
            seed,
        };
        assert(cpu@.memory =~= State::power_on(memory_size as nat, seed).memory);
        cpu
    }

    /// Copies a program image into memory from `address` on. An image that
    /// does not fit is refused, and nothing of it is written.
    pub fn load(&mut self, address: u16, image: &[u8]) -> (r: Result<(), MemoryError>)
        requires
            old(self).wf(),
        ensures
            final(self).wf(),
            address + image@.len() <= old(self)@.memory.len() ==> r == Ok::<(), MemoryError>(())
                && final(self)@ == (State {
                memory: overlaid(old(self)@.memory, address as int, image@),
                ..old(self)@
            }),
            address + image@.len() > old(self)@.memory.len() ==> r == Err::<(), MemoryError>(
                MemoryError::OutOfBounds,
            ) && final(self)@ == old(self)@,
    {
        self.memory.load(address, image)
    }

    /// The value of register `index`.
    pub fn register(&self, index: u8) -> (value: u16)
        requires
            index < 16,
        ensures
            value == self@.reg(index),
    {
        self.registers.get(index)
    }

    /// Sets register `index` to `value`.
    pub fn set_register(&mut self, index: u8, value: u16)
        requires
            index < 16,
        ensures
            final(self)@ == old(self)@.with_reg(index, value),
            old(self).wf() ==> final(self).wf(),
    {
        self.registers.set(index, value);
    }

    /// The condition flags.
    pub fn flags(&self) -> (flags: Flags)
        ensures
            flags == self@.flags,
    {
        self.flags
    }

    /// The program counter: the address of the next instruction.
    pub fn pc(&self) -> (pc: u16)
        ensures
            pc == self@.pc,
    {
        self.pc
    }

    /// The stack pointer: the address of the word pushed last.
    pub fn sp(&self) -> (sp: u16)
        ensures
            sp == self@.sp,
    {
        self.sp
    }

    /// The memory, for reading.
    pub fn memory(&self) -> (memory: &Memory)
        ensures
            memory@ == self@.memory,
    {
        &self.memory
    }

    /// The background colour.
    pub fn background(&self) -> (color: u8)
        ensures
            color == self@.background,
    {
        self.background
    }

    /// The sprite size: width, then height.
    pub fn sprite_size(&self) -> (size: (u8, u8))
        ensures
            size == (self@.sprite_width, self@.sprite_height),
    {
        (self.sprite_width, self.sprite_height)
    }

    /// The flip mode: horizontal, then vertical.
    pub fn flip(&self) -> (mode: (bool, bool))
        ensures
            mode == (self@.hflip, self@.vflip),
    {
        (self.hflip, self.vflip)
    }

    /// The seed of the random number generator.
    pub fn seed(&self) -> (seed: u32)
        ensures
            seed == self@.seed,
    {
        self.seed
    }

    /// Executes `instruction`, taking the program counter to be its
    /// address.
    ///
    /// On success the machine is in the state that [`State::execute`] gives,
    /// and the result is the request to the host. On a fault the machine is
    /// exactly as before.
    pub fn execute(&mut self, instruction: &Instruction) -> (r: Result<Effect, Fault>)
        requires
            old(self).wf(),
            instruction.wf(),
        ensures
            follows(old(self)@, final(self)@, r, old(self)@.execute(*instruction)),
            final(self).wf(),
    {
        let carry = self.flags.carry;
        match *instruction {
            Instruction::NOP => self.request(Effect::Nothing),
            Instruction::CLS => self.request(Effect::ClearScreen),
            Instruction::VBLNK => self.request(Effect::WaitVblank),
            Instruction::BGC { color } => {
                self.background = color;
                self.request(Effect::SetBackground { color_index: color })
            },
            Instruction::SPR { width, height } => {
                self.sprite_width = width;
                self.sprite_height = height;
                self.request(Effect::Nothing)
            },
            Instruction::DRW0 { x, y, address } => self.sprite(address, x, y),
            Instruction::DRW1 { x, y, at } => {
                let address = self.register(at);
                self.sprite(address, x, y)
            },
            Instruction::RND { dst, bound } => self.drawn(dst, bound),
            Instruction::FLIP0 => self.flipped(false, false),
            Instruction::FLIP1 => self.flipped(false, true),
            Instruction::FLIP2 => self.flipped(true, false),
            Instruction::FLIP3 => self.flipped(true, true),
            Instruction::SND0 => self.tone(0, 0, 0),
            Instruction::SND1 { duration } => self.tone(1, 500, duration),
            Instruction::SND2 { duration } => self.tone(2, 1000, duration),
            Instruction::SND3 { duration } => self.tone(3, 1500, duration),
            Instruction::SNP { at, duration } => {
                let address = self.register(at);
                self.tone_from(address, duration)
            },
            Instruction::SNG { attack, decay, sustain, release } => {
                self.request(
                    Effect::PlayTone {
                        channel: 0,
                        frequency: 0,
                        duration: 0,
                        attack,
                        decay,
                        sustain,
                        release,
                    },
                )
            },
            Instruction::JMP0 { target } => self.branch(true, target),
            Instruction::JMC { target } => self.branch(carry, target),
            Instruction::JX { condition, target } => {
                let taken = condition.holds(self.flags);
                self.branch(taken, target)
            },
            Instruction::JME { x, y, target } => {
                let taken = self.register(x) == self.register(y);
                self.branch(taken, target)
            },
            Instruction::CALL0 { target } => self.called(target),
            Instruction::RET => self.returned(),
            Instruction::JMP1 { src } => {
                let target = self.register(src);
                self.branch(true, target)
            },
            Instruction::CX { condition, target } => {
                if condition.holds(self.flags) {
                    self.called(target)
                } else {
                    self.request(Effect::Nothing)
                }
            },
            Instruction::CALL1 { src } => {
                let target = self.register(src);
                self.called(target)
            },
            Instruction::LDI0 { dst, imm } => {
                self.registers.set(dst, imm);
                self.request(Effect::Nothing)
            },
            Instruction::LDI1 { dst, imm } => {
                self.registers.set(dst, imm);
                self.request(Effect::Nothing)
            },
            Instruction::LDM0 { dst, address } => self.loaded(dst, address),
            Instruction::LDM1 { dst, at } => {
                let address = self.register(at);
                self.loaded(dst, address)
            },
            Instruction::MOV { dst, src } => {
                let value = self.register(src);
                self.registers.set(dst, value);
                self.request(Effect::Nothing)
            },
            Instruction::STM0 { src, address } => {
                let value = self.register(src);
                self.stored(address, value)
            },
            Instruction::STM1 { src, at } => {
                let address = self.register(at);
                let value = self.register(src);
                self.stored(address, value)
            },
            Instruction::ADDI { dst, imm } => {
                let result = crate::alu::add(self.register(dst), imm);
                self.computed(dst, result)
            },
            Instruction::ADD0 { dst, src } => {
                let result = crate::alu::add(self.register(dst), self.register(src));
                self.computed(dst, result)
            },
            Instruction::ADD1 { dst, lhs, rhs } => {
                let result = crate::alu::add(self.register(lhs), self.register(rhs));
                self.computed(dst, result)
            },
            Instruction::SUBI { dst, imm } => {
                let result = crate::alu::sub(self.register(dst), imm);
                self.computed(dst, result)
            },
            Instruction::SUB0 { dst, src } => {
                let result = crate::alu::sub(self.register(dst), self.register(src));
                self.computed(dst, result)
            },
            Instruction::SUB1 { dst, lhs, rhs } => {
                let result = crate::alu::sub(self.register(lhs), self.register(rhs));
                self.computed(dst, result)
            },
            Instruction::CMPI { lhs, imm } => {
                let flags = crate::alu::compare(self.register(lhs), imm);
                self.flagged(flags)
            },
            Instruction::CMP { lhs, rhs } => {
                let flags = crate::alu::compare(self.register(lhs), self.register(rhs));
                self.flagged(flags)
            },
            Instruction::ANDI { dst, imm } => {
                let result = crate::alu::and(self.register(dst), imm, carry);
                self.computed(dst, result)
            },
            Instruction::AND0 { dst, src } => {
                let result = crate::alu::and(self.register(dst), self.register(src), carry);
                self.computed(dst, result)
            },
            Instruction::AND1 { dst, lhs, rhs } => {
                let result = crate::alu::and(self.register(lhs), self.register(rhs), carry);
                self.computed(dst, result)
            },
            Instruction::TSTI { lhs, imm } => {
                let flags = crate::alu::test(self.register(lhs), imm, carry);
                self.flagged(flags)
            },
            Instruction::TST { lhs, rhs } => {
                let flags = crate::alu::test(self.register(lhs), self.register(rhs), carry);
                self.flagged(flags)
            },
            Instruction::ORI { dst, imm } => {
                let result = crate::alu::or(self.register(dst), imm, carry);
                self.computed(dst, result)
            },
            Instruction::OR0 { dst, src } => {
                let result = crate::alu::or(self.register(dst), self.register(src), carry);
                self.computed(dst, result)
            },
            Instruction::OR1 { dst, lhs, rhs } => {
                let result = crate::alu::or(self.register(lhs), self.register(rhs), carry);
                self.computed(dst, result)
            },
            Instruction::XORI { dst, imm } => {
                let result = crate::alu::xor(self.register(dst), imm, carry);
                self.computed(dst, result)
            },
            Instruction::XOR0 { dst, src } => {
                let result = crate::alu::xor(self.register(dst), self.register(src), carry);
                self.computed(dst, result)
            },
            Instruction::XOR1 { dst, lhs, rhs } => {
                let result = crate::alu::xor(self.register(lhs), self.register(rhs), carry);
                self.computed(dst, result)
            },
            Instruction::MULI { dst, imm } => {
                let result = crate::alu::mul(self.register(dst), imm);
                self.computed(dst, result)
            },
            Instruction::MUL0 { dst, src } => {
                let result = crate::alu::mul(self.register(dst), self.register(src));
                self.computed(dst, result)
            },
            Instruction::MUL1 { dst, lhs, rhs } => {
                let result = crate::alu::mul(self.register(lhs), self.register(rhs));
                self.computed(dst, result)
            },
            Instruction::DIVI { dst, imm } => {
                let result = crate::alu::div(self.register(dst), imm);
                self.divided(dst, result)
            },
            Instruction::DIV0 { dst, src } => {
                let result = crate::alu::div(self.register(dst), self.register(src));
                self.divided(dst, result)
            },
            Instruction::DIV1 { dst, lhs, rhs } => {
                let result = crate::alu::div(self.register(lhs), self.register(rhs));
                self.divided(dst, result)
            },
            Instruction::MODI { dst, imm } => {
                let result = crate::alu::modulo(self.register(dst), imm);
                self.divided(dst, result)
            },
            Instruction::MOD0 { dst, src } => {
                let result = crate::alu::modulo(self.register(dst), self.register(src));
                self.divided(dst, result)
            },
            Instruction::MOD1 { dst, lhs, rhs } => {
                let result = crate::alu::modulo(self.register(lhs), self.register(rhs));
                self.divided(dst, result)
            },
            Instruction::REMI { dst, imm } => {
                let result = crate::alu::rem(self.register(dst), imm);
                self.divided(dst, result)
            },
            Instruction::REM0 { dst, src } => {
                let result = crate::alu::rem(self.register(dst), self.register(src));
                self.divided(dst, result)
            },
            Instruction::REM1 { dst, lhs, rhs } => {
                let result = crate::alu::rem(self.register(lhs), self.register(rhs));
                self.divided(dst, result)
            },
            Instruction::SHL0 { dst, amount } => {
                let result = crate::alu::shl(self.register(dst), amount as u16);
                self.computed(dst, result)
            },
            Instruction::SHR0 { dst, amount } => {
                let result = crate::alu::shr(self.register(dst), amount as u16);
                self.computed(dst, result)
            },
            Instruction::SAR0 { dst, amount } => {
                let result = crate::alu::sar(self.register(dst), amount as u16);
                self.computed(dst, result)
            },
            Instruction::SHL1 { dst, src } => {
                let result = crate::alu::shl(self.register(dst), self.register(src));
                self.computed(dst, result)
            },
            Instruction::SHR1 { dst, src } => {
                let result = crate::alu::shr(self.register(dst), self.register(src));
                self.computed(dst, result)
            },
            Instruction::SAR1 { dst, src } => {
                let result = crate::alu::sar(self.register(dst), self.register(src));
                self.computed(dst, result)
            },
            Instruction::PUSH { src } => {
                let value = self.register(src);
                self.push_done(value)
            },
            Instruction::POP { dst } => self.pop_done(dst),
            Instruction::PUSHALL => self.push_all_done(),
            Instruction::POPALL => self.pop_all_done(),
            Instruction::PUSHF => {
                let value = make_word(0, self.flags.to_byte());
                self.push_done(value)
            },
            Instruction::POPF => self.pop_flags_done(),
            Instruction::PAL0 { slot, address } => self.palette(slot, address),
            Instruction::PAL1 { slot, at } => {
                let address = self.register(at);
                self.palette(slot, address)
            },
            Instruction::NOTI { dst, imm } => {
                let result = crate::alu::not(imm, carry);
                self.computed(dst, result)
            },
            Instruction::NOT0 { dst } => {
                let result = crate::alu::not(self.register(dst), carry);
                self.computed(dst, result)
            },
            Instruction::NOT1 { dst, src } => {
                let result = crate::alu::not(self.register(src), carry);
                self.computed(dst, result)
            },
            Instruction::NEGI { dst, imm } => {
                let result = crate::alu::neg(imm, carry);
                self.computed(dst, result)
            },
            Instruction::NEG0 { dst } => {
                let result = crate::alu::neg(self.register(dst), carry);
                self.computed(dst, result)
            },
            Instruction::NEG1 { dst, src } => {
                let result = crate::alu::neg(self.register(src), carry);
                self.computed(dst, result)
            },
        }
    }

    /// Runs one instruction: fetches the word at the program counter,
    /// decodes it and executes it.
    ///
    /// On success the machine is in the state that [`State::step`] gives,
    /// and the result is the request to the host; `Effect::WaitVblank` is
    /// the sign that the program waits for the vertical blank. On a fault,
    /// be it of the fetch, of the decoder or of the instruction, the machine
    /// is exactly as before.
    pub fn step(&mut self) -> (r: Result<Effect, Fault>)
        requires
            old(self).wf(),
        ensures
            follows(old(self)@, final(self)@, r, old(self)@.step()),
            final(self).wf(),
    {
        let word = match self.memory.read_u32(self.pc) {
            Ok(word) => word,
            Err(error) => {
                return Err(Fault::Memory(error));
            },
        };
        match Instruction::decode(word) {
            Ok(instruction) => self.execute(&instruction),
            Err(error) => Err(Fault::Decode(error)),
        }
    }

    /// Moves the program counter to the following instruction.
    fn advance(&mut self)
        ensures
            final(self)@ == old(self)@.advance(),
    {
        self.pc = if self.pc <= 0xFFFB {
            self.pc + 4
        } else {
            self.pc - 0xFFFC
        };
    }

    /// Ends an instruction that asks `effect` of the host.
    fn request(&mut self, effect: Effect) -> (r: Result<Effect, Fault>)
        requires
            old(self).wf(),
        ensures
            follows(old(self)@, final(self)@, r, old(self)@.request(effect)),
            final(self).wf(),
    {
        self.advance();
        Ok(effect)
    }

    /// Ends an arithmetic instruction: stores the value and the flags.
    fn computed(&mut self, dst: u8, result: AluResult) -> (r: Result<Effect, Fault>)
        requires
            old(self).wf(),
            dst < 16,
        ensures
            follows(old(self)@, final(self)@, r, old(self)@.computed(dst, result)),
            final(self).wf(),
    {
        self.registers.set(dst, result.value);
        self.flags = result.flags;
        self.request(Effect::Nothing)
    }

    /// Ends a division, modulo or remainder: stores what was computed, or
    /// hands the fault on.
    fn divided(&mut self, dst: u8, result: Result<AluResult, ArithmeticFault>) -> (r: Result<
        Effect,
        Fault,
    >)
        requires
            old(self).wf(),
            dst < 16,
        ensures
            match result {
                Ok(value) => follows(old(self)@, final(self)@, r, old(self)@.computed(dst, value)),
                Err(fault) => final(self)@ == old(self)@ && r == Err::<Effect, Fault>(
                    Fault::Arithmetic(fault),
                ),
            },
            final(self).wf(),
    {
        match result {
            Ok(value) => self.computed(dst, value),
            Err(fault) => Err(Fault::Arithmetic(fault)),
        }
    }

    /// Ends a comparison or test: stores the flags.
    fn flagged(&mut self, flags: Flags) -> (r: Result<Effect, Fault>)
        requires
            old(self).wf(),
        ensures
            follows(old(self)@, final(self)@, r, old(self)@.flagged(flags)),
            final(self).wf(),
    {
        self.flags = flags;
        self.request(Effect::Nothing)
    }

    /// Jumps to `target` if `taken`, and else goes on.
    fn branch(&mut self, taken: bool, target: u16) -> (r: Result<Effect, Fault>)
        requires
            old(self).wf(),
        ensures
            follows(old(self)@, final(self)@, r, old(self)@.branch(taken, target)),
            final(self).wf(),
    {
        if taken {
            self.pc = target;
            Ok(Effect::Nothing)
        } else {
            self.request(Effect::Nothing)
        }
    }

    /// Loads the word at `address` into register `dst`.
    fn loaded(&mut self, dst: u8, address: u16) -> (r: Result<Effect, Fault>)
        requires
            old(self).wf(),
            dst < 16,
        ensures
            follows(old(self)@, final(self)@, r, old(self)@.loaded(dst, address)),
            final(self).wf(),
    {
        match self.memory.read_u16(address) {
            Ok(value) => {
                self.registers.set(dst, value);
                self.request(Effect::Nothing)
            },
            Err(error) => Err(Fault::Memory(error)),
        }
    }

    /// Stores `value` at `address`.
    fn stored(&mut self, address: u16, value: u16) -> (r: Result<Effect, Fault>)
        requires
            old(self).wf(),
        ensures
            follows(old(self)@, final(self)@, r, old(self)@.stored(address, value)),
            final(self).wf(),
    {
        match self.memory.write_u16(address, value) {
            Ok(()) => self.request(Effect::Nothing),
            Err(error) => Err(Fault::Memory(error)),
        }
    }

    /// Pushes `value`.
    fn push(&mut self, value: u16) -> (r: Result<(), Fault>)
        requires
            old(self).wf(),
        ensures
            match old(self)@.pushed(value) {
                Ok(next) => r is Ok && final(self)@ == next,
                Err(fault) => r == Err::<(), Fault>(fault) && final(self)@ == old(self)@,
            },
            final(self).wf(),
    {
        if self.sp < 2 {
            return Err(Fault::Stack(StackFault::Overflow));
        }
        let address: u16 = self.sp - 2;
        match self.memory.write_u16(address, value) {
            Ok(()) => {
                self.sp = address;
                Ok(())
            },
            Err(error) => Err(Fault::Memory(error)),
        }
    }

    /// Pops a word.
    fn pop(&mut self) -> (r: Result<u16, Fault>)
        requires
            old(self).wf(),
        ensures
            match old(self)@.popped() {
                Ok((next, value)) => r == Ok::<u16, Fault>(value) && final(self)@ == next,
                Err(fault) => r == Err::<u16, Fault>(fault) && final(self)@ == old(self)@,
            },
            final(self).wf(),
    {
        if !self.can_release(2) {
            return Err(Fault::Stack(StackFault::Underflow));
        }
        match self.memory.read_u16(self.sp) {
            Ok(value) => {
                self.sp = self.sp + 2;
                Ok(value)
            },
            Err(error) => Err(Fault::Memory(error)),
        }
    }

    /// Whether the stack pointer can move up by `count` bytes and stay an
    /// address inside memory.
    fn can_release(&self, count: u16) -> (b: bool)
        ensures
            b == self@.can_release(count as int),
    {
        let top: usize = self.sp as usize + count as usize;
        top < self.memory.size() && top <= 0xFFFF
    }

    /// Pushes `value` and ends the instruction.
    fn push_done(&mut self, value: u16) -> (r: Result<Effect, Fault>)
        requires
            old(self).wf(),
        ensures
            follows(old(self)@, final(self)@, r, old(self)@.push_done(value)),
            final(self).wf(),
    {
        match self.push(value) {
            Ok(()) => self.request(Effect::Nothing),
            Err(fault) => Err(fault),
        }
    }

    /// Pushes the address of the following instruction and jumps to
    /// `target`.
    fn called(&mut self, target: u16) -> (r: Result<Effect, Fault>)
        requires
            old(self).wf(),
        ensures
            follows(old(self)@, final(self)@, r, old(self)@.called(target)),
            final(self).wf(),
    {
        let back: u16 = if self.pc <= 0xFFFB {
            self.pc + 4
        } else {
            self.pc - 0xFFFC
        };
        match self.push(back) {
            Ok(()) => {
                self.pc = target;
                Ok(Effect::Nothing)
            },
            Err(fault) => Err(fault),
        }
    }

    /// Pops an address and jumps to it.
    fn returned(&mut self) -> (r: Result<Effect, Fault>)
        requires
            old(self).wf(),
        ensures
            follows(old(self)@, final(self)@, r, old(self)@.returned()),
            final(self).wf(),
    {
        match self.pop() {
            Ok(target) => {
                self.pc = target;
                Ok(Effect::Nothing)
            },
            Err(fault) => Err(fault),
        }
    }

    /// Pops a word into register `dst`.
    fn pop_done(&mut self, dst: u8) -> (r: Result<Effect, Fault>)
        requires
            old(self).wf(),
            dst < 16,
        ensures
            follows(old(self)@, final(self)@, r, old(self)@.pop_done(dst)),
            final(self).wf(),
    {
        match self.pop() {
            Ok(value) => {
                self.registers.set(dst, value);
                self.request(Effect::Nothing)
            },
            Err(fault) => Err(fault),
        }
    }

    /// Pops a word and reads the flags off its low byte.
    fn pop_flags_done(&mut self) -> (r: Result<Effect, Fault>)
        requires
            old(self).wf(),
        ensures
            follows(old(self)@, final(self)@, r, old(self)@.pop_flags_done()),
            final(self).wf(),
    {
        match self.pop() {
            Ok(value) => {
                self.flags = Flags::from_byte(crate::bits::split_word(value).1);
                self.request(Effect::Nothing)
            },
            Err(fault) => Err(fault),
        }
    }

    /// Pushes all sixteen registers, `r0` first.
    fn push_all_done(&mut self) -> (r: Result<Effect, Fault>)
        requires
            old(self).wf(),
        ensures
            follows(old(self)@, final(self)@, r, old(self)@.push_all_done()),
            final(self).wf(),
    {
        if self.sp < 32 {
            return Err(Fault::Stack(StackFault::Overflow));
        }
        let base: u16 = self.sp;
        let ghost start = self@;
        assert(self.memory@ =~= stacked(start.memory, start.registers, base as int, 0));
        let mut k: u8 = 0;
        while k < 16
            invariant
                k <= 16,
                32 <= base < start.memory.len(),
                start.registers.len() == 16,
                self@ == (State {
                    memory: stacked(start.memory, start.registers, base as int, k as int),
                    ..start
                }),
            decreases 16 - k,
        {
            let address: u16 = base - 2 * (k as u16 + 1);
            let value = self.registers.get(k);
            let written = self.memory.write_u16(address, value);
            assert(written is Ok);
            assert(self.memory@ =~= stacked(
                start.memory,
                start.registers,
                base as int,
                k as int + 1,
            ));
            k = k + 1;
        }
        self.sp = base - 32;
        self.request(Effect::Nothing)
    }

    /// Pops all sixteen registers, `r15` first.
    fn pop_all_done(&mut self) -> (r: Result<Effect, Fault>)
        requires
            old(self).wf(),
        ensures
            follows(old(self)@, final(self)@, r, old(self)@.pop_all_done()),
            final(self).wf(),
    {
        if !self.can_release(32) {
            return Err(Fault::Stack(StackFault::Underflow));
        }
        let base: u16 = self.sp;
        let ghost start = self@;
        assert(self.registers@ =~= unstacked(start.memory, start.registers, base as int, 0));
        let mut count: u8 = 0;
        while count < 16
            invariant
                count <= 16,
                base + 32 < start.memory.len(),
                base + 32 <= 0xFFFF,
                start.registers.len() == 16,
                self@ == (State {
                    registers: unstacked(
                        start.memory,
                        start.registers,
                        base as int,
                        count as int,
                    ),
                    ..start
                }),
            decreases 16 - count,
        {
            let address: u16 = base + 2 * (count as u16);
            match self.memory.read_u16(address) {
                Ok(value) => {
                    self.registers.set(15 - count, value);
                },
                Err(_) => {},
            }
            assert(self.registers@ =~= unstacked(
                start.memory,
                start.registers,
                base as int,
                count as int + 1,
            ));
            count = count + 1;
        }
        self.sp = base + 32;
        self.request(Effect::Nothing)
    }

    /// Asks for the sprite at `address` at the coordinates held in
    /// registers `x` and `y`.
    fn sprite(&mut self, address: u16, x: u8, y: u8) -> (r: Result<Effect, Fault>)
        requires
            old(self).wf(),
            x < 16,
            y < 16,
        ensures
            follows(old(self)@, final(self)@, r, old(self)@.sprite(address, x, y)),
            final(self).wf(),
    {
        let effect = Effect::DrawSprite {
            address,
            x: self.registers.get(x),
            y: self.registers.get(y),
            width: self.sprite_width,
            height: self.sprite_height,
            color_start_index: self.background,
            hflip: self.hflip,
            vflip: self.vflip,
        };
        self.request(effect)
    }

    /// Sets the flip mode.
    fn flipped(&mut self, hflip: bool, vflip: bool) -> (r: Result<Effect, Fault>)
        requires
            old(self).wf(),
        ensures
            follows(old(self)@, final(self)@, r, old(self)@.flipped(hflip, vflip)),
            final(self).wf(),
    {
        self.hflip = hflip;
        self.vflip = vflip;
        self.request(Effect::Nothing)
    }

    /// Asks for a tone without an envelope.
    fn tone(&mut self, channel: u8, frequency: u16, duration: u16) -> (r: Result<Effect, Fault>)
        requires
            old(self).wf(),
        ensures
            follows(
                old(self)@,
                final(self)@,
                r,
                old(self)@.request(crate::state::tone(channel, frequency, duration)),
            ),
            final(self).wf(),
    {
        self.request(
            Effect::PlayTone {
                channel,
                frequency,
                duration,
                attack: 0,
                decay: 0,
                sustain: 0,
                release: 0,
            },
        )
    }

    /// Asks for a tone of the frequency stored at `address`.
    fn tone_from(&mut self, address: u16, duration: u16) -> (r: Result<Effect, Fault>)
        requires
            old(self).wf(),
        ensures
            follows(old(self)@, final(self)@, r, old(self)@.tone_from(address, duration)),
            final(self).wf(),
    {
        match self.memory.read_u16(address) {
            Ok(frequency) => self.tone(0, frequency, duration),
            Err(error) => Err(Fault::Memory(error)),
        }
    }

    /// Asks for palette entry `slot` to become the colour stored at
    /// `address`.
    fn palette(&mut self, slot: u8, address: u16) -> (r: Result<Effect, Fault>)
        requires
            old(self).wf(),
        ensures
            follows(old(self)@, final(self)@, r, old(self)@.palette(slot, address)),
            final(self).wf(),
    {
        match self.memory.read_u24(address) {
            Ok(rgb) => self.request(Effect::SetPalette { slot, rgb }),
            Err(error) => Err(Fault::Memory(error)),
        }
    }

    /// Draws a random number below `bound` into register `dst`.
    fn drawn(&mut self, dst: u8, bound: u16) -> (r: Result<Effect, Fault>)
        requires
            old(self).wf(),
            dst < 16,
        ensures
            follows(old(self)@, final(self)@, r, old(self)@.drawn(dst, bound)),
            final(self).wf(),
    {
        let value = draw(self.seed, bound);
        self.seed = next_seed(self.seed);
        self.registers.set(dst, value);
        self.request(Effect::Nothing)
    }
}

} // verus!
