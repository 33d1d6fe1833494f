//! The instruction set: what each 32-bit instruction word means, and how an
//! instruction is written as a word.
//!
//! A word is stored big-endian. Its first byte is the opcode; the other three
//! hold the operands. An instruction that carries a 16-bit number (an
//! immediate or an address) holds it in bytes 2 and 3, high byte first, and
//! its register operands in byte 1: the first in the low nibble, the second
//! in the high nibble. An instruction without such a number holds its first
//! operand in the low nibble of byte 3, its second in the high nibble of
//! byte 2 and its third in the low nibble of byte 2. Decoding reads only the
//! bits that the layout names; encoding writes zero everywhere else.

use vstd::prelude::*;
use crate::bits::{
    byte0, byte1, byte2, byte3, high_byte, high_nibble, lemma_nibbles, lemma_split_then_join,
    lemma_word32_bytes, low_byte, low_nibble, make_byte, make_word, make_word32, nibbles,
    split_byte, split_word, split_word32, word32, word_of,
};
use crate::flags::Condition;

verus! {

/// Why an instruction word was refused.
#[derive(Clone, Copy, Debug, PartialEq, Eq, Structural)]
pub enum DecodeError {
    /// The first byte of the word, which it carries, is no opcode.
    UnknownOpcode(u8),
}

/// One instruction, with its operands taken out of the word.
///
/// Each variant's first line gives the word as four bytes in hexadecimal. A
/// letter stands for a nibble of an operand, `-` for a nibble that is not
/// read. A register operand is the number of a register, 0 to 15.
#[derive(Clone, Copy, Debug, PartialEq, Eq, Structural)]
pub enum Instruction {
    /// `00 -- -- --`: does nothing.
    NOP,
    /// `01 -- -- --`: asks the host to clear the screen.
    CLS,
    /// `02 -- -- --`: tells the host that the program waits for the next
    /// vertical blank.
    VBLNK,
    /// `03 -- -- CC`: sets the background colour to `color` and tells the host.
    BGC { color: u8 },
    /// `04 -- WW HH`: sets the sprite size to `width` by `height`.
    SPR { width: u8, height: u8 },
    /// `05 YX AA AA`: asks the host to draw the sprite stored at `address`, at
    /// the coordinates held in registers `x` and `y`.
    DRW0 { x: u8, y: u8, address: u16 },
    /// `06 -- YA -X`: asks the host to draw the sprite stored at the address
    /// held in register `at`, at the coordinates held in registers `x` and `y`.
    DRW1 { x: u8, y: u8, at: u8 },
    /// `07 -D BB BB`: stores in register `dst` the next random number below
    /// `bound`, or 0 where `bound` is 0.
    RND { dst: u8, bound: u16 },
    /// `08 -- -- -0`: sprites are drawn as stored: no flip.
    FLIP0,
    /// `08 -- -- -1`: sprites are drawn flipped vertically.
    FLIP1,
    /// `08 -- -- -2`: sprites are drawn flipped horizontally.
    FLIP2,
    /// `08 -- -- -3`: sprites are drawn flipped both ways.
    FLIP3,
    /// `09 -- -- --`: asks the host for silence.
    SND0,
    /// `0A -- TT TT`: asks the host for a tone of 500 Hz on channel 1,
    /// `duration` milliseconds long.
    SND1 { duration: u16 },
    /// `0B -- TT TT`: asks the host for a tone of 1000 Hz on channel 2,
    /// `duration` milliseconds long.
    SND2 { duration: u16 },
    /// `0C -- TT TT`: asks the host for a tone of 1500 Hz on channel 3,
    /// `duration` milliseconds long.
    SND3 { duration: u16 },
    /// `0D -A TT TT`: asks the host for a tone, `duration` milliseconds long,
    /// of the frequency stored in memory at the address held in register `at`.
    SNP { at: u8, duration: u16 },
    /// `0E AD SR --`: hands the host a sound envelope: four 4-bit numbers.
    SNG { attack: u8, decay: u8, sustain: u8, release: u8 },
    /// `10 -- AA AA`: jumps to `target`.
    JMP0 { target: u16 },
    /// `11 -- AA AA`: jumps to `target` if the carry flag is set.
    JMC { target: u16 },
    /// `12 -C AA AA`: jumps to `target` if `condition` holds of the flags.
    JX { condition: Condition, target: u16 },
    /// `13 YX AA AA`: jumps to `target` if registers `x` and `y` hold the same
    /// value.
    JME { x: u8, y: u8, target: u16 },
    /// `14 -- AA AA`: pushes the address of the next instruction and jumps to
    /// `target`.
    CALL0 { target: u16 },
    /// `15 -- -- --`: pops an address and jumps to it.
    RET,
    /// `16 -- -- -S`: jumps to the address held in register `src`.
    JMP1 { src: u8 },
    /// `17 -C AA AA`: calls `target`, as `CALL0` does, if `condition` holds of
    /// the flags.
    CX { condition: Condition, target: u16 },
    /// `18 -- -- -S`: pushes the address of the next instruction and jumps to
    /// the address held in register `src`.
    CALL1 { src: u8 },
    /// `20 -D II II`: loads `imm` into register `dst`.
    LDI0 { dst: u8, imm: u16 },
    /// `21 -D II II`: loads `imm` into register `dst`: a second encoding of
    /// `LDI0`.
    LDI1 { dst: u8, imm: u16 },
    /// `22 -D AA AA`: loads into register `dst` the word stored at `address`.
    LDM0 { dst: u8, address: u16 },
    /// `23 -- A- -D`: loads into register `dst` the word stored at the address
    /// held in register `at`.
    LDM1 { dst: u8, at: u8 },
    /// `24 -- S- -D`: copies register `src` into register `dst`.
    MOV { dst: u8, src: u8 },
    /// `30 -S AA AA`: stores register `src` in memory at `address`.
    STM0 { src: u8, address: u16 },
    /// `31 -- A- -S`: stores register `src` in memory at the address held in
    /// register `at`.
    STM1 { src: u8, at: u8 },
    /// `40 -D II II`: `dst` = `dst` + `imm`.
    ADDI { dst: u8, imm: u16 },
    /// `41 -- S- -D`: `dst` = `dst` + `src`.
    ADD0 { dst: u8, src: u8 },
    /// `42 -- LR -D`: `dst` = `lhs` + `rhs`.
    ADD1 { dst: u8, lhs: u8, rhs: u8 },
    /// `50 -D II II`: `dst` = `dst` - `imm`.
    SUBI { dst: u8, imm: u16 },
    /// `51 -- S- -D`: `dst` = `dst` - `src`.
    SUB0 { dst: u8, src: u8 },
    /// `52 -- LR -D`: `dst` = `lhs` - `rhs`.
    SUB1 { dst: u8, lhs: u8, rhs: u8 },
    /// `53 -L II II`: sets the flags as `SUBI` would and stores nothing.
    CMPI { lhs: u8, imm: u16 },
    /// `54 -- R- -L`: sets the flags as `lhs` - `rhs` would and stores nothing.
    CMP { lhs: u8, rhs: u8 },
    /// `60 -D II II`: `dst` = `dst` & `imm`.
    ANDI { dst: u8, imm: u16 },
    /// `61 -- S- -D`: `dst` = `dst` & `src`.
    AND0 { dst: u8, src: u8 },
    /// `62 -- LR -D`: `dst` = `lhs` & `rhs`.
    AND1 { dst: u8, lhs: u8, rhs: u8 },
    /// `63 -L II II`: sets the flags as `ANDI` would and stores nothing.
    TSTI { lhs: u8, imm: u16 },
    /// `64 -- R- -L`: sets the flags as `lhs` & `rhs` would and stores nothing.
    TST { lhs: u8, rhs: u8 },
    /// `70 -D II II`: `dst` = `dst` | `imm`.
    ORI { dst: u8, imm: u16 },
    /// `71 -- S- -D`: `dst` = `dst` | `src`.
    OR0 { dst: u8, src: u8 },
    /// `72 -- LR -D`: `dst` = `lhs` | `rhs`.
    OR1 { dst: u8, lhs: u8, rhs: u8 },
    /// `80 -D II II`: `dst` = `dst` ^ `imm`.
    XORI { dst: u8, imm: u16 },
    /// `81 -- S- -D`: `dst` = `dst` ^ `src`.
    XOR0 { dst: u8, src: u8 },
    /// `82 -- LR -D`: `dst` = `lhs` ^ `rhs`.
    XOR1 { dst: u8, lhs: u8, rhs: u8 },
    /// `90 -D II II`: `dst` = `dst` * `imm`.
    MULI { dst: u8, imm: u16 },
    /// `91 -- S- -D`: `dst` = `dst` * `src`.
    MUL0 { dst: u8, src: u8 },
    /// `92 -- LR -D`: `dst` = `lhs` * `rhs`.
    MUL1 { dst: u8, lhs: u8, rhs: u8 },
    /// `A0 -D II II`: `dst` = `dst` / `imm`.
    DIVI { dst: u8, imm: u16 },
    /// `A1 -- S- -D`: `dst` = `dst` / `src`.
    DIV0 { dst: u8, src: u8 },
    /// `A2 -- LR -D`: `dst` = `lhs` / `rhs`.
    DIV1 { dst: u8, lhs: u8, rhs: u8 },
    /// `A3 -D II II`: `dst` = `dst` modulo `imm`.
    MODI { dst: u8, imm: u16 },
    /// `A4 -- S- -D`: `dst` = `dst` modulo `src`.
    MOD0 { dst: u8, src: u8 },
    /// `A5 -- LR -D`: `dst` = `lhs` modulo `rhs`.
    MOD1 { dst: u8, lhs: u8, rhs: u8 },
    /// `A6 -D II II`: `dst` = `dst` remainder `imm`.
    REMI { dst: u8, imm: u16 },
    /// `A7 -- S- -D`: `dst` = `dst` remainder `src`.
    REM0 { dst: u8, src: u8 },
    /// `A8 -- LR -D`: `dst` = `lhs` remainder `rhs`.
    REM1 { dst: u8, lhs: u8, rhs: u8 },
    /// `B0 -- N- -D`: shifts register `dst` left by `amount` places. The
    /// arithmetic shift left, `SAL`, is the same operation and has no encoding
    /// of its own.
    SHL0 { dst: u8, amount: u8 },
    /// `B1 -- N- -D`: shifts register `dst` right by `amount` places, filling
    /// with zeros.
    SHR0 { dst: u8, amount: u8 },
    /// `B2 -- N- -D`: shifts register `dst` right by `amount` places, filling
    /// with copies of bit 15.
    SAR0 { dst: u8, amount: u8 },
    /// `B3 -- S- -D`: shifts register `dst` left by the low four bits of
    /// register `src`.
    SHL1 { dst: u8, src: u8 },
    /// `B4 -- S- -D`: shifts register `dst` right by the low four bits of
    /// register `src`, filling with zeros.
    SHR1 { dst: u8, src: u8 },
    /// `B5 -- S- -D`: shifts register `dst` right by the low four bits of
    /// register `src`, filling with copies of bit 15.
    SAR1 { dst: u8, src: u8 },
    /// `C0 -- -- -S`: pushes register `src`.
    PUSH { src: u8 },
    /// `C1 -- -- -D`: pops a word into register `dst`.
    POP { dst: u8 },
    /// `C2 -- -- --`: pushes `r0`, then `r1`, and so on up to `r15`.
    PUSHALL,
    /// `C3 -- -- --`: pops `r15`, then `r14`, and so on down to `r0`.
    POPALL,
    /// `C4 -- -- --`: pushes a word whose low byte is the flags byte.
    PUSHF,
    /// `C5 -- -- --`: pops a word and reads the flags off its low byte.
    POPF,
    /// `D0 -P AA AA`: hands the host, for palette entry `slot`, the colour
    /// stored in the three bytes at `address`: red, green, blue.
    PAL0 { slot: u8, address: u16 },
    /// `D1 -- A- -P`: hands the host, for palette entry `slot`, the colour
    /// stored in the three bytes at the address held in register `at`.
    PAL1 { slot: u8, at: u8 },
    /// `E0 -D II II`: `dst` = complement of `imm`.
    NOTI { dst: u8, imm: u16 },
    /// `E1 -- -- -D`: `dst` = complement of `dst`.
    NOT0 { dst: u8 },
    /// `E2 -- S- -D`: `dst` = complement of `src`.
    NOT1 { dst: u8, src: u8 },
    /// `E3 -D II II`: `dst` = negation of `imm`.
    NEGI { dst: u8, imm: u16 },
    /// `E4 -- -- -D`: `dst` = negation of `dst`.
    NEG0 { dst: u8 },
    /// `E5 -- S- -D`: `dst` = negation of `src`.
    NEG1 { dst: u8, src: u8 },
}

/// Whether `b` is the opcode of an instruction.
pub open spec fn is_opcode(b: u8) -> bool {
    ||| b <= 0x0E
    ||| 0x10 <= b <= 0x18
    ||| 0x20 <= b <= 0x24
    ||| 0x30 <= b <= 0x31
    ||| 0x40 <= b <= 0x42
    ||| 0x50 <= b <= 0x54
    ||| 0x60 <= b <= 0x64
    ||| 0x70 <= b <= 0x72
    ||| 0x80 <= b <= 0x82
    ||| 0x90 <= b <= 0x92
    ||| 0xA0 <= b <= 0xA8
    ||| 0xB0 <= b <= 0xB5
    ||| 0xC0 <= b <= 0xC5
    ||| 0xD0 <= b <= 0xD1
    ||| 0xE0 <= b <= 0xE5
}

/// The word of an instruction that carries a 16-bit number: the opcode, then
/// a byte with the operand `second` in its high and `first` in its low
/// nibble, then `imm`, high byte first.
#[verifier::opaque]
pub open spec fn immediate_form(opcode: u8, first: u8, second: u8, imm: u16) -> u32 {
    word32(opcode, nibbles(second, first), high_byte(imm), low_byte(imm))
}

/// The word of an instruction that carries no 16-bit number: the opcode, a
/// zero byte, a byte with the operand `second` in its high and `third` in
/// its low nibble, and a byte with `first` in its low nibble.
#[verifier::opaque]
pub open spec fn register_form(opcode: u8, first: u8, second: u8, third: u8) -> u32 {
    word32(opcode, 0, nibbles(second, third), nibbles(0, first))
}

/// Packs a word of the immediate form.
fn pack_immediate(opcode: u8, first: u8, second: u8, imm: u16) -> (word: u32)
    ensures
        word == immediate_form(opcode, first, second, imm),
{
    reveal(immediate_form);
    let (hi, lo) = split_word(imm);
    make_word32(opcode, make_byte(second, first), hi, lo)
}

/// Packs a word of the register form.
fn pack_registers(opcode: u8, first: u8, second: u8, third: u8) -> (word: u32)
    ensures
        word == register_form(opcode, first, second, third),
{
    reveal(register_form);
    make_word32(opcode, 0, make_byte(second, third), make_byte(0, first))
}

/// The flip instruction that the low two bits of `mode` select.
pub open spec fn flip_of(mode: u8) -> Instruction {
    if mode % 4 == 0 {
        Instruction::FLIP0
    } else if mode % 4 == 1 {
        Instruction::FLIP1
    } else if mode % 4 == 2 {
        Instruction::FLIP2
    } else {
        Instruction::FLIP3
    }
}

impl Instruction {
    /// Whether every register number, shift amount, palette slot and
    /// envelope part of the instruction is below 16, so that it fits its
    /// nibble.
    pub open spec fn wf(self) -> bool {
        match self {
            Instruction::DRW0 { x, y, .. } => x < 16 && y < 16,
            Instruction::DRW1 { x, y, at } => x < 16 && y < 16 && at < 16,
            Instruction::RND { dst, .. } => dst < 16,
            Instruction::SNP { at, .. } => at < 16,
            Instruction::SNG { attack, decay, sustain, release } => {
                attack < 16 && decay < 16 && sustain < 16 && release < 16
            },
            Instruction::JME { x, y, .. } => x < 16 && y < 16,
            Instruction::JMP1 { src } => src < 16,
            Instruction::CALL1 { src } => src < 16,
            Instruction::LDI0 { dst, .. } => dst < 16,
            Instruction::LDI1 { dst, .. } => dst < 16,
            Instruction::LDM0 { dst, .. } => dst < 16,
            Instruction::LDM1 { dst, at } => dst < 16 && at < 16,
            Instruction::MOV { dst, src } => dst < 16 && src < 16,
            Instruction::STM0 { src, .. } => src < 16,
            Instruction::STM1 { src, at } => src < 16 && at < 16,
            Instruction::ADDI { dst, .. } => dst < 16,
            Instruction::ADD0 { dst, src } => dst < 16 && src < 16,
            Instruction::ADD1 { dst, lhs, rhs } => dst < 16 && lhs < 16 && rhs < 16,
            Instruction::SUBI { dst, .. } => dst < 16,
            Instruction::SUB0 { dst, src } => dst < 16 && src < 16,
            Instruction::SUB1 { dst, lhs, rhs } => dst < 16 && lhs < 16 && rhs < 16,
            Instruction::CMPI { lhs, .. } => lhs < 16,
            Instruction::CMP { lhs, rhs } => lhs < 16 && rhs < 16,
            Instruction::ANDI { dst, .. } => dst < 16,
            Instruction::AND0 { dst, src } => dst < 16 && src < 16,
            Instruction::AND1 { dst, lhs, rhs } => dst < 16 && lhs < 16 && rhs < 16,
            Instruction::TSTI { lhs, .. } => lhs < 16,
            Instruction::TST { lhs, rhs } => lhs < 16 && rhs < 16,
            Instruction::ORI { dst, .. } => dst < 16,
            Instruction::OR0 { dst, src } => dst < 16 && src < 16,
            Instruction::OR1 { dst, lhs, rhs } => dst < 16 && lhs < 16 && rhs < 16,
            Instruction::XORI { dst, .. } => dst < 16,
            Instruction::XOR0 { dst, src } => dst < 16 && src < 16,
            Instruction::XOR1 { dst, lhs, rhs } => dst < 16 && lhs < 16 && rhs < 16,
            Instruction::MULI { dst, .. } => dst < 16,
            Instruction::MUL0 { dst, src } => dst < 16 && src < 16,
            Instruction::MUL1 { dst, lhs, rhs } => dst < 16 && lhs < 16 && rhs < 16,
            Instruction::DIVI { dst, .. } => dst < 16,
            Instruction::DIV0 { dst, src } => dst < 16 && src < 16,
            Instruction::DIV1 { dst, lhs, rhs } => dst < 16 && lhs < 16 && rhs < 16,
            Instruction::MODI { dst, .. } => dst < 16,
            Instruction::MOD0 { dst, src } => dst < 16 && src < 16,
            Instruction::MOD1 { dst, lhs, rhs } => dst < 16 && lhs < 16 && rhs < 16,
            Instruction::REMI { dst, .. } => dst < 16,
            Instruction::REM0 { dst, src } => dst < 16 && src < 16,
            Instruction::REM1 { dst, lhs, rhs } => dst < 16 && lhs < 16 && rhs < 16,
            Instruction::SHL0 { dst, amount } => dst < 16 && amount < 16,
            Instruction::SHR0 { dst, amount } => dst < 16 && amount < 16,
            Instruction::SAR0 { dst, amount } => dst < 16 && amount < 16,
            Instruction::SHL1 { dst, src } => dst < 16 && src < 16,
            Instruction::SHR1 { dst, src } => dst < 16 && src < 16,
            Instruction::SAR1 { dst, src } => dst < 16 && src < 16,
            Instruction::PUSH { src } => src < 16,
            Instruction::POP { dst } => dst < 16,
            Instruction::PAL0 { slot, .. } => slot < 16,
            Instruction::PAL1 { slot, at } => slot < 16 && at < 16,
            Instruction::NOTI { dst, .. } => dst < 16,
            Instruction::NOT0 { dst } => dst < 16,
            Instruction::NOT1 { dst, src } => dst < 16 && src < 16,
            Instruction::NEGI { dst, .. } => dst < 16,
            Instruction::NEG0 { dst } => dst < 16,
            Instruction::NEG1 { dst, src } => dst < 16 && src < 16,
            _ => true,
        }
    }

    /// The word that stands for the instruction.
    pub open spec fn encode_spec(self) -> u32 {
        match self {
            Instruction::NOP => register_form(0x00, 0, 0, 0),
            Instruction::CLS => register_form(0x01, 0, 0, 0),
            Instruction::VBLNK => register_form(0x02, 0, 0, 0),
            Instruction::BGC { color } => word32(0x03, 0, 0, color),
            Instruction::SPR { width, height } => word32(0x04, 0, width, height),
            Instruction::DRW0 { x, y, address } => immediate_form(0x05, x, y, address),
            Instruction::DRW1 { x, y, at } => register_form(0x06, x, y, at),
            Instruction::RND { dst, bound } => immediate_form(0x07, dst, 0, bound),
            Instruction::FLIP0 => register_form(0x08, 0, 0, 0),
            Instruction::FLIP1 => register_form(0x08, 1, 0, 0),
            Instruction::FLIP2 => register_form(0x08, 2, 0, 0),
            Instruction::FLIP3 => register_form(0x08, 3, 0, 0),
            Instruction::SND0 => register_form(0x09, 0, 0, 0),
            Instruction::SND1 { duration } => immediate_form(0x0A, 0, 0, duration),
            Instruction::SND2 { duration } => immediate_form(0x0B, 0, 0, duration),
            Instruction::SND3 { duration } => immediate_form(0x0C, 0, 0, duration),
            Instruction::SNP { at, duration } => immediate_form(0x0D, at, 0, duration),
            Instruction::SNG { attack, decay, sustain, release } => {
                word32(0x0E, nibbles(attack, decay), nibbles(sustain, release), 0)
            },
            Instruction::JMP0 { target } => immediate_form(0x10, 0, 0, target),
            Instruction::JMC { target } => immediate_form(0x11, 0, 0, target),
            Instruction::JX { condition, target } => {
                immediate_form(0x12, condition.code(), 0, target)
            },
            Instruction::JME { x, y, target } => immediate_form(0x13, x, y, target),
            Instruction::CALL0 { target } => immediate_form(0x14, 0, 0, target),
            Instruction::RET => register_form(0x15, 0, 0, 0),
            Instruction::JMP1 { src } => register_form(0x16, src, 0, 0),
            Instruction::CX { condition, target } => {
                immediate_form(0x17, condition.code(), 0, target)
            },
            Instruction::CALL1 { src } => register_form(0x18, src, 0, 0),
            Instruction::LDI0 { dst, imm } => immediate_form(0x20, dst, 0, imm),
            Instruction::LDI1 { dst, imm } => immediate_form(0x21, dst, 0, imm),
            Instruction::LDM0 { dst, address } => immediate_form(0x22, dst, 0, address),
            Instruction::LDM1 { dst, at } => register_form(0x23, dst, at, 0),
            Instruction::MOV { dst, src } => register_form(0x24, dst, src, 0),
            Instruction::STM0 { src, address } => immediate_form(0x30, src, 0, address),
            Instruction::STM1 { src, at } => register_form(0x31, src, at, 0),
            Instruction::ADDI { dst, imm } => immediate_form(0x40, dst, 0, imm),
            Instruction::ADD0 { dst, src } => register_form(0x41, dst, src, 0),
            Instruction::ADD1 { dst, lhs, rhs } => register_form(0x42, dst, lhs, rhs),
            Instruction::SUBI { dst, imm } => immediate_form(0x50, dst, 0, imm),
            Instruction::SUB0 { dst, src } => register_form(0x51, dst, src, 0),
            Instruction::SUB1 { dst, lhs, rhs } => register_form(0x52, dst, lhs, rhs),
            Instruction::CMPI { lhs, imm } => immediate_form(0x53, lhs, 0, imm),
            Instruction::CMP { lhs, rhs } => register_form(0x54, lhs, rhs, 0),
            Instruction::ANDI { dst, imm } => immediate_form(0x60, dst, 0, imm),
            Instruction::AND0 { dst, src } => register_form(0x61, dst, src, 0),
            Instruction::AND1 { dst, lhs, rhs } => register_form(0x62, dst, lhs, rhs),
            Instruction::TSTI { lhs, imm } => immediate_form(0x63, lhs, 0, imm),
            Instruction::TST { lhs, rhs } => register_form(0x64, lhs, rhs, 0),
            Instruction::ORI { dst, imm } => immediate_form(0x70, dst, 0, imm),
            Instruction::OR0 { dst, src } => register_form(0x71, dst, src, 0),
            Instruction::OR1 { dst, lhs, rhs } => register_form(0x72, dst, lhs, rhs),
            Instruction::XORI { dst, imm } => immediate_form(0x80, dst, 0, imm),
            Instruction::XOR0 { dst, src } => register_form(0x81, dst, src, 0),
            Instruction::XOR1 { dst, lhs, rhs } => register_form(0x82, dst, lhs, rhs),
            Instruction::MULI { dst, imm } => immediate_form(0x90, dst, 0, imm),
            Instruction::MUL0 { dst, src } => register_form(0x91, dst, src, 0),
            Instruction::MUL1 { dst, lhs, rhs } => register_form(0x92, dst, lhs, rhs),
            Instruction::DIVI { dst, imm } => immediate_form(0xA0, dst, 0, imm),
            Instruction::DIV0 { dst, src } => register_form(0xA1, dst, src, 0),
            Instruction::DIV1 { dst, lhs, rhs } => register_form(0xA2, dst, lhs, rhs),
            Instruction::MODI { dst, imm } => immediate_form(0xA3, dst, 0, imm),
            Instruction::MOD0 { dst, src } => register_form(0xA4, dst, src, 0),
            Instruction::MOD1 { dst, lhs, rhs } => register_form(0xA5, dst, lhs, rhs),
            Instruction::REMI { dst, imm } => immediate_form(0xA6, dst, 0, imm),
            Instruction::REM0 { dst, src } => register_form(0xA7, dst, src, 0),
            Instruction::REM1 { dst, lhs, rhs } => register_form(0xA8, dst, lhs, rhs),
            Instruction::SHL0 { dst, amount } => register_form(0xB0, dst, amount, 0),
            Instruction::SHR0 { dst, amount } => register_form(0xB1, dst, amount, 0),
            Instruction::SAR0 { dst, amount } => register_form(0xB2, dst, amount, 0),
            Instruction::SHL1 { dst, src } => register_form(0xB3, dst, src, 0),
            Instruction::SHR1 { dst, src } => register_form(0xB4, dst, src, 0),
            Instruction::SAR1 { dst, src } => register_form(0xB5, dst, src, 0),
            Instruction::PUSH { src } => register_form(0xC0, src, 0, 0),
            Instruction::POP { dst } => register_form(0xC1, dst, 0, 0),
            Instruction::PUSHALL => register_form(0xC2, 0, 0, 0),
            Instruction::POPALL => register_form(0xC3, 0, 0, 0),
            Instruction::PUSHF => register_form(0xC4, 0, 0, 0),
            Instruction::POPF => register_form(0xC5, 0, 0, 0),
            Instruction::PAL0 { slot, address } => immediate_form(0xD0, slot, 0, address),
            Instruction::PAL1 { slot, at } => register_form(0xD1, slot, at, 0),
            Instruction::NOTI { dst, imm } => immediate_form(0xE0, dst, 0, imm),
            Instruction::NOT0 { dst } => register_form(0xE1, dst, 0, 0),
            Instruction::NOT1 { dst, src } => register_form(0xE2, dst, src, 0),
            Instruction::NEGI { dst, imm } => immediate_form(0xE3, dst, 0, imm),
            Instruction::NEG0 { dst } => register_form(0xE4, dst, 0, 0),
            Instruction::NEG1 { dst, src } => register_form(0xE5, dst, src, 0),
        }
    }

    /// The instruction that a word stands for, or the reason why it stands
    /// for none. Only the first byte decides whether the word is accepted.
    pub open spec fn decode_spec(word: u32) -> Result<Instruction, DecodeError> {
        let imm = word_of(byte2(word), byte3(word));
        let p = low_nibble(byte1(word));
        let q = high_nibble(byte1(word));
        let a = low_nibble(byte3(word));
        let b = high_nibble(byte2(word));
        let c = low_nibble(byte2(word));
        match byte0(word) {
            0x00 => Ok(Instruction::NOP),
            0x01 => Ok(Instruction::CLS),
            0x02 => Ok(Instruction::VBLNK),
            0x03 => Ok(Instruction::BGC { color: byte3(word) }),
            0x04 => Ok(Instruction::SPR { width: byte2(word), height: byte3(word) }),
            0x05 => Ok(Instruction::DRW0 { x: p, y: q, address: imm }),
            0x06 => Ok(Instruction::DRW1 { x: a, y: b, at: c }),
            0x07 => Ok(Instruction::RND { dst: p, bound: imm }),
            0x08 => Ok(flip_of(byte3(word))),
            0x09 => Ok(Instruction::SND0),
            0x0A => Ok(Instruction::SND1 { duration: imm }),
            0x0B => Ok(Instruction::SND2 { duration: imm }),
            0x0C => Ok(Instruction::SND3 { duration: imm }),
            0x0D => Ok(Instruction::SNP { at: p, duration: imm }),
            0x0E => Ok(Instruction::SNG { attack: q, decay: p, sustain: b, release: c }),
            0x10 => Ok(Instruction::JMP0 { target: imm }),
            0x11 => Ok(Instruction::JMC { target: imm }),
            0x12 => Ok(Instruction::JX { condition: Condition::of_code(p), target: imm }),
            0x13 => Ok(Instruction::JME { x: p, y: q, target: imm }),
            0x14 => Ok(Instruction::CALL0 { target: imm }),
            0x15 => Ok(Instruction::RET),
            0x16 => Ok(Instruction::JMP1 { src: a }),
            0x17 => Ok(Instruction::CX { condition: Condition::of_code(p), target: imm }),
            0x18 => Ok(Instruction::CALL1 { src: a }),
            0x20 => Ok(Instruction::LDI0 { dst: p, imm }),
            0x21 => Ok(Instruction::LDI1 { dst: p, imm }),
            0x22 => Ok(Instruction::LDM0 { dst: p, address: imm }),
            0x23 => Ok(Instruction::LDM1 { dst: a, at: b }),
            0x24 => Ok(Instruction::MOV { dst: a, src: b }),
            0x30 => Ok(Instruction::STM0 { src: p, address: imm }),
            0x31 => Ok(Instruction::STM1 { src: a, at: b }),
            0x40 => Ok(Instruction::ADDI { dst: p, imm }),
            0x41 => Ok(Instruction::ADD0 { dst: a, src: b }),
            0x42 => Ok(Instruction::ADD1 { dst: a, lhs: b, rhs: c }),
            0x50 => Ok(Instruction::SUBI { dst: p, imm }),
            0x51 => Ok(Instruction::SUB0 { dst: a, src: b }),
            0x52 => Ok(Instruction::SUB1 { dst: a, lhs: b, rhs: c }),
            0x53 => Ok(Instruction::CMPI { lhs: p, imm }),
            0x54 => Ok(Instruction::CMP { lhs: a, rhs: b }),
            0x60 => Ok(Instruction::ANDI { dst: p, imm }),
            0x61 => Ok(Instruction::AND0 { dst: a, src: b }),
            0x62 => Ok(Instruction::AND1 { dst: a, lhs: b, rhs: c }),
            0x63 => Ok(Instruction::TSTI { lhs: p, imm }),
            0x64 => Ok(Instruction::TST { lhs: a, rhs: b }),
            0x70 => Ok(Instruction::ORI { dst: p, imm }),
            0x71 => Ok(Instruction::OR0 { dst: a, src: b }),
            0x72 => Ok(Instruction::OR1 { dst: a, lhs: b, rhs: c }),
            0x80 => Ok(Instruction::XORI { dst: p, imm }),
            0x81 => Ok(Instruction::XOR0 { dst: a, src: b }),
            0x82 => Ok(Instruction::XOR1 { dst: a, lhs: b, rhs: c }),
            0x90 => Ok(Instruction::MULI { dst: p, imm }),
            0x91 => Ok(Instruction::MUL0 { dst: a, src: b }),
            0x92 => Ok(Instruction::MUL1 { dst: a, lhs: b, rhs: c }),
            0xA0 => Ok(Instruction::DIVI { dst: p, imm }),
            0xA1 => Ok(Instruction::DIV0 { dst: a, src: b }),
            0xA2 => Ok(Instruction::DIV1 { dst: a, lhs: b, rhs: c }),
            0xA3 => Ok(Instruction::MODI { dst: p, imm }),
            0xA4 => Ok(Instruction::MOD0 { dst: a, src: b }),
            0xA5 => Ok(Instruction::MOD1 { dst: a, lhs: b, rhs: c }),
            0xA6 => Ok(Instruction::REMI { dst: p, imm }),
            0xA7 => Ok(Instruction::REM0 { dst: a, src: b }),
            0xA8 => Ok(Instruction::REM1 { dst: a, lhs: b, rhs: c }),
            0xB0 => Ok(Instruction::SHL0 { dst: a, amount: b }),
            0xB1 => Ok(Instruction::SHR0 { dst: a, amount: b }),
            0xB2 => Ok(Instruction::SAR0 { dst: a, amount: b }),
            0xB3 => Ok(Instruction::SHL1 { dst: a, src: b }),
            0xB4 => Ok(Instruction::SHR1 { dst: a, src: b }),
            0xB5 => Ok(Instruction::SAR1 { dst: a, src: b }),
            0xC0 => Ok(Instruction::PUSH { src: a }),
            0xC1 => Ok(Instruction::POP { dst: a }),
            0xC2 => Ok(Instruction::PUSHALL),
            0xC3 => Ok(Instruction::POPALL),
            0xC4 => Ok(Instruction::PUSHF),
            0xC5 => Ok(Instruction::POPF),
            0xD0 => Ok(Instruction::PAL0 { slot: p, address: imm }),
            0xD1 => Ok(Instruction::PAL1 { slot: a, at: b }),
            0xE0 => Ok(Instruction::NOTI { dst: p, imm }),
            0xE1 => Ok(Instruction::NOT0 { dst: a }),
            0xE2 => Ok(Instruction::NOT1 { dst: a, src: b }),
            0xE3 => Ok(Instruction::NEGI { dst: p, imm }),
            0xE4 => Ok(Instruction::NEG0 { dst: a }),
            0xE5 => Ok(Instruction::NEG1 { dst: a, src: b }),
            unknown => Err(DecodeError::UnknownOpcode(unknown)),
        }
    }

    /// Decodes an instruction word.
    ///
    /// The word is accepted exactly when its first byte is an opcode; the
    /// other 24 bits are then read by the layout of that opcode, and no bit
    /// pattern in them is refused. A refused word is answered with its first
    /// byte.
    pub fn decode(word: u32) -> (r: Result<Instruction, DecodeError>)
        ensures
            r == Instruction::decode_spec(word),
            r is Ok <==> is_opcode(byte0(word)),
            r is Err ==> r == Err::<Instruction, DecodeError>(
                DecodeError::UnknownOpcode(byte0(word)),
            ),
            r is Ok ==> r->Ok_0.wf(),
    {
        let (b0, b1, b2, b3) = split_word32(word);
        let imm = make_word(b2, b3);
        let (q, p) = split_byte(b1);
        let (b, c) = split_byte(b2);
        let (_, a) = split_byte(b3);
        match b0 {
            0x00 => Ok(Instruction::NOP),
            0x01 => Ok(Instruction::CLS),
            0x02 => Ok(Instruction::VBLNK),
            0x03 => Ok(Instruction::BGC { color: b3 }),
            0x04 => Ok(Instruction::SPR { width: b2, height: b3 }),
            0x05 => Ok(Instruction::DRW0 { x: p, y: q, address: imm }),
            0x06 => Ok(Instruction::DRW1 { x: a, y: b, at: c }),
            0x07 => Ok(Instruction::RND { dst: p, bound: imm }),
            0x08 => Ok(Instruction::flip(b3)),
            0x09 => Ok(Instruction::SND0),
            0x0A => Ok(Instruction::SND1 { duration: imm }),
            0x0B => Ok(Instruction::SND2 { duration: imm }),
            0x0C => Ok(Instruction::SND3 { duration: imm }),
            0x0D => Ok(Instruction::SNP { at: p, duration: imm }),
            0x0E => Ok(Instruction::SNG { attack: q, decay: p, sustain: b, release: c }),
            0x10 => Ok(Instruction::JMP0 { target: imm }),
            0x11 => Ok(Instruction::JMC { target: imm }),
            0x12 => Ok(Instruction::JX { condition: Condition::from_code(p), target: imm }),
            0x13 => Ok(Instruction::JME { x: p, y: q, target: imm }),
            0x14 => Ok(Instruction::CALL0 { target: imm }),
            0x15 => Ok(Instruction::RET),
            0x16 => Ok(Instruction::JMP1 { src: a }),
            0x17 => Ok(Instruction::CX { condition: Condition::from_code(p), target: imm }),
            0x18 => Ok(Instruction::CALL1 { src: a }),
            0x20 => Ok(Instruction::LDI0 { dst: p, imm }),
            0x21 => Ok(Instruction::LDI1 { dst: p, imm }),
            0x22 => Ok(Instruction::LDM0 { dst: p, address: imm }),
            0x23 => Ok(Instruction::LDM1 { dst: a, at: b }),
            0x24 => Ok(Instruction::MOV { dst: a, src: b }),
            0x30 => Ok(Instruction::STM0 { src: p, address: imm }),
            0x31 => Ok(Instruction::STM1 { src: a, at: b }),
            0x40 => Ok(Instruction::ADDI { dst: p, imm }),
            0x41 => Ok(Instruction::ADD0 { dst: a, src: b }),
            0x42 => Ok(Instruction::ADD1 { dst: a, lhs: b, rhs: c }),
            0x50 => Ok(Instruction::SUBI { dst: p, imm }),
            0x51 => Ok(Instruction::SUB0 { dst: a, src: b }),
            0x52 => Ok(Instruction::SUB1 { dst: a, lhs: b, rhs: c }),
            0x53 => Ok(Instruction::CMPI { lhs: p, imm }),
            0x54 => Ok(Instruction::CMP { lhs: a, rhs: b }),
            0x60 => Ok(Instruction::ANDI { dst: p, imm }),
            0x61 => Ok(Instruction::AND0 { dst: a, src: b }),
            0x62 => Ok(Instruction::AND1 { dst: a, lhs: b, rhs: c }),
            0x63 => Ok(Instruction::TSTI { lhs: p, imm }),
            0x64 => Ok(Instruction::TST { lhs: a, rhs: b }),
            0x70 => Ok(Instruction::ORI { dst: p, imm }),
            0x71 => Ok(Instruction::OR0 { dst: a, src: b }),
            0x72 => Ok(Instruction::OR1 { dst: a, lhs: b, rhs: c }),
            0x80 => Ok(Instruction::XORI { dst: p, imm }),
            0x81 => Ok(Instruction::XOR0 { dst: a, src: b }),
            0x82 => Ok(Instruction::XOR1 { dst: a, lhs: b, rhs: c }),
            0x90 => Ok(Instruction::MULI { dst: p, imm }),
            0x91 => Ok(Instruction::MUL0 { dst: a, src: b }),
            0x92 => Ok(Instruction::MUL1 { dst: a, lhs: b, rhs: c }),
            0xA0 => Ok(Instruction::DIVI { dst: p, imm }),
            0xA1 => Ok(Instruction::DIV0 { dst: a, src: b }),
            0xA2 => Ok(Instruction::DIV1 { dst: a, lhs: b, rhs: c }),
            0xA3 => Ok(Instruction::MODI { dst: p, imm }),
            0xA4 => Ok(Instruction::MOD0 { dst: a, src: b }),
            0xA5 => Ok(Instruction::MOD1 { dst: a, lhs: b, rhs: c }),
            0xA6 => Ok(Instruction::REMI { dst: p, imm }),
            0xA7 => Ok(Instruction::REM0 { dst: a, src: b }),
            0xA8 => Ok(Instruction::REM1 { dst: a, lhs: b, rhs: c }),
            0xB0 => Ok(Instruction::SHL0 { dst: a, amount: b }),
            0xB1 => Ok(Instruction::SHR0 { dst: a, amount: b }),
            0xB2 => Ok(Instruction::SAR0 { dst: a, amount: b }),
            0xB3 => Ok(Instruction::SHL1 { dst: a, src: b }),
            0xB4 => Ok(Instruction::SHR1 { dst: a, src: b }),
            0xB5 => Ok(Instruction::SAR1 { dst: a, src: b }),
            0xC0 => Ok(Instruction::PUSH { src: a }),
            0xC1 => Ok(Instruction::POP { dst: a }),
            0xC2 => Ok(Instruction::PUSHALL),
            0xC3 => Ok(Instruction::POPALL),
            0xC4 => Ok(Instruction::PUSHF),
            0xC5 => Ok(Instruction::POPF),
            0xD0 => Ok(Instruction::PAL0 { slot: p, address: imm }),
            0xD1 => Ok(Instruction::PAL1 { slot: a, at: b }),
            0xE0 => Ok(Instruction::NOTI { dst: p, imm }),
            0xE1 => Ok(Instruction::NOT0 { dst: a }),
            0xE2 => Ok(Instruction::NOT1 { dst: a, src: b }),
            0xE3 => Ok(Instruction::NEGI { dst: p, imm }),
            0xE4 => Ok(Instruction::NEG0 { dst: a }),
            0xE5 => Ok(Instruction::NEG1 { dst: a, src: b }),
            unknown => Err(DecodeError::UnknownOpcode(unknown)),
        }
    }

    /// The flip instruction that the low two bits of `mode` select.
    fn flip(mode: u8) -> (i: Instruction)
        ensures
            i == flip_of(mode),
    {
        match mode % 4 {
            0 => Instruction::FLIP0,
            1 => Instruction::FLIP1,
            2 => Instruction::FLIP2,
            _ => Instruction::FLIP3,
        }
    }

    /// Encodes the instruction as a word. Every bit that the layout does not
    /// name is zero. Of a nibble operand only the low four bits are written.
    pub fn encode(&self) -> (word: u32)
        ensures
            word == self.encode_spec(),
    {
        match *self {
            Instruction::NOP => pack_registers(0x00, 0, 0, 0),
            Instruction::CLS => pack_registers(0x01, 0, 0, 0),
            Instruction::VBLNK => pack_registers(0x02, 0, 0, 0),
            Instruction::BGC { color } => make_word32(0x03, 0, 0, color),
            Instruction::SPR { width, height } => make_word32(0x04, 0, width, height),
            Instruction::DRW0 { x, y, address } => pack_immediate(0x05, x, y, address),
            Instruction::DRW1 { x, y, at } => pack_registers(0x06, x, y, at),
            Instruction::RND { dst, bound } => pack_immediate(0x07, dst, 0, bound),
            Instruction::FLIP0 => pack_registers(0x08, 0, 0, 0),
            Instruction::FLIP1 => pack_registers(0x08, 1, 0, 0),
            Instruction::FLIP2 => pack_registers(0x08, 2, 0, 0),
            Instruction::FLIP3 => pack_registers(0x08, 3, 0, 0),
            Instruction::SND0 => pack_registers(0x09, 0, 0, 0),
            Instruction::SND1 { duration } => pack_immediate(0x0A, 0, 0, duration),
            Instruction::SND2 { duration } => pack_immediate(0x0B, 0, 0, duration),
            Instruction::SND3 { duration } => pack_immediate(0x0C, 0, 0, duration),
            Instruction::SNP { at, duration } => pack_immediate(0x0D, at, 0, duration),
            Instruction::SNG { attack, decay, sustain, release } => {
                make_word32(0x0E, make_byte(attack, decay), make_byte(sustain, release), 0)
            },
            Instruction::JMP0 { target } => pack_immediate(0x10, 0, 0, target),
            Instruction::JMC { target } => pack_immediate(0x11, 0, 0, target),
            Instruction::JX { condition, target } => {
                pack_immediate(0x12, condition.to_code(), 0, target)
            },
            Instruction::JME { x, y, target } => pack_immediate(0x13, x, y, target),
            Instruction::CALL0 { target } => pack_immediate(0x14, 0, 0, target),
            Instruction::RET => pack_registers(0x15, 0, 0, 0),
            Instruction::JMP1 { src } => pack_registers(0x16, src, 0, 0),
            Instruction::CX { condition, target } => {
                pack_immediate(0x17, condition.to_code(), 0, target)
            },
            Instruction::CALL1 { src } => pack_registers(0x18, src, 0, 0),
            Instruction::LDI0 { dst, imm } => pack_immediate(0x20, dst, 0, imm),
            Instruction::LDI1 { dst, imm } => pack_immediate(0x21, dst, 0, imm),
            Instruction::LDM0 { dst, address } => pack_immediate(0x22, dst, 0, address),
            Instruction::LDM1 { dst, at } => pack_registers(0x23, dst, at, 0),
            Instruction::MOV { dst, src } => pack_registers(0x24, dst, src, 0),
            Instruction::STM0 { src, address } => pack_immediate(0x30, src, 0, address),
            Instruction::STM1 { src, at } => pack_registers(0x31, src, at, 0),
            Instruction::ADDI { dst, imm } => pack_immediate(0x40, dst, 0, imm),
            Instruction::ADD0 { dst, src } => pack_registers(0x41, dst, src, 0),
            Instruction::ADD1 { dst, lhs, rhs } => pack_registers(0x42, dst, lhs, rhs),
            Instruction::SUBI { dst, imm } => pack_immediate(0x50, dst, 0, imm),
            Instruction::SUB0 { dst, src } => pack_registers(0x51, dst, src, 0),
            Instruction::SUB1 { dst, lhs, rhs } => pack_registers(0x52, dst, lhs, rhs),
            Instruction::CMPI { lhs, imm } => pack_immediate(0x53, lhs, 0, imm),
            Instruction::CMP { lhs, rhs } => pack_registers(0x54, lhs, rhs, 0),
            Instruction::ANDI { dst, imm } => pack_immediate(0x60, dst, 0, imm),
            Instruction::AND0 { dst, src } => pack_registers(0x61, dst, src, 0),
            Instruction::AND1 { dst, lhs, rhs } => pack_registers(0x62, dst, lhs, rhs),
            Instruction::TSTI { lhs, imm } => pack_immediate(0x63, lhs, 0, imm),
            Instruction::TST { lhs, rhs } => pack_registers(0x64, lhs, rhs, 0),
            Instruction::ORI { dst, imm } => pack_immediate(0x70, dst, 0, imm),
            Instruction::OR0 { dst, src } => pack_registers(0x71, dst, src, 0),
            Instruction::OR1 { dst, lhs, rhs } => pack_registers(0x72, dst, lhs, rhs),
            Instruction::XORI { dst, imm } => pack_immediate(0x80, dst, 0, imm),
            Instruction::XOR0 { dst, src } => pack_registers(0x81, dst, src, 0),
            Instruction::XOR1 { dst, lhs, rhs } => pack_registers(0x82, dst, lhs, rhs),
            Instruction::MULI { dst, imm } => pack_immediate(0x90, dst, 0, imm),
            Instruction::MUL0 { dst, src } => pack_registers(0x91, dst, src, 0),
            Instruction::MUL1 { dst, lhs, rhs } => pack_registers(0x92, dst, lhs, rhs),
            Instruction::DIVI { dst, imm } => pack_immediate(0xA0, dst, 0, imm),
            Instruction::DIV0 { dst, src } => pack_registers(0xA1, dst, src, 0),
            Instruction::DIV1 { dst, lhs, rhs } => pack_registers(0xA2, dst, lhs, rhs),
            Instruction::MODI { dst, imm } => pack_immediate(0xA3, dst, 0, imm),
            Instruction::MOD0 { dst, src } => pack_registers(0xA4, dst, src, 0),
            Instruction::MOD1 { dst, lhs, rhs } => pack_registers(0xA5, dst, lhs, rhs),
            Instruction::REMI { dst, imm } => pack_immediate(0xA6, dst, 0, imm),
            Instruction::REM0 { dst, src } => pack_registers(0xA7, dst, src, 0),
            Instruction::REM1 { dst, lhs, rhs } => pack_registers(0xA8, dst, lhs, rhs),
            Instruction::SHL0 { dst, amount } => pack_registers(0xB0, dst, amount, 0),
            Instruction::SHR0 { dst, amount } => pack_registers(0xB1, dst, amount, 0),
            Instruction::SAR0 { dst, amount } => pack_registers(0xB2, dst, amount, 0),
            Instruction::SHL1 { dst, src } => pack_registers(0xB3, dst, src, 0),
            Instruction::SHR1 { dst, src } => pack_registers(0xB4, dst, src, 0),
            Instruction::SAR1 { dst, src } => pack_registers(0xB5, dst, src, 0),
            Instruction::PUSH { src } => pack_registers(0xC0, src, 0, 0),
            Instruction::POP { dst } => pack_registers(0xC1, dst, 0, 0),
            Instruction::PUSHALL => pack_registers(0xC2, 0, 0, 0),
            Instruction::POPALL => pack_registers(0xC3, 0, 0, 0),
            Instruction::PUSHF => pack_registers(0xC4, 0, 0, 0),
            Instruction::POPF => pack_registers(0xC5, 0, 0, 0),
            Instruction::PAL0 { slot, address } => pack_immediate(0xD0, slot, 0, address),
            Instruction::PAL1 { slot, at } => pack_registers(0xD1, slot, at, 0),
            Instruction::NOTI { dst, imm } => pack_immediate(0xE0, dst, 0, imm),
            Instruction::NOT0 { dst } => pack_registers(0xE1, dst, 0, 0),
            Instruction::NOT1 { dst, src } => pack_registers(0xE2, dst, src, 0),
            Instruction::NEGI { dst, imm } => pack_immediate(0xE3, dst, 0, imm),
            Instruction::NEG0 { dst } => pack_registers(0xE4, dst, 0, 0),
            Instruction::NEG1 { dst, src } => pack_registers(0xE5, dst, src, 0),
        }
    }

    /// What decoding gives is well-formed, and encoding it gives a word that
    /// decodes to the same instruction again: the bits that decoding does
    /// not read make no difference.
    pub proof fn lemma_decoded_is_canonical(word: u32)
        ensures
            match Instruction::decode_spec(word) {
                Ok(instruction) => {
                    &&& instruction.wf()
                    &&& Instruction::decode_spec(instruction.encode_spec()) == Ok::<
                        Instruction,
                        DecodeError,
                    >(instruction)
                },
                Err(_) => true,
            },
    {
        if let Ok(instruction) = Instruction::decode_spec(word) {
            assert(instruction.wf());
            instruction.lemma_decode_encode();
        }
    }

    /// Decoding undoes encoding: the word of a well-formed instruction
    /// starts with an opcode and decodes to that instruction.
    pub proof fn lemma_decode_encode(self)
        requires
            self.wf(),
        ensures
            is_opcode(byte0(self.encode_spec())),
            Instruction::decode_spec(self.encode_spec()) == Ok::<Instruction, DecodeError>(self),
    {
        match self {
            Instruction::NOP => lemma_register_form(0x00, 0, 0, 0),
            Instruction::CLS => lemma_register_form(0x01, 0, 0, 0),
            Instruction::VBLNK => lemma_register_form(0x02, 0, 0, 0),
            Instruction::BGC { color } => lemma_word32_bytes(0x03, 0, 0, color),
            Instruction::SPR { width, height } => lemma_word32_bytes(0x04, 0, width, height),
            Instruction::DRW0 { x, y, address } => lemma_immediate_form(0x05, x, y, address),
            Instruction::DRW1 { x, y, at } => lemma_register_form(0x06, x, y, at),
            Instruction::RND { dst, bound } => lemma_immediate_form(0x07, dst, 0, bound),
            Instruction::FLIP0 => lemma_register_form(0x08, 0, 0, 0),
            Instruction::FLIP1 => lemma_register_form(0x08, 1, 0, 0),
            Instruction::FLIP2 => lemma_register_form(0x08, 2, 0, 0),
            Instruction::FLIP3 => lemma_register_form(0x08, 3, 0, 0),
            Instruction::SND0 => lemma_register_form(0x09, 0, 0, 0),
            Instruction::SND1 { duration } => lemma_immediate_form(0x0A, 0, 0, duration),
            Instruction::SND2 { duration } => lemma_immediate_form(0x0B, 0, 0, duration),
            Instruction::SND3 { duration } => lemma_immediate_form(0x0C, 0, 0, duration),
            Instruction::SNP { at, duration } => lemma_immediate_form(0x0D, at, 0, duration),
            Instruction::SNG { attack, decay, sustain, release } => {
                lemma_word32_bytes(0x0E, nibbles(attack, decay), nibbles(sustain, release), 0);
                lemma_nibbles(attack, decay);
                lemma_nibbles(sustain, release);
            },
            Instruction::JMP0 { target } => lemma_immediate_form(0x10, 0, 0, target),
            Instruction::JMC { target } => lemma_immediate_form(0x11, 0, 0, target),
            Instruction::JX { condition, target } => {
                lemma_immediate_form(0x12, condition.code(), 0, target);
                condition.lemma_code_round_trip();
            },
            Instruction::JME { x, y, target } => lemma_immediate_form(0x13, x, y, target),
            Instruction::CALL0 { target } => lemma_immediate_form(0x14, 0, 0, target),
            Instruction::RET => lemma_register_form(0x15, 0, 0, 0),
            Instruction::JMP1 { src } => lemma_register_form(0x16, src, 0, 0),
            Instruction::CX { condition, target } => {
                lemma_immediate_form(0x17, condition.code(), 0, target);
                condition.lemma_code_round_trip();
            },
            Instruction::CALL1 { src } => lemma_register_form(0x18, src, 0, 0),
            Instruction::LDI0 { dst, imm } => lemma_immediate_form(0x20, dst, 0, imm),
            Instruction::LDI1 { dst, imm } => lemma_immediate_form(0x21, dst, 0, imm),
            Instruction::LDM0 { dst, address } => lemma_immediate_form(0x22, dst, 0, address),
            Instruction::LDM1 { dst, at } => lemma_register_form(0x23, dst, at, 0),
            Instruction::MOV { dst, src } => lemma_register_form(0x24, dst, src, 0),
            Instruction::STM0 { src, address } => lemma_immediate_form(0x30, src, 0, address),
            Instruction::STM1 { src, at } => lemma_register_form(0x31, src, at, 0),
            Instruction::ADDI { dst, imm } => lemma_immediate_form(0x40, dst, 0, imm),
            Instruction::ADD0 { dst, src } => lemma_register_form(0x41, dst, src, 0),
            Instruction::ADD1 { dst, lhs, rhs } => lemma_register_form(0x42, dst, lhs, rhs),
            Instruction::SUBI { dst, imm } => lemma_immediate_form(0x50, dst, 0, imm),
            Instruction::SUB0 { dst, src } => lemma_register_form(0x51, dst, src, 0),
            Instruction::SUB1 { dst, lhs, rhs } => lemma_register_form(0x52, dst, lhs, rhs),
            Instruction::CMPI { lhs, imm } => lemma_immediate_form(0x53, lhs, 0, imm),
            Instruction::CMP { lhs, rhs } => lemma_register_form(0x54, lhs, rhs, 0),
            Instruction::ANDI { dst, imm } => lemma_immediate_form(0x60, dst, 0, imm),
            Instruction::AND0 { dst, src } => lemma_register_form(0x61, dst, src, 0),
            Instruction::AND1 { dst, lhs, rhs } => lemma_register_form(0x62, dst, lhs, rhs),
            Instruction::TSTI { lhs, imm } => lemma_immediate_form(0x63, lhs, 0, imm),
            Instruction::TST { lhs, rhs } => lemma_register_form(0x64, lhs, rhs, 0),
            Instruction::ORI { dst, imm } => lemma_immediate_form(0x70, dst, 0, imm),
            Instruction::OR0 { dst, src } => lemma_register_form(0x71, dst, src, 0),
            Instruction::OR1 { dst, lhs, rhs } => lemma_register_form(0x72, dst, lhs, rhs),
            Instruction::XORI { dst, imm } => lemma_immediate_form(0x80, dst, 0, imm),
            Instruction::XOR0 { dst, src } => lemma_register_form(0x81, dst, src, 0),
            Instruction::XOR1 { dst, lhs, rhs } => lemma_register_form(0x82, dst, lhs, rhs),
            Instruction::MULI { dst, imm } => lemma_immediate_form(0x90, dst, 0, imm),
            Instruction::MUL0 { dst, src } => lemma_register_form(0x91, dst, src, 0),
            Instruction::MUL1 { dst, lhs, rhs } => lemma_register_form(0x92, dst, lhs, rhs),
            Instruction::DIVI { dst, imm } => lemma_immediate_form(0xA0, dst, 0, imm),
            Instruction::DIV0 { dst, src } => lemma_register_form(0xA1, dst, src, 0),
            Instruction::DIV1 { dst, lhs, rhs } => lemma_register_form(0xA2, dst, lhs, rhs),
            Instruction::MODI { dst, imm } => lemma_immediate_form(0xA3, dst, 0, imm),
            Instruction::MOD0 { dst, src } => lemma_register_form(0xA4, dst, src, 0),
            Instruction::MOD1 { dst, lhs, rhs } => lemma_register_form(0xA5, dst, lhs, rhs),
            Instruction::REMI { dst, imm } => lemma_immediate_form(0xA6, dst, 0, imm),
            Instruction::REM0 { dst, src } => lemma_register_form(0xA7, dst, src, 0),
            Instruction::REM1 { dst, lhs, rhs } => lemma_register_form(0xA8, dst, lhs, rhs),
            Instruction::SHL0 { dst, amount } => lemma_register_form(0xB0, dst, amount, 0),
            Instruction::SHR0 { dst, amount } => lemma_register_form(0xB1, dst, amount, 0),
            Instruction::SAR0 { dst, amount } => lemma_register_form(0xB2, dst, amount, 0),
            Instruction::SHL1 { dst, src } => lemma_register_form(0xB3, dst, src, 0),
            Instruction::SHR1 { dst, src } => lemma_register_form(0xB4, dst, src, 0),
            Instruction::SAR1 { dst, src } => lemma_register_form(0xB5, dst, src, 0),
            Instruction::PUSH { src } => lemma_register_form(0xC0, src, 0, 0),
            Instruction::POP { dst } => lemma_register_form(0xC1, dst, 0, 0),
            Instruction::PUSHALL => lemma_register_form(0xC2, 0, 0, 0),
            Instruction::POPALL => lemma_register_form(0xC3, 0, 0, 0),
            Instruction::PUSHF => lemma_register_form(0xC4, 0, 0, 0),
            Instruction::POPF => lemma_register_form(0xC5, 0, 0, 0),
            Instruction::PAL0 { slot, address } => lemma_immediate_form(0xD0, slot, 0, address),
            Instruction::PAL1 { slot, at } => lemma_register_form(0xD1, slot, at, 0),
            Instruction::NOTI { dst, imm } => lemma_immediate_form(0xE0, dst, 0, imm),
            Instruction::NOT0 { dst } => lemma_register_form(0xE1, dst, 0, 0),
            Instruction::NOT1 { dst, src } => lemma_register_form(0xE2, dst, src, 0),
            Instruction::NEGI { dst, imm } => lemma_immediate_form(0xE3, dst, 0, imm),
            Instruction::NEG0 { dst } => lemma_register_form(0xE4, dst, 0, 0),
            Instruction::NEG1 { dst, src } => lemma_register_form(0xE5, dst, src, 0),
        }
    }
}

/// What decoding reads out of a word of the immediate form is what was
/// packed.
proof fn lemma_immediate_form(opcode: u8, first: u8, second: u8, imm: u16)
    requires
        first < 16,
        second < 16,
    ensures
        byte0(immediate_form(opcode, first, second, imm)) == opcode,
        low_nibble(byte1(immediate_form(opcode, first, second, imm))) == first,
        high_nibble(byte1(immediate_form(opcode, first, second, imm))) == second,
        word_of(
            byte2(immediate_form(opcode, first, second, imm)),
            byte3(immediate_form(opcode, first, second, imm)),
        ) == imm,
{
    reveal(immediate_form);
    lemma_word32_bytes(opcode, nibbles(second, first), high_byte(imm), low_byte(imm));
    lemma_nibbles(second, first);
    lemma_split_then_join(imm);
}

/// What decoding reads out of a word of the register form is what was
/// packed.
proof fn lemma_register_form(opcode: u8, first: u8, second: u8, third: u8)
    requires
        first < 16,
        second < 16,
        third < 16,
    ensures
        byte0(register_form(opcode, first, second, third)) == opcode,
        byte3(register_form(opcode, first, second, third)) == first,
        low_nibble(byte3(register_form(opcode, first, second, third))) == first,
        high_nibble(byte2(register_form(opcode, first, second, third))) == second,
        low_nibble(byte2(register_form(opcode, first, second, third))) == third,
{
    reveal(register_form);
    lemma_word32_bytes(opcode, 0, nibbles(second, third), nibbles(0, first));
    lemma_nibbles(second, third);
    lemma_nibbles(0, first);
}

} // verus!
