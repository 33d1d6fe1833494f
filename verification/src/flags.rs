//! The four condition flags, their packing into one byte, and the sixteen
//! branch conditions that read them.

use vstd::prelude::*;

verus! {

/// The condition flags: four independent bits.
#[derive(Clone, Copy, Debug, PartialEq, Eq, Structural)]
pub struct Flags {
    /// Carry out of, or borrow into, bit 15; for shifts the last bit that
    /// left the register.
    pub carry: bool,
    /// The result was zero.
    pub zero: bool,
    /// The result does not fit a signed 16-bit number.
    pub overflow: bool,
    /// Bit 15 of the result.
    pub negative: bool,
}

/// Bit 1 of the flags byte: carry.
pub const CARRY_BIT: u8 = 0x02;

/// Bit 2 of the flags byte: zero.
pub const ZERO_BIT: u8 = 0x04;

/// Bit 6 of the flags byte: overflow.
pub const OVERFLOW_BIT: u8 = 0x40;

/// Bit 7 of the flags byte: negative.
pub const NEGATIVE_BIT: u8 = 0x80;

impl Flags {
    /// The flags byte: carry in bit 1, zero in bit 2, overflow in bit 6,
    /// negative in bit 7, every other bit clear.
    pub open spec fn byte(self) -> u8 {
        ((if self.carry { 0x02int } else { 0 }) + (if self.zero { 0x04int } else { 0 }) + (
        if self.overflow { 0x40int } else { 0 }) + (if self.negative { 0x80int } else { 0 })) as u8
    }

    /// The flags that a byte holds. Bits 0, 3, 4 and 5 are not read.
    pub open spec fn of_byte(b: u8) -> Flags {
        Flags {
            carry: (b / 0x02) % 2 == 1,
            zero: (b / 0x04) % 2 == 1,
            overflow: (b / 0x40) % 2 == 1,
            negative: (b / 0x80) % 2 == 1,
        }
    }

    /// All four flags clear.
    pub fn new() -> (f: Flags)
        ensures
            f == (Flags { carry: false, zero: false, overflow: false, negative: false }),
    {
        Flags { carry: false, zero: false, overflow: false, negative: false }
    }

    /// Packs the flags into their byte.
    pub fn to_byte(self) -> (b: u8)
        ensures
            b == self.byte(),
    {
        let mut b: u8 = 0;
        if self.carry {
            b = b + CARRY_BIT;
        }
        if self.zero {
            b = b + ZERO_BIT;
        }
        if self.overflow {
            b = b + OVERFLOW_BIT;
        }
        if self.negative {
            b = b + NEGATIVE_BIT;
        }
        b
    }

    /// Reads the flags out of a byte.
    pub fn from_byte(b: u8) -> (f: Flags)
        ensures
            f == Flags::of_byte(b),
    {
        Flags {
            carry: (b / CARRY_BIT) % 2 == 1,
            zero: (b / ZERO_BIT) % 2 == 1,
            overflow: (b / OVERFLOW_BIT) % 2 == 1,
            negative: (b / NEGATIVE_BIT) % 2 == 1,
        }
    }

    /// Packing flags into a byte and reading the byte gives the flags back.
    pub proof fn lemma_byte_round_trip(self)
        ensures
            Flags::of_byte(self.byte()) == self,
    {
    }
}

/// A branch condition: a test on the flags, selected by a 4-bit code.
#[derive(Clone, Copy, Debug, PartialEq, Eq, Structural)]
pub enum Condition {
    /// Code 0: the zero flag is set.
    Zero,
    /// Code 1: the zero flag is clear.
    NotZero,
    /// Code 2: the negative flag is set.
    Negative,
    /// Code 3: the negative flag is clear.
    NotNegative,
    /// Code 4: neither negative nor zero.
    Positive,
    /// Code 5: the overflow flag is set.
    Overflow,
    /// Code 6: the overflow flag is clear.
    NotOverflow,
    /// Code 7: unsigned greater: neither carry nor zero.
    Above,
    /// Code 8: unsigned greater or equal: the carry flag is clear.
    AboveEqual,
    /// Code 9: unsigned less: the carry flag is set.
    Below,
    /// Code 10: unsigned less or equal: carry or zero.
    BelowEqual,
    /// Code 11: signed greater: overflow equals negative, and not zero.
    Greater,
    /// Code 12: signed greater or equal: overflow equals negative.
    GreaterEqual,
    /// Code 13: signed less: overflow differs from negative.
    Less,
    /// Code 14: signed less or equal: overflow differs from negative, or zero.
    LessEqual,
    /// Code 15: holds whatever the flags are.
    Always,
}

impl Condition {
    /// The 4-bit code of the condition.
    pub open spec fn code(self) -> u8 {
        match self {
            Condition::Zero => 0,
            Condition::NotZero => 1,
            Condition::Negative => 2,
            Condition::NotNegative => 3,
            Condition::Positive => 4,
            Condition::Overflow => 5,
            Condition::NotOverflow => 6,
            Condition::Above => 7,
            Condition::AboveEqual => 8,
            Condition::Below => 9,
            Condition::BelowEqual => 10,
            Condition::Greater => 11,
            Condition::GreaterEqual => 12,
            Condition::Less => 13,
            Condition::LessEqual => 14,
            Condition::Always => 15,
        }
    }

    /// The condition with the code `n % 16`.
    pub open spec fn of_code(n: u8) -> Condition {
        let c = n % 16;
        if c == 0 {
            Condition::Zero
        } else if c == 1 {
            Condition::NotZero
        } else if c == 2 {
            Condition::Negative
        } else if c == 3 {
            Condition::NotNegative
        } else if c == 4 {
            Condition::Positive
        } else if c == 5 {
            Condition::Overflow
        } else if c == 6 {
            Condition::NotOverflow
        } else if c == 7 {
            Condition::Above
        } else if c == 8 {
            Condition::AboveEqual
        } else if c == 9 {
            Condition::Below
        } else if c == 10 {
            Condition::BelowEqual
        } else if c == 11 {
            Condition::Greater
        } else if c == 12 {
            Condition::GreaterEqual
        } else if c == 13 {
            Condition::Less
        } else if c == 14 {
            Condition::LessEqual
        } else {
            Condition::Always
        }
    }

    /// Whether the condition holds of `f`.
    pub open spec fn holds_spec(self, f: Flags) -> bool {
        match self {
            Condition::Zero => f.zero,
            Condition::NotZero => !f.zero,
            Condition::Negative => f.negative,
            Condition::NotNegative => !f.negative,
            Condition::Positive => !f.negative && !f.zero,
            Condition::Overflow => f.overflow,
            Condition::NotOverflow => !f.overflow,
            Condition::Above => !f.carry && !f.zero,
            Condition::AboveEqual => !f.carry,
            Condition::Below => f.carry,
            Condition::BelowEqual => f.carry || f.zero,
            Condition::Greater => f.overflow == f.negative && !f.zero,
            Condition::GreaterEqual => f.overflow == f.negative,
            Condition::Less => f.overflow != f.negative,
            Condition::LessEqual => f.overflow != f.negative || f.zero,
            Condition::Always => true,
        }
    }

    /// The code of the condition, below 16.
    pub fn to_code(self) -> (n: u8)
        ensures
            n == self.code(),
            n < 16,
    {
        match self {
            Condition::Zero => 0,
            Condition::NotZero => 1,
            Condition::Negative => 2,
            Condition::NotNegative => 3,
            Condition::Positive => 4,
            Condition::Overflow => 5,
            Condition::NotOverflow => 6,
            Condition::Above => 7,
            Condition::AboveEqual => 8,
            Condition::Below => 9,
            Condition::BelowEqual => 10,
            Condition::Greater => 11,
            Condition::GreaterEqual => 12,
            Condition::Less => 13,
            Condition::LessEqual => 14,
            Condition::Always => 15,
        }
    }

    /// The condition that the low four bits of `n` select.
    pub fn from_code(n: u8) -> (c: Condition)
        ensures
            c == Condition::of_code(n),
    {
        match n % 16 {
            0 => Condition::Zero,
            1 => Condition::NotZero,
            2 => Condition::Negative,
            3 => Condition::NotNegative,
            4 => Condition::Positive,
            5 => Condition::Overflow,
            6 => Condition::NotOverflow,
            7 => Condition::Above,
            8 => Condition::AboveEqual,
            9 => Condition::Below,
            10 => Condition::BelowEqual,
            11 => Condition::Greater,
            12 => Condition::GreaterEqual,
            13 => Condition::Less,
            14 => Condition::LessEqual,
            _ => Condition::Always,
        }
    }

    /// Tests the condition on `f`.
    pub fn holds(self, f: Flags) -> (b: bool)
        ensures
            b == self.holds_spec(f),
    {
        match self {
            Condition::Zero => f.zero,
            Condition::NotZero => !f.zero,
            Condition::Negative => f.negative,
            Condition::NotNegative => !f.negative,
            Condition::Positive => !f.negative && !f.zero,
            Condition::Overflow => f.overflow,
            Condition::NotOverflow => !f.overflow,
            Condition::Above => !f.carry && !f.zero,
            Condition::AboveEqual => !f.carry,
            Condition::Below => f.carry,
            Condition::BelowEqual => f.carry || f.zero,
            Condition::Greater => f.overflow == f.negative && !f.zero,
            Condition::GreaterEqual => f.overflow == f.negative,
            Condition::Less => f.overflow != f.negative,
            Condition::LessEqual => (f.overflow != f.negative) || f.zero,
            Condition::Always => true,
        }
    }

    /// Every condition is the one that its own code selects.
    pub proof fn lemma_code_round_trip(self)
        ensures
            self.code() < 16,
            Condition::of_code(self.code()) == self,
    {
    }
}

} // verus!
