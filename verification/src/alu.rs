//! The arithmetic and logic unit: pure functions from operands to a 16-bit
//! result and the flags that go with it.
//!
//! Registers hold unsigned 16-bit numbers. Where an operation is signed
//! (overflow, division, arithmetic shift) it reads them in two's complement.

use vstd::prelude::*;
use vstd::arithmetic::div_mod::{lemma_fundamental_div_mod, lemma_fundamental_div_mod_converse_div};
use vstd::arithmetic::power2::{lemma2_to64, lemma_pow2_pos, pow2};
use vstd::bits::{lemma_u16_shr_is_div, lemma_u32_shl_is_mul};
use crate::flags::Flags;

verus! {

/// What the arithmetic unit refuses to compute.
#[derive(Clone, Copy, Debug, PartialEq, Eq, Structural)]
pub enum ArithmeticFault {
    /// A division, modulo or remainder with a divisor of zero.
    DivisionByZero,
}

/// A result of the arithmetic unit: the 16-bit value, and the flags after
/// the operation.
#[derive(Clone, Copy, Debug, PartialEq, Eq, Structural)]
pub struct AluResult {
    pub value: u16,
    pub flags: Flags,
}

/// The two's complement reading of a register value.
pub open spec fn signed(a: u16) -> int {
    if a >= 0x8000 {
        a - 0x10000
    } else {
        a as int
    }
}

/// The register value that holds the low 16 bits of `x`.
pub open spec fn low16(x: int) -> u16 {
    (x % 0x10000) as u16
}

/// Whether `x` can be held as a signed 16-bit number.
pub open spec fn fits_signed(x: int) -> bool {
    -0x8000 <= x <= 0x7FFF
}

/// The absolute value of `x`.
pub open spec fn magnitude(x: int) -> int {
    if x < 0 {
        -x
    } else {
        x
    }
}

/// The quotient of `x` by `y`, rounded toward zero.
pub open spec fn truncated_quotient(x: int, y: int) -> int
    recommends
        y != 0,
{
    if (x < 0) == (y < 0) {
        magnitude(x) / magnitude(y)
    } else {
        -(magnitude(x) / magnitude(y))
    }
}

/// What is left of `x` after division by `y` rounded toward zero. It is zero
/// or has the sign of `x`.
pub open spec fn truncated_remainder(x: int, y: int) -> int
    recommends
        y != 0,
{
    if x < 0 {
        -(magnitude(x) % magnitude(y))
    } else {
        magnitude(x) % magnitude(y)
    }
}

/// What is left of `x` after division by `y` rounded down. It is zero or has
/// the sign of `y`.
pub open spec fn floored_modulo(x: int, y: int) -> int
    recommends
        y != 0,
{
    let r = truncated_remainder(x, y);
    if r != 0 && (r < 0) != (y < 0) {
        r + y
    } else {
        r
    }
}

/// The flags after an operation with the given result: zero and negative are
/// read off the value, carry and overflow are as given.
pub open spec fn flags_of(value: u16, carry: bool, overflow: bool) -> Flags {
    Flags { carry, zero: value == 0, overflow, negative: value >= 0x8000 }
}

/// Addition. Carry is the carry out of bit 15; overflow says that the signed
/// sum does not fit.
pub open spec fn add_spec(a: u16, b: u16) -> AluResult {
    AluResult {
        value: low16(a + b),
        flags: flags_of(low16(a + b), a + b > 0xFFFF, !fits_signed(signed(a) + signed(b))),
    }
}

/// Subtraction. Carry is the borrow: set when `a < b` as unsigned numbers.
/// Overflow says that the signed difference does not fit.
pub open spec fn sub_spec(a: u16, b: u16) -> AluResult {
    AluResult {
        value: low16(a - b),
        flags: flags_of(low16(a - b), a < b, !fits_signed(signed(a) - signed(b))),
    }
}

/// Multiplication: the low 16 bits of the product. Carry says that the
/// unsigned product does not fit in 16 bits; overflow is cleared.
pub open spec fn mul_spec(a: u16, b: u16) -> AluResult {
    AluResult { value: low16(a * b), flags: flags_of(low16(a * b), a * b > 0xFFFF, false) }
}

/// Signed division, rounded toward zero; the low 16 bits of the quotient.
/// Carry and overflow are cleared.
pub open spec fn div_spec(a: u16, b: u16) -> AluResult
    recommends
        b != 0,
{
    let value = low16(truncated_quotient(signed(a), signed(b)));
    AluResult { value, flags: flags_of(value, false, false) }
}

/// Signed modulo: the result is zero or has the sign of the divisor. Carry
/// and overflow are cleared.
pub open spec fn modulo_spec(a: u16, b: u16) -> AluResult
    recommends
        b != 0,
{
    let value = low16(floored_modulo(signed(a), signed(b)));
    AluResult { value, flags: flags_of(value, false, false) }
}

/// Signed remainder: the result is zero or has the sign of the dividend.
/// Carry and overflow are cleared.
pub open spec fn rem_spec(a: u16, b: u16) -> AluResult
    recommends
        b != 0,
{
    let value = low16(truncated_remainder(signed(a), signed(b)));
    AluResult { value, flags: flags_of(value, false, false) }
}

/// Bitwise and. Carry stays as it was; overflow is cleared.
pub open spec fn and_spec(a: u16, b: u16, carry: bool) -> AluResult {
    AluResult { value: a & b, flags: flags_of(a & b, carry, false) }
}

/// Bitwise or. Carry stays as it was; overflow is cleared.
pub open spec fn or_spec(a: u16, b: u16, carry: bool) -> AluResult {
    AluResult { value: a | b, flags: flags_of(a | b, carry, false) }
}

/// Bitwise exclusive or. Carry stays as it was; overflow is cleared.
pub open spec fn xor_spec(a: u16, b: u16, carry: bool) -> AluResult {
    AluResult { value: a ^ b, flags: flags_of(a ^ b, carry, false) }
}

/// Bitwise complement: every bit inverted, which is `0xFFFF - a`. Carry
/// stays as it was; overflow is cleared.
pub open spec fn not_spec(a: u16, carry: bool) -> AluResult {
    let value = (0xFFFF - a) as u16;
    AluResult { value, flags: flags_of(value, carry, false) }
}

/// Two's complement negation: the low 16 bits of `-a`. Carry stays as it
/// was; overflow is cleared.
pub open spec fn neg_spec(a: u16, carry: bool) -> AluResult {
    AluResult { value: low16(-a), flags: flags_of(low16(-a), carry, false) }
}

/// The number of places that a shift by `amount` moves: the shifter reads
/// the low four bits of the amount.
pub open spec fn shift_count(amount: u16) -> nat {
    (amount % 16) as nat
}

/// Shift left by `shift_count(amount)` places, zeros coming in at the right.
/// Carry is the last bit that left at the left, clear when nothing moved;
/// overflow is cleared.
pub open spec fn shl_spec(a: u16, amount: u16) -> AluResult {
    let wide = a * pow2(shift_count(amount));
    AluResult {
        value: low16(wide),
        flags: flags_of(low16(wide), (wide / 0x10000) % 2 == 1, false),
    }
}

/// Whether a right shift of `a` by `n` places moves a one out last: bit
/// `n - 1` of `a`, and nothing when `n` is zero.
pub open spec fn shifted_out_right(a: u16, n: nat) -> bool {
    n > 0 && (a as nat / pow2((n - 1) as nat)) % 2 == 1
}

/// Logical shift right by `shift_count(amount)` places, zeros coming in at
/// the left. Carry is the last bit that left at the right, clear when
/// nothing moved; overflow is cleared.
pub open spec fn shr_spec(a: u16, amount: u16) -> AluResult {
    let n = shift_count(amount);
    let value = (a as nat / pow2(n)) as u16;
    AluResult { value, flags: flags_of(value, shifted_out_right(a, n), false) }
}

/// Arithmetic shift right by `shift_count(amount)` places: the signed value
/// divided by a power of two and rounded down, so that copies of bit 15 come
/// in at the left. Carry is the last bit that left at the right, clear when
/// nothing moved; overflow is cleared.
pub open spec fn sar_spec(a: u16, amount: u16) -> AluResult {
    let n = shift_count(amount);
    let value = low16(signed(a) / (pow2(n) as int));
    AluResult { value, flags: flags_of(value, shifted_out_right(a, n), false) }
}

/// Reads zero and negative off `value` and packs the flags.
fn finish(value: u16, carry: bool, overflow: bool) -> (r: AluResult)
    ensures
        r == (AluResult { value, flags: flags_of(value, carry, overflow) }),
{
    AluResult {
        value,
        flags: Flags { carry, zero: value == 0, overflow, negative: value >= 0x8000 },
    }
}

/// Adds `b` to `a`.
pub fn add(a: u16, b: u16) -> (r: AluResult)
    ensures
        r == add_spec(a, b),
{
    let sum: u32 = a as u32 + b as u32;
    let value: u16 = (sum % 0x10000) as u16;
    let a_neg = a >= 0x8000;
    let b_neg = b >= 0x8000;
    let overflow = a_neg == b_neg && (value >= 0x8000) != a_neg;
    finish(value, sum > 0xFFFF, overflow)
}

/// Subtracts `b` from `a`.
pub fn sub(a: u16, b: u16) -> (r: AluResult)
    ensures
        r == sub_spec(a, b),
{
    let value: u16 = if a >= b {
        a - b
    } else {
        (0x10000 - (b - a) as u32) as u16
    };
    let a_neg = a >= 0x8000;
    let b_neg = b >= 0x8000;
    let overflow = a_neg != b_neg && (value >= 0x8000) != a_neg;
    finish(value, a < b, overflow)
}

/// The flags of `a - b`; the difference itself is dropped.
pub fn compare(a: u16, b: u16) -> (f: Flags)
    ensures
        f == sub_spec(a, b).flags,
{
    self::sub(a, b).flags
}

/// Multiplies `a` by `b`.
pub fn mul(a: u16, b: u16) -> (r: AluResult)
    ensures
        r == mul_spec(a, b),
{
    assert(a * b <= 0xFFFF * 0xFFFF) by (nonlinear_arith)
        requires
            0 <= a <= 0xFFFF,
            0 <= b <= 0xFFFF,
    ;
    let product: u32 = a as u32 * b as u32;
    let value: u16 = (product % 0x10000) as u16;
    finish(value, product > 0xFFFF, false)
}

/// The absolute value of the signed reading of `a`, at most 0x8000.
fn magnitude_of(a: u16) -> (m: u32)
    ensures
        m == magnitude(signed(a)),
        m <= 0x8000,
        a != 0 ==> m != 0,
{
    if a >= 0x8000 {
        0x10000 - a as u32
    } else {
        a as u32
    }
}

/// The register value that holds `m` or, where `negative` is set, `-m`.
fn with_sign(m: u32, negative: bool) -> (value: u16)
    requires
        m <= 0x8000,
    ensures
        value == low16(if negative { -(m as int) } else { m as int }),
{
    if negative && m != 0 {
        (0x10000 - m) as u16
    } else {
        m as u16
    }
}

/// Divides `a` by `b` as signed numbers, rounding toward zero.
pub fn div(a: u16, b: u16) -> (r: Result<AluResult, ArithmeticFault>)
    ensures
        b == 0 ==> r == Err::<AluResult, ArithmeticFault>(ArithmeticFault::DivisionByZero),
        b != 0 ==> r == Ok::<AluResult, ArithmeticFault>(div_spec(a, b)),
{
    if b == 0 {
        return Err(ArithmeticFault::DivisionByZero);
    }
    let q: u32 = magnitude_of(a) / magnitude_of(b);
    let value = with_sign(q, (a >= 0x8000) != (b >= 0x8000));
    Ok(finish(value, false, false))
}

/// The remainder of `a` by `b` as signed numbers, with the sign of `a`.
pub fn rem(a: u16, b: u16) -> (r: Result<AluResult, ArithmeticFault>)
    ensures
        b == 0 ==> r == Err::<AluResult, ArithmeticFault>(ArithmeticFault::DivisionByZero),
        b != 0 ==> r == Ok::<AluResult, ArithmeticFault>(rem_spec(a, b)),
{
    if b == 0 {
        return Err(ArithmeticFault::DivisionByZero);
    }
    let m: u32 = magnitude_of(a) % magnitude_of(b);
    let value = with_sign(m, a >= 0x8000);
    Ok(finish(value, false, false))
}

/// `a` modulo `b` as signed numbers, with the sign of `b`.
pub fn modulo(a: u16, b: u16) -> (r: Result<AluResult, ArithmeticFault>)
    ensures
        b == 0 ==> r == Err::<AluResult, ArithmeticFault>(ArithmeticFault::DivisionByZero),
        b != 0 ==> r == Ok::<AluResult, ArithmeticFault>(modulo_spec(a, b)),
{
    if b == 0 {
        return Err(ArithmeticFault::DivisionByZero);
    }
    let divisor: u32 = magnitude_of(b);
    let m: u32 = magnitude_of(a) % divisor;
    let a_neg = a >= 0x8000;
    let b_neg = b >= 0x8000;
    let value = if m != 0 && a_neg != b_neg {
        with_sign(divisor - m, b_neg)
    } else {
        with_sign(m, a_neg)
    };
    Ok(finish(value, false, false))
}

/// Bitwise and of `a` and `b`; `carry` is the carry flag before.
pub fn and(a: u16, b: u16, carry: bool) -> (r: AluResult)
    ensures
        r == and_spec(a, b, carry),
{
    finish(a & b, carry, false)
}

/// The flags of `a & b`; the conjunction itself is dropped.
pub fn test(a: u16, b: u16, carry: bool) -> (f: Flags)
    ensures
        f == and_spec(a, b, carry).flags,
{
    and(a, b, carry).flags
}

/// Bitwise or of `a` and `b`; `carry` is the carry flag before.
pub fn or(a: u16, b: u16, carry: bool) -> (r: AluResult)
    ensures
        r == or_spec(a, b, carry),
{
    finish(a | b, carry, false)
}

/// Bitwise exclusive or of `a` and `b`; `carry` is the carry flag before.
pub fn xor(a: u16, b: u16, carry: bool) -> (r: AluResult)
    ensures
        r == xor_spec(a, b, carry),
{
    finish(a ^ b, carry, false)
}

/// Bitwise complement of `a`; `carry` is the carry flag before.
pub fn not(a: u16, carry: bool) -> (r: AluResult)
    ensures
        r == not_spec(a, carry),
{
    let value: u16 = !a;
    assert(!a == (0xFFFFu16 - a) as u16) by (bit_vector);
    finish(value, carry, false)
}

/// Two's complement negation of `a`; `carry` is the carry flag before.
pub fn neg(a: u16, carry: bool) -> (r: AluResult)
    ensures
        r == neg_spec(a, carry),
{
    let value: u16 = if a == 0 {
        0
    } else {
        (0x10000 - a as u32) as u16
    };
    finish(value, carry, false)
}

/// The powers of two that a shift can use: exponents below 16.
proof fn lemma_small_pow2(n: nat)
    requires
        n < 16,
    ensures
        0 < pow2(n) <= 0x8000,
{
    lemma2_to64();
    lemma_pow2_pos(n);
    if n == 0 {
    } else if n == 1 {
    } else if n == 2 {
    } else if n == 3 {
    } else if n == 4 {
    } else if n == 5 {
    } else if n == 6 {
    } else if n == 7 {
    } else if n == 8 {
    } else if n == 9 {
    } else if n == 10 {
    } else if n == 11 {
    } else if n == 12 {
    } else if n == 13 {
    } else if n == 14 {
    } else {
        assert(n == 15);
    }
}

/// Shifts `a` left by the low four bits of `amount`.
pub fn shl(a: u16, amount: u16) -> (r: AluResult)
    ensures
        r == shl_spec(a, amount),
{
    let n: u32 = (amount % 16) as u32;
    proof {
        lemma_small_pow2(n as nat);
        assert(a * pow2(n as nat) <= 0xFFFF * 0x8000) by (nonlinear_arith)
            requires
                0 <= a <= 0xFFFF,
                0 < pow2(n as nat) <= 0x8000,
        ;
        lemma_u32_shl_is_mul(a as u32, n);
    }
    let wide: u32 = (a as u32) << n;
    let value: u16 = (wide % 0x10000) as u16;
    finish(value, (wide / 0x10000) % 2 == 1, false)
}

/// Shifts `a` left by the low four bits of `amount` as a signed number:
/// the arithmetic shift left moves the same bits as `shl` and sets the
/// same flags.
pub fn sal(a: u16, amount: u16) -> (r: AluResult)
    ensures
        r == shl_spec(a, amount),
{
    shl(a, amount)
}

/// Whether a right shift of `a` by `n` places moves a one out last.
fn last_out_right(a: u16, n: u16) -> (carry: bool)
    requires
        n < 16,
    ensures
        carry == shifted_out_right(a, n as nat),
{
    if n == 0 {
        false
    } else {
        proof {
            lemma_u16_shr_is_div(a, (n - 1) as u16);
        }
        (a >> (n - 1)) % 2 == 1
    }
}

/// Shifts `a` right by the low four bits of `amount`, filling with zeros.
pub fn shr(a: u16, amount: u16) -> (r: AluResult)
    ensures
        r == shr_spec(a, amount),
{
    let n: u16 = amount % 16;
    proof {
        lemma_u16_shr_is_div(a, n);
    }
    finish(a >> n, last_out_right(a, n), false)
}

/// Rounding down a negative number is rounding up its distance from -1.
proof fn lemma_floor_of_negative(m: int, p: int)
    requires
        0 <= m,
        0 < p,
    ensures
        (-m - 1) / p == -(m / p) - 1,
{
    let k = m / p;
    let r = m % p;
    lemma_fundamental_div_mod(m, p);
    assert(-m - 1 == (-k - 1) * p + (p - r - 1)) by (nonlinear_arith)
        requires
            m == p * k + r,
    ;
    lemma_fundamental_div_mod_converse_div(-m - 1, p, -k - 1, p - r - 1);
}

/// Shifts `a` right by the low four bits of `amount`, filling with copies of
/// bit 15.
pub fn sar(a: u16, amount: u16) -> (r: AluResult)
    ensures
        r == sar_spec(a, amount),
{
    let n: u16 = amount % 16;
    let value: u16 = if a < 0x8000 {
        proof {
            lemma_small_pow2(n as nat);
            lemma_u16_shr_is_div(a, n);
        }
        a >> n
    } else {
        let m: u16 = 0xFFFF - a;
        proof {
            lemma_small_pow2(n as nat);
            lemma_u16_shr_is_div(m, n);
            lemma_floor_of_negative(m as int, pow2(n as nat) as int);
        }
        0xFFFF - (m >> n)
    };
    finish(value, last_out_right(a, n), false)
}

} // verus!
