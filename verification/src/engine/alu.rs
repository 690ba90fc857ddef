//! The arithmetic/logic unit: pure functions over register values and
//! immediates, with wrapping arithmetic, shift amounts taken modulo 32, and
//! the architecturally mandated results for division by zero and signed
//! division overflow.

use vstd::prelude::*;
use vstd::arithmetic::div_mod::lemma_fundamental_div_mod_converse;
use crate::word::{wrap32, as_signed};

verus! {

/// The magnitude of an integer.
pub open spec fn iabs(x: int) -> int {
    if x < 0 { -x } else { x }
}

/// Truncating (round-toward-zero) division, as the architecture defines the
/// signed quotient.
pub open spec fn tdiv(x: int, d: int) -> int {
    if (x < 0) != (d < 0) {
        -(iabs(x) / iabs(d))
    } else {
        iabs(x) / iabs(d)
    }
}

/// The remainder matching truncating division: its magnitude is the
/// magnitude remainder and its sign is the dividend's.
pub open spec fn trem(x: int, d: int) -> int {
    if x < 0 {
        -(iabs(x) % iabs(d))
    } else {
        iabs(x) % iabs(d)
    }
}

/// The arithmetic right shift of a word's signed reading.
pub open spec fn sra32(a: u32, sh: u32) -> u32 {
    ((a as i32) >> sh) as u32
}

/// The result of a register-register operation for a funct3/funct7 pair, or
/// `None` when the pair selects no defined operation (multiply/divide pairs
/// are defined only with the multiply extension enabled).
pub open spec fn spec_op_reg(a: u32, b: u32, funct3: u8, funct7: u8, m_ext: bool)
    -> Option<u32> {
    if funct7 == 0 {
        if funct3 == 0 { Some(wrap32(a + b)) }
        else if funct3 == 1 { Some(a << (b % 32)) }
        else if funct3 == 2 { Some(if as_signed(a) < as_signed(b) { 1u32 } else { 0u32 }) }
        else if funct3 == 3 { Some(if a < b { 1u32 } else { 0u32 }) }
        else if funct3 == 4 { Some(a ^ b) }
        else if funct3 == 5 { Some(a >> (b % 32)) }
        else if funct3 == 6 { Some(a | b) }
        else { Some(a & b) }
    } else if funct7 == 0x20 {
        if funct3 == 0 { Some(wrap32(a - b)) }
        else if funct3 == 5 { Some(sra32(a, b % 32)) }
        else { None }
    } else if funct7 == 1 && m_ext {
        if funct3 == 0 { Some(wrap32(a * b)) }
        else if funct3 == 1 { Some(wrap32(as_signed(a) * as_signed(b) / 0x1_0000_0000)) }
        else if funct3 == 2 { Some(wrap32(as_signed(a) * b / 0x1_0000_0000)) }
        else if funct3 == 3 { Some(wrap32(a * b / 0x1_0000_0000)) }
        else if funct3 == 4 { Some(if b == 0 { u32::MAX } else {
            wrap32(tdiv(as_signed(a), as_signed(b)))
        }) }
        else if funct3 == 5 { Some(if b == 0 { u32::MAX } else { wrap32(a as int / b as int) }) }
        else if funct3 == 6 { Some(if b == 0 { a } else {
            wrap32(trem(as_signed(a), as_signed(b)))
        }) }
        else { Some(if b == 0 { a } else { wrap32(a as int % b as int) }) }
    } else {
        None
    }
}

/// The result of a register-immediate operation for a funct3 and a decoded
/// I-type immediate, or `None` when the encoding selects no defined
/// operation (the shift immediates carry the shift amount and a second
/// discriminator in their upper bits).
pub open spec fn spec_op_imm(a: u32, funct3: u8, imm: i32) -> Option<u32> {
    if funct3 == 0 { Some(wrap32(a + imm)) }
    else if funct3 == 1 {
        if 0 <= imm < 32 { Some(a << (imm as u32 % 32)) } else { None }
    }
    else if funct3 == 2 { Some(if as_signed(a) < imm { 1u32 } else { 0u32 }) }
    else if funct3 == 3 { Some(if a < wrap32(imm as int) { 1u32 } else { 0u32 }) }
    else if funct3 == 4 { Some(a ^ wrap32(imm as int)) }
    else if funct3 == 5 {
        if 0 <= imm < 32 { Some(a >> (imm as u32 % 32)) }
        else if 1024 <= imm < 1056 { Some(sra32(a, (imm - 1024) as u32 % 32)) }
        else { None }
    }
    else if funct3 == 6 { Some(a | wrap32(imm as int)) }
    else { Some(a & wrap32(imm as int)) }
}

/// The arithmetic/logic unit.
pub struct Alu;

impl Alu {
    /// The magnitude of the word's two's-complement reading, as a word.
    fn abs_word(x: u32) -> (r: u32)
        ensures
            r as int == iabs(as_signed(x)),
    {
        if x >= 0x8000_0000 {
            (0xffff_ffffu32 - x) + 1
        } else {
            x
        }
    }

    /// Wrapping addition.
    pub fn add(data1: u32, data2: u32) -> (r: u32)
        ensures
            r == wrap32(data1 + data2),
    {
        data1.wrapping_add(data2)
    }

    /// Wrapping addition of a signed offset.
    pub fn add_signed(data1: u32, data2: i32) -> (r: u32)
        ensures
            r == wrap32(data1 + data2),
    {
        data1.wrapping_add_signed(data2)
    }

    /// Wrapping subtraction.
    pub fn sub(data1: u32, data2: u32) -> (r: u32)
        ensures
            r == wrap32(data1 - data2),
    {
        data1.wrapping_sub(data2)
    }

    /// Bitwise exclusive or.
    pub fn xor(data1: u32, data2: u32) -> (r: u32)
        ensures
            r == (data1 ^ data2),
    {
        data1 ^ data2
    }

    /// Bitwise or.
    pub fn or(data1: u32, data2: u32) -> (r: u32)
        ensures
            r == (data1 | data2),
    {
        data1 | data2
    }

    /// Bitwise and.
    pub fn and(data1: u32, data2: u32) -> (r: u32)
        ensures
            r == (data1 & data2),
    {
        data1 & data2
    }

    /// Logical left shift; the shift amount is taken modulo 32.
    pub fn shl_logic(data: u32, shift: u32) -> (r: u32)
        ensures
            r == (data << (shift % 32)),
    {
        data << (shift % 32)
    }

    /// Logical right shift; the shift amount is taken modulo 32.
    pub fn shr_logic(data: u32, shift: u32) -> (r: u32)
        ensures
            r == (data >> (shift % 32)),
    {
        data >> (shift % 32)
    }

    /// Arithmetic right shift; the shift amount is taken modulo 32.
    pub fn shr_ar(data: i32, shift: u32) -> (r: u32)
        ensures
            r == (data >> (shift % 32)) as u32,
    {
        (data >> (shift % 32)) as u32
    }

    /// One when strictly less as signed values, else zero.
    pub fn set_less_than(data: i32, cmp_data: i32) -> (r: u32)
        ensures
            r == (if data < cmp_data { 1u32 } else { 0u32 }),
    {
        if data < cmp_data { 1 } else { 0 }
    }

    /// One when strictly less as unsigned values, else zero.
    pub fn set_less_than_unsigned(data: u32, cmp_data: u32) -> (r: u32)
        ensures
            r == (if data < cmp_data { 1u32 } else { 0u32 }),
    {
        if data < cmp_data { 1 } else { 0 }
    }

    /// The low word of the product; the same word whether the operands are
    /// read signed or unsigned.
    pub fn mul(data1: u32, data2: u32) -> (r: u32)
        ensures
            r == wrap32(data1 * data2),
            r == wrap32(as_signed(data1) * as_signed(data2)),
    {
        proof {
            lemma_mul_low_signed_unsigned(data1, data2);
        }
        data1.wrapping_mul(data2)
    }

    /// The high word of the product of two signed readings.
    pub fn mulh(data1: u32, data2: u32) -> (r: u32)
        ensures
            r == wrap32(as_signed(data1) * as_signed(data2) / 0x1_0000_0000),
    {
        let neg = (data1 >= 0x8000_0000) != (data2 >= 0x8000_0000);
        let a = Self::abs_word(data1) as u64;
        let b = Self::abs_word(data2) as u64;
        proof {
            assert(a * b <= 0x8000_0000 * 0x8000_0000) by (nonlinear_arith)
                requires a <= 0x8000_0000 && b <= 0x8000_0000;
            lemma_signed_product(as_signed(data1), as_signed(data2));
        }
        let m: u64 = a * b;
        Self::high_word(m, neg)
    }

    /// The high word of the product of two unsigned readings.
    pub fn mulh_unsigned(data1: u32, data2: u32) -> (r: u32)
        ensures
            r as int == (data1 * data2) / 0x1_0000_0000,
    {
        proof {
            assert((data1 as u64) * (data2 as u64) <= 0xffff_ffff * 0xffff_ffff)
                by (nonlinear_arith)
                requires data1 <= 0xffff_ffffu64 && data2 <= 0xffff_ffffu64;
        }
        let m: u64 = (data1 as u64) * (data2 as u64);
        (m / 0x1_0000_0000) as u32
    }

    /// The high word of the product of a signed first and an unsigned second
    /// reading.
    pub fn mulh_signed_unsigned(data1: u32, data2: u32) -> (r: u32)
        ensures
            r == wrap32(as_signed(data1) * data2 / 0x1_0000_0000),
    {
        let neg = data1 >= 0x8000_0000;
        let a = Self::abs_word(data1) as u64;
        let b = data2 as u64;
        proof {
            assert(a * b <= 0x8000_0000 * 0xffff_ffff) by (nonlinear_arith)
                requires a <= 0x8000_0000 && b <= 0xffff_ffffu64;
            lemma_signed_product(as_signed(data1), data2 as int);
        }
        let m: u64 = a * b;
        Self::high_word(m, neg)
    }

    /// The word holding bits 63:32 of the signed 64-bit value whose magnitude
    /// is `m` and whose sign `neg` gives.
    fn high_word(m: u64, neg: bool) -> (r: u32)
        requires
            m <= 0x4000_0000_0000_0000 + 0x4000_0000_0000_0000,
        ensures
            r == wrap32((if neg { -(m as int) } else { m as int }) / 0x1_0000_0000),
    {
        if m == 0 {
            0
        } else if neg {
            let q = (m - 1) / 0x1_0000_0000;
            proof {
                lemma_neg_div(m as int, q as int);
            }
            (0xffff_ffffu64 - q) as u32
        } else {
            (m / 0x1_0000_0000) as u32
        }
    }

    /// Signed division: division by zero yields all ones; on the one
    /// overflowing pair the quotient is the dividend; otherwise the
    /// truncating quotient.
    pub fn div(data1: u32, data2: u32) -> (r: u32)
        ensures
            data2 == 0 ==> r == u32::MAX,
            data2 != 0 ==> r == wrap32(tdiv(as_signed(data1), as_signed(data2))),
    {
        if data2 == 0 {
            u32::MAX
        } else {
            let neg = (data1 >= 0x8000_0000) != (data2 >= 0x8000_0000);
            let a = Self::abs_word(data1);
            let b = Self::abs_word(data2);
            let q = a / b;
            if neg {
                0u32.wrapping_sub(q)
            } else {
                q
            }
        }
    }

    /// Unsigned division; division by zero yields all ones.
    pub fn div_unsigned(data1: u32, data2: u32) -> (r: u32)
        ensures
            data2 == 0 ==> r == u32::MAX,
            data2 != 0 ==> r as int == data1 as int / data2 as int,
    {
        if data2 == 0 {
            u32::MAX
        } else {
            data1 / data2
        }
    }

    /// Signed remainder: for a zero divisor the remainder is the dividend;
    /// otherwise the truncating remainder, signed like the dividend.
    pub fn rem(data1: u32, data2: u32) -> (r: u32)
        ensures
            data2 == 0 ==> r == data1,
            data2 != 0 ==> r == wrap32(trem(as_signed(data1), as_signed(data2))),
    {
        if data2 == 0 {
            data1
        } else {
            let a = Self::abs_word(data1);
            let b = Self::abs_word(data2);
            let m = a % b;
            if data1 >= 0x8000_0000 {
                0u32.wrapping_sub(m)
            } else {
                m
            }
        }
    }

    /// Unsigned remainder; for a zero divisor the remainder is the dividend.
    pub fn rem_unsigned(data1: u32, data2: u32) -> (r: u32)
        ensures
            data2 == 0 ==> r == data1,
            data2 != 0 ==> r as int == data1 as int % data2 as int,
    {
        if data2 == 0 {
            data1
        } else {
            data1 % data2
        }
    }
}

/// The product of two signed readings equals their common magnitude product
/// with the sign the operands' signs give.
proof fn lemma_signed_product(s1: int, s2: int)
    ensures
        s1 * s2 == (if (s1 < 0) != (s2 < 0) { -(iabs(s1) * iabs(s2)) } else {
            iabs(s1) * iabs(s2)
        }),
{
    assert(s1 * s2 == (if (s1 < 0) != (s2 < 0) { -(iabs(s1) * iabs(s2)) } else {
        iabs(s1) * iabs(s2)
    })) by (nonlinear_arith);
}

/// The low words of the signed and the unsigned product agree.
proof fn lemma_mul_low_signed_unsigned(x: u32, y: u32)
    ensures
        wrap32(x * y) == wrap32(as_signed(x) * as_signed(y)),
{
    let m: int = 0x1_0000_0000;
    let a: int = if x >= 0x8000_0000 { 1 } else { 0 };
    let b: int = if y >= 0x8000_0000 { 1 } else { 0 };
    assert((x - a * m) * (y - b * m) == x * y + m * (a * b * m - a * y - b * x))
        by (nonlinear_arith);
    assert(as_signed(x) * as_signed(y) == x * y + m * (a * b * m - a * y - b * x));
    let k: int = a * b * m - a * y - b * x;
    assert((x * y + m * k) % m == (x * y) % m) by {
        vstd::arithmetic::div_mod::lemma_mod_multiples_vanish(k, x as int * y as int, m);
    }
}

/// Euclidean division of the negated magnitude by 2^32, expressed through
/// the rounded-down quotient of `m - 1`.
proof fn lemma_neg_div(m: int, q: int)
    requires
        m >= 1,
        q == (m - 1) / 0x1_0000_0000,
    ensures
        -m / 0x1_0000_0000 == -q - 1,
{
    let d: int = 0x1_0000_0000;
    let j = (m - 1) % d;
    vstd::arithmetic::div_mod::lemma_fundamental_div_mod(m - 1, d);
    assert(m - 1 == d * q + j);
    assert(-m == (-q - 1) * d + (d - 1 - j)) by (nonlinear_arith)
        requires m - 1 == d * q + j && d == 0x1_0000_0000;
    lemma_fundamental_div_mod_converse(-m, d, -q - 1, d - 1 - j);
}

} // verus!
