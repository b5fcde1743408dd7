//! The arithmetic-logic unit of the data-processing instructions: the sixteen
//! opcodes with their N, Z, C and V results, in two's-complement arithmetic
//! with unsigned carry and signed overflow.

use vstd::prelude::*;

verus! {

/// 2^32, the modulus of word arithmetic.
pub const WORD_MODULUS: u64 = 0x1_0000_0000;

/// `x` reduced modulo 2^32.
pub open spec fn wrap(x: int) -> u32 {
    (x % (WORD_MODULUS as int)) as u32
}

/// Bit 31 of `x`, the sign in two's complement.
pub open spec fn negative(x: u32) -> bool {
    x >= 0x8000_0000
}

/// `x` read as a two's-complement signed value.
pub open spec fn signed(x: u32) -> int {
    if negative(x) {
        x - WORD_MODULUS
    } else {
        x as int
    }
}

/// Whether `x` is representable as a signed 32-bit value.
pub open spec fn fits_signed(x: int) -> bool {
    -0x8000_0000 <= x < 0x8000_0000
}

/// The result of an ALU operation and the flags it computes.
#[derive(Clone, Copy, Debug, PartialEq, Eq, Structural)]
pub struct AluOutput {
    pub result: u32,
    pub n: bool,
    pub z: bool,
    pub c: bool,
    pub v: bool,
}

/// A logical operation: N and Z from the result, C from the shifter, V kept.
pub open spec fn logical_output(result: u32, shifter_carry: bool, v: bool) -> AluOutput {
    AluOutput { result, n: negative(result), z: result == 0, c: shifter_carry, v }
}

/// `a + b + carry_in`: C is the unsigned carry out of bit 31, V the signed
/// overflow.
pub open spec fn addition_output(a: u32, b: u32, carry_in: int) -> AluOutput {
    let result = wrap(a + b + carry_in);
    AluOutput {
        result,
        n: negative(result),
        z: result == 0,
        c: a + b + carry_in >= WORD_MODULUS,
        v: !fits_signed(signed(a) + signed(b) + carry_in),
    }
}

/// `a - b - borrow`: C is set when no borrow occurs (the minuend is at least
/// the subtrahend), V is the signed overflow.
pub open spec fn subtraction_output(a: u32, b: u32, borrow: int) -> AluOutput {
    let result = wrap(a - b - borrow);
    AluOutput {
        result,
        n: negative(result),
        z: result == 0,
        c: a >= b + borrow,
        v: !fits_signed(signed(a) - signed(b) - borrow),
    }
}

/// What data-processing `opcode` computes from the first operand `a`, the
/// shifter operand `b`, the shifter carry-out and the current C and V flags.
/// The carrying forms take the C flag as carry in (ADC) or its complement as
/// borrow (SBC, RSC); RSB and RSC subtract `a` from `b`. TST, TEQ, CMP and CMN
/// compute as AND, EOR, SUB and ADD.
pub open spec fn alu_output(opcode: u32, a: u32, b: u32, shifter_carry: bool, c: bool, v: bool) -> AluOutput {
    let carry: int = if c {
        1
    } else {
        0
    };
    if opcode == 0x0 || opcode == 0x8 {
        logical_output(a & b, shifter_carry, v)
    } else if opcode == 0x1 || opcode == 0x9 {
        logical_output(a ^ b, shifter_carry, v)
    } else if opcode == 0x2 || opcode == 0xA {
        subtraction_output(a, b, 0)
    } else if opcode == 0x3 {
        subtraction_output(b, a, 0)
    } else if opcode == 0x4 || opcode == 0xB {
        addition_output(a, b, 0)
    } else if opcode == 0x5 {
        addition_output(a, b, carry)
    } else if opcode == 0x6 {
        subtraction_output(a, b, 1 - carry)
    } else if opcode == 0x7 {
        subtraction_output(b, a, 1 - carry)
    } else if opcode == 0xC {
        logical_output(a | b, shifter_carry, v)
    } else if opcode == 0xD {
        logical_output(b, shifter_carry, v)
    } else if opcode == 0xE {
        logical_output(a & !b, shifter_carry, v)
    } else {
        logical_output(!b, shifter_carry, v)
    }
}

/// Whether the opcode only sets flags (TST, TEQ, CMP, CMN) and writes no
/// destination register.
pub open spec fn is_test_opcode(opcode: u32) -> bool {
    0x8 <= opcode <= 0xB
}

proof fn lemma_sign_bit(x: u32)
    ensures
        (x & 0x8000_0000 != 0) == negative(x),
{
    assert((x & 0x8000_0000 != 0) == (x >= 0x8000_0000)) by (bit_vector);
}

/// Signed overflow of an addition, from the signs: the operands agree in sign
/// and the result does not. For `result` the wrapped sum `a + b` or
/// `a + b + 1`, that is exactly when the signed sum does not fit in 32 bits.
pub fn check_add_overflow(a: u32, b: u32, result: u32) -> (r: bool)
    ensures
        r == (negative(a) == negative(b) && negative(a) != negative(result)),
        result == wrap(a + b) ==> (r <==> !fits_signed(signed(a) + signed(b))),
        result == wrap(a + b + 1) ==> (r <==> !fits_signed(signed(a) + signed(b) + 1)),
{
    proof {
        lemma_sign_bit(a);
        lemma_sign_bit(b);
        lemma_sign_bit(result);
    }
    let a_sign = (a & 0x8000_0000) != 0;
    let b_sign = (b & 0x8000_0000) != 0;
    let result_sign = (result & 0x8000_0000) != 0;
    (a_sign == b_sign) && (a_sign != result_sign)
}

/// Signed overflow of a subtraction, from the signs: the operands differ in
/// sign and the result's sign differs from the minuend's. For `result` the
/// wrapped difference `a - b` or `a - b - 1`, that is exactly when the signed
/// difference does not fit in 32 bits.
pub fn check_sub_overflow(a: u32, b: u32, result: u32) -> (r: bool)
    ensures
        r == (negative(a) != negative(b) && negative(a) != negative(result)),
        result == wrap(a - b) ==> (r <==> !fits_signed(signed(a) - signed(b))),
        result == wrap(a - b - 1) ==> (r <==> !fits_signed(signed(a) - signed(b) - 1)),
{
    proof {
        lemma_sign_bit(a);
        lemma_sign_bit(b);
        lemma_sign_bit(result);
    }
    let a_sign = (a & 0x8000_0000) != 0;
    let b_sign = (b & 0x8000_0000) != 0;
    let result_sign = (result & 0x8000_0000) != 0;
    (a_sign != b_sign) && (a_sign != result_sign)
}

/// Unsigned carry out of bit 31 of an addition, from the signs of the operands
/// and the result. For `result` the wrapped sum `a + b` or `a + b + 1`, that is
/// exactly when the unsigned sum reaches 2^32.
pub fn check_carry(a: u32, b: u32, result: u32) -> (r: bool)
    ensures
        r == ((negative(a) && negative(b)) || (negative(a) && !negative(result)) || (negative(b)
            && !negative(result))),
        result == wrap(a + b) ==> (r <==> a + b >= WORD_MODULUS),
        result == wrap(a + b + 1) ==> (r <==> a + b + 1 >= WORD_MODULUS),
{
    proof {
        lemma_sign_bit(a);
        lemma_sign_bit(b);
        lemma_sign_bit(result);
    }
    let a_sign = (a & 0x8000_0000) != 0;
    let b_sign = (b & 0x8000_0000) != 0;
    let result_sign = (result & 0x8000_0000) != 0;
    (a_sign && b_sign) || (a_sign && !result_sign) || (b_sign && !result_sign)
}

/// `a + b + carry_in` with its flags.
fn add_with_carry(a: u32, b: u32, carry_in: bool) -> (r: AluOutput)
    ensures
        r == addition_output(a, b, if carry_in { 1 } else { 0 }),
{
    let cin: u32 = if carry_in {
        1
    } else {
        0
    };
    let result = a.wrapping_add(b).wrapping_add(cin);
    assert(result == wrap(a + b + cin));
    AluOutput {
        result,
        n: result >= 0x8000_0000,
        z: result == 0,
        c: check_carry(a, b, result),
        v: check_add_overflow(a, b, result),
    }
}

/// `a - b - borrow` with its flags.
fn subtract_with_borrow(a: u32, b: u32, borrow: bool) -> (r: AluOutput)
    ensures
        r == subtraction_output(a, b, if borrow { 1 } else { 0 }),
{
    let bw: u32 = if borrow {
        1
    } else {
        0
    };
    let result = a.wrapping_sub(b).wrapping_sub(bw);
    assert(result == wrap(a - b - bw));
    AluOutput {
        result,
        n: result >= 0x8000_0000,
        z: result == 0,
        c: (a as u64) >= (b as u64) + (bw as u64),
        v: check_sub_overflow(a, b, result),
    }
}

/// ADD and SUB flags as the hardware forms them agree with the arithmetic
/// definitions: the result is the wrapped sum or difference; V is set when the
/// operands' signs agree (ADD) or differ (SUB) and the result's sign differs
/// from the first operand's; ADD's C is the carry out of bit 31 and SUB's C is
/// set exactly when `a >= b`.
pub proof fn lemma_add_sub_flags(a: u32, b: u32, shifter_carry: bool, c: bool, v: bool)
    ensures
        alu_output(0x4, a, b, shifter_carry, c, v).result == a.wrapping_add(b),
        alu_output(0x4, a, b, shifter_carry, c, v).v == (negative(a) == negative(b) && negative(a)
            != negative(a.wrapping_add(b))),
        alu_output(0x4, a, b, shifter_carry, c, v).c == ((negative(a) && negative(b)) || (negative(
            a,
        ) && !negative(a.wrapping_add(b))) || (negative(b) && !negative(a.wrapping_add(b)))),
        alu_output(0x2, a, b, shifter_carry, c, v).result == a.wrapping_sub(b),
        alu_output(0x2, a, b, shifter_carry, c, v).v == (negative(a) != negative(b) && negative(a)
            != negative(a.wrapping_sub(b))),
        alu_output(0x2, a, b, shifter_carry, c, v).c == (a >= b),
{
}

/// Computes data-processing `opcode` on the first operand `a` and the shifter
/// operand `b`, given the shifter carry-out and the current C and V flags.
pub fn alu_operate(opcode: u32, a: u32, b: u32, shifter_carry: bool, c: bool, v: bool) -> (r: AluOutput)
    requires
        opcode < 16,
    ensures
        r == alu_output(opcode, a, b, shifter_carry, c, v),
{
    if opcode == 0x0 || opcode == 0x8 {
        let result = a & b;
        AluOutput { result, n: result >= 0x8000_0000, z: result == 0, c: shifter_carry, v }
    } else if opcode == 0x1 || opcode == 0x9 {
        let result = a ^ b;
        AluOutput { result, n: result >= 0x8000_0000, z: result == 0, c: shifter_carry, v }
    } else if opcode == 0x2 || opcode == 0xA {
        subtract_with_borrow(a, b, false)
    } else if opcode == 0x3 {
        subtract_with_borrow(b, a, false)
    } else if opcode == 0x4 || opcode == 0xB {
        add_with_carry(a, b, false)
    } else if opcode == 0x5 {
        add_with_carry(a, b, c)
    } else if opcode == 0x6 {
        subtract_with_borrow(a, b, !c)
    } else if opcode == 0x7 {
        subtract_with_borrow(b, a, !c)
    } else {
        let result = if opcode == 0xC {
            a | b
        } else if opcode == 0xD {
            b
        } else if opcode == 0xE {
            a & !b
        } else {
            !b
        };
        AluOutput { result, n: result >= 0x8000_0000, z: result == 0, c: shifter_carry, v }
    }
}

} // verus!
