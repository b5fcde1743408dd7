//! The barrel shifter: the second ALU operand and its carry-out, from a
//! rotated 8-bit immediate or from a register shifted by an immediate amount
//! or by the low byte of another register.

use vstd::prelude::*;

use crate::bits::{bit_range, bit_set};

verus! {

/// Shift type field value: logical shift left.
pub const LSL: u32 = 0;

/// Shift type field value: logical shift right.
pub const LSR: u32 = 1;

/// Shift type field value: arithmetic shift right.
pub const ASR: u32 = 2;

/// Shift type field value: rotate right (rotate right extended when the
/// immediate amount is zero).
pub const ROR: u32 = 3;

/// The second operand of an ALU operation and the carry-out of the shifter.
#[derive(Clone, Copy, Debug, PartialEq, Eq, Structural)]
pub struct ShifterOperand {
    pub shifter_operand: u32,
    pub carry_out: bool,
}

/// All ones when bit 31 of `v` is set, else zero.
pub open spec fn sign_fill(v: u32) -> u32 {
    if bit_set(v, 31) {
        0xFFFF_FFFF
    } else {
        0
    }
}

/// `v` shifted right by `n` (1 to 31) with copies of bit 31 shifted in.
pub open spec fn asr_spec(v: u32, n: u32) -> u32 {
    (v >> n) | (sign_fill(v) << (32 - n) as u32)
}

/// `v` rotated right by `n` (1 to 31).
pub open spec fn ror_spec(v: u32, n: u32) -> u32 {
    (v >> n) | (v << (32 - n) as u32)
}

/// The 8-bit immediate of `operand2` rotated right by twice its 4-bit rotate
/// field; the carry-out is `carry_in` when the rotation is zero, else bit 31 of
/// the result.
pub open spec fn immediate_operand(operand2: u32, carry_in: bool) -> ShifterOperand {
    let imm = bit_range(operand2, 7, 0);
    let rotation = 2 * bit_range(operand2, 11, 8);
    if rotation == 0 {
        ShifterOperand { shifter_operand: imm, carry_out: carry_in }
    } else {
        let value = ror_spec(imm, rotation as u32);
        ShifterOperand { shifter_operand: value, carry_out: bit_set(value, 31) }
    }
}

/// Shift of `v` by an immediate `amount` (0 to 31) of the given type, in the
/// immediate-shift encoding: LSR and ASR by 0 stand for a shift by 32, and ROR by
/// 0 stands for a rotate right by one through the carry.
pub open spec fn shifted_by_immediate(v: u32, shift: u32, amount: u32, carry_in: bool) -> ShifterOperand {
    if shift == LSL {
        if amount == 0 {
            ShifterOperand { shifter_operand: v, carry_out: carry_in }
        } else {
            ShifterOperand {
                shifter_operand: v << amount,
                carry_out: bit_set(v, (32 - amount) as u32),
            }
        }
    } else if shift == LSR {
        if amount == 0 {
            ShifterOperand { shifter_operand: 0, carry_out: bit_set(v, 31) }
        } else {
            ShifterOperand {
                shifter_operand: v >> amount,
                carry_out: bit_set(v, (amount - 1) as u32),
            }
        }
    } else if shift == ASR {
        if amount == 0 {
            ShifterOperand { shifter_operand: sign_fill(v), carry_out: bit_set(v, 31) }
        } else {
            ShifterOperand {
                shifter_operand: asr_spec(v, amount),
                carry_out: bit_set(v, (amount - 1) as u32),
            }
        }
    } else {
        if amount == 0 {
            ShifterOperand {
                shifter_operand: (v >> 1u32) | ((if carry_in { 1u32 } else { 0u32 }) << 31u32),
                carry_out: bit_set(v, 0),
            }
        } else {
            ShifterOperand {
                shifter_operand: ror_spec(v, amount),
                carry_out: bit_set(v, (amount - 1) as u32),
            }
        }
    }
}

/// Shift of `v` of the given type by `amount`, the low byte of a register: a
/// zero amount passes `v` and the carry through for every type; amounts of 32
/// and more saturate; a rotation goes by `amount` modulo 32.
pub open spec fn shifted_by_register(v: u32, shift: u32, amount: u32, carry_in: bool) -> ShifterOperand {
    if amount == 0 {
        ShifterOperand { shifter_operand: v, carry_out: carry_in }
    } else if shift == ROR {
        let n = amount % 32;
        if n == 0 {
            ShifterOperand { shifter_operand: v, carry_out: bit_set(v, 31) }
        } else {
            ShifterOperand {
                shifter_operand: ror_spec(v, n),
                carry_out: bit_set(v, (n - 1) as u32),
            }
        }
    } else if amount < 32 {
        shifted_by_immediate(v, shift, amount, carry_in)
    } else if shift == LSL {
        ShifterOperand { shifter_operand: 0, carry_out: amount == 32 && bit_set(v, 0) }
    } else if shift == LSR {
        ShifterOperand { shifter_operand: 0, carry_out: amount == 32 && bit_set(v, 31) }
    } else {
        ShifterOperand { shifter_operand: sign_fill(v), carry_out: bit_set(v, 31) }
    }
}

/// Rotates `v` right by `n`, 1 to 31.
fn rotate_right(v: u32, n: u32) -> (r: u32)
    requires
        1 <= n < 32,
    ensures
        r == ror_spec(v, n),
{
    (v >> n) | (v << (32 - n))
}

/// Whether bit `i` of `v` is set.
fn test_bit(v: u32, i: u32) -> (r: bool)
    requires
        i < 32,
    ensures
        r == bit_set(v, i),
{
    (v >> i) & 1 == 1
}

/// The immediate form of the second operand: the low 8 bits of `operand2`
/// rotated right by twice bits 11..8.
pub fn rotated_immediate(operand2: u32, carry_in: bool) -> (r: ShifterOperand)
    ensures
        r == immediate_operand(operand2, carry_in),
{
    let imm = operand2 & 0xFF;
    let rotate = (operand2 >> 8u32) & 0xF;
    assert(imm == bit_range(operand2, 7, 0) && rotate == bit_range(operand2, 11, 8)) by (bit_vector)
        requires
            imm == operand2 & 0xFF,
            rotate == (operand2 >> 8u32) & 0xF,
    ;
    assert(rotate < 16) by (bit_vector)
        requires
            rotate == (operand2 >> 8u32) & 0xF,
    ;
    if rotate == 0 {
        ShifterOperand { shifter_operand: imm, carry_out: carry_in }
    } else {
        let value = rotate_right(imm, 2 * rotate);
        ShifterOperand { shifter_operand: value, carry_out: test_bit(value, 31) }
    }
}

/// Shifts `v` by an immediate `amount` in the immediate-shift encoding.
pub fn shift_by_immediate(v: u32, shift: u32, amount: u32, carry_in: bool) -> (r: ShifterOperand)
    requires
        shift < 4,
        amount < 32,
    ensures
        r == shifted_by_immediate(v, shift, amount, carry_in),
{
    let negative = test_bit(v, 31);
    if shift == LSL {
        if amount == 0 {
            ShifterOperand { shifter_operand: v, carry_out: carry_in }
        } else {
            ShifterOperand { shifter_operand: v << amount, carry_out: test_bit(v, 32 - amount) }
        }
    } else if shift == LSR {
        if amount == 0 {
            ShifterOperand { shifter_operand: 0, carry_out: negative }
        } else {
            ShifterOperand { shifter_operand: v >> amount, carry_out: test_bit(v, amount - 1) }
        }
    } else if shift == ASR {
        let fill: u32 = if negative {
            0xFFFF_FFFF
        } else {
            0
        };
        if amount == 0 {
            ShifterOperand { shifter_operand: fill, carry_out: negative }
        } else {
            ShifterOperand {
                shifter_operand: (v >> amount) | (fill << (32 - amount)),
                carry_out: test_bit(v, amount - 1),
            }
        }
    } else {
        if amount == 0 {
            let top: u32 = if carry_in {
                1
            } else {
                0
            };
            ShifterOperand { shifter_operand: (v >> 1u32) | (top << 31u32), carry_out: test_bit(v, 0) }
        } else {
            ShifterOperand {
                shifter_operand: rotate_right(v, amount),
                carry_out: test_bit(v, amount - 1),
            }
        }
    }
}

/// Shifts `v` by `amount`, the low byte of a register.
pub fn shift_by_register(v: u32, shift: u32, amount: u32, carry_in: bool) -> (r: ShifterOperand)
    requires
        shift < 4,
        amount < 256,
    ensures
        r == shifted_by_register(v, shift, amount, carry_in),
{
    if amount == 0 {
        ShifterOperand { shifter_operand: v, carry_out: carry_in }
    } else if shift == ROR {
        let n = amount % 32;
        if n == 0 {
            ShifterOperand { shifter_operand: v, carry_out: test_bit(v, 31) }
        } else {
            ShifterOperand { shifter_operand: rotate_right(v, n), carry_out: test_bit(v, n - 1) }
        }
    } else if amount < 32 {
        shift_by_immediate(v, shift, amount, carry_in)
    } else if shift == LSL {
        ShifterOperand { shifter_operand: 0, carry_out: amount == 32 && test_bit(v, 0) }
    } else if shift == LSR {
        ShifterOperand { shifter_operand: 0, carry_out: amount == 32 && test_bit(v, 31) }
    } else {
        let negative = test_bit(v, 31);
        let fill: u32 = if negative {
            0xFFFF_FFFF
        } else {
            0
        };
        ShifterOperand { shifter_operand: fill, carry_out: negative }
    }
}

/// A logical shift left by an immediate zero passes the value and the carry
/// through.
pub proof fn lemma_lsl_zero_keeps_carry(v: u32, carry_in: bool)
    ensures
        shifted_by_immediate(v, LSL, 0, carry_in) == (ShifterOperand {
            shifter_operand: v,
            carry_out: carry_in,
        }),
{
}

/// In the immediate-shift encoding a logical shift right by 0 is a logical
/// shift right by 32, and an arithmetic shift right by 0 is an arithmetic
/// shift right by 32.
pub proof fn lemma_right_shift_zero_is_shift_by_32(v: u32, carry_in: bool)
    ensures
        shifted_by_immediate(v, LSR, 0, carry_in) == shifted_by_register(v, LSR, 32, carry_in),
        shifted_by_immediate(v, ASR, 0, carry_in) == shifted_by_register(v, ASR, 32, carry_in),
        shifted_by_immediate(v, LSR, 0, carry_in).shifter_operand == 0,
{
}

/// In the immediate-shift encoding a rotate right by 0 is a rotate right by one
/// through the carry: the carry enters at bit 31 and bit 0 leaves as the
/// carry-out.
pub proof fn lemma_ror_zero_is_rrx(v: u32, carry_in: bool)
    ensures
        shifted_by_immediate(v, ROR, 0, carry_in).shifter_operand == (v >> 1u32) | ((if carry_in {
            0x8000_0000u32
        } else {
            0u32
        })),
        shifted_by_immediate(v, ROR, 0, carry_in).carry_out == (v & 1 == 1),
{
    assert((v >> 1u32) | (1u32 << 31u32) == (v >> 1u32) | 0x8000_0000u32) by (bit_vector);
    assert((v >> 1u32) | (0u32 << 31u32) == (v >> 1u32) | 0u32) by (bit_vector);
    assert(((v >> 0u32) & 1 == 1) == (v & 1 == 1)) by (bit_vector);
}

/// A register-specified shift by 0 leaves the value and the carry unchanged,
/// whatever the shift type.
pub proof fn lemma_register_shift_zero_keeps_carry(v: u32, shift: u32, carry_in: bool)
    ensures
        shifted_by_register(v, shift, 0, carry_in) == (ShifterOperand {
            shifter_operand: v,
            carry_out: carry_in,
        }),
{
}

/// A register-specified shift by 1 to 31 agrees with the immediate shift by the
/// same amount, except that a rotation uses the amount modulo 32.
pub proof fn lemma_register_shift_below_32(v: u32, shift: u32, amount: u32, carry_in: bool)
    requires
        1 <= amount < 32,
    ensures
        shifted_by_register(v, shift, amount, carry_in) == shifted_by_immediate(
            v,
            shift,
            amount,
            carry_in,
        ),
{
}

/// Register-specified shifts by 32 or more saturate: LSL and LSR give 0 with
/// the last bit shifted out as carry at exactly 32 and no carry beyond; ASR
/// gives the sign fill with bit 31 as carry; ROR by a multiple of 32 leaves the
/// value and carries out its bit 31.
pub proof fn lemma_register_shift_saturates(v: u32, amount: u32, carry_in: bool)
    requires
        amount >= 32,
    ensures
        shifted_by_register(v, LSL, amount, carry_in) == (ShifterOperand {
            shifter_operand: 0,
            carry_out: amount == 32 && v & 1 == 1,
        }),
        shifted_by_register(v, LSR, amount, carry_in) == (ShifterOperand {
            shifter_operand: 0,
            carry_out: amount == 32 && v >= 0x8000_0000,
        }),
        shifted_by_register(v, ASR, amount, carry_in) == (ShifterOperand {
            shifter_operand: if v >= 0x8000_0000 {
                0xFFFF_FFFFu32
            } else {
                0u32
            },
            carry_out: v >= 0x8000_0000,
        }),
        amount % 32 == 0 ==> shifted_by_register(v, ROR, amount, carry_in) == (ShifterOperand {
            shifter_operand: v,
            carry_out: v >= 0x8000_0000,
        }),
{
    assert(((v >> 0u32) & 1 == 1) == (v & 1 == 1)) by (bit_vector);
    assert(((v >> 31u32) & 1 == 1) == (v >= 0x8000_0000)) by (bit_vector);
}

} // verus!
