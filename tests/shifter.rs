use armv4t::{rotated_immediate, shift_by_immediate, shift_by_register, ShifterOperand};

const LSL: u32 = 0;
const LSR: u32 = 1;
const ASR: u32 = 2;
const ROR: u32 = 3;

fn op(value: u32, carry: bool) -> ShifterOperand {
    ShifterOperand { shifter_operand: value, carry_out: carry }
}

#[test]
fn immediate_rotation() {
    assert_eq!(rotated_immediate(0x0FF, true), op(0xFF, true));
    assert_eq!(rotated_immediate(0x0FF, false), op(0xFF, false));
    assert_eq!(rotated_immediate(0x102, false), op(0x8000_0000, true));
    assert_eq!(rotated_immediate(0xF10, true), op(0x40, false));
}

#[test]
fn lsl_zero_keeps_carry() {
    assert_eq!(shift_by_immediate(0x8000_0001, LSL, 0, true), op(0x8000_0001, true));
    assert_eq!(shift_by_immediate(0x8000_0001, LSL, 0, false), op(0x8000_0001, false));
    assert_eq!(shift_by_immediate(0x8000_0001, LSL, 1, false), op(2, true));
    assert_eq!(shift_by_immediate(0x4000_0000, LSL, 2, false), op(0, true));
    assert_eq!(shift_by_immediate(0x2000_0000, LSL, 2, true), op(0x8000_0000, false));
}

#[test]
fn immediate_right_shifts_by_zero_mean_32() {
    assert_eq!(shift_by_immediate(0x8000_0000, LSR, 0, false), op(0, true));
    assert_eq!(shift_by_immediate(0x7FFF_FFFF, LSR, 0, true), op(0, false));
    assert_eq!(shift_by_immediate(0x8000_0000, ASR, 0, false), op(0xFFFF_FFFF, true));
    assert_eq!(shift_by_immediate(0x7FFF_FFFF, ASR, 0, true), op(0, false));
    assert_eq!(shift_by_immediate(0x8000_0000, LSR, 0, false), shift_by_register(0x8000_0000, LSR, 32, false));
}

#[test]
fn immediate_right_shifts() {
    assert_eq!(shift_by_immediate(0x0000_0003, LSR, 1, false), op(1, true));
    assert_eq!(shift_by_immediate(0x8000_0002, ASR, 1, true), op(0xC000_0001, false));
    assert_eq!(shift_by_immediate(0x8000_0000, ASR, 31, false), op(0xFFFF_FFFF, false));
}

#[test]
fn ror_zero_is_rrx() {
    assert_eq!(shift_by_immediate(0x0000_0003, ROR, 0, true), op(0x8000_0001, true));
    assert_eq!(shift_by_immediate(0x0000_0002, ROR, 0, false), op(0x0000_0001, false));
    assert_eq!(shift_by_immediate(0x0000_0001, ROR, 4, false), op(0x1000_0000, false));
    assert_eq!(shift_by_immediate(0x0000_0008, ROR, 4, false), op(0x8000_0000, true));
}

#[test]
fn register_shift_by_zero_keeps_value_and_carry() {
    for shift in [LSL, LSR, ASR, ROR] {
        for carry in [false, true] {
            assert_eq!(shift_by_register(0x8000_0001, shift, 0, carry), op(0x8000_0001, carry));
        }
    }
}

#[test]
fn register_shift_by_32_and_more() {
    assert_eq!(shift_by_register(0x0000_0001, LSL, 32, false), op(0, true));
    assert_eq!(shift_by_register(0x0000_0001, LSL, 33, true), op(0, false));
    assert_eq!(shift_by_register(0x8000_0000, LSR, 32, false), op(0, true));
    assert_eq!(shift_by_register(0x8000_0000, LSR, 40, true), op(0, false));
    assert_eq!(shift_by_register(0x8000_0000, ASR, 32, false), op(0xFFFF_FFFF, true));
    assert_eq!(shift_by_register(0x7000_0000, ASR, 200, true), op(0, false));
    assert_eq!(shift_by_register(0x8000_0001, ROR, 32, false), op(0x8000_0001, true));
    assert_eq!(shift_by_register(0x0000_0001, ROR, 64, true), op(0x0000_0001, false));
    assert_eq!(shift_by_register(0x0000_0001, ROR, 33, false), op(0x8000_0000, true));
}

#[test]
fn register_shift_below_32_matches_immediate() {
    for amount in 1..32u32 {
        for shift in [LSL, LSR, ASR, ROR] {
            assert_eq!(
                shift_by_register(0x9234_5678, shift, amount, false),
                shift_by_immediate(0x9234_5678, shift, amount, false)
            );
        }
    }
}
