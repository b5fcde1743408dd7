use armv4t::{alu_operate, check_add_overflow, check_carry, check_sub_overflow, AluOutput, ARMv4T, MyMemory};

const ADD: u32 = 0x4;
const SUB: u32 = 0x2;

fn out(result: u32, n: bool, z: bool, c: bool, v: bool) -> AluOutput {
    AluOutput { result, n, z, c, v }
}

#[test]
fn add_signed_overflow_at_the_boundary() {
    assert_eq!(alu_operate(ADD, 0x7FFF_FFFF, 1, false, false, false), out(0x8000_0000, true, false, false, true));
}

#[test]
fn sub_borrow_below_zero() {
    assert_eq!(alu_operate(SUB, 0, 1, false, true, false), out(0xFFFF_FFFF, true, false, false, false));
}

#[test]
fn add_unsigned_carry_and_zero() {
    assert_eq!(alu_operate(ADD, 0xFFFF_FFFF, 1, false, false, false), out(0, false, true, true, false));
    assert_eq!(alu_operate(ADD, 0x8000_0000, 0x8000_0000, false, false, false), out(0, false, true, true, true));
}

#[test]
fn sub_without_borrow_sets_carry() {
    assert_eq!(alu_operate(SUB, 5, 5, false, false, false), out(0, false, true, true, false));
    assert_eq!(alu_operate(SUB, 0x8000_0000, 1, false, false, false), out(0x7FFF_FFFF, false, false, true, true));
}

#[test]
fn carrying_forms() {
    // ADC with carry in
    assert_eq!(alu_operate(0x5, 0xFFFF_FFFF, 0, false, true, false), out(0, false, true, true, false));
    // SBC borrows the complement of C
    assert_eq!(alu_operate(0x6, 5, 3, false, false, false), out(1, false, false, true, false));
    assert_eq!(alu_operate(0x6, 5, 3, false, true, false), out(2, false, false, true, false));
    assert_eq!(alu_operate(0x6, 3, 3, false, false, false), out(0xFFFF_FFFF, true, false, false, false));
    // RSB and RSC subtract the first operand from the second
    assert_eq!(alu_operate(0x3, 1, 3, false, false, false), out(2, false, false, true, false));
    assert_eq!(alu_operate(0x7, 1, 3, false, false, false), out(1, false, false, true, false));
}

#[test]
fn logical_forms_take_the_shifter_carry_and_keep_v() {
    assert_eq!(alu_operate(0x0, 0xF0F0, 0xFF00, true, false, true), out(0xF000, false, false, true, true));
    assert_eq!(alu_operate(0x1, 0xF0F0, 0xFF00, false, true, false), out(0x0FF0, false, false, false, false));
    assert_eq!(alu_operate(0xC, 0xF0F0, 0x0F0F, false, false, false), out(0xFFFF, false, false, false, false));
    assert_eq!(alu_operate(0xD, 9, 0, true, false, false), out(0, false, true, true, false));
    assert_eq!(alu_operate(0xE, 0xFF, 0x0F, false, false, false), out(0xF0, false, false, false, false));
    assert_eq!(alu_operate(0xF, 9, 0, false, false, false), out(0xFFFF_FFFF, true, false, false, false));
}

#[test]
fn sign_rule_helpers() {
    assert!(check_add_overflow(0x7FFF_FFFF, 1, 0x8000_0000));
    assert!(!check_add_overflow(0xFFFF_FFFF, 1, 0));
    assert!(check_sub_overflow(0x8000_0000, 1, 0x7FFF_FFFF));
    assert!(!check_sub_overflow(0, 1, 0xFFFF_FFFF));
    assert!(check_carry(0xFFFF_FFFF, 1, 0));
    assert!(!check_carry(0x7FFF_FFFF, 1, 0x8000_0000));
}

fn run(words: &[u32], setup: &dyn Fn(&mut ARMv4T<MyMemory>)) -> ARMv4T<MyMemory> {
    let mut mem = MyMemory::new();
    for (i, w) in words.iter().enumerate() {
        assert!(mem.write_word(4 * i as u32, *w));
    }
    let mut cpu = ARMv4T::new(mem);
    setup(&mut cpu);
    for _ in 0..words.len() + 2 {
        cpu.step().unwrap();
    }
    cpu
}

#[test]
fn adds_through_the_pipeline_sets_flags() {
    // ADDS r0, r1, r2 with r1 = 0x7FFFFFFF, r2 = 1
    let cpu = run(&[0xE091_0002], &|c| {
        c.set_gpr(1, 0x7FFF_FFFF);
        c.set_gpr(2, 1);
    });
    assert_eq!(cpu.get_gpr(0), 0x8000_0000);
    let f = cpu.get_cpsr();
    assert_eq!((f.n, f.z, f.c, f.v), (1, 0, 0, 1));
}

#[test]
fn subs_and_cmp_through_the_pipeline() {
    // SUBS r0, r1, r2 with 0 - 1, then CMP r1, r1
    let cpu = run(&[0xE051_0002], &|c| c.set_gpr(2, 1));
    assert_eq!(cpu.get_gpr(0), 0xFFFF_FFFF);
    let f = cpu.get_cpsr();
    assert_eq!((f.n, f.z, f.c, f.v), (1, 0, 0, 0));
    let cpu = run(&[0xE151_0001], &|c| c.set_gpr(1, 7));
    let f = cpu.get_cpsr();
    assert_eq!((f.n, f.z, f.c, f.v), (0, 1, 1, 0));
    assert_eq!(cpu.get_gpr(0), 0);
}

#[test]
fn add_without_s_leaves_flags() {
    // ADD r0, r1, r2
    let cpu = run(&[0xE081_0002], &|c| {
        c.set_gpr(1, 0xFFFF_FFFF);
        c.set_gpr(2, 1);
    });
    assert_eq!(cpu.get_gpr(0), 0);
    let f = cpu.get_cpsr();
    assert_eq!((f.n, f.z, f.c, f.v), (0, 0, 0, 0));
}

#[test]
fn register_shifted_operand_in_execution() {
    // MOV r0, r1, LSL r2 with r1 = 3, r2 = 4; then MOVS r3, r1, LSR #1 sets C from bit 0
    let cpu = run(&[0xE1A0_0211, 0xE1B0_30A1], &|c| {
        c.set_gpr(1, 3);
        c.set_gpr(2, 4);
    });
    assert_eq!(cpu.get_gpr(0), 0x30);
    assert_eq!(cpu.get_gpr(3), 1);
    assert_eq!(cpu.get_cpsr().c, 1);
}
