use armv4t::{ARMv4T, Fault, InstKind, MyMemory, PipelineState};

fn machine_with(program: &[(u32, u32)]) -> ARMv4T<MyMemory> {
    let mut mem = MyMemory::new();
    for &(addr, word) in program {
        assert!(mem.write_word(addr, word));
    }
    ARMv4T::new(mem)
}

#[test]
fn mov_immediate_runs_after_fetch_and_decode_steps() {
    let mut cpu = machine_with(&[(0, 0xE3A0_0001)]);
    cpu.step().unwrap();
    assert_eq!(cpu.pipeline, PipelineState::Fetched(0xE3A0_0001));
    assert_eq!(cpu.get_gpr(15), 4);
    cpu.step().unwrap();
    assert_eq!(cpu.get_gpr(15), 8);
    assert_eq!(cpu.get_gpr(0), 0);
    match cpu.pipeline {
        PipelineState::Decoded(_, d) => {
            assert_eq!(d.raw_inst, 0xE3A0_0001);
            assert!(matches!(d.inst, InstKind::DataProcess(_)));
        }
        _ => panic!("the MOV should be decoded and pending"),
    }
    cpu.step().unwrap();
    assert_eq!(cpu.get_gpr(0), 1);
    assert_eq!(cpu.get_gpr(15), 12);
}

#[test]
fn branch_with_link_sets_link_and_flushes() {
    // 0: BL to 8; 4: MOV r1, #1 (fetched before the branch executes); 8: MOV r2, #2
    let mut cpu = machine_with(&[(0, 0xEB00_0000), (4, 0xE3A0_1001), (8, 0xE3A0_2002)]);
    cpu.step().unwrap();
    cpu.step().unwrap();
    cpu.step().unwrap();
    assert_eq!(cpu.get_gpr(14), 4);
    assert_eq!(cpu.get_gpr(15), 8);
    assert_eq!(cpu.pipeline, PipelineState::Empty);
    for _ in 0..3 {
        cpu.step().unwrap();
    }
    assert_eq!(cpu.get_gpr(1), 0);
    assert_eq!(cpu.get_gpr(2), 2);
}

#[test]
fn backward_branch_uses_signed_offset() {
    // 0x100: B to 0x100 (offset -2 words from PC = 0x108)
    let mut cpu = machine_with(&[(0x100, 0xEAFF_FFFE)]);
    cpu.set_gpr(15, 0x100);
    for _ in 0..3 {
        cpu.step().unwrap();
    }
    assert_eq!(cpu.get_gpr(15), 0x100);
    assert_eq!(cpu.get_gpr(14), 0);
}

#[test]
fn failed_condition_is_a_no_op() {
    // MOVEQ r0, #1 with Z clear
    let mut cpu = machine_with(&[(0, 0x03A0_0001)]);
    for _ in 0..3 {
        cpu.step().unwrap();
    }
    assert_eq!(cpu.get_gpr(0), 0);
    assert_eq!(cpu.get_gpr(15), 12);
}

#[test]
fn store_multiple_writes_in_ascending_register_order() {
    // STMIA r1, {r0, r2, r5}
    let mut cpu = machine_with(&[(0, 0xE881_0025)]);
    cpu.set_gpr(1, 0x1000);
    cpu.set_gpr(0, 0xA0);
    cpu.set_gpr(2, 0xB2);
    cpu.set_gpr(5, 0xC5);
    for _ in 0..3 {
        cpu.step().unwrap();
    }
    assert_eq!(cpu.bus.read_word(0x1000), Some(0xA0));
    assert_eq!(cpu.bus.read_word(0x1004), Some(0xB2));
    assert_eq!(cpu.bus.read_word(0x1008), Some(0xC5));
    assert_eq!(cpu.bus.read_word(0x100C), Some(0));
    assert_eq!(cpu.get_gpr(1), 0x1000);
}

#[test]
fn undefined_class_stops_with_a_fault() {
    // SWI 0
    let mut cpu = machine_with(&[(0, 0xEF00_0000)]);
    cpu.step().unwrap();
    cpu.step().unwrap();
    assert_eq!(cpu.step(), Err(Fault::UnimplementedInstruction));
    assert_eq!(cpu.pipeline, PipelineState::Empty);
}

#[test]
fn fetch_outside_memory_is_a_prefetch_abort() {
    let mut cpu = machine_with(&[]);
    cpu.set_gpr(15, 0x1_0000);
    assert_eq!(cpu.step(), Err(Fault::PrefetchAbort(0x1_0000)));
    assert_eq!(cpu.get_gpr(15), 0x1_0000);
    assert_eq!(cpu.pipeline, PipelineState::Empty);
}

#[test]
fn load_outside_memory_is_a_data_abort() {
    // LDR r0, [r1]
    let mut cpu = machine_with(&[(0, 0xE591_0000)]);
    cpu.set_gpr(1, 0xFFFF_0000);
    cpu.set_gpr(0, 7);
    cpu.step().unwrap();
    cpu.step().unwrap();
    assert_eq!(cpu.step(), Err(Fault::DataAbort(0xFFFF_0000)));
    assert_eq!(cpu.get_gpr(0), 7);
}

#[test]
fn mov_to_pc_flushes_and_jumps() {
    // MOV pc, #0x40
    let mut cpu = machine_with(&[(0, 0xE3A0_FF10), (0x40, 0xE3A0_3003)]);
    for _ in 0..3 {
        cpu.step().unwrap();
    }
    assert_eq!(cpu.get_gpr(15), 0x40);
    assert_eq!(cpu.pipeline, PipelineState::Empty);
    for _ in 0..3 {
        cpu.step().unwrap();
    }
    assert_eq!(cpu.get_gpr(3), 3);
}
