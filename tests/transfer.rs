use armv4t::{
    ARMv4T, BlockDataTransfer, DataProcess, Fault, InstKind, MyMemory, ProcessorMode,
    SingleDataTransfer,
};

const AL: u32 = 0xE;

fn single(cpu: &mut ARMv4T<MyMemory>, word: u32) -> Result<bool, Fault> {
    cpu.execute(InstKind::SingleDataTransfer(SingleDataTransfer::from_word(word)), AL)
}

fn block(cpu: &mut ARMv4T<MyMemory>, word: u32) -> Result<bool, Fault> {
    cpu.execute(InstKind::BlockDataTransfer(BlockDataTransfer::from_word(word)), AL)
}

#[test]
fn single_transfer_addressing_modes() {
    let mut cpu = ARMv4T::new(MyMemory::new());
    cpu.set_gpr(1, 0x200);
    cpu.set_gpr(0, 0xDEAD);
    // STR r0, [r1, #4]!  (pre-indexed with write-back)
    assert_eq!(single(&mut cpu, 0xE5A1_0004), Ok(false));
    assert_eq!(cpu.bus.read_word(0x204), Some(0xDEAD));
    assert_eq!(cpu.get_gpr(1), 0x204);
    // LDR r2, [r1], #-8  (post-indexed: access at the base, then update it)
    assert_eq!(single(&mut cpu, 0xE411_2008), Ok(false));
    assert_eq!(cpu.get_gpr(2), 0xDEAD);
    assert_eq!(cpu.get_gpr(1), 0x1FC);
    // LDR r3, [r1, r4, LSL #2]  (pre-indexed, register offset, no write-back)
    cpu.set_gpr(4, 2);
    assert_eq!(single(&mut cpu, 0xE791_3104), Ok(false));
    assert_eq!(cpu.get_gpr(3), 0xDEAD);
    assert_eq!(cpu.get_gpr(1), 0x1FC);
}

#[test]
fn load_into_pc_changes_control_flow() {
    let mut cpu = ARMv4T::new(MyMemory::new());
    assert!(cpu.bus.write_word(0x80, 0x400));
    cpu.set_gpr(1, 0x80);
    // LDR pc, [r1]
    assert_eq!(single(&mut cpu, 0xE591_F000), Ok(true));
    assert_eq!(cpu.get_gpr(15), 0x400);
}

#[test]
fn store_outside_memory_is_a_data_abort() {
    let mut cpu = ARMv4T::new(MyMemory::new());
    cpu.set_gpr(1, 0xFFFE);
    // STR r0, [r1, #4]!
    assert_eq!(single(&mut cpu, 0xE5A1_0004), Err(Fault::DataAbort(0x1_0002)));
    assert_eq!(cpu.get_gpr(1), 0xFFFE);
}

#[test]
fn block_load_decrement_before() {
    let mut cpu = ARMv4T::new(MyMemory::new());
    assert!(cpu.bus.write_word(0x2F8, 11));
    assert!(cpu.bus.write_word(0x2F4, 22));
    cpu.set_gpr(1, 0x300);
    // LDMDB r1, {r0, r2}
    assert_eq!(block(&mut cpu, 0xE911_0005), Ok(false));
    assert_eq!(cpu.get_gpr(0), 11);
    assert_eq!(cpu.get_gpr(2), 22);
    assert_eq!(cpu.get_gpr(1), 0x300);
}

#[test]
fn block_store_decrement_after_and_increment_before() {
    let mut cpu = ARMv4T::new(MyMemory::new());
    cpu.set_gpr(1, 0x300);
    cpu.set_gpr(0, 5);
    cpu.set_gpr(2, 6);
    // STMDA r1, {r0, r2}
    assert_eq!(block(&mut cpu, 0xE801_0005), Ok(false));
    assert_eq!(cpu.bus.read_word(0x2FC), Some(5));
    assert_eq!(cpu.bus.read_word(0x2F8), Some(6));
    // LDMIB r1, {r3}
    assert!(cpu.bus.write_word(0x304, 77));
    assert_eq!(block(&mut cpu, 0xE991_0008), Ok(false));
    assert_eq!(cpu.get_gpr(3), 77);
}

#[test]
fn block_load_of_pc_and_abort() {
    let mut cpu = ARMv4T::new(MyMemory::new());
    assert!(cpu.bus.write_word(0x100, 0x800));
    cpu.set_gpr(1, 0x100);
    // LDMIA r1, {pc}
    assert_eq!(block(&mut cpu, 0xE891_8000), Ok(true));
    assert_eq!(cpu.get_gpr(15), 0x800);
    // LDMIA r1, {r0, r2} with the second word past the end of memory
    cpu.set_gpr(1, 0xFFF8);
    assert!(cpu.bus.write_word(0xFFF8, 9));
    assert!(cpu.bus.write_word(0xFFFC, 10));
    assert_eq!(block(&mut cpu, 0xE891_0005), Ok(false));
    cpu.set_gpr(1, 0xFFFC);
    cpu.set_gpr(0, 0);
    cpu.set_gpr(2, 0);
    assert_eq!(block(&mut cpu, 0xE891_0005), Err(Fault::DataAbort(0x1_0000)));
    assert_eq!(cpu.get_gpr(0), 10);
    assert_eq!(cpu.get_gpr(2), 0);
}

#[test]
fn empty_register_list_does_nothing() {
    let mut cpu = ARMv4T::new(MyMemory::new());
    cpu.set_gpr(1, 0x100);
    assert_eq!(block(&mut cpu, 0xE891_0000), Ok(false));
    assert_eq!(cpu.get_gpr(1), 0x100);
}

#[test]
fn test_opcodes_write_no_register() {
    let mut cpu = ARMv4T::new(MyMemory::new());
    cpu.set_gpr(5, 99);
    // TST r1, #0 with rd field 5
    let dp = DataProcess::from_word(0xE311_5000);
    assert_eq!(cpu.execute(InstKind::DataProcess(dp), AL), Ok(false));
    assert_eq!(cpu.get_gpr(5), 99);
    assert_eq!(cpu.get_cpsr().z, 1);
}

#[test]
fn writing_pc_restores_flags_from_saved_status() {
    let mut cpu = ARMv4T::new(MyMemory::new());
    cpu.set_mode(ProcessorMode::IRQ);
    cpu.set_spsr(0xF000_0010);
    // MOV pc, #0x40
    let dp = DataProcess::from_word(0xE3A0_FF10);
    assert_eq!(cpu.execute(InstKind::DataProcess(dp), AL), Ok(true));
    assert_eq!(cpu.get_gpr(15), 0x40);
    let f = cpu.get_cpsr();
    assert_eq!((f.n, f.z, f.c, f.v, f.mode), (1, 1, 1, 1, 0x12));
}

#[test]
fn coprocessor_and_multiply_are_unimplemented() {
    let mut cpu = ARMv4T::new(MyMemory::new());
    let word = 0xE002_0291;
    let d = cpu.decode(word);
    assert_eq!(cpu.execute(d.inst, d.cond), Err(Fault::UnimplementedInstruction));
    assert_eq!(cpu.execute(InstKind::Undefined, AL), Err(Fault::UnimplementedInstruction));
    // with a failing condition nothing is executed, so nothing faults
    assert_eq!(cpu.execute(InstKind::Undefined, 0xF), Ok(false));
}

#[test]
fn test_opcode_with_pc_destination_restores_flags() {
    let mut cpu = ARMv4T::new(MyMemory::new());
    cpu.set_spsr(0x5000_0013);
    cpu.set_gpr(1, 0);
    // TSTS with rd field 15: r1 & 0 would set Z from the ALU
    let dp = DataProcess::from_word(0xE311_F000);
    assert_eq!(cpu.execute(InstKind::DataProcess(dp), AL), Ok(true));
    let f = cpu.get_cpsr();
    assert_eq!((f.n, f.z, f.c, f.v), (0, 1, 0, 1));
    assert_eq!(cpu.get_gpr(15), 0);
}
