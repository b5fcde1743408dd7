use armv4t::{ARMv4T, Bus, BusRW, CpsrFlags, MyMemory, PipelineState, ProcessorMode};

fn fresh() -> ARMv4T<MyMemory> {
    ARMv4T::new(MyMemory::new())
}

fn flags(n: u32, z: u32, c: u32, v: u32, mode: u32) -> CpsrFlags {
    CpsrFlags { n, z, c, v, q: 0, reserved: 0, i: 0, f: 0, t: 0, mode }
}

#[test]
fn new_starts_in_supervisor_with_zeroed_state() {
    let cpu = fresh();
    assert_eq!(*cpu.get_mode(), ProcessorMode::Supervisor);
    assert_eq!(cpu.get_cpsr(), flags(0, 0, 0, 0, 0x13));
    for r in 0..16u8 {
        assert_eq!(cpu.get_gpr(r), 0);
    }
    assert_eq!(cpu.get_spsr(), 0);
    assert_eq!(cpu.pipeline, PipelineState::Empty);
}

#[test]
fn fiq_r13_is_separate_from_supervisor_r13() {
    let mut cpu = fresh();
    cpu.set_gpr(13, 0x5000);
    cpu.set_mode(ProcessorMode::FIQ);
    assert_eq!(cpu.get_gpr(13), 0);
    cpu.set_gpr(13, 0x7000);
    cpu.set_mode(ProcessorMode::Supervisor);
    assert_eq!(cpu.get_gpr(13), 0x5000);
    cpu.set_mode(ProcessorMode::FIQ);
    assert_eq!(cpu.get_gpr(13), 0x7000);
}

#[test]
fn pc_is_never_banked() {
    let mut cpu = fresh();
    cpu.set_mode(ProcessorMode::FIQ);
    cpu.set_gpr(15, 0x1234);
    for mode in [
        ProcessorMode::User,
        ProcessorMode::IRQ,
        ProcessorMode::Supervisor,
        ProcessorMode::Abort,
        ProcessorMode::Undefined,
        ProcessorMode::System,
    ] {
        cpu.set_mode(mode);
        assert_eq!(cpu.get_gpr(15), 0x1234);
    }
}

#[test]
fn fiq_banks_r8_to_r14_and_others_bank_r13_r14() {
    let mut cpu = fresh();
    cpu.set_mode(ProcessorMode::User);
    for r in 0..15u8 {
        cpu.set_gpr(r, 100 + r as u32);
    }
    cpu.set_mode(ProcessorMode::FIQ);
    assert_eq!(cpu.get_gpr(7), 107);
    for r in 8..15u8 {
        assert_eq!(cpu.get_gpr(r), 0);
    }
    cpu.set_mode(ProcessorMode::IRQ);
    assert_eq!(cpu.get_gpr(12), 112);
    assert_eq!(cpu.get_gpr(13), 0);
    assert_eq!(cpu.get_gpr(14), 0);
    cpu.set_mode(ProcessorMode::System);
    assert_eq!(cpu.get_gpr(13), 113);
    assert_eq!(cpu.get_gpr(14), 114);
}

#[test]
fn set_mode_updates_the_mode_field() {
    let mut cpu = fresh();
    cpu.set_mode(ProcessorMode::Abort);
    assert_eq!(cpu.get_cpsr().mode, 0x17);
    cpu.set_mode(ProcessorMode::Undefined);
    assert_eq!(cpu.get_cpsr().mode, 0x1B);
    assert_eq!(ProcessorMode::System.tag(), 0x1F);
    assert_eq!(ProcessorMode::from_tag(0x11), Some(ProcessorMode::FIQ));
    assert_eq!(ProcessorMode::from_tag(0x14), None);
}

#[test]
fn set_cpsr_switches_to_the_named_mode() {
    let mut cpu = fresh();
    cpu.set_cpsr(flags(1, 0, 1, 0, 0x12));
    assert_eq!(*cpu.get_mode(), ProcessorMode::IRQ);
    assert_eq!(cpu.get_cpsr(), flags(1, 0, 1, 0, 0x12));
    cpu.set_cpsr(flags(0, 1, 0, 1, 0x05));
    assert_eq!(*cpu.get_mode(), ProcessorMode::IRQ);
    assert_eq!(cpu.get_cpsr(), flags(0, 1, 0, 1, 0x12));
}

#[test]
fn store_spsr_saves_the_packed_status() {
    let mut cpu = fresh();
    cpu.set_cpsr(flags(1, 0, 1, 1, 0x11));
    cpu.store_spsr();
    assert_eq!(cpu.get_spsr(), 0xB000_0011);
    cpu.set_mode(ProcessorMode::IRQ);
    assert_eq!(cpu.get_spsr(), 0);
    cpu.set_mode(ProcessorMode::User);
    cpu.store_spsr();
    assert_eq!(cpu.get_spsr(), 0);
    cpu.set_spsr(5);
    assert_eq!(cpu.get_spsr(), 0);
    cpu.set_mode(ProcessorMode::FIQ);
    assert_eq!(cpu.get_spsr(), 0xB000_0011);
}

#[test]
fn cpsr_packs_fields_in_order() {
    let word = CpsrFlags { n: 1, z: 1, c: 0, v: 0, q: 1, reserved: 0, i: 1, f: 0, t: 1, mode: 0x1F }.to_word();
    assert_eq!(word, 0xC800_00BF);
}

#[test]
fn reset_clears_registers_and_pipeline() {
    let mut mem = MyMemory::new();
    assert!(mem.write_word(0, 0xE3A0_0001));
    let mut cpu = ARMv4T::new(mem);
    cpu.step().unwrap();
    cpu.set_mode(ProcessorMode::IRQ);
    cpu.set_gpr(13, 9);
    cpu.set_gpr(3, 9);
    cpu.set_cpsr(flags(1, 1, 1, 1, 0x12));
    cpu.reset();
    assert_eq!(*cpu.get_mode(), ProcessorMode::Supervisor);
    assert_eq!(cpu.get_cpsr(), flags(0, 0, 0, 0, 0x13));
    assert_eq!(cpu.get_gpr(3), 0);
    assert_eq!(cpu.get_gpr(15), 0);
    assert_eq!(cpu.pipeline, PipelineState::Empty);
    cpu.set_mode(ProcessorMode::IRQ);
    assert_eq!(cpu.get_gpr(13), 0);
    assert_eq!(cpu.bus.read_word(0), Some(0xE3A0_0001));
}

#[test]
fn advance_and_flush() {
    let mut cpu = fresh();
    cpu.set_gpr(15, 0xFFFF_FFFC);
    cpu.advance_pc(4);
    assert_eq!(cpu.get_gpr(15), 0);
    cpu.pipeline = PipelineState::Fetched(3);
    cpu.flush_pipeline();
    assert_eq!(cpu.pipeline, PipelineState::Empty);
}

#[test]
fn condition_codes_follow_the_truth_table() {
    let mut cpu = fresh();
    for bits in 0..16u32 {
        let (n, z, c, v) = (bits & 8 != 0, bits & 4 != 0, bits & 2 != 0, bits & 1 != 0);
        cpu.set_cpsr(flags(n as u32, z as u32, c as u32, v as u32, 0x13));
        let expected = [
            z,
            !z,
            c,
            !c,
            n,
            !n,
            v,
            !v,
            c && !z,
            !c || z,
            n == v,
            n != v,
            !z && n == v,
            z || n != v,
            true,
            false,
        ];
        for cond in 0..16u32 {
            assert_eq!(cpu.is_condition_passed(cond), expected[cond as usize], "cond {cond} flags {bits:04b}");
        }
        assert!(!cpu.is_condition_passed(16));
    }
}

#[test]
fn ge_passes_when_n_equals_v() {
    let mut cpu = fresh();
    cpu.set_cpsr(flags(1, 0, 0, 1, 0x13));
    assert!(cpu.is_condition_passed(0xA));
    cpu.set_cpsr(flags(1, 0, 0, 0, 0x13));
    assert!(!cpu.is_condition_passed(0xA));
}

#[test]
fn memory_words_are_little_endian_and_bounded() {
    let mut mem = MyMemory::new();
    mem.load(0, 0x78);
    mem.load(1, 0x56);
    mem.load(2, 0x34);
    mem.load(3, 0x12);
    assert_eq!(mem.read_word(0), Some(0x1234_5678));
    assert!(mem.write_word(0xFFFC, 0xAABB_CCDD));
    assert_eq!(mem.memory[0xFFFC], 0xDD);
    assert_eq!(mem.memory[0xFFFF], 0xAA);
    assert_eq!(mem.read_word(0xFFFD), None);
    assert!(!mem.write_word(0xFFFD, 1));
    assert_eq!(mem.read_word(0xFFFF_FFFF), None);
}

#[test]
fn bus_access_writes_then_reads_the_same_word() {
    let mut mem = MyMemory::new();
    let mut value = 0x8765_4321;
    assert_eq!(mem.access(0x40, &mut value, BusRW::Write), Ok(0));
    assert_eq!(value, 0x8765_4321);
    assert_eq!(mem.memory[0x40], 0x21);
    assert_eq!(mem.memory[0x43], 0x87);
    let mut read = 0;
    assert_eq!(mem.access(0x40, &mut read, BusRW::Read), Ok(0));
    assert_eq!(read, 0x8765_4321);
    let mut untouched = 5;
    assert_eq!(mem.access(0xFFFE, &mut untouched, BusRW::Read), Err(()));
    assert_eq!(untouched, 5);
    assert_eq!(mem.access(0xFFFE, &mut untouched, BusRW::Write), Err(()));
    assert_eq!(mem.memory[0xFFFE], 0);
}
