use armv4t::{
    get_bit_range, is_match_format, ARMv4T, DataProcess, InstFormat, InstKind, MyMemory,
    SingleDataTransfer,
};

fn cpu() -> ARMv4T<MyMemory> {
    ARMv4T::new(MyMemory::new())
}

#[test]
fn bit_ranges() {
    assert_eq!(get_bit_range(0xE3A0_0001, 31, 28), 0xE);
    assert_eq!(get_bit_range(0xE3A0_0001, 24, 21), 0xD);
    assert_eq!(get_bit_range(0xDEAD_BEEF, 31, 0), 0xDEAD_BEEF);
    assert_eq!(get_bit_range(0xDEAD_BEEF, 3, 4), 0);
    assert_eq!(get_bit_range(0x8000_0000, 31, 31), 1);
}

#[test]
fn format_matching() {
    let branch = InstFormat { mask: 0x0E00_0000, data: 0x0A00_0000 };
    assert!(is_match_format(0xEB00_0000, branch));
    assert!(!is_match_format(0xE3A0_0001, branch));
}

#[test]
fn data_process_fields_round_trip() {
    let dp = DataProcess { cond: 0xE, _00: 0, i: 1, opcode: 0xD, s: 1, rn: 7, rd: 3, operand2: 0xF10 };
    let word = dp.to_word();
    assert_eq!(word, 0xE3B7_3F10);
    assert_eq!(DataProcess::from_word(word), dp);
    let all_ones = DataProcess { cond: 0xF, _00: 3, i: 1, opcode: 0xF, s: 1, rn: 0xF, rd: 0xF, operand2: 0xFFF };
    assert_eq!(all_ones.to_word(), 0xFFFF_FFFF);
    assert_eq!(DataProcess::from_word(0xFFFF_FFFF), all_ones);
}

#[test]
fn decodes_each_class() {
    let c = cpu();
    let kind = |w: u32| c.decode(w).inst;
    assert!(matches!(kind(0xE3A0_0001), InstKind::DataProcess(_)));
    assert!(matches!(kind(0xE002_0291), InstKind::Multiply(_)));
    assert!(matches!(kind(0xE10F_0000), InstKind::ControlImmediate(_)));
    assert!(matches!(kind(0xE329_F00F), InstKind::ControlRegister(_)));
    // register-shifted AND with S clear falls in the second status-transfer pattern
    assert!(matches!(kind(0xE000_0312), InstKind::ControlRegister(_)));
    // branch-and-exchange words lie in the status-transfer space, tried first
    assert!(matches!(kind(0xE12F_FF1E), InstKind::ControlImmediate(_)));
    // operand bits 7 and 4 set: still data processing
    assert!(matches!(kind(0xE000_00B0), InstKind::DataProcess(_)));
    assert!(matches!(kind(0xE1D1_00B2), InstKind::DataProcess(_)));
    // TST-space immediate with S clear and bit 4 set
    assert!(matches!(kind(0xE300_0010), InstKind::DataProcess(_)));
    assert!(matches!(kind(0xE591_0004), InstKind::SingleDataTransfer(_)));
    assert!(matches!(kind(0xE881_0025), InstKind::BlockDataTransfer(_)));
    assert!(matches!(kind(0xEB00_0000), InstKind::Branch(_)));
    assert!(matches!(kind(0xED91_0100), InstKind::CoProcessorDataTransfer(_)));
    assert!(matches!(kind(0xEE01_0100), InstKind::CoProcessorDataOperation(_)));
    assert!(matches!(kind(0xEE01_0110), InstKind::CoProcessorRegisterTransfer(_)));
    assert!(matches!(kind(0xEF12_3456), InstKind::SoftwareInterrupt(_)));
}

#[test]
fn decode_keeps_condition_and_word() {
    let d = cpu().decode(0x1591_2004);
    assert_eq!(d.cond, 0x1);
    assert_eq!(d.raw_inst, 0x1591_2004);
    assert_eq!(
        d.inst,
        InstKind::SingleDataTransfer(SingleDataTransfer {
            cond: 1,
            _01: 1,
            i: 0,
            p: 1,
            u: 1,
            b: 0,
            w: 0,
            l: 1,
            rn: 1,
            rd: 2,
            offset: 4,
        })
    );
}

#[test]
fn software_interrupt_keeps_its_24_bit_comment() {
    match cpu().decode(0xEF12_3456).inst {
        InstKind::SoftwareInterrupt(swi) => {
            assert_eq!(swi.imm24, 0x12_3456);
            assert_eq!(swi._1111, 0xF);
        }
        _ => panic!("expected a software interrupt"),
    }
}

#[test]
fn branch_offset_is_24_bits() {
    match cpu().decode(0xEBFF_FFFE).inst {
        InstKind::Branch(b) => {
            assert_eq!(b.l, 1);
            assert_eq!(b.offset, 0xFF_FFFE);
        }
        _ => panic!("expected a branch"),
    }
}

#[test]
fn decoding_an_encoded_data_process_word_gives_its_fields() {
    let dp = DataProcess { cond: 0x3, _00: 0, i: 0, opcode: 0x4, s: 1, rn: 2, rd: 9, operand2: 0x0B1 };
    let word = dp.to_word();
    let d = cpu().decode(word);
    assert_eq!(d.inst, InstKind::DataProcess(dp));
    assert_eq!(d.cond, 0x3);
    assert_eq!(d.raw_inst, word);
}
