use armv4t::disassemble;

#[test]
fn disassembles_move_immediate() {
    assert_eq!(disassemble(0xE3A0_0001), "mov     r0, #1");
}

#[test]
fn disassembles_flag_setting_conditional_add() {
    // ADDSEQ r0, r1, r2
    assert_eq!(disassemble(0x0091_0002), "addseq  r0, r1, r2");
}

#[test]
fn disassembles_compare_and_shifts() {
    assert_eq!(disassemble(0xE151_0001), "cmp     r1, r1");
    assert_eq!(disassemble(0xE1A0_0211), "mov     r0, r1, lsl r2");
    assert_eq!(disassemble(0xE1B0_30A1), "movs    r3, r1, lsr #1");
    assert_eq!(disassemble(0xE1A0_0021), "mov     r0, r1, lsr #32");
    assert_eq!(disassemble(0xE1A0_0061), "mov     r0, r1, rrx");
    assert_eq!(disassemble(0xE3A0_FF10), "mov     r15, #64");
    assert_eq!(disassemble(0xE2C1_0F10), "sbc     r0, r1, #64");
}

#[test]
fn other_classes_give_blank_text() {
    assert_eq!(disassemble(0xEB00_0000), "        ");
    assert_eq!(disassemble(0xE10F_0000), "        ");
}
