//! Text for diagnostics: the assembler form of a data-processing word.

use vstd::prelude::*;

use crate::alu::is_test_opcode;
use crate::bits::{bit_range, get_bit_range, Word};
use crate::instruction::DataProcess;
use crate::shifter::{immediate_operand, rotated_immediate, ASR, LSL, LSR, ROR};

verus! {

/// The instruction mnemonics of the ARMv4 instruction set.
#[derive(Clone, Copy, Debug, PartialEq, Eq, Structural)]
pub enum Mnemonic {
    ADC,
    ADD,
    AND,
    B,
    BL,
    BIC,
    BX,
    CMN,
    CMP,
    EOR,
    LDC,
    LDM,
    LDR,
    LDRB,
    LDRBT,
    LDRH,
    LDRT,
    MCR,
    MLA,
    MOV,
    MRC,
    MRS,
    MSR,
    MUL,
    MVN,
    ORR,
    RSB,
    RSC,
    SBC,
    SMLAL,
    SMULL,
    STC,
    STM,
    STR,
    STRB,
    STRBT,
    STRH,
    STRT,
    SUB,
    SWI,
    SWP,
    SWPB,
    TEQ,
    TST,
    UMLAL,
    UMULL,
    UND,
}

/// The decimal digit `d` (0 to 9).
pub open spec fn digit_text(d: nat) -> Seq<char> {
    if d == 0 {
        "0"@
    } else if d == 1 {
        "1"@
    } else if d == 2 {
        "2"@
    } else if d == 3 {
        "3"@
    } else if d == 4 {
        "4"@
    } else if d == 5 {
        "5"@
    } else if d == 6 {
        "6"@
    } else if d == 7 {
        "7"@
    } else if d == 8 {
        "8"@
    } else {
        "9"@
    }
}

/// `n` in decimal, without leading zeros.
pub open spec fn decimal(n: nat) -> Seq<char>
    decreases n,
{
    if n < 10 {
        digit_text(n)
    } else {
        decimal(n / 10) + digit_text(n % 10)
    }
}

/// `n` spaces.
pub open spec fn spaces(n: nat) -> Seq<char>
    decreases n,
{
    if n == 0 {
        Seq::empty()
    } else {
        spaces((n - 1) as nat) + " "@
    }
}

/// The name of data-processing `opcode`.
pub open spec fn opcode_name(opcode: u32) -> Seq<char> {
    if opcode == 0x0 {
        "and"@
    } else if opcode == 0x1 {
        "eor"@
    } else if opcode == 0x2 {
        "sub"@
    } else if opcode == 0x3 {
        "rsb"@
    } else if opcode == 0x4 {
        "add"@
    } else if opcode == 0x5 {
        "adc"@
    } else if opcode == 0x6 {
        "sbc"@
    } else if opcode == 0x7 {
        "rsc"@
    } else if opcode == 0x8 {
        "tst"@
    } else if opcode == 0x9 {
        "teq"@
    } else if opcode == 0xA {
        "cmp"@
    } else if opcode == 0xB {
        "cmn"@
    } else if opcode == 0xC {
        "orr"@
    } else if opcode == 0xD {
        "mov"@
    } else if opcode == 0xE {
        "bic"@
    } else {
        "mvn"@
    }
}

/// The suffix of condition code `cond`; none for AL.
pub open spec fn condition_suffix(cond: u32) -> Seq<char> {
    if cond == 0x0 {
        "eq"@
    } else if cond == 0x1 {
        "ne"@
    } else if cond == 0x2 {
        "cs"@
    } else if cond == 0x3 {
        "cc"@
    } else if cond == 0x4 {
        "mi"@
    } else if cond == 0x5 {
        "pl"@
    } else if cond == 0x6 {
        "vs"@
    } else if cond == 0x7 {
        "vc"@
    } else if cond == 0x8 {
        "hi"@
    } else if cond == 0x9 {
        "ls"@
    } else if cond == 0xA {
        "ge"@
    } else if cond == 0xB {
        "lt"@
    } else if cond == 0xC {
        "gt"@
    } else if cond == 0xD {
        "le"@
    } else if cond == 0xE {
        Seq::empty()
    } else {
        "nv"@
    }
}

/// The name of shift type `shift`.
pub open spec fn shift_name(shift: u32) -> Seq<char> {
    if shift == LSL {
        "lsl"@
    } else if shift == LSR {
        "lsr"@
    } else if shift == ASR {
        "asr"@
    } else {
        "ror"@
    }
}

/// Register `r` as `r<n>`.
pub open spec fn register_text(r: u32) -> Seq<char> {
    "r"@ + decimal(r as nat)
}

/// The second operand: `#<value>` for an immediate; `r<m>` for an unshifted
/// register; `r<m>, rrx`; `r<m>, <shift> #<amount>` (an amount of 0 for LSR and
/// ASR meaning 32); or `r<m>, <shift> r<s>`.
pub open spec fn operand2_text(immediate: bool, op2: u32) -> Seq<char> {
    let rm = register_text(bit_range(op2, 3, 0));
    let shift = bit_range(op2, 6, 5);
    if immediate {
        "#"@ + decimal(immediate_operand(op2, false).shifter_operand as nat)
    } else if bit_range(op2, 4, 4) == 0 {
        let amount = bit_range(op2, 11, 7);
        if amount == 0 && shift == LSL {
            rm
        } else if amount == 0 && shift == ROR {
            rm + ", rrx"@
        } else {
            rm + ", "@ + shift_name(shift) + " #"@ + decimal(
                if amount == 0 {
                    32
                } else {
                    amount as nat
                },
            )
        }
    } else {
        rm + ", "@ + shift_name(shift) + " "@ + register_text(bit_range(op2, 11, 8))
    }
}

/// Whether `inst` reads as a data-processing instruction: bits 27..26 clear,
/// and the S bit set for the test opcodes (without it they encode status
/// transfers).
pub open spec fn is_data_process_text(inst: u32) -> bool {
    let dp = DataProcess::spec_from_word(inst);
    dp._00 == 0 && !(is_test_opcode(dp.opcode) && dp.s == 0)
}

/// The assembler text of `inst`: the mnemonic (name, `s` when a non-test opcode
/// sets the flags, condition suffix) padded to six columns, two spaces, then the
/// operands (`rd, rn, op2`; `rd, op2` for MOV and MVN; `rn, op2` for the
/// tests). A word that is not data processing gives eight spaces.
pub open spec fn disassembly(inst: u32) -> Seq<char> {
    let dp = DataProcess::spec_from_word(inst);
    if !is_data_process_text(inst) {
        spaces(8)
    } else {
        let sets_flags = dp.s == 1 && !is_test_opcode(dp.opcode);
        let mnemonic = opcode_name(dp.opcode) + (if sets_flags {
            "s"@
        } else {
            Seq::empty()
        }) + condition_suffix(dp.cond);
        let width: nat = 3 + (if sets_flags {
            1nat
        } else {
            0nat
        }) + (if dp.cond == 0xE {
            0nat
        } else {
            2nat
        });
        let op2 = operand2_text(dp.i == 1, dp.operand2);
        let operands = if dp.opcode == 0xD || dp.opcode == 0xF {
            register_text(dp.rd) + ", "@ + op2
        } else if is_test_opcode(dp.opcode) {
            register_text(dp.rn) + ", "@ + op2
        } else {
            register_text(dp.rd) + ", "@ + register_text(dp.rn) + ", "@ + op2
        };
        mnemonic + spaces((6 - width) as nat) + "  "@ + operands
    }
}

fn digit(d: u32) -> (r: &'static str)
    requires
        d < 10,
    ensures
        r@ == digit_text(d as nat),
{
    match d {
        0 => "0",
        1 => "1",
        2 => "2",
        3 => "3",
        4 => "4",
        5 => "5",
        6 => "6",
        7 => "7",
        8 => "8",
        _ => "9",
    }
}

/// Appends `n` in decimal to `s`.
fn append_decimal(s: &mut String, n: u32)
    ensures
        final(s)@ == old(s)@ + decimal(n as nat),
    decreases n,
{
    if n < 10 {
        s.append(digit(n));
    } else {
        append_decimal(s, n / 10);
        s.append(digit(n % 10));
        assert(s@ == old(s)@ + decimal(n as nat)) by {
            assert(decimal(n as nat) == decimal((n / 10) as nat) + digit_text((n % 10) as nat));
        }
    }
}

/// Appends `n` spaces to `s`.
fn append_spaces(s: &mut String, n: u32)
    ensures
        final(s)@ == old(s)@ + spaces(n as nat),
{
    let mut i: u32 = 0;
    while i < n
        invariant
            i <= n,
            s@ == old(s)@ + spaces(i as nat),
        decreases n - i,
    {
        s.append(" ");
        i = i + 1;
        assert(s@ =~= old(s)@ + spaces(i as nat));
    }
}

fn opcode_text(opcode: u32) -> (r: &'static str)
    ensures
        r@ == opcode_name(opcode),
{
    match opcode {
        0x0 => "and",
        0x1 => "eor",
        0x2 => "sub",
        0x3 => "rsb",
        0x4 => "add",
        0x5 => "adc",
        0x6 => "sbc",
        0x7 => "rsc",
        0x8 => "tst",
        0x9 => "teq",
        0xA => "cmp",
        0xB => "cmn",
        0xC => "orr",
        0xD => "mov",
        0xE => "bic",
        _ => "mvn",
    }
}

fn suffix_text(cond: u32) -> (r: &'static str)
    ensures
        r@ == condition_suffix(cond),
{
    match cond {
        0x0 => "eq",
        0x1 => "ne",
        0x2 => "cs",
        0x3 => "cc",
        0x4 => "mi",
        0x5 => "pl",
        0x6 => "vs",
        0x7 => "vc",
        0x8 => "hi",
        0x9 => "ls",
        0xA => "ge",
        0xB => "lt",
        0xC => "gt",
        0xD => "le",
        0xE => {
            proof {
                reveal_strlit("");
            }
            ""
        },
        _ => "nv",
    }
}

fn shift_text(shift: u32) -> (r: &'static str)
    ensures
        r@ == shift_name(shift),
{
    if shift == LSL {
        "lsl"
    } else if shift == LSR {
        "lsr"
    } else if shift == ASR {
        "asr"
    } else {
        "ror"
    }
}

/// Appends register `r` as `r<n>`.
fn append_register(s: &mut String, r: u32)
    ensures
        final(s)@ == old(s)@ + register_text(r),
{
    s.append("r");
    append_decimal(s, r);
    assert(final(s)@ =~= old(s)@ + register_text(r));
}

/// Appends the text of the second operand.
fn append_operand2(s: &mut String, immediate: bool, op2: u32)
    ensures
        final(s)@ == old(s)@ + operand2_text(immediate, op2),
{
    let ghost start = s@;
    if immediate {
        s.append("#");
        append_decimal(s, rotated_immediate(op2, false).shifter_operand);
        assert(s@ =~= start + operand2_text(immediate, op2));
        return;
    }
    let rm = get_bit_range(op2, 3, 0);
    let shift = get_bit_range(op2, 6, 5);
    append_register(s, rm);
    if get_bit_range(op2, 4, 4) == 0 {
        let amount = get_bit_range(op2, 11, 7);
        if amount == 0 && shift == LSL {
        } else if amount == 0 && shift == ROR {
            s.append(", rrx");
        } else {
            s.append(", ");
            s.append(shift_text(shift));
            s.append(" #");
            append_decimal(
                s,
                if amount == 0 {
                    32
                } else {
                    amount
                },
            );
        }
    } else {
        s.append(", ");
        s.append(shift_text(shift));
        s.append(" ");
        append_register(s, get_bit_range(op2, 11, 8));
    }
    assert(s@ =~= start + operand2_text(immediate, op2));
}

/// The assembler text of a data-processing word, for diagnostics.
pub fn disassemble(inst: Word) -> (r: String)
    ensures
        r@ == disassembly(inst),
{
    let dp = DataProcess::from_word(inst);
    let mut text = String::new();
    let test = 0x8 <= dp.opcode && dp.opcode <= 0xB;
    if dp._00 != 0 || (test && dp.s == 0) {
        append_spaces(&mut text, 8);
        return text;
    }
    let sets_flags = dp.s == 1 && !test;
    text.append(opcode_text(dp.opcode));
    if sets_flags {
        text.append("s");
    }
    text.append(suffix_text(dp.cond));
    let width: u32 = 3 + (if sets_flags {
        1
    } else {
        0
    }) + (if dp.cond == 0xE {
        0
    } else {
        2
    });
    let ghost mnemonic = text@;
    append_spaces(&mut text, 6 - width);
    text.append("  ");
    let ghost head = text@;
    if dp.opcode == 0xD || dp.opcode == 0xF {
        append_register(&mut text, dp.rd);
        text.append(", ");
    } else if test {
        append_register(&mut text, dp.rn);
        text.append(", ");
    } else {
        append_register(&mut text, dp.rd);
        text.append(", ");
        append_register(&mut text, dp.rn);
        text.append(", ");
    }
    append_operand2(&mut text, dp.i == 1, dp.operand2);
    assert(text@ =~= disassembly(inst));
    text
}

} // verus!
