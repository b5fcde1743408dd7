//! Instruction formats: the bit layout of each instruction class, the
//! mask/pattern pair that recognises it, and its decoded form.
//!
//! Each format lists its fields from bit 31 down to bit 0; the widths of the
//! fields of every format add up to 32.

use vstd::prelude::*;

use crate::bits::{bit_range, get_bit_range, matches_format, Word};

verus! {

/// Multiply and multiply-accumulate: bits 27..22 clear, bits 7..4 `1001`.
pub const MULTIPLY_MASK: u32 = 0x0FC0_00F0;
pub const MULTIPLY_BITS: u32 = 0x0000_0090;

/// Status register transfer, immediate class: bits 27..23 `00010`, bit 20
/// clear.
pub const CONTROL_IMMEDIATE_MASK: u32 = 0x0F90_0000;
pub const CONTROL_IMMEDIATE_BITS: u32 = 0x0100_0000;

/// Status register transfer, register class, first pattern: bits 27..23
/// `00110`, bits 20 and 4 clear.
pub const CONTROL_REGISTER_MASK: u32 = 0x0F90_0010;
pub const CONTROL_REGISTER_BITS: u32 = 0x0300_0000;

/// Status register transfer, register class, second pattern: bits 27..23,
/// 20 and 7 clear, bit 4 set.
pub const CONTROL_REGISTER_ALT_MASK: u32 = 0x0F90_0090;
pub const CONTROL_REGISTER_ALT_BITS: u32 = 0x0000_0010;

/// Data processing: bits 27..26 clear.
pub const DATA_PROCESS_MASK: u32 = 0x0C00_0000;
pub const DATA_PROCESS_BITS: u32 = 0x0000_0000;

/// Branch and exchange: `cond 0001_0010_1111_1111_1111_0001 rn`.
pub const BRANCH_EXCHANGE_MASK: u32 = 0x0FFF_FFF0;
pub const BRANCH_EXCHANGE_BITS: u32 = 0x012F_FF10;

/// Single word transfer: bits 27..26 `01`.
pub const SINGLE_DATA_TRANSFER_MASK: u32 = 0x0C00_0000;
pub const SINGLE_DATA_TRANSFER_BITS: u32 = 0x0400_0000;

/// Block transfer: bits 27..25 `100`.
pub const BLOCK_DATA_TRANSFER_MASK: u32 = 0x0E00_0000;
pub const BLOCK_DATA_TRANSFER_BITS: u32 = 0x0800_0000;

/// Branch and branch with link: bits 27..25 `101`.
pub const BRANCH_MASK: u32 = 0x0E00_0000;
pub const BRANCH_BITS: u32 = 0x0A00_0000;

/// Coprocessor load and store: bits 27..25 `110`.
pub const COPROCESSOR_DATA_TRANSFER_MASK: u32 = 0x0E00_0000;
pub const COPROCESSOR_DATA_TRANSFER_BITS: u32 = 0x0C00_0000;

/// Coprocessor data operation: bits 27..24 `1110`, bit 4 clear.
pub const COPROCESSOR_DATA_OPERATION_MASK: u32 = 0x0F00_0010;
pub const COPROCESSOR_DATA_OPERATION_BITS: u32 = 0x0E00_0000;

/// Coprocessor register transfer: bits 27..24 `1110`, bit 4 set.
pub const COPROCESSOR_REGISTER_TRANSFER_MASK: u32 = 0x0F00_0010;
pub const COPROCESSOR_REGISTER_TRANSFER_BITS: u32 = 0x0E00_0010;

/// Software interrupt: bits 27..24 `1111`.
pub const SOFTWARE_INTERRUPT_MASK: u32 = 0x0F00_0000;
pub const SOFTWARE_INTERRUPT_BITS: u32 = 0x0F00_0000;

/// `cond(4) 00(2) i(1) opcode(4) s(1) rn(4) rd(4) operand2(12)`
#[derive(Clone, Copy, Debug, PartialEq, Eq, Structural)]
pub struct DataProcess {
    pub cond: u32,
    pub _00: u32,
    pub i: u32,
    pub opcode: u32,
    pub s: u32,
    pub rn: u32,
    pub rd: u32,
    pub operand2: u32,
}

impl DataProcess {
    /// The fields of `w` read in this layout.
    pub open spec fn spec_from_word(w: u32) -> DataProcess {
        DataProcess {
            cond: bit_range(w, 31, 28),
            _00: bit_range(w, 27, 26),
            i: bit_range(w, 25, 25),
            opcode: bit_range(w, 24, 21),
            s: bit_range(w, 20, 20),
            rn: bit_range(w, 19, 16),
            rd: bit_range(w, 15, 12),
            operand2: bit_range(w, 11, 0),
        }
    }

    /// Every field fits its width.
    pub open spec fn wf(&self) -> bool {
        &&& self.cond < 16
        &&& self._00 < 4
        &&& self.i < 2
        &&& self.opcode < 16
        &&& self.s < 2
        &&& self.rn < 16
        &&& self.rd < 16
        &&& self.operand2 < 0x1000
    }

    /// The word that holds these fields in this layout.
    pub open spec fn spec_to_word(&self) -> u32 {
        (self.cond << 28u32) | (self._00 << 26u32) | (self.i << 25u32) | (self.opcode << 21u32) | (
        self.s << 20u32) | (self.rn << 16u32) | (self.rd << 12u32) | self.operand2
    }

    /// Reads the fields of `w` in this layout.
    pub fn from_word(w: Word) -> (r: DataProcess)
        ensures
            r == DataProcess::spec_from_word(w),
    {
        DataProcess {
            cond: get_bit_range(w, 31, 28),
            _00: get_bit_range(w, 27, 26),
            i: get_bit_range(w, 25, 25),
            opcode: get_bit_range(w, 24, 21),
            s: get_bit_range(w, 20, 20),
            rn: get_bit_range(w, 19, 16),
            rd: get_bit_range(w, 15, 12),
            operand2: get_bit_range(w, 11, 0),
        }
    }

    /// Packs the fields into a word in this layout.
    pub fn to_word(&self) -> (r: Word)
        requires
            self.wf(),
        ensures
            r == self.spec_to_word(),
    {
        (self.cond << 28u32) | (self._00 << 26u32) | (self.i << 25u32) | (self.opcode << 21u32) | (
        self.s << 20u32) | (self.rn << 16u32) | (self.rd << 12u32) | self.operand2
    }
}

/// Multiply and multiply-accumulate: `cond(4) _000000(6) a(1) s(1) rd(4) rn(4) rs(4) _1001(4) rm(4)`
#[derive(Clone, Copy, Debug, PartialEq, Eq, Structural)]
pub struct Multiply {
    pub cond: u32,
    pub _000000: u32,
    pub a: u32,
    pub s: u32,
    pub rd: u32,
    pub rn: u32,
    pub rs: u32,
    pub _1001: u32,
    pub rm: u32,
}

impl Multiply {
    /// The fields of `w` read in this layout.
    pub open spec fn spec_from_word(w: u32) -> Multiply {
        Multiply {
            cond: bit_range(w, 31, 28),
            _000000: bit_range(w, 27, 22),
            a: bit_range(w, 21, 21),
            s: bit_range(w, 20, 20),
            rd: bit_range(w, 19, 16),
            rn: bit_range(w, 15, 12),
            rs: bit_range(w, 11, 8),
            _1001: bit_range(w, 7, 4),
            rm: bit_range(w, 3, 0),
        }
    }

    /// Reads the fields of `w` in this layout.
    pub fn from_word(w: Word) -> (r: Multiply)
        ensures
            r == Multiply::spec_from_word(w),
    {
        Multiply {
            cond: get_bit_range(w, 31, 28),
            _000000: get_bit_range(w, 27, 22),
            a: get_bit_range(w, 21, 21),
            s: get_bit_range(w, 20, 20),
            rd: get_bit_range(w, 19, 16),
            rn: get_bit_range(w, 15, 12),
            rs: get_bit_range(w, 11, 8),
            _1001: get_bit_range(w, 7, 4),
            rm: get_bit_range(w, 3, 0),
        }
    }
}

/// Status register transfer with an immediate operand: `cond(4) _00010(5) op1(2) _0(1) rn(4) rd(4) rotate_imm(4) immed_8(8)`
#[derive(Clone, Copy, Debug, PartialEq, Eq, Structural)]
pub struct ControlImmediate {
    pub cond: u32,
    pub _00010: u32,
    pub op1: u32,
    pub _0: u32,
    pub rn: u32,
    pub rd: u32,
    pub rotate_imm: u32,
    pub immed_8: u32,
}

impl ControlImmediate {
    /// The fields of `w` read in this layout.
    pub open spec fn spec_from_word(w: u32) -> ControlImmediate {
        ControlImmediate {
            cond: bit_range(w, 31, 28),
            _00010: bit_range(w, 27, 23),
            op1: bit_range(w, 22, 21),
            _0: bit_range(w, 20, 20),
            rn: bit_range(w, 19, 16),
            rd: bit_range(w, 15, 12),
            rotate_imm: bit_range(w, 11, 8),
            immed_8: bit_range(w, 7, 0),
        }
    }

    /// Reads the fields of `w` in this layout.
    pub fn from_word(w: Word) -> (r: ControlImmediate)
        ensures
            r == ControlImmediate::spec_from_word(w),
    {
        ControlImmediate {
            cond: get_bit_range(w, 31, 28),
            _00010: get_bit_range(w, 27, 23),
            op1: get_bit_range(w, 22, 21),
            _0: get_bit_range(w, 20, 20),
            rn: get_bit_range(w, 19, 16),
            rd: get_bit_range(w, 15, 12),
            rotate_imm: get_bit_range(w, 11, 8),
            immed_8: get_bit_range(w, 7, 0),
        }
    }
}

/// Status register transfer with a register operand: `cond(4) _00010(5) op1(2) _0(1) rn(4) rd(4) rs(4) op2(4) rm(4)`
#[derive(Clone, Copy, Debug, PartialEq, Eq, Structural)]
pub struct ControlRegister {
    pub cond: u32,
    pub _00010: u32,
    pub op1: u32,
    pub _0: u32,
    pub rn: u32,
    pub rd: u32,
    pub rs: u32,
    pub op2: u32,
    pub rm: u32,
}

impl ControlRegister {
    /// The fields of `w` read in this layout.
    pub open spec fn spec_from_word(w: u32) -> ControlRegister {
        ControlRegister {
            cond: bit_range(w, 31, 28),
            _00010: bit_range(w, 27, 23),
            op1: bit_range(w, 22, 21),
            _0: bit_range(w, 20, 20),
            rn: bit_range(w, 19, 16),
            rd: bit_range(w, 15, 12),
            rs: bit_range(w, 11, 8),
            op2: bit_range(w, 7, 4),
            rm: bit_range(w, 3, 0),
        }
    }

    /// Reads the fields of `w` in this layout.
    pub fn from_word(w: Word) -> (r: ControlRegister)
        ensures
            r == ControlRegister::spec_from_word(w),
    {
        ControlRegister {
            cond: get_bit_range(w, 31, 28),
            _00010: get_bit_range(w, 27, 23),
            op1: get_bit_range(w, 22, 21),
            _0: get_bit_range(w, 20, 20),
            rn: get_bit_range(w, 19, 16),
            rd: get_bit_range(w, 15, 12),
            rs: get_bit_range(w, 11, 8),
            op2: get_bit_range(w, 7, 4),
            rm: get_bit_range(w, 3, 0),
        }
    }
}

/// Branch and exchange: `cond(4) _000100101111111111110001(24) rn(4)`
#[derive(Clone, Copy, Debug, PartialEq, Eq, Structural)]
pub struct BranchExchange {
    pub cond: u32,
    pub _000100101111111111110001: u32,
    pub rn: u32,
}

impl BranchExchange {
    /// The fields of `w` read in this layout.
    pub open spec fn spec_from_word(w: u32) -> BranchExchange {
        BranchExchange {
            cond: bit_range(w, 31, 28),
            _000100101111111111110001: bit_range(w, 27, 4),
            rn: bit_range(w, 3, 0),
        }
    }

    /// Reads the fields of `w` in this layout.
    pub fn from_word(w: Word) -> (r: BranchExchange)
        ensures
            r == BranchExchange::spec_from_word(w),
    {
        BranchExchange {
            cond: get_bit_range(w, 31, 28),
            _000100101111111111110001: get_bit_range(w, 27, 4),
            rn: get_bit_range(w, 3, 0),
        }
    }
}

/// Halfword and signed transfer: `cond(4) _000(3) p(1) u(1) b(1) w(1) l(1) rn(4) rd(4) rs(4) _1(1) op1(2) __1(1) offset2(4)`
#[derive(Clone, Copy, Debug, PartialEq, Eq, Structural)]
pub struct LoadStoreExtention {
    pub cond: u32,
    pub _000: u32,
    pub p: u32,
    pub u: u32,
    pub b: u32,
    pub w: u32,
    pub l: u32,
    pub rn: u32,
    pub rd: u32,
    pub rs: u32,
    pub _1: u32,
    pub op1: u32,
    pub __1: u32,
    pub offset2: u32,
}

impl LoadStoreExtention {
    /// The fields of `w` read in this layout.
    pub open spec fn spec_from_word(w: u32) -> LoadStoreExtention {
        LoadStoreExtention {
            cond: bit_range(w, 31, 28),
            _000: bit_range(w, 27, 25),
            p: bit_range(w, 24, 24),
            u: bit_range(w, 23, 23),
            b: bit_range(w, 22, 22),
            w: bit_range(w, 21, 21),
            l: bit_range(w, 20, 20),
            rn: bit_range(w, 19, 16),
            rd: bit_range(w, 15, 12),
            rs: bit_range(w, 11, 8),
            _1: bit_range(w, 7, 7),
            op1: bit_range(w, 6, 5),
            __1: bit_range(w, 4, 4),
            offset2: bit_range(w, 3, 0),
        }
    }

    /// Reads the fields of `w` in this layout.
    pub fn from_word(w: Word) -> (r: LoadStoreExtention)
        ensures
            r == LoadStoreExtention::spec_from_word(w),
    {
        LoadStoreExtention {
            cond: get_bit_range(w, 31, 28),
            _000: get_bit_range(w, 27, 25),
            p: get_bit_range(w, 24, 24),
            u: get_bit_range(w, 23, 23),
            b: get_bit_range(w, 22, 22),
            w: get_bit_range(w, 21, 21),
            l: get_bit_range(w, 20, 20),
            rn: get_bit_range(w, 19, 16),
            rd: get_bit_range(w, 15, 12),
            rs: get_bit_range(w, 11, 8),
            _1: get_bit_range(w, 7, 7),
            op1: get_bit_range(w, 6, 5),
            __1: get_bit_range(w, 4, 4),
            offset2: get_bit_range(w, 3, 0),
        }
    }
}

/// Single word transfer: `cond(4) _01(2) i(1) p(1) u(1) b(1) w(1) l(1) rn(4) rd(4) offset(12)`
#[derive(Clone, Copy, Debug, PartialEq, Eq, Structural)]
pub struct SingleDataTransfer {
    pub cond: u32,
    pub _01: u32,
    pub i: u32,
    pub p: u32,
    pub u: u32,
    pub b: u32,
    pub w: u32,
    pub l: u32,
    pub rn: u32,
    pub rd: u32,
    pub offset: u32,
}

impl SingleDataTransfer {
    /// The fields of `w` read in this layout.
    pub open spec fn spec_from_word(w: u32) -> SingleDataTransfer {
        SingleDataTransfer {
            cond: bit_range(w, 31, 28),
            _01: bit_range(w, 27, 26),
            i: bit_range(w, 25, 25),
            p: bit_range(w, 24, 24),
            u: bit_range(w, 23, 23),
            b: bit_range(w, 22, 22),
            w: bit_range(w, 21, 21),
            l: bit_range(w, 20, 20),
            rn: bit_range(w, 19, 16),
            rd: bit_range(w, 15, 12),
            offset: bit_range(w, 11, 0),
        }
    }

    /// Reads the fields of `w` in this layout.
    pub fn from_word(w: Word) -> (r: SingleDataTransfer)
        ensures
            r == SingleDataTransfer::spec_from_word(w),
    {
        SingleDataTransfer {
            cond: get_bit_range(w, 31, 28),
            _01: get_bit_range(w, 27, 26),
            i: get_bit_range(w, 25, 25),
            p: get_bit_range(w, 24, 24),
            u: get_bit_range(w, 23, 23),
            b: get_bit_range(w, 22, 22),
            w: get_bit_range(w, 21, 21),
            l: get_bit_range(w, 20, 20),
            rn: get_bit_range(w, 19, 16),
            rd: get_bit_range(w, 15, 12),
            offset: get_bit_range(w, 11, 0),
        }
    }
}

/// Block transfer: `cond(4) _100(3) p(1) u(1) s(1) w(1) l(1) rn(4) register_list(16)`
#[derive(Clone, Copy, Debug, PartialEq, Eq, Structural)]
pub struct BlockDataTransfer {
    pub cond: u32,
    pub _100: u32,
    pub p: u32,
    pub u: u32,
    pub s: u32,
    pub w: u32,
    pub l: u32,
    pub rn: u32,
    pub register_list: u32,
}

impl BlockDataTransfer {
    /// The fields of `w` read in this layout.
    pub open spec fn spec_from_word(w: u32) -> BlockDataTransfer {
        BlockDataTransfer {
            cond: bit_range(w, 31, 28),
            _100: bit_range(w, 27, 25),
            p: bit_range(w, 24, 24),
            u: bit_range(w, 23, 23),
            s: bit_range(w, 22, 22),
            w: bit_range(w, 21, 21),
            l: bit_range(w, 20, 20),
            rn: bit_range(w, 19, 16),
            register_list: bit_range(w, 15, 0),
        }
    }

    /// Reads the fields of `w` in this layout.
    pub fn from_word(w: Word) -> (r: BlockDataTransfer)
        ensures
            r == BlockDataTransfer::spec_from_word(w),
    {
        BlockDataTransfer {
            cond: get_bit_range(w, 31, 28),
            _100: get_bit_range(w, 27, 25),
            p: get_bit_range(w, 24, 24),
            u: get_bit_range(w, 23, 23),
            s: get_bit_range(w, 22, 22),
            w: get_bit_range(w, 21, 21),
            l: get_bit_range(w, 20, 20),
            rn: get_bit_range(w, 19, 16),
            register_list: get_bit_range(w, 15, 0),
        }
    }
}

/// Branch and branch with link: `cond(4) _101(3) l(1) offset(24)`
#[derive(Clone, Copy, Debug, PartialEq, Eq, Structural)]
pub struct Branch {
    pub cond: u32,
    pub _101: u32,
    pub l: u32,
    pub offset: u32,
}

impl Branch {
    /// The fields of `w` read in this layout.
    pub open spec fn spec_from_word(w: u32) -> Branch {
        Branch {
            cond: bit_range(w, 31, 28),
            _101: bit_range(w, 27, 25),
            l: bit_range(w, 24, 24),
            offset: bit_range(w, 23, 0),
        }
    }

    /// Reads the fields of `w` in this layout.
    pub fn from_word(w: Word) -> (r: Branch)
        ensures
            r == Branch::spec_from_word(w),
    {
        Branch {
            cond: get_bit_range(w, 31, 28),
            _101: get_bit_range(w, 27, 25),
            l: get_bit_range(w, 24, 24),
            offset: get_bit_range(w, 23, 0),
        }
    }
}

/// Coprocessor load and store: `cond(4) _110(3) p(1) u(1) n(1) w(1) l(1) rn(4) crd(4) cp_num(4) offset(8)`
#[derive(Clone, Copy, Debug, PartialEq, Eq, Structural)]
pub struct CoProcessorDataTransfer {
    pub cond: u32,
    pub _110: u32,
    pub p: u32,
    pub u: u32,
    pub n: u32,
    pub w: u32,
    pub l: u32,
    pub rn: u32,
    pub crd: u32,
    pub cp_num: u32,
    pub offset: u32,
}

impl CoProcessorDataTransfer {
    /// The fields of `w` read in this layout.
    pub open spec fn spec_from_word(w: u32) -> CoProcessorDataTransfer {
        CoProcessorDataTransfer {
            cond: bit_range(w, 31, 28),
            _110: bit_range(w, 27, 25),
            p: bit_range(w, 24, 24),
            u: bit_range(w, 23, 23),
            n: bit_range(w, 22, 22),
            w: bit_range(w, 21, 21),
            l: bit_range(w, 20, 20),
            rn: bit_range(w, 19, 16),
            crd: bit_range(w, 15, 12),
            cp_num: bit_range(w, 11, 8),
            offset: bit_range(w, 7, 0),
        }
    }

    /// Reads the fields of `w` in this layout.
    pub fn from_word(w: Word) -> (r: CoProcessorDataTransfer)
        ensures
            r == CoProcessorDataTransfer::spec_from_word(w),
    {
        CoProcessorDataTransfer {
            cond: get_bit_range(w, 31, 28),
            _110: get_bit_range(w, 27, 25),
            p: get_bit_range(w, 24, 24),
            u: get_bit_range(w, 23, 23),
            n: get_bit_range(w, 22, 22),
            w: get_bit_range(w, 21, 21),
            l: get_bit_range(w, 20, 20),
            rn: get_bit_range(w, 19, 16),
            crd: get_bit_range(w, 15, 12),
            cp_num: get_bit_range(w, 11, 8),
            offset: get_bit_range(w, 7, 0),
        }
    }
}

/// Coprocessor data operation: `cond(4) _1110(4) cp_opc(4) crn(4) crd(4) cp_num(4) cp(3) _0(1) crm(4)`
#[derive(Clone, Copy, Debug, PartialEq, Eq, Structural)]
pub struct CoProcessorDataOperation {
    pub cond: u32,
    pub _1110: u32,
    pub cp_opc: u32,
    pub crn: u32,
    pub crd: u32,
    pub cp_num: u32,
    pub cp: u32,
    pub _0: u32,
    pub crm: u32,
}

impl CoProcessorDataOperation {
    /// The fields of `w` read in this layout.
    pub open spec fn spec_from_word(w: u32) -> CoProcessorDataOperation {
        CoProcessorDataOperation {
            cond: bit_range(w, 31, 28),
            _1110: bit_range(w, 27, 24),
            cp_opc: bit_range(w, 23, 20),
            crn: bit_range(w, 19, 16),
            crd: bit_range(w, 15, 12),
            cp_num: bit_range(w, 11, 8),
            cp: bit_range(w, 7, 5),
            _0: bit_range(w, 4, 4),
            crm: bit_range(w, 3, 0),
        }
    }

    /// Reads the fields of `w` in this layout.
    pub fn from_word(w: Word) -> (r: CoProcessorDataOperation)
        ensures
            r == CoProcessorDataOperation::spec_from_word(w),
    {
        CoProcessorDataOperation {
            cond: get_bit_range(w, 31, 28),
            _1110: get_bit_range(w, 27, 24),
            cp_opc: get_bit_range(w, 23, 20),
            crn: get_bit_range(w, 19, 16),
            crd: get_bit_range(w, 15, 12),
            cp_num: get_bit_range(w, 11, 8),
            cp: get_bit_range(w, 7, 5),
            _0: get_bit_range(w, 4, 4),
            crm: get_bit_range(w, 3, 0),
        }
    }
}

/// Coprocessor register transfer: `cond(4) _1110(4) cp_opc(3) l(1) crn(4) rd(4) cp_num(4) cp(3) _1(1) crm(4)`
#[derive(Clone, Copy, Debug, PartialEq, Eq, Structural)]
pub struct CoProcessorRegisterTransfer {
    pub cond: u32,
    pub _1110: u32,
    pub cp_opc: u32,
    pub l: u32,
    pub crn: u32,
    pub rd: u32,
    pub cp_num: u32,
    pub cp: u32,
    pub _1: u32,
    pub crm: u32,
}

impl CoProcessorRegisterTransfer {
    /// The fields of `w` read in this layout.
    pub open spec fn spec_from_word(w: u32) -> CoProcessorRegisterTransfer {
        CoProcessorRegisterTransfer {
            cond: bit_range(w, 31, 28),
            _1110: bit_range(w, 27, 24),
            cp_opc: bit_range(w, 23, 21),
            l: bit_range(w, 20, 20),
            crn: bit_range(w, 19, 16),
            rd: bit_range(w, 15, 12),
            cp_num: bit_range(w, 11, 8),
            cp: bit_range(w, 7, 5),
            _1: bit_range(w, 4, 4),
            crm: bit_range(w, 3, 0),
        }
    }

    /// Reads the fields of `w` in this layout.
    pub fn from_word(w: Word) -> (r: CoProcessorRegisterTransfer)
        ensures
            r == CoProcessorRegisterTransfer::spec_from_word(w),
    {
        CoProcessorRegisterTransfer {
            cond: get_bit_range(w, 31, 28),
            _1110: get_bit_range(w, 27, 24),
            cp_opc: get_bit_range(w, 23, 21),
            l: get_bit_range(w, 20, 20),
            crn: get_bit_range(w, 19, 16),
            rd: get_bit_range(w, 15, 12),
            cp_num: get_bit_range(w, 11, 8),
            cp: get_bit_range(w, 7, 5),
            _1: get_bit_range(w, 4, 4),
            crm: get_bit_range(w, 3, 0),
        }
    }
}

/// Software interrupt: `cond(4) _1111(4) imm24(24)`
#[derive(Clone, Copy, Debug, PartialEq, Eq, Structural)]
pub struct SoftwareInterrupt {
    pub cond: u32,
    pub _1111: u32,
    pub imm24: u32,
}

impl SoftwareInterrupt {
    /// The fields of `w` read in this layout.
    pub open spec fn spec_from_word(w: u32) -> SoftwareInterrupt {
        SoftwareInterrupt {
            cond: bit_range(w, 31, 28),
            _1111: bit_range(w, 27, 24),
            imm24: bit_range(w, 23, 0),
        }
    }

    /// Reads the fields of `w` in this layout.
    pub fn from_word(w: Word) -> (r: SoftwareInterrupt)
        ensures
            r == SoftwareInterrupt::spec_from_word(w),
    {
        SoftwareInterrupt {
            cond: get_bit_range(w, 31, 28),
            _1111: get_bit_range(w, 27, 24),
            imm24: get_bit_range(w, 23, 0),
        }
    }
}

/// A decoded instruction word, one variant per instruction class.
#[derive(Clone, Copy, Debug, PartialEq, Eq, Structural)]
pub enum InstKind {
    DataProcess(DataProcess),
    Multiply(Multiply),
    ControlImmediate(ControlImmediate),
    ControlRegister(ControlRegister),
    BranchExchange(BranchExchange),
    LoadStoreExtention(LoadStoreExtention),
    SingleDataTransfer(SingleDataTransfer),
    BlockDataTransfer(BlockDataTransfer),
    Branch(Branch),
    CoProcessorDataTransfer(CoProcessorDataTransfer),
    CoProcessorDataOperation(CoProcessorDataOperation),
    CoProcessorRegisterTransfer(CoProcessorRegisterTransfer),
    SoftwareInterrupt(SoftwareInterrupt),
    Undefined,
}

/// A decoded instruction together with its condition code and the word it
/// came from.
#[derive(Clone, Copy, Debug, PartialEq, Eq, Structural)]
pub struct DecodedInstruction {
    pub inst: InstKind,
    pub cond: u32,
    pub raw_inst: u32,
}

/// The class of `w`: the first format whose fixed bits `w` carries, tried in
/// the order multiply, the status transfers, data processing, branch and
/// exchange, single transfer, block transfer, branch, the three coprocessor
/// classes and software interrupt; `Undefined` when none matches. The fields
/// of `w` are read in that format's layout.
pub open spec fn inst_kind_of(w: u32) -> InstKind {
    if matches_format(w, MULTIPLY_MASK, MULTIPLY_BITS) {
        InstKind::Multiply(Multiply::spec_from_word(w))
    } else if matches_format(w, CONTROL_IMMEDIATE_MASK, CONTROL_IMMEDIATE_BITS) {
        InstKind::ControlImmediate(ControlImmediate::spec_from_word(w))
    } else if matches_format(w, CONTROL_REGISTER_MASK, CONTROL_REGISTER_BITS) || matches_format(
        w,
        CONTROL_REGISTER_ALT_MASK,
        CONTROL_REGISTER_ALT_BITS,
    ) {
        InstKind::ControlRegister(ControlRegister::spec_from_word(w))
    } else if matches_format(w, DATA_PROCESS_MASK, DATA_PROCESS_BITS) {
        InstKind::DataProcess(DataProcess::spec_from_word(w))
    } else if matches_format(w, BRANCH_EXCHANGE_MASK, BRANCH_EXCHANGE_BITS) {
        InstKind::BranchExchange(BranchExchange::spec_from_word(w))
    } else if matches_format(w, SINGLE_DATA_TRANSFER_MASK, SINGLE_DATA_TRANSFER_BITS) {
        InstKind::SingleDataTransfer(SingleDataTransfer::spec_from_word(w))
    } else if matches_format(w, BLOCK_DATA_TRANSFER_MASK, BLOCK_DATA_TRANSFER_BITS) {
        InstKind::BlockDataTransfer(BlockDataTransfer::spec_from_word(w))
    } else if matches_format(w, BRANCH_MASK, BRANCH_BITS) {
        InstKind::Branch(Branch::spec_from_word(w))
    } else if matches_format(w, COPROCESSOR_DATA_TRANSFER_MASK, COPROCESSOR_DATA_TRANSFER_BITS) {
        InstKind::CoProcessorDataTransfer(CoProcessorDataTransfer::spec_from_word(w))
    } else if matches_format(w, COPROCESSOR_DATA_OPERATION_MASK, COPROCESSOR_DATA_OPERATION_BITS) {
        InstKind::CoProcessorDataOperation(CoProcessorDataOperation::spec_from_word(w))
    } else if matches_format(
        w,
        COPROCESSOR_REGISTER_TRANSFER_MASK,
        COPROCESSOR_REGISTER_TRANSFER_BITS,
    ) {
        InstKind::CoProcessorRegisterTransfer(CoProcessorRegisterTransfer::spec_from_word(w))
    } else if matches_format(w, SOFTWARE_INTERRUPT_MASK, SOFTWARE_INTERRUPT_BITS) {
        InstKind::SoftwareInterrupt(SoftwareInterrupt::spec_from_word(w))
    } else {
        InstKind::Undefined
    }
}

/// The decoded form of `w`: its class and fields, and its condition code
/// (bits 31..28).
pub open spec fn decoded_of(w: u32) -> DecodedInstruction {
    DecodedInstruction { inst: inst_kind_of(w), cond: bit_range(w, 31, 28), raw_inst: w }
}

/// Every word falls in some class: the formats cover all encodings, so no
/// word decodes to `Undefined`.
pub proof fn lemma_every_word_has_a_class(w: u32)
    ensures
        inst_kind_of(w) != InstKind::Undefined,
{
    assert(w & 0x0C00_0000 == 0 || w & 0x0C00_0000 == 0x0400_0000 || w & 0x0E00_0000 == 0x0800_0000
        || w & 0x0E00_0000 == 0x0A00_0000 || w & 0x0E00_0000 == 0x0C00_0000 || w & 0x0F00_0010
        == 0x0E00_0000 || w & 0x0F00_0010 == 0x0E00_0010 || w & 0x0F00_0000 == 0x0F00_0000)
        by (bit_vector);
}

/// Decoding never assigns a word to a class whose fixed bits it does not
/// carry, and a data-processing word is none of the narrower encodings tried
/// before it. Branch-and-exchange words lie in the data-processing space and
/// are taken before their own format is tried, and no format yields the
/// halfword-transfer class.
pub proof fn lemma_class_matches_format(w: u32)
    ensures
        inst_kind_of(w) is Multiply ==> matches_format(w, MULTIPLY_MASK, MULTIPLY_BITS),
        inst_kind_of(w) is ControlImmediate ==> matches_format(w, CONTROL_IMMEDIATE_MASK, CONTROL_IMMEDIATE_BITS),
        inst_kind_of(w) is ControlRegister ==> matches_format(w, CONTROL_REGISTER_MASK, CONTROL_REGISTER_BITS)
            || matches_format(w, CONTROL_REGISTER_ALT_MASK, CONTROL_REGISTER_ALT_BITS),
        inst_kind_of(w) is DataProcess <==> {
            &&& matches_format(w, DATA_PROCESS_MASK, DATA_PROCESS_BITS)
            &&& !matches_format(w, MULTIPLY_MASK, MULTIPLY_BITS)
            &&& !matches_format(w, CONTROL_IMMEDIATE_MASK, CONTROL_IMMEDIATE_BITS)
            &&& !matches_format(w, CONTROL_REGISTER_MASK, CONTROL_REGISTER_BITS)
            &&& !matches_format(w, CONTROL_REGISTER_ALT_MASK, CONTROL_REGISTER_ALT_BITS)
        },
        !(inst_kind_of(w) is BranchExchange),
        !(inst_kind_of(w) is LoadStoreExtention),
        inst_kind_of(w) is SingleDataTransfer ==> matches_format(
            w,
            SINGLE_DATA_TRANSFER_MASK,
            SINGLE_DATA_TRANSFER_BITS,
        ),
        inst_kind_of(w) is BlockDataTransfer ==> matches_format(
            w,
            BLOCK_DATA_TRANSFER_MASK,
            BLOCK_DATA_TRANSFER_BITS,
        ),
        inst_kind_of(w) is Branch ==> matches_format(w, BRANCH_MASK, BRANCH_BITS),
        inst_kind_of(w) is CoProcessorDataTransfer ==> matches_format(
            w,
            COPROCESSOR_DATA_TRANSFER_MASK,
            COPROCESSOR_DATA_TRANSFER_BITS,
        ),
        inst_kind_of(w) is CoProcessorDataOperation ==> matches_format(
            w,
            COPROCESSOR_DATA_OPERATION_MASK,
            COPROCESSOR_DATA_OPERATION_BITS,
        ),
        inst_kind_of(w) is CoProcessorRegisterTransfer ==> matches_format(
            w,
            COPROCESSOR_REGISTER_TRANSFER_MASK,
            COPROCESSOR_REGISTER_TRANSFER_BITS,
        ),
        inst_kind_of(w) is SoftwareInterrupt ==> matches_format(
            w,
            SOFTWARE_INTERRUPT_MASK,
            SOFTWARE_INTERRUPT_BITS,
        ),
{
    assert(w & 0x0FFF_FFF0 == 0x012F_FF10 ==> w & 0x0C00_0000 == 0) by (bit_vector);
}

/// Encoding data-processing fields and decoding the word gives the same
/// fields back, the condition code and the word itself, whenever the word is
/// not taken by one of the narrower formats tried first.
pub proof fn lemma_decode_data_process_round_trip(dp: DataProcess)
    requires
        dp.wf(),
        dp._00 == 0,
        !matches_format(dp.spec_to_word(), MULTIPLY_MASK, MULTIPLY_BITS),
        !matches_format(dp.spec_to_word(), CONTROL_IMMEDIATE_MASK, CONTROL_IMMEDIATE_BITS),
        !matches_format(dp.spec_to_word(), CONTROL_REGISTER_MASK, CONTROL_REGISTER_BITS),
        !matches_format(dp.spec_to_word(), CONTROL_REGISTER_ALT_MASK, CONTROL_REGISTER_ALT_BITS),
    ensures
        decoded_of(dp.spec_to_word()) == (DecodedInstruction {
            inst: InstKind::DataProcess(dp),
            cond: dp.cond,
            raw_inst: dp.spec_to_word(),
        }),
{
    lemma_data_process_round_trip(dp);
    let w = dp.spec_to_word();
    let (cond, i, opcode, s, rn, rd, op2) = (dp.cond, dp.i, dp.opcode, dp.s, dp.rn, dp.rd, dp.operand2);
    assert(w & 0x0C00_0000 == 0) by (bit_vector)
        requires
            w == (cond << 28u32) | (0u32 << 26u32) | (i << 25u32) | (opcode << 21u32) | (s << 20u32)
                | (rn << 16u32) | (rd << 12u32) | op2,
            cond < 16,
            i < 2,
            opcode < 16,
            s < 2,
            rn < 16,
            rd < 16,
            op2 < 0x1000,
    ;
}

/// Reading the fields back from the word that packs them gives the same fields.
pub proof fn lemma_data_process_round_trip(dp: DataProcess)
    requires
        dp.wf(),
    ensures
        DataProcess::spec_from_word(dp.spec_to_word()) == dp,
{
    let w = dp.spec_to_word();
    let (cond, f00, i, opcode, s, rn, rd, op2) = (
        dp.cond,
        dp._00,
        dp.i,
        dp.opcode,
        dp.s,
        dp.rn,
        dp.rd,
        dp.operand2,
    );
    assert(bit_range(w, 31, 28) == cond && bit_range(w, 27, 26) == f00 && bit_range(w, 25, 25) == i
        && bit_range(w, 24, 21) == opcode && bit_range(w, 20, 20) == s && bit_range(w, 19, 16)
        == rn && bit_range(w, 15, 12) == rd && bit_range(w, 11, 0) == op2) by (bit_vector)
        requires
            w == (cond << 28u32) | (f00 << 26u32) | (i << 25u32) | (opcode << 21u32) | (s << 20u32)
                | (rn << 16u32) | (rd << 12u32) | op2,
            cond < 16,
            f00 < 4,
            i < 2,
            opcode < 16,
            s < 2,
            rn < 16,
            rd < 16,
            op2 < 0x1000,
    ;
}

/// Packing the fields read from a word gives that word back.
pub proof fn lemma_data_process_word_round_trip(w: u32)
    ensures
        DataProcess::spec_from_word(w).wf(),
        DataProcess::spec_from_word(w).spec_to_word() == w,
{
    assert(bit_range(w, 31, 28) < 16 && bit_range(w, 27, 26) < 4 && bit_range(w, 25, 25) < 2
        && bit_range(w, 24, 21) < 16 && bit_range(w, 20, 20) < 2 && bit_range(w, 19, 16) < 16
        && bit_range(w, 15, 12) < 16 && bit_range(w, 11, 0) < 0x1000 && (bit_range(w, 31, 28)
        << 28u32) | (bit_range(w, 27, 26) << 26u32) | (bit_range(w, 25, 25) << 25u32) | (
    bit_range(w, 24, 21) << 21u32) | (bit_range(w, 20, 20) << 20u32) | (bit_range(w, 19, 16)
        << 16u32) | (bit_range(w, 15, 12) << 12u32) | bit_range(w, 11, 0) == w) by (bit_vector);
}

} // verus!
