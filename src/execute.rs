//! The execution engine: decoding a fetched word, the shifter operand of a
//! data-processing instruction, and the effect of each executed class on the
//! registers, the flags and the bus.

use vstd::prelude::*;

use crate::alu::{alu_operate, alu_output, is_test_opcode, wrap};
use crate::bits::{bit_range, bit_set, get_bit_range, is_match_format, InstFormat, Word};
use crate::condition::condition_holds;
use crate::cpu::{ARMv4T, Bus, BusAccess, BusRW, Fault};
use crate::instruction::{
    decoded_of, inst_kind_of, BlockDataTransfer, Branch, BranchExchange, CoProcessorDataOperation,
    CoProcessorDataTransfer, CoProcessorRegisterTransfer, ControlImmediate, ControlRegister,
    DataProcess, DecodedInstruction, InstKind, Multiply, SingleDataTransfer,
    SoftwareInterrupt, BLOCK_DATA_TRANSFER_BITS, BLOCK_DATA_TRANSFER_MASK, BRANCH_BITS,
    BRANCH_EXCHANGE_BITS, BRANCH_EXCHANGE_MASK, BRANCH_MASK, CONTROL_IMMEDIATE_BITS,
    CONTROL_IMMEDIATE_MASK, CONTROL_REGISTER_ALT_BITS, CONTROL_REGISTER_ALT_MASK, CONTROL_REGISTER_BITS, CONTROL_REGISTER_MASK,
    COPROCESSOR_DATA_OPERATION_BITS, COPROCESSOR_DATA_OPERATION_MASK,
    COPROCESSOR_DATA_TRANSFER_BITS, COPROCESSOR_DATA_TRANSFER_MASK,
    COPROCESSOR_REGISTER_TRANSFER_BITS, COPROCESSOR_REGISTER_TRANSFER_MASK, DATA_PROCESS_BITS,
    DATA_PROCESS_MASK, MULTIPLY_BITS,
    MULTIPLY_MASK, SINGLE_DATA_TRANSFER_BITS, SINGLE_DATA_TRANSFER_MASK, SOFTWARE_INTERRUPT_BITS,
    SOFTWARE_INTERRUPT_MASK,
};
use crate::registers::CpuView;
use crate::shifter::{
    immediate_operand, rotated_immediate, shift_by_immediate, shift_by_register,
    shifted_by_immediate, shifted_by_register, ShifterOperand,
};

verus! {

/// The operand fields of a data-processing or transfer instruction fit their
/// widths.
proof fn lemma_operand_fields(x: u32, y: u32)
    ensures
        bit_range(x, 3, 0) < 16,
        bit_range(x, 6, 5) < 4,
        bit_range(x, 11, 7) < 32,
        bit_range(x, 11, 8) < 16,
        y & 0xFF < 256,
{
    assert(bit_range(x, 3, 0) < 16 && bit_range(x, 6, 5) < 4 && bit_range(x, 11, 7) < 32
        && bit_range(x, 11, 8) < 16 && y & 0xFF < 256) by (bit_vector);
}

/// The second operand and shifter carry-out of `dp` in state `s`: the rotated
/// immediate when the I bit is set; otherwise register `rm` (bits 3..0)
/// shifted by the type in bits 6..5, by the 5-bit amount in bits 11..7 when
/// bit 4 is clear, or by the low byte of register `rs` (bits 11..8) when it
/// is set.
pub open spec fn shifter_operand_of(s: CpuView, dp: DataProcess) -> ShifterOperand {
    let op2 = dp.operand2;
    if dp.i != 0 {
        immediate_operand(op2, s.c())
    } else if bit_range(op2, 4, 4) == 0 {
        shifted_by_immediate(
            s.gpr(bit_range(op2, 3, 0) as int),
            bit_range(op2, 6, 5),
            bit_range(op2, 11, 7),
            s.c(),
        )
    } else {
        shifted_by_register(
            s.gpr(bit_range(op2, 3, 0) as int),
            bit_range(op2, 6, 5),
            s.gpr(bit_range(op2, 11, 8) as int) & 0xFF,
            s.c(),
        )
    }
}

/// The register fields that execution uses as indices fit in four bits, and a
/// branch offset in 24.
pub open spec fn fields_in_range(inst: InstKind) -> bool {
    match inst {
        InstKind::DataProcess(dp) => dp.rn < 16 && dp.rd < 16 && dp.opcode < 16,
        InstKind::SingleDataTransfer(t) => t.rn < 16 && t.rd < 16,
        InstKind::BlockDataTransfer(t) => t.rn < 16,
        InstKind::Branch(b) => b.offset < 0x100_0000,
        _ => true,
    }
}

/// Decoded words meet `fields_in_range`.
pub proof fn lemma_decoded_fields_in_range(w: u32)
    ensures
        fields_in_range(inst_kind_of(w)),
{
    assert(bit_range(w, 19, 16) < 16 && bit_range(w, 15, 12) < 16 && bit_range(w, 24, 21) < 16
        && bit_range(w, 23, 0) < 0x100_0000) by (bit_vector);
}

/// The state after data-processing instruction `dp` in state `s`, and whether
/// it changed the flow of control. The result goes to `rd` unless the opcode is
/// a test. With r15 as destination, for every opcode, N, Z, C and V are
/// restored from the saved status register and a change of control flow is
/// reported; otherwise the S bit makes the instruction set the flags.
pub open spec fn data_process_effect(s: CpuView, dp: DataProcess) -> (CpuView, bool) {
    let operand = shifter_operand_of(s, dp);
    let out = alu_output(
        dp.opcode,
        s.gpr(dp.rn as int),
        operand.shifter_operand,
        operand.carry_out,
        s.c(),
        s.v(),
    );
    let writes_rd = !is_test_opcode(dp.opcode);
    let writes_pc = dp.rd == 15;
    let written = if writes_rd {
        s.with_gpr(dp.rd as int, out.result)
    } else {
        s
    };
    if writes_pc {
        (written.with_restored_flags(), true)
    } else if dp.s != 0 {
        (written.with_flags(out.n, out.z, out.c, out.v), false)
    } else {
        (written, false)
    }
}

/// A 24-bit field read as a two's-complement signed value.
pub open spec fn sign_extend_24(x: u32) -> int {
    if x >= 0x80_0000 {
        x - 0x100_0000
    } else {
        x as int
    }
}

/// The branch target: the program counter plus the signed 24-bit word offset
/// times four, modulo 2^32.
pub open spec fn branch_target(pc: u32, offset: u32) -> u32 {
    wrap(pc + 4 * sign_extend_24(offset))
}

/// The state after branch `b` in state `s`. With the link bit the return
/// address, the program counter minus 4, goes to r14 first.
pub open spec fn branch_effect(s: CpuView, b: Branch) -> CpuView {
    let linked = if b.l != 0 {
        s.with_gpr(14, s.pc().wrapping_sub(4))
    } else {
        s
    };
    linked.with_gpr(15, branch_target(s.pc(), b.offset))
}

/// The offset of a single transfer: the 12-bit immediate when the I bit is
/// clear, else register `rm` (bits 3..0) shifted as a shifter operand with an
/// immediate amount.
pub open spec fn transfer_offset(s: CpuView, t: SingleDataTransfer) -> u32 {
    if t.i != 0 {
        shifted_by_immediate(
            s.gpr(bit_range(t.offset, 3, 0) as int),
            bit_range(t.offset, 6, 5),
            bit_range(t.offset, 11, 7),
            s.c(),
        ).shifter_operand
    } else {
        t.offset
    }
}

/// The base register plus (U set) or minus (U clear) the offset, modulo 2^32.
pub open spec fn transfer_address(s: CpuView, t: SingleDataTransfer) -> u32 {
    let base = s.gpr(t.rn as int);
    if t.u != 0 {
        base.wrapping_add(transfer_offset(s, t))
    } else {
        base.wrapping_sub(transfer_offset(s, t))
    }
}

/// Where the access goes: the computed address when pre-indexed, the
/// unmodified base when post-indexed.
pub open spec fn transfer_access_address(s: CpuView, t: SingleDataTransfer) -> u32 {
    if t.p != 0 {
        transfer_address(s, t)
    } else {
        s.gpr(t.rn as int)
    }
}

/// Whether the base register receives the computed address: pre-indexed with
/// write-back, or post-indexed.
pub open spec fn transfer_writes_back(t: SingleDataTransfer) -> bool {
    t.p == 0 || t.w != 0
}

/// The state after single transfer `t` in state `s` once its access has
/// succeeded, `loaded` being the word read by a load, and whether it wrote the
/// program counter. A load writes `rd`; write-back then writes the base.
pub open spec fn single_transfer_effect(s: CpuView, t: SingleDataTransfer, loaded: u32) -> (CpuView, bool) {
    let after_load = if t.l != 0 {
        s.with_gpr(t.rd as int, loaded)
    } else {
        s
    };
    let after_write_back = if transfer_writes_back(t) {
        after_load.with_gpr(t.rn as int, transfer_address(s, t))
    } else {
        after_load
    };
    (after_write_back, (t.l != 0 && t.rd == 15) || (transfer_writes_back(t) && t.rn == 15))
}

/// Single transfer `t` took the machine from `pre` (with bus trace
/// `pre_trace`) to `post` and `post_trace`, returning `r`: it made exactly one
/// access, a read for a load or a write of `rd` for a store, at the access
/// address; on success the registers change as `single_transfer_effect` says,
/// and on a bus fault nothing changes and a data abort at that address is
/// returned.
pub open spec fn single_transfer_post(
    pre: CpuView,
    pre_trace: Seq<BusAccess>,
    t: SingleDataTransfer,
    post: CpuView,
    post_trace: Seq<BusAccess>,
    r: Result<bool, Fault>,
) -> bool {
    let addr = transfer_access_address(pre, t);
    let e = post_trace.last();
    &&& post_trace.len() == pre_trace.len() + 1
    &&& post_trace.drop_last() == pre_trace
    &&& e.addr == addr
    &&& e.rw == (if t.l != 0 {
        BusRW::Read
    } else {
        BusRW::Write
    })
    &&& t.l == 0 ==> e.data == pre.gpr(t.rd as int)
    &&& if e.ok {
        let (s, pc_written) = single_transfer_effect(pre, t, e.data);
        r == Ok::<bool, Fault>(pc_written) && post == s
    } else {
        r == Err::<bool, Fault>(Fault::DataAbort(addr)) && post == pre
    }
}

/// The registers below `n` whose bit is set in `list`, in ascending order.
pub open spec fn listed_below(list: u32, n: nat) -> Seq<int>
    decreases n,
{
    if n == 0 {
        Seq::empty()
    } else {
        let earlier = listed_below(list, (n - 1) as nat);
        if bit_set(list, (n - 1) as u32) {
            earlier.push(n - 1)
        } else {
            earlier
        }
    }
}

/// The registers a block transfer with register list `list` visits: those of
/// r0..r15 whose bit is set, in ascending order.
pub open spec fn block_registers(list: u32) -> Seq<int> {
    listed_below(list, 16)
}

proof fn lemma_listed_below_bounds(list: u32, n: nat)
    ensures
        listed_below(list, n).len() <= n,
        forall|j: int|
            0 <= j < listed_below(list, n).len() ==> 0 <= #[trigger] listed_below(list, n)[j] < n,
    decreases n,
{
    if n > 0 {
        lemma_listed_below_bounds(list, (n - 1) as nat);
    }
}

proof fn lemma_listed_below_prefix(list: u32, i: nat, n: nat)
    requires
        i <= n,
    ensures
        listed_below(list, i).len() <= listed_below(list, n).len(),
        forall|j: int|
            0 <= j < listed_below(list, i).len() ==> #[trigger] listed_below(list, n)[j]
                == listed_below(list, i)[j],
    decreases n,
{
    if i < n {
        lemma_listed_below_prefix(list, i, (n - 1) as nat);
    }
}

/// The first address of block transfer `t` in state `s`, from the base `rn`
/// and the number of listed registers: increment-after starts at the base,
/// increment-before at base + 4, decrement-after at base - 4 * count + 4 and
/// decrement-before at base - 4 * count.
pub open spec fn block_start(s: CpuView, t: BlockDataTransfer) -> u32 {
    let base = s.gpr(t.rn as int);
    let count = block_registers(t.register_list).len();
    if t.u != 0 {
        if t.p != 0 {
            base.wrapping_add(4)
        } else {
            base
        }
    } else if t.p != 0 {
        base.wrapping_sub((4 * count) as u32)
    } else {
        base.wrapping_sub((4 * count) as u32).wrapping_add(4)
    }
}

/// The address of the `j`-th transfer: the start address stepped by 4 per
/// transfer, up or down.
pub open spec fn block_address(start: u32, up: bool, j: int) -> u32 {
    if up {
        wrap(start + 4 * j)
    } else {
        wrap(start - 4 * j)
    }
}

/// The state after loading `values[j]` into register `regs[j]`, in order, for
/// each `j` below the length of `values`.
pub open spec fn loads_applied(s: CpuView, regs: Seq<int>, values: Seq<u32>) -> CpuView
    decreases values.len(),
{
    if values.len() == 0 {
        s
    } else {
        loads_applied(s, regs, values.drop_last()).with_gpr(regs[values.len() - 1], values.last())
    }
}

/// Block transfer `t` took the machine from `pre` (with bus trace
/// `pre_trace`) to `post` and `post_trace`, returning `r`. The listed
/// registers are visited in ascending order, one access each at the running
/// address; a store writes each register's value, a load reads into each
/// register in turn. The transfer stops at the first access the bus fails, with
/// a data abort at that address and the loads before it applied. It writes the
/// program counter when it loads r15.
pub open spec fn block_transfer_post(
    pre: CpuView,
    pre_trace: Seq<BusAccess>,
    t: BlockDataTransfer,
    post: CpuView,
    post_trace: Seq<BusAccess>,
    r: Result<bool, Fault>,
) -> bool {
    let regs = block_registers(t.register_list);
    let start = block_start(pre, t);
    let up = t.u != 0;
    let load = t.l != 0;
    let made = post_trace.subrange(pre_trace.len() as int, post_trace.len() as int);
    let values = made.map_values(|e: BusAccess| e.data);
    &&& pre_trace.len() <= post_trace.len() <= pre_trace.len() + regs.len()
    &&& post_trace.subrange(0, pre_trace.len() as int) == pre_trace
    &&& forall|j: int|
        #![trigger made[j]]
        0 <= j < made.len() ==> {
            &&& made[j].addr == block_address(start, up, j)
            &&& made[j].rw == (if load {
                BusRW::Read
            } else {
                BusRW::Write
            })
            &&& !load ==> made[j].data == pre.gpr(regs[j])
            &&& j < made.len() - 1 ==> made[j].ok
        }
    &&& if made.len() == regs.len() && (made.len() == 0 || made.last().ok) {
        &&& r == Ok::<bool, Fault>(load && bit_set(t.register_list, 15))
        &&& post == if load {
            loads_applied(pre, regs, values)
        } else {
            pre
        }
    } else {
        &&& made.len() > 0
        &&& !made.last().ok
        &&& r == Err::<bool, Fault>(Fault::DataAbort(made.last().addr))
        &&& post == if load {
            loads_applied(pre, regs, values.drop_last())
        } else {
            pre
        }
    }
}

/// What a block transfer that made the accesses `made`, all but possibly the
/// last successful, and loaded `values` from the successful ones, has to show
/// for `block_transfer_post`.
proof fn lemma_block_transfer_post(
    pre: CpuView,
    pre_trace: Seq<BusAccess>,
    t: BlockDataTransfer,
    post: CpuView,
    post_trace: Seq<BusAccess>,
    made: Seq<BusAccess>,
    values: Seq<u32>,
    r: Result<bool, Fault>,
)
    requires
        post_trace == pre_trace + made,
        made.len() <= block_registers(t.register_list).len(),
        forall|j: int|
            #![trigger made[j]]
            0 <= j < made.len() ==> {
                &&& made[j].addr == block_address(block_start(pre, t), t.u != 0, j)
                &&& made[j].rw == (if t.l != 0 {
                    BusRW::Read
                } else {
                    BusRW::Write
                })
                &&& t.l == 0 ==> made[j].data == pre.gpr(block_registers(t.register_list)[j])
                &&& j < made.len() - 1 ==> made[j].ok
                &&& j < values.len() ==> made[j].data == values[j]
            },
        made.len() == block_registers(t.register_list).len() && (made.len() == 0
            || made.last().ok) ==> {
            &&& values.len() == made.len()
            &&& r == Ok::<bool, Fault>(t.l != 0 && bit_set(t.register_list, 15))
        },
        !(made.len() == block_registers(t.register_list).len() && (made.len() == 0
            || made.last().ok)) ==> {
            &&& made.len() > 0
            &&& !made.last().ok
            &&& values.len() == made.len() - 1
            &&& r == Err::<bool, Fault>(Fault::DataAbort(made.last().addr))
        },
        post == if t.l != 0 {
            loads_applied(pre, block_registers(t.register_list), values)
        } else {
            pre
        },
    ensures
        block_transfer_post(pre, pre_trace, t, post, post_trace, r),
{
    let got = post_trace.subrange(pre_trace.len() as int, post_trace.len() as int);
    assert(got =~= made);
    assert(post_trace.subrange(0, pre_trace.len() as int) =~= pre_trace);
    let mapped = made.map_values(|e: BusAccess| e.data);
    if made.len() == block_registers(t.register_list).len() && (made.len() == 0 || made.last().ok) {
        assert(mapped =~= values);
    } else {
        assert(mapped.drop_last() =~= values);
    }
}

/// Executing `inst` with condition `cond` took the machine from `pre` (with
/// bus trace `pre_trace`) to `post` and `post_trace`, returning `r`. A failed
/// condition changes nothing and reports no change of control flow. Otherwise
/// data processing, branches, single and block transfers act as their effects
/// say, the flag telling whether control flow changed; every other
/// class changes nothing and reports an unimplemented instruction.
pub open spec fn execute_post(
    pre: CpuView,
    pre_trace: Seq<BusAccess>,
    inst: InstKind,
    cond: u32,
    post: CpuView,
    post_trace: Seq<BusAccess>,
    r: Result<bool, Fault>,
) -> bool {
    if !condition_holds(cond, pre.n(), pre.z(), pre.c(), pre.v()) {
        r == Ok::<bool, Fault>(false) && post == pre && post_trace == pre_trace
    } else {
        match inst {
            InstKind::DataProcess(dp) => {
                let (s, pc_written) = data_process_effect(pre, dp);
                r == Ok::<bool, Fault>(pc_written) && post == s && post_trace == pre_trace
            },
            InstKind::Branch(b) => r == Ok::<bool, Fault>(true) && post == branch_effect(pre, b)
                && post_trace == pre_trace,
            InstKind::SingleDataTransfer(t) => single_transfer_post(
                pre,
                pre_trace,
                t,
                post,
                post_trace,
                r,
            ),
            InstKind::BlockDataTransfer(t) => block_transfer_post(
                pre,
                pre_trace,
                t,
                post,
                post_trace,
                r,
            ),
            _ => r == Err::<bool, Fault>(Fault::UnimplementedInstruction) && post == pre
                && post_trace == pre_trace,
        }
    }
}


proof fn lemma_listed_below_ascending(list: u32, n: nat)
    ensures
        forall|i: int, j: int|
            0 <= i < j < listed_below(list, n).len() ==> #[trigger] listed_below(list, n)[i]
                < #[trigger] listed_below(list, n)[j],
        forall|r: int|
            0 <= r < n ==> (bit_set(list, r as u32) <==> #[trigger] listed_below(list, n).contains(r)),
    decreases n,
{
    if n > 0 {
        let m = (n - 1) as nat;
        lemma_listed_below_ascending(list, m);
        lemma_listed_below_bounds(list, m);
        let earlier = listed_below(list, m);
        assert forall|r: int| 0 <= r < n implies (bit_set(list, r as u32) <==> #[trigger] listed_below(
            list,
            n,
        ).contains(r)) by {
            if bit_set(list, m as u32) {
                assert(listed_below(list, n) == earlier.push(m as int));
                if r < m {
                    if earlier.contains(r) {
                        let k = choose|k: int| 0 <= k < earlier.len() && earlier[k] == r;
                        assert(listed_below(list, n)[k] == r);
                    }
                    if listed_below(list, n).contains(r) {
                        let k = choose|k: int| 0 <= k < listed_below(list, n).len() && listed_below(list, n)[k] == r;
                        assert(k < earlier.len());
                        assert(earlier[k] == r);
                    }
                } else {
                    assert(listed_below(list, n)[earlier.len() as int] == r);
                }
            } else {
                if r == m {
                    if earlier.contains(r) {
                        let k = choose|k: int| 0 <= k < earlier.len() && earlier[k] == r;
                        assert(earlier[k] < m);
                    }
                }
            }
        }
    }
}

/// The registers a block transfer visits are exactly those whose bit is set in
/// the register list, in strictly ascending order.
pub proof fn lemma_block_registers_ascending(list: u32)
    ensures
        forall|i: int, j: int|
            0 <= i < j < block_registers(list).len() ==> #[trigger] block_registers(list)[i]
                < #[trigger] block_registers(list)[j],
        forall|r: int|
            0 <= r < 16 ==> (bit_set(list, r as u32) <==> #[trigger] block_registers(list).contains(r)),
        forall|j: int| 0 <= j < block_registers(list).len() ==> 0 <= #[trigger] block_registers(list)[j] < 16,
{
    lemma_listed_below_ascending(list, 16);
    lemma_listed_below_bounds(list, 16);
}

/// A block store that the bus accepts in full makes one write per listed
/// register, in ascending register order: the `j`-th write stores the `j`-th
/// listed register's value at the start address stepped by `4 * j`, and no
/// register changes.
pub proof fn lemma_block_store_order(
    pre: CpuView,
    pre_trace: Seq<BusAccess>,
    t: BlockDataTransfer,
    post: CpuView,
    post_trace: Seq<BusAccess>,
    r: Result<bool, Fault>,
)
    requires
        block_transfer_post(pre, pre_trace, t, post, post_trace, r),
        t.l == 0,
        post_trace.len() == pre_trace.len() + block_registers(t.register_list).len(),
        forall|j: int| pre_trace.len() <= j < post_trace.len() ==> #[trigger] post_trace[j].ok,
    ensures
        r == Ok::<bool, Fault>(false),
        post == pre,
        forall|j: int|
            0 <= j < block_registers(t.register_list).len() ==> #[trigger] post_trace[pre_trace.len() + j]
                == (BusAccess {
                addr: block_address(block_start(pre, t), t.u != 0, j),
                rw: BusRW::Write,
                data: pre.gpr(block_registers(t.register_list)[j]),
                ok: true,
            }),
        forall|i: int, j: int|
            0 <= i < j < block_registers(t.register_list).len() ==> #[trigger] block_registers(
                t.register_list,
            )[i] < #[trigger] block_registers(t.register_list)[j],
{
    lemma_block_registers_ascending(t.register_list);
    let made = post_trace.subrange(pre_trace.len() as int, post_trace.len() as int);
    assert forall|j: int| 0 <= j < block_registers(t.register_list).len() implies #[trigger] post_trace[pre_trace.len() + j]
        == (BusAccess {
        addr: block_address(block_start(pre, t), t.u != 0, j),
        rw: BusRW::Write,
        data: pre.gpr(block_registers(t.register_list)[j]),
        ok: true,
    }) by {
        assert(made[j] == post_trace[pre_trace.len() + j]);
    }
    if made.len() > 0 {
        assert(made.last() == post_trace[post_trace.len() - 1]);
    }
}

impl<T: Bus> ARMv4T<T> {
    /// Classifies `inst` by the first matching format, in the order that
    /// `inst_kind_of` gives, and reads its fields. Never fails: a word that no
    /// format matches decodes to `Undefined`.
    pub fn decode(&self, inst: Word) -> (r: DecodedInstruction)
        ensures
            r == decoded_of(inst),
    {
        let kind = if is_match_format(inst, InstFormat { mask: MULTIPLY_MASK, data: MULTIPLY_BITS }) {
            InstKind::Multiply(Multiply::from_word(inst))
        } else if is_match_format(
            inst,
            InstFormat { mask: CONTROL_IMMEDIATE_MASK, data: CONTROL_IMMEDIATE_BITS },
        ) {
            InstKind::ControlImmediate(ControlImmediate::from_word(inst))
        } else if is_match_format(
            inst,
            InstFormat { mask: CONTROL_REGISTER_MASK, data: CONTROL_REGISTER_BITS },
        ) || is_match_format(
            inst,
            InstFormat { mask: CONTROL_REGISTER_ALT_MASK, data: CONTROL_REGISTER_ALT_BITS },
        ) {
            InstKind::ControlRegister(ControlRegister::from_word(inst))
        } else if is_match_format(
            inst,
            InstFormat { mask: DATA_PROCESS_MASK, data: DATA_PROCESS_BITS },
        ) {
            InstKind::DataProcess(DataProcess::from_word(inst))
        } else if is_match_format(
            inst,
            InstFormat { mask: BRANCH_EXCHANGE_MASK, data: BRANCH_EXCHANGE_BITS },
        ) {
            InstKind::BranchExchange(BranchExchange::from_word(inst))
        } else if is_match_format(
            inst,
            InstFormat { mask: SINGLE_DATA_TRANSFER_MASK, data: SINGLE_DATA_TRANSFER_BITS },
        ) {
            InstKind::SingleDataTransfer(SingleDataTransfer::from_word(inst))
        } else if is_match_format(
            inst,
            InstFormat { mask: BLOCK_DATA_TRANSFER_MASK, data: BLOCK_DATA_TRANSFER_BITS },
        ) {
            InstKind::BlockDataTransfer(BlockDataTransfer::from_word(inst))
        } else if is_match_format(inst, InstFormat { mask: BRANCH_MASK, data: BRANCH_BITS }) {
            InstKind::Branch(Branch::from_word(inst))
        } else if is_match_format(
            inst,
            InstFormat {
                mask: COPROCESSOR_DATA_TRANSFER_MASK,
                data: COPROCESSOR_DATA_TRANSFER_BITS,
            },
        ) {
            InstKind::CoProcessorDataTransfer(CoProcessorDataTransfer::from_word(inst))
        } else if is_match_format(
            inst,
            InstFormat {
                mask: COPROCESSOR_DATA_OPERATION_MASK,
                data: COPROCESSOR_DATA_OPERATION_BITS,
            },
        ) {
            InstKind::CoProcessorDataOperation(CoProcessorDataOperation::from_word(inst))
        } else if is_match_format(
            inst,
            InstFormat {
                mask: COPROCESSOR_REGISTER_TRANSFER_MASK,
                data: COPROCESSOR_REGISTER_TRANSFER_BITS,
            },
        ) {
            InstKind::CoProcessorRegisterTransfer(CoProcessorRegisterTransfer::from_word(inst))
        } else if is_match_format(
            inst,
            InstFormat { mask: SOFTWARE_INTERRUPT_MASK, data: SOFTWARE_INTERRUPT_BITS },
        ) {
            InstKind::SoftwareInterrupt(SoftwareInterrupt::from_word(inst))
        } else {
            InstKind::Undefined
        };
        DecodedInstruction { inst: kind, cond: get_bit_range(inst, 31, 28), raw_inst: inst }
    }

    /// The second operand of `inst` and the shifter's carry-out, computed from
    /// the current registers and C flag.
    pub fn get_shifter_operand(&self, inst: &DataProcess) -> (r: ShifterOperand)
        ensures
            r == shifter_operand_of(self@, *inst),
    {
        let carry = self.cpsr.c == 1;
        let op2 = inst.operand2;
        if inst.i != 0 {
            return rotated_immediate(op2, carry);
        }
        let rm_index = get_bit_range(op2, 3, 0);
        let shift = get_bit_range(op2, 6, 5);
        proof {
            lemma_operand_fields(op2, 0);
        }
        let rm = self.get_gpr(rm_index as u8);
        if get_bit_range(op2, 4, 4) == 0 {
            shift_by_immediate(rm, shift, get_bit_range(op2, 11, 7), carry)
        } else {
            let rs = self.get_gpr(get_bit_range(op2, 11, 8) as u8);
            proof {
                lemma_operand_fields(op2, rs);
            }
            shift_by_register(rm, shift, rs & 0xFF, carry)
        }
    }

    /// Executes data-processing instruction `inst`; returns whether it changed
    /// the flow of control (r15 as destination).
    fn execute_data_process(&mut self, inst: DataProcess) -> (pc_written: bool)
        requires
            old(self).wf(),
            inst.rn < 16,
            inst.rd < 16,
            inst.opcode < 16,
        ensures
            (final(self)@, pc_written) == data_process_effect(old(self)@, inst),
            final(self).same_machine(old(self)),
            final(self).wf(),
            !pc_written ==> final(self)@.pc() == old(self)@.pc(),
            final(self)@.mode == old(self)@.mode,
    {
        let operand = self.get_shifter_operand(&inst);
        let a = self.get_gpr(inst.rn as u8);
        let out = alu_operate(
            inst.opcode,
            a,
            operand.shifter_operand,
            operand.carry_out,
            self.cpsr.c == 1,
            self.cpsr.v == 1,
        );
        let writes_rd = !(0x8 <= inst.opcode && inst.opcode <= 0xB);
        let writes_pc = inst.rd == 15;
        if writes_rd {
            self.set_gpr(inst.rd as u8, out.result);
        }
        if writes_pc {
            self.restore_flags();
        } else if inst.s != 0 {
            self.set_flags(out.n, out.z, out.c, out.v);
        }
        writes_pc
    }
    /// Executes branch `inst`: always writes the program counter.
    fn execute_branch(&mut self, inst: Branch)
        requires
            old(self).wf(),
            inst.offset < 0x100_0000,
        ensures
            final(self)@ == branch_effect(old(self)@, inst),
            final(self).same_machine(old(self)),
            final(self).wf(),
    {
        let pc = self.get_gpr(15);
        if inst.l != 0 {
            self.set_gpr(14, pc.wrapping_sub(4));
        }
        let offset = inst.offset;
        let displacement: u32 = if offset & 0x80_0000 != 0 {
            (offset << 2u32) | 0xFC00_0000
        } else {
            offset << 2u32
        };
        assert(offset < 0x100_0000 ==> ((offset & 0x80_0000 != 0) == (offset >= 0x80_0000)) && (
        offset >= 0x80_0000 ==> (offset << 2u32) | 0xFC00_0000 == 4 * offset + 0xFC00_0000) && (
        offset < 0x80_0000 ==> offset << 2u32 == 4 * offset)) by (bit_vector);
        let target = pc.wrapping_add(displacement);
        assert(target == branch_target(pc, offset));
        self.set_gpr(15, target);
    }

    /// Executes single transfer `inst`; returns whether it wrote the program
    /// counter, or a data abort if the bus failed the access.
    fn execute_single_transfer(&mut self, inst: SingleDataTransfer) -> (r: Result<bool, Fault>)
        requires
            old(self).wf(),
            inst.rn < 16,
            inst.rd < 16,
        ensures
            single_transfer_post(old(self)@, old(self).trace_log(), inst, final(self)@, final(self).trace_log(), r),
            final(self).pipeline == old(self).pipeline,
            final(self).wf(),
            r == Ok::<bool, Fault>(false) ==> final(self)@.pc() == old(self)@.pc(),
    {
        let base = self.get_gpr(inst.rn as u8);
        let offset = if inst.i != 0 {
            proof {
                lemma_operand_fields(inst.offset, 0);
            }
            let rm = self.get_gpr(get_bit_range(inst.offset, 3, 0) as u8);
            shift_by_immediate(
                rm,
                get_bit_range(inst.offset, 6, 5),
                get_bit_range(inst.offset, 11, 7),
                self.cpsr.c == 1,
            ).shifter_operand
        } else {
            inst.offset
        };
        let address = if inst.u != 0 {
            base.wrapping_add(offset)
        } else {
            base.wrapping_sub(offset)
        };
        let access_at = if inst.p != 0 {
            address
        } else {
            base
        };
        let load = inst.l != 0;
        let ghost pre = self@;
        let ghost pre_trace = self.trace_log();
        let (data, ok) = if load {
            self.bus_access(access_at, 0, BusRW::Read)
        } else {
            let value = self.get_gpr(inst.rd as u8);
            self.bus_access(access_at, value, BusRW::Write)
        };
        assert(self.trace_log().drop_last() =~= pre_trace);
        if !ok {
            return Err(Fault::DataAbort(access_at));
        }
        if load {
            self.set_gpr(inst.rd as u8, data);
        }
        let writes_back = inst.p == 0 || inst.w != 0;
        if writes_back {
            self.set_gpr(inst.rn as u8, address);
        }
        Ok((load && inst.rd == 15) || (writes_back && inst.rn == 15))
    }
    /// One access of a block transfer: loads register `reg` from `address`, or
    /// stores it there. A failed load leaves the register unchanged.
    fn transfer_register(&mut self, reg: u8, address: Word, load: bool) -> (r: (Word, bool))
        requires
            old(self).wf(),
            reg < 16,
        ensures
            final(self).wf(),
            final(self).pipeline == old(self).pipeline,
            final(self).trace_log() == old(self).trace_log().push(
                BusAccess {
                    addr: address,
                    rw: if load {
                        BusRW::Read
                    } else {
                        BusRW::Write
                    },
                    data: r.0,
                    ok: r.1,
                },
            ),
            !load ==> r.0 == old(self)@.gpr(reg as int),
            final(self)@ == if load && r.1 {
                old(self)@.with_gpr(reg as int, r.0)
            } else {
                old(self)@
            },
    {
        if load {
            let (data, ok) = self.bus_access(address, 0, BusRW::Read);
            if ok {
                self.set_gpr(reg, data);
            }
            (data, ok)
        } else {
            let value = self.get_gpr(reg);
            self.bus_access(address, value, BusRW::Write)
        }
    }

    /// Executes block transfer `inst`; returns whether it loaded the program
    /// counter, or a data abort at the first access the bus failed.
    #[verifier::rlimit(40)]
    fn execute_block_transfer(&mut self, inst: BlockDataTransfer) -> (r: Result<bool, Fault>)
        requires
            old(self).wf(),
            inst.rn < 16,
        ensures
            block_transfer_post(old(self)@, old(self).trace_log(), inst, final(self)@, final(self).trace_log(), r),
            final(self).pipeline == old(self).pipeline,
            final(self).wf(),
            r == Ok::<bool, Fault>(false) ==> final(self)@.pc() == old(self)@.pc(),
            final(self)@.mode == old(self)@.mode,
    {
        let list = inst.register_list;
        let base = self.get_gpr(inst.rn as u8);
        let mut count: u32 = 0;
        let mut i: u32 = 0;
        while i < 16
            invariant
                i <= 16,
                count == listed_below(list, i as nat).len(),
                count <= i,
            decreases 16 - i,
        {
            if (list >> i) & 1 == 1 {
                count = count + 1;
            }
            i = i + 1;
        }
        let up = inst.u != 0;
        let load = inst.l != 0;
        let start = if up {
            if inst.p != 0 {
                base.wrapping_add(4)
            } else {
                base
            }
        } else if inst.p != 0 {
            base.wrapping_sub(4 * count)
        } else {
            base.wrapping_sub(4 * count).wrapping_add(4)
        };
        let ghost pre = self@;
        let ghost pre_trace = self.trace_log();
        let ghost regs = block_registers(list);
        let ghost mut made: Seq<BusAccess> = Seq::empty();
        let ghost mut values: Seq<u32> = Seq::empty();
        proof {
            lemma_listed_below_bounds(list, 16);
            assert(self.trace_log() =~= pre_trace + made);
        }
        let mut address = start;
        let mut i: u32 = 0;
        while i < 16
            invariant
                i <= 16,
                self.wf(),
                self.pipeline == old(self).pipeline,
                pre == old(self)@,
                pre_trace == old(self).trace_log(),
                regs == block_registers(list),
                regs.len() <= 16,
                list == inst.register_list,
                up == (inst.u != 0),
                load == (inst.l != 0),
                start == block_start(pre, inst),
                made.len() == values.len(),
                values.len() == listed_below(list, i as nat).len(),
                values.len() <= regs.len(),
                forall|j: int|
                    0 <= j < values.len() ==> regs[j] == #[trigger] listed_below(list, i as nat)[j],
                forall|j: int| 0 <= j < values.len() ==> 0 <= #[trigger] regs[j] < i,
                self.trace_log() == pre_trace + made,
                forall|j: int|
                    #![trigger made[j]]
                    0 <= j < made.len() ==> {
                        &&& made[j].addr == block_address(start, up, j)
                        &&& made[j].rw == (if load {
                            BusRW::Read
                        } else {
                            BusRW::Write
                        })
                        &&& !load ==> made[j].data == pre.gpr(regs[j])
                        &&& made[j].ok
                        &&& made[j].data == values[j]
                    },
                address == block_address(start, up, values.len() as int),
                self@ == if load {
                    loads_applied(pre, regs, values)
                } else {
                    pre
                },
                self@.pc() == pre.pc() || (load && bit_set(list, 15) && i == 16),
                self@.mode == pre.mode,
            decreases 16 - i,
        {
            if (list >> i) & 1 == 1 {
                proof {
                    lemma_listed_below_prefix(list, (i + 1) as nat, 16);
                    assert(listed_below(list, (i + 1) as nat)[values.len() as int] == i);
                }
                let (data, ok) = self.transfer_register(i as u8, address, load);
                proof {
                    let e = self.trace_log().last();
                    assert(self.trace_log() =~= pre_trace + made.push(e));
                    made = made.push(e);
                }
                if !ok {
                    let r = Err(Fault::DataAbort(address));
                    proof {
                        lemma_block_transfer_post(pre, pre_trace, inst, self@, self.trace_log(), made, values, r);
                    }
                    return r;
                }
                proof {
                    let next = values.push(data);
                    assert(next.drop_last() =~= values);
                    values = next;
                }
                address = if up {
                    address.wrapping_add(4)
                } else {
                    address.wrapping_sub(4)
                };
            }
            i = i + 1;
        }
        let r = Ok(load && (list >> 15u32) & 1 == 1);
        proof {
            lemma_listed_below_bounds(list, 16);
            lemma_block_transfer_post(pre, pre_trace, inst, self@, self.trace_log(), made, values, r);
        }
        r
    }
    /// Executes `decoded_inst` if condition `cond` passes. Returns whether it
    /// changed the flow of control (r15 as destination), a data abort if
    /// the bus failed one of its accesses, or an unimplemented-instruction
    /// fault for a class with no execution semantics here.
    pub fn execute(&mut self, decoded_inst: InstKind, cond: u32) -> (r: Result<bool, Fault>)
        requires
            old(self).wf(),
            fields_in_range(decoded_inst),
        ensures
            execute_post(old(self)@, old(self).trace_log(), decoded_inst, cond, final(self)@, final(self).trace_log(), r),
            final(self).wf(),
            final(self).pipeline == old(self).pipeline,
            final(self)@.mode == old(self)@.mode,
            r == Ok::<bool, Fault>(false) ==> final(self)@.pc() == old(self)@.pc(),
            old(self).trace_log().len() <= final(self).trace_log().len(),
            final(self).trace_log().subrange(0, old(self).trace_log().len() as int) == old(
                self,
            ).trace_log(),
    {
        proof {
            assert(self.trace_log().subrange(0, self.trace_log().len() as int) =~= self.trace_log());
        }
        if !self.is_condition_passed(cond) {
            return Ok(false);
        }
        match decoded_inst {
            InstKind::DataProcess(inst) => {
                let pc_written = self.execute_data_process(inst);
                Ok(pc_written)
            },
            InstKind::Branch(inst) => {
                self.execute_branch(inst);
                Ok(true)
            },
            InstKind::SingleDataTransfer(inst) => {
                let ghost pre_trace = self.trace_log();
                let r = self.execute_single_transfer(inst);
                assert(self.trace_log().subrange(0, pre_trace.len() as int) =~= self.trace_log().drop_last());
                r
            },
            InstKind::BlockDataTransfer(inst) => self.execute_block_transfer(inst),
            _ => Err(Fault::UnimplementedInstruction),
        }
    }
}

} // verus!
