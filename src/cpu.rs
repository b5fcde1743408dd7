//! The processor: register file with mode banking, the bus it is attached to
//! and the pipeline state, with the register-file operations.

use vstd::prelude::*;

use crate::bits::{bit_range, get_bit_range, Word};
use crate::condition::condition_holds;
use crate::instruction::{decoded_of, DecodedInstruction};
use crate::registers::{
    phys_index, BankedRegisters, CpsrFlags, CpuView, ProcessorMode, PHYS_REGS,
};

verus! {

/// Direction of a bus access.
#[derive(Clone, Copy, Debug, PartialEq, Eq, Structural)]
pub enum BusRW {
    Read,
    Write,
}

/// What a bus access returns: a word, or a fault.
pub type BusState = Result<Word, ()>;

/// The memory or bus the processor is attached to: single-word accesses by
/// address. On a read the implementation stores the word at `addr` in `data`;
/// on a write it stores `data` at `addr`.
pub trait Bus {
    fn access(&mut self, addr: Word, data: &mut Word, rw: BusRW) -> BusState;
}

/// One access the processor made to its bus: the address, the direction, the
/// word written or read, and whether the bus reported success.
pub struct BusAccess {
    pub addr: u32,
    pub rw: BusRW,
    pub data: u32,
    pub ok: bool,
}

/// The record of every bus access the processor has made, in order. Its
/// contents are private to this module: only an actual bus access extends it.
pub struct BusTrace {
    log: Ghost<Seq<BusAccess>>,
}

impl View for BusTrace {
    type V = Seq<BusAccess>;

    closed spec fn view(&self) -> Seq<BusAccess> {
        self.log@
    }
}

/// A condition that stops an instruction or a step.
#[derive(Clone, Copy, Debug, PartialEq, Eq, Structural)]
pub enum Fault {
    /// The instruction's class has no execution semantics here (coprocessor,
    /// multiply, status transfer, software interrupt, undefined).
    UnimplementedInstruction,
    /// The bus failed a data access at this address.
    DataAbort(u32),
    /// The bus failed the instruction fetch at this address.
    PrefetchAbort(u32),
}

/// The pipeline between steps: nothing in flight, one fetched word, or a
/// fetched word and the decoded instruction fetched before it.
#[derive(Clone, Copy, Debug, PartialEq, Eq, Structural)]
pub enum PipelineState {
    Empty,
    Fetched(Word),
    Decoded(Word, DecodedInstruction),
}

/// An ARMv4T-class processor attached to a bus.
pub struct ARMv4T<T: Bus> {
    pub mode: ProcessorMode,
    pub r: [Word; 16],
    pub banked: BankedRegisters,
    pub cpsr: CpsrFlags,
    pub spsr: [Word; 5],
    pub bus: T,
    pub pipeline: PipelineState,
    /// Every bus access made so far, in order.
    pub trace: BusTrace,
}

impl<T: Bus> View for ARMv4T<T> {
    type V = CpuView;

    open spec fn view(&self) -> CpuView {
        CpuView {
            mode: self.mode,
            regs: self.r@ + self.banked.fiq@ + self.banked.irq@ + self.banked.svc@
                + self.banked.abt@ + self.banked.und@,
            cpsr: self.cpsr,
            spsr: self.spsr@,
        }
    }
}

/// The state after construction or reset: Supervisor mode, every register,
/// flag and saved-status slot zero, the mode field naming Supervisor.
pub open spec fn reset_view() -> CpuView {
    CpuView {
        mode: ProcessorMode::Supervisor,
        regs: Seq::new(PHYS_REGS as nat, |i: int| 0u32),
        cpsr: CpsrFlags {
            n: 0,
            z: 0,
            c: 0,
            v: 0,
            q: 0,
            reserved: 0,
            i: 0,
            f: 0,
            t: 0,
            mode: 0x13,
        },
        spsr: Seq::new(5, |i: int| 0u32),
    }
}

proof fn lemma_flag_bits(w: u32)
    ensures
        bit_range(w, 31, 31) < 2,
        bit_range(w, 30, 30) < 2,
        bit_range(w, 29, 29) < 2,
        bit_range(w, 28, 28) < 2,
{
    assert(bit_range(w, 31, 31) < 2 && bit_range(w, 30, 30) < 2 && bit_range(w, 29, 29) < 2
        && bit_range(w, 28, 28) < 2) by (bit_vector);
}

impl<T: Bus> ARMv4T<T> {
    /// The status register is well formed and its mode field names the
    /// active mode, and a decoded instruction in the pipeline is the decoding
    /// of the word it came from.
    pub open spec fn wf(&self) -> bool {
        &&& self@.wf()
        &&& match self.pipeline {
            PipelineState::Decoded(_, d) => d == decoded_of(d.raw_inst),
            _ => true,
        }
    }

    /// Every bus access made so far, in order. Only the processor's own bus
    /// accesses extend it.
    pub open spec fn trace_log(&self) -> Seq<BusAccess> {
        self.trace@
    }

    /// Everything but the register-file state is as in `other`.
    pub open spec fn same_machine(&self, other: &ARMv4T<T>) -> bool {
        &&& self.bus == other.bus
        &&& self.pipeline == other.pipeline
        &&& self.trace_log() == other.trace_log()
    }

    /// A processor in Supervisor mode with every register zero and an empty
    /// pipeline.
    pub fn new(bus: T) -> (r: ARMv4T<T>)
        ensures
            r.wf(),
            r@ == reset_view(),
            r.bus == bus,
            r.pipeline == PipelineState::Empty,
            r.trace_log() == Seq::<BusAccess>::empty(),
    {
        let r = ARMv4T {
            mode: ProcessorMode::Supervisor,
            r: [0; 16],
            banked: BankedRegisters { fiq: [0; 7], irq: [0; 2], svc: [0; 2], abt: [0; 2], und: [0; 2] },
            cpsr: CpsrFlags {
                n: 0,
                z: 0,
                c: 0,
                v: 0,
                q: 0,
                reserved: 0,
                i: 0,
                f: 0,
                t: 0,
                mode: 0x13,
            },
            spsr: [0; 5],
            bus,
            pipeline: PipelineState::Empty,
            trace: BusTrace { log: Ghost(Seq::empty()) },
        };
        assert(r@.regs =~= reset_view().regs);
        assert(r@.spsr =~= reset_view().spsr);
        r
    }

    /// Reads logical register `reg` through the active mode's banking.
    pub fn get_gpr(&self, reg: u8) -> (r: Word)
        requires
            reg < 16,
        ensures
            r == self@.gpr(reg as int),
    {
        let i = reg as usize;
        match self.mode {
            ProcessorMode::FIQ => if 8 <= reg && reg <= 14 {
                self.banked.fiq[i - 8]
            } else {
                self.r[i]
            },
            ProcessorMode::IRQ => if 13 <= reg && reg <= 14 {
                self.banked.irq[i - 13]
            } else {
                self.r[i]
            },
            ProcessorMode::Supervisor => if 13 <= reg && reg <= 14 {
                self.banked.svc[i - 13]
            } else {
                self.r[i]
            },
            ProcessorMode::Abort => if 13 <= reg && reg <= 14 {
                self.banked.abt[i - 13]
            } else {
                self.r[i]
            },
            ProcessorMode::Undefined => if 13 <= reg && reg <= 14 {
                self.banked.und[i - 13]
            } else {
                self.r[i]
            },
            _ => self.r[i],
        }
    }

    /// Writes logical register `reg` through the active mode's banking; no
    /// other register changes.
    pub fn set_gpr(&mut self, reg: u8, value: Word)
        requires
            reg < 16,
        ensures
            final(self)@ == old(self)@.with_gpr(reg as int, value),
            final(self).same_machine(old(self)),
    {
        let i = reg as usize;
        match self.mode {
            ProcessorMode::FIQ => if 8 <= reg && reg <= 14 {
                self.banked.fiq[i - 8] = value;
            } else {
                self.r[i] = value;
            },
            ProcessorMode::IRQ => if 13 <= reg && reg <= 14 {
                self.banked.irq[i - 13] = value;
            } else {
                self.r[i] = value;
            },
            ProcessorMode::Supervisor => if 13 <= reg && reg <= 14 {
                self.banked.svc[i - 13] = value;
            } else {
                self.r[i] = value;
            },
            ProcessorMode::Abort => if 13 <= reg && reg <= 14 {
                self.banked.abt[i - 13] = value;
            } else {
                self.r[i] = value;
            },
            ProcessorMode::Undefined => if 13 <= reg && reg <= 14 {
                self.banked.und[i - 13] = value;
            } else {
                self.r[i] = value;
            },
            _ => {
                self.r[i] = value;
            },
        }
        assert(self@.regs =~= old(self)@.regs.update(phys_index(self.mode, reg as int), value));
    }
    /// The active mode.
    pub fn get_mode(&self) -> (r: &ProcessorMode)
        ensures
            *r == self.mode,
    {
        &self.mode
    }

    /// Switches the active mode and the status register's mode field; no
    /// register is copied, only the banking of later accesses changes.
    pub fn set_mode(&mut self, mode: ProcessorMode)
        ensures
            final(self)@ == (CpuView {
                mode,
                cpsr: CpsrFlags { mode: mode.spec_tag(), ..old(self)@.cpsr },
                ..old(self)@
            }),
            final(self).same_machine(old(self)),
    {
        self.mode = mode;
        self.cpsr.mode = mode.tag();
    }

    /// The status register.
    pub fn get_cpsr(&self) -> (r: CpsrFlags)
        ensures
            r == self.cpsr,
    {
        self.cpsr
    }

    /// Replaces the status register. A mode field that names a mode switches
    /// to that mode; any other mode field is ignored and the active mode stays.
    pub fn set_cpsr(&mut self, value: CpsrFlags)
        requires
            value.wf(),
        ensures
            final(self)@ == (match ProcessorMode::spec_from_tag(value.mode) {
                Some(m) => CpuView { mode: m, cpsr: value, ..old(self)@ },
                None => CpuView { cpsr: CpsrFlags { mode: old(self).cpsr.mode, ..value }, ..old(self)@ },
            }),
            final(self).same_machine(old(self)),
    {
        match ProcessorMode::from_tag(value.mode) {
            Some(m) => {
                self.mode = m;
                self.cpsr = value;
            },
            None => {
                let mode = self.cpsr.mode;
                self.cpsr = value;
                self.cpsr.mode = mode;
            },
        }
    }

    /// The active mode's saved status register; 0 in User and System modes,
    /// which have none.
    pub fn get_spsr(&self) -> (r: Word)
        ensures
            r == (match self@.saved_status() {
                Some(w) => w,
                None => 0,
            }),
    {
        match self.mode {
            ProcessorMode::FIQ => self.spsr[0],
            ProcessorMode::IRQ => self.spsr[1],
            ProcessorMode::Supervisor => self.spsr[2],
            ProcessorMode::Abort => self.spsr[3],
            ProcessorMode::Undefined => self.spsr[4],
            _ => 0,
        }
    }

    /// Writes the active mode's saved status register; no effect in User and
    /// System modes.
    pub fn set_spsr(&mut self, value: Word)
        ensures
            final(self)@ == old(self)@.with_saved_status(value),
            final(self).same_machine(old(self)),
    {
        match self.mode {
            ProcessorMode::FIQ => {
                self.spsr[0] = value;
            },
            ProcessorMode::IRQ => {
                self.spsr[1] = value;
            },
            ProcessorMode::Supervisor => {
                self.spsr[2] = value;
            },
            ProcessorMode::Abort => {
                self.spsr[3] = value;
            },
            ProcessorMode::Undefined => {
                self.spsr[4] = value;
            },
            _ => {},
        }
        assert(self@.spsr =~= old(self)@.with_saved_status(value).spsr);
    }

    /// Saves the packed status register in the active mode's slot; no effect
    /// in User and System modes.
    pub fn store_spsr(&mut self)
        requires
            old(self).wf(),
        ensures
            final(self)@ == old(self)@.with_saved_status(old(self).cpsr.spec_to_word()),
            final(self).same_machine(old(self)),
    {
        let word = self.cpsr.to_word();
        self.set_spsr(word);
    }

    /// Adds `offset` to the program counter, modulo 2^32.
    pub fn advance_pc(&mut self, offset: Word)
        ensures
            final(self)@ == old(self)@.with_gpr(15, old(self)@.pc().wrapping_add(offset)),
            final(self).same_machine(old(self)),
    {
        let pc = self.get_gpr(15);
        self.set_gpr(15, pc.wrapping_add(offset));
    }

    /// Discards the fetched word and the decoded instruction.
    pub fn flush_pipeline(&mut self)
        ensures
            final(self)@ == old(self)@,
            final(self).bus == old(self).bus,
            final(self).trace_log() == old(self).trace_log(),
            final(self).pipeline == PipelineState::Empty,
    {
        self.pipeline = PipelineState::Empty;
    }

    /// Returns to the reset state: Supervisor mode, every register, flag and
    /// saved-status slot zero, and an empty pipeline. The bus is untouched.
    pub fn reset(&mut self)
        ensures
            final(self).wf(),
            final(self)@ == reset_view(),
            final(self).bus == old(self).bus,
            final(self).trace_log() == old(self).trace_log(),
            final(self).pipeline == PipelineState::Empty,
    {
        self.mode = ProcessorMode::Supervisor;
        self.r = [0; 16];
        self.banked = BankedRegisters { fiq: [0; 7], irq: [0; 2], svc: [0; 2], abt: [0; 2], und: [0; 2] };
        self.cpsr = CpsrFlags {
            n: 0,
            z: 0,
            c: 0,
            v: 0,
            q: 0,
            reserved: 0,
            i: 0,
            f: 0,
            t: 0,
            mode: 0x13,
        };
        self.spsr = [0; 5];
        self.pipeline = PipelineState::Empty;
        assert(self@.regs =~= reset_view().regs);
        assert(self@.spsr =~= reset_view().spsr);
    }

    /// Whether condition code `cond` passes for the current N, Z, C and V.
    pub fn is_condition_passed(&self, cond: u32) -> (r: bool)
        ensures
            r == condition_holds(cond, self@.n(), self@.z(), self@.c(), self@.v()),
    {
        let n = self.cpsr.n == 1;
        let z = self.cpsr.z == 1;
        let c = self.cpsr.c == 1;
        let v = self.cpsr.v == 1;
        match cond {
            0x0 => z,
            0x1 => !z,
            0x2 => c,
            0x3 => !c,
            0x4 => n,
            0x5 => !n,
            0x6 => v,
            0x7 => !v,
            0x8 => c && !z,
            0x9 => !c || z,
            0xA => n == v,
            0xB => n != v,
            0xC => !z && n == v,
            0xD => z || n != v,
            0xE => true,
            _ => false,
        }
    }

    /// Copies N, Z, C and V from the active mode's saved status register; no
    /// effect in User and System modes.
    pub(crate) fn restore_flags(&mut self)
        requires
            old(self).wf(),
        ensures
            final(self)@ == old(self)@.with_restored_flags(),
            final(self).same_machine(old(self)),
            final(self).wf(),
    {
        match self.mode {
            ProcessorMode::User | ProcessorMode::System => {},
            _ => {
                let w = self.get_spsr();
                proof {
                    lemma_flag_bits(w);
                }
                self.cpsr.n = get_bit_range(w, 31, 31);
                self.cpsr.z = get_bit_range(w, 30, 30);
                self.cpsr.c = get_bit_range(w, 29, 29);
                self.cpsr.v = get_bit_range(w, 28, 28);
            },
        }
    }

    /// Sets N, Z, C and V.
    pub(crate) fn set_flags(&mut self, n: bool, z: bool, c: bool, v: bool)
        requires
            old(self).wf(),
        ensures
            final(self)@ == old(self)@.with_flags(n, z, c, v),
            final(self).same_machine(old(self)),
            final(self).wf(),
    {
        self.cpsr.n = if n {
            1
        } else {
            0
        };
        self.cpsr.z = if z {
            1
        } else {
            0
        };
        self.cpsr.c = if c {
            1
        } else {
            0
        };
        self.cpsr.v = if v {
            1
        } else {
            0
        };
    }

    /// Replaces the pipeline state; registers, bus and trace stay.
    pub(crate) fn set_pipeline(&mut self, pipeline: PipelineState)
        ensures
            final(self)@ == old(self)@,
            final(self).bus == old(self).bus,
            final(self).trace_log() == old(self).trace_log(),
            final(self).pipeline == pipeline,
    {
        self.pipeline = pipeline;
    }

    /// Makes one bus access and records it: a read returns the word the bus
    /// stored, a write reports the word handed to the bus; the flag tells
    /// whether the bus reported success.
    pub(crate) fn bus_access(&mut self, addr: Word, value: Word, rw: BusRW) -> (r: (Word, bool))
        ensures
            final(self)@ == old(self)@,
            final(self).pipeline == old(self).pipeline,
            final(self).trace_log() == old(self).trace_log().push(BusAccess { addr, rw, data: r.0, ok: r.1 }),
            rw == BusRW::Write ==> r.0 == value,
    {
        let mut data: Word = value;
        let ok = match self.bus.access(addr, &mut data, rw) {
            Ok(_) => true,
            Err(_) => false,
        };
        let seen = match rw {
            BusRW::Read => data,
            BusRW::Write => value,
        };
        self.trace = BusTrace { log: Ghost(self.trace@.push(BusAccess { addr, rw, data: seen, ok })) };
        (seen, ok)
    }

    /// Reads the word at the program counter from the bus and records the
    /// access. A bus fault becomes a prefetch abort at that address.
    pub fn fetch(&mut self) -> (r: Result<Word, Fault>)
        ensures
            final(self)@ == old(self)@,
            final(self).pipeline == old(self).pipeline,
            final(self).trace_log() == old(self).trace_log().push(
                BusAccess {
                    addr: old(self)@.pc(),
                    rw: BusRW::Read,
                    data: final(self).trace_log().last().data,
                    ok: r is Ok,
                },
            ),
            r is Ok ==> r->Ok_0 == final(self).trace_log().last().data,
            r is Err ==> r->Err_0 == Fault::PrefetchAbort(old(self)@.pc()),
    {
        let pc = self.get_gpr(15);
        let (data, ok) = self.bus_access(pc, 0, BusRW::Read);
        if ok {
            Ok(data)
        } else {
            Err(Fault::PrefetchAbort(pc))
        }
    }
}

} // verus!
