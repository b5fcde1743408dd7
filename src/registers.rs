//! Processor modes, the status register and the model of the mode-banked
//! register file.
//!
//! The file holds 31 physical registers: the 16 unbanked ones (indices 0 to
//! 15), then r8..r14 of FIQ mode (16 to 22), then r13 and r14 of IRQ (23, 24),
//! Supervisor (25, 26), Abort (27, 28) and Undefined (29, 30) modes. A logical
//! register of a mode resolves to exactly one of them.

use vstd::prelude::*;

use crate::bits::{bit_range, Word};

verus! {

/// The processor's operating modes; each has a 5-bit tag in the status
/// register.
#[derive(Clone, Copy, Debug, PartialEq, Eq, Structural)]
pub enum ProcessorMode {
    User,
    FIQ,
    IRQ,
    Supervisor,
    Abort,
    Undefined,
    System,
}

impl ProcessorMode {
    /// The mode's 5-bit tag.
    pub open spec fn spec_tag(self) -> u32 {
        match self {
            ProcessorMode::User => 0x10,
            ProcessorMode::FIQ => 0x11,
            ProcessorMode::IRQ => 0x12,
            ProcessorMode::Supervisor => 0x13,
            ProcessorMode::Abort => 0x17,
            ProcessorMode::Undefined => 0x1B,
            ProcessorMode::System => 0x1F,
        }
    }

    /// The mode whose tag is `tag`, if any.
    pub open spec fn spec_from_tag(tag: u32) -> Option<ProcessorMode> {
        if tag == 0x10 {
            Some(ProcessorMode::User)
        } else if tag == 0x11 {
            Some(ProcessorMode::FIQ)
        } else if tag == 0x12 {
            Some(ProcessorMode::IRQ)
        } else if tag == 0x13 {
            Some(ProcessorMode::Supervisor)
        } else if tag == 0x17 {
            Some(ProcessorMode::Abort)
        } else if tag == 0x1B {
            Some(ProcessorMode::Undefined)
        } else if tag == 0x1F {
            Some(ProcessorMode::System)
        } else {
            None
        }
    }

    /// The mode's 5-bit tag.
    pub fn tag(&self) -> (r: u32)
        ensures
            r == self.spec_tag(),
    {
        match self {
            ProcessorMode::User => 0x10,
            ProcessorMode::FIQ => 0x11,
            ProcessorMode::IRQ => 0x12,
            ProcessorMode::Supervisor => 0x13,
            ProcessorMode::Abort => 0x17,
            ProcessorMode::Undefined => 0x1B,
            ProcessorMode::System => 0x1F,
        }
    }

    /// The mode whose tag is `tag`, if any.
    pub fn from_tag(tag: u32) -> (r: Option<ProcessorMode>)
        ensures
            r == ProcessorMode::spec_from_tag(tag),
    {
        if tag == 0x10 {
            Some(ProcessorMode::User)
        } else if tag == 0x11 {
            Some(ProcessorMode::FIQ)
        } else if tag == 0x12 {
            Some(ProcessorMode::IRQ)
        } else if tag == 0x13 {
            Some(ProcessorMode::Supervisor)
        } else if tag == 0x17 {
            Some(ProcessorMode::Abort)
        } else if tag == 0x1B {
            Some(ProcessorMode::Undefined)
        } else if tag == 0x1F {
            Some(ProcessorMode::System)
        } else {
            None
        }
    }
}

/// Reading a tag back gives the mode.
pub proof fn lemma_mode_tag_round_trip(mode: ProcessorMode)
    ensures
        ProcessorMode::spec_from_tag(mode.spec_tag()) == Some(mode),
{
}

/// The physical register behind logical register `reg` (0 to 15) in `mode`:
/// FIQ banks r8..r14, the other privileged modes bank r13 and r14, User and
/// System bank nothing, and r15 is never banked.
pub open spec fn phys_index(mode: ProcessorMode, reg: int) -> int {
    match mode {
        ProcessorMode::FIQ => if 8 <= reg <= 14 {
            16 + (reg - 8)
        } else {
            reg
        },
        ProcessorMode::IRQ => if 13 <= reg <= 14 {
            23 + (reg - 13)
        } else {
            reg
        },
        ProcessorMode::Supervisor => if 13 <= reg <= 14 {
            25 + (reg - 13)
        } else {
            reg
        },
        ProcessorMode::Abort => if 13 <= reg <= 14 {
            27 + (reg - 13)
        } else {
            reg
        },
        ProcessorMode::Undefined => if 13 <= reg <= 14 {
            29 + (reg - 13)
        } else {
            reg
        },
        _ => reg,
    }
}

/// Number of physical registers.
pub const PHYS_REGS: usize = 31;

/// The saved-status slot of `mode`: FIQ, IRQ, Supervisor, Abort and Undefined
/// have slots 0 to 4; User and System have none.
pub open spec fn spsr_slot(mode: ProcessorMode) -> Option<int> {
    match mode {
        ProcessorMode::FIQ => Some(0),
        ProcessorMode::IRQ => Some(1),
        ProcessorMode::Supervisor => Some(2),
        ProcessorMode::Abort => Some(3),
        ProcessorMode::Undefined => Some(4),
        _ => None,
    }
}

/// The current program status register, field by field.
#[derive(Clone, Copy, Debug, PartialEq, Eq, Structural)]
pub struct CpsrFlags {
    pub n: u32,
    pub z: u32,
    pub c: u32,
    pub v: u32,
    pub q: u32,
    pub reserved: u32,
    pub i: u32,
    pub f: u32,
    pub t: u32,
    pub mode: u32,
}

impl CpsrFlags {
    /// Every field fits its width: one bit for each flag, 19 reserved bits and
    /// a 5-bit mode.
    pub open spec fn wf(&self) -> bool {
        &&& self.n < 2
        &&& self.z < 2
        &&& self.c < 2
        &&& self.v < 2
        &&& self.q < 2
        &&& self.reserved < 0x8_0000
        &&& self.i < 2
        &&& self.f < 2
        &&& self.t < 2
        &&& self.mode < 32
    }

    /// The packed word: N, Z, C, V, Q in bits 31..27, the reserved bits in
    /// 26..8, I, F, T in bits 7..5 and the mode in bits 4..0.
    pub open spec fn spec_to_word(&self) -> u32 {
        (self.n << 31u32) | (self.z << 30u32) | (self.c << 29u32) | (self.v << 28u32) | (self.q
            << 27u32) | (self.reserved << 8u32) | (self.i << 7u32) | (self.f << 6u32) | (self.t
            << 5u32) | self.mode
    }

    /// The fields of a packed word.
    pub open spec fn spec_from_word(w: u32) -> CpsrFlags {
        CpsrFlags {
            n: bit_range(w, 31, 31),
            z: bit_range(w, 30, 30),
            c: bit_range(w, 29, 29),
            v: bit_range(w, 28, 28),
            q: bit_range(w, 27, 27),
            reserved: bit_range(w, 26, 8),
            i: bit_range(w, 7, 7),
            f: bit_range(w, 6, 6),
            t: bit_range(w, 5, 5),
            mode: bit_range(w, 4, 0),
        }
    }

    /// Packs the fields into a word.
    pub fn to_word(&self) -> (r: Word)
        requires
            self.wf(),
        ensures
            r == self.spec_to_word(),
    {
        (self.n << 31u32) | (self.z << 30u32) | (self.c << 29u32) | (self.v << 28u32) | (self.q
            << 27u32) | (self.reserved << 8u32) | (self.i << 7u32) | (self.f << 6u32) | (self.t
            << 5u32) | self.mode
    }
}

/// Packing the status register and reading the word back gives the same
/// fields.
pub proof fn lemma_cpsr_round_trip(flags: CpsrFlags)
    requires
        flags.wf(),
    ensures
        CpsrFlags::spec_from_word(flags.spec_to_word()) == flags,
{
    let w = flags.spec_to_word();
    let (n, z, c, v, q, res, i, f, t, m) = (
        flags.n,
        flags.z,
        flags.c,
        flags.v,
        flags.q,
        flags.reserved,
        flags.i,
        flags.f,
        flags.t,
        flags.mode,
    );
    assert(bit_range(w, 31, 31) == n && bit_range(w, 30, 30) == z && bit_range(w, 29, 29) == c
        && bit_range(w, 28, 28) == v && bit_range(w, 27, 27) == q && bit_range(w, 26, 8) == res
        && bit_range(w, 7, 7) == i && bit_range(w, 6, 6) == f && bit_range(w, 5, 5) == t
        && bit_range(w, 4, 0) == m) by (bit_vector)
        requires
            w == (n << 31u32) | (z << 30u32) | (c << 29u32) | (v << 28u32) | (q << 27u32) | (res
                << 8u32) | (i << 7u32) | (f << 6u32) | (t << 5u32) | m,
            n < 2,
            z < 2,
            c < 2,
            v < 2,
            q < 2,
            res < 0x8_0000,
            i < 2,
            f < 2,
            t < 2,
            m < 32,
    ;
}

/// The banked copies of r8..r14 (FIQ) and r13..r14 (the other privileged
/// modes).
#[derive(Clone, Copy, Debug, PartialEq, Eq)]
pub struct BankedRegisters {
    pub fiq: [Word; 7],
    pub irq: [Word; 2],
    pub svc: [Word; 2],
    pub abt: [Word; 2],
    pub und: [Word; 2],
}

/// The architectural state: the active mode, the 31 physical registers, the
/// status register and the five saved-status slots.
pub struct CpuView {
    pub mode: ProcessorMode,
    pub regs: Seq<u32>,
    pub cpsr: CpsrFlags,
    pub spsr: Seq<u32>,
}

impl CpuView {
    /// The state has 31 registers and 5 saved-status slots, and its status
    /// register is well formed and names the active mode.
    pub open spec fn wf(self) -> bool {
        &&& self.regs.len() == PHYS_REGS
        &&& self.spsr.len() == 5
        &&& self.cpsr.wf()
        &&& self.cpsr.mode == self.mode.spec_tag()
    }

    /// Logical register `reg` as the active mode sees it.
    pub open spec fn gpr(self, reg: int) -> u32 {
        self.regs[phys_index(self.mode, reg)]
    }

    /// The state after writing `value` to logical register `reg` of the active
    /// mode.
    pub open spec fn with_gpr(self, reg: int, value: u32) -> CpuView {
        CpuView { regs: self.regs.update(phys_index(self.mode, reg), value), ..self }
    }

    /// The program counter, r15.
    pub open spec fn pc(self) -> u32 {
        self.regs[15]
    }

    /// The flags N, Z, C and V.
    pub open spec fn n(self) -> bool {
        self.cpsr.n == 1
    }

    pub open spec fn z(self) -> bool {
        self.cpsr.z == 1
    }

    pub open spec fn c(self) -> bool {
        self.cpsr.c == 1
    }

    pub open spec fn v(self) -> bool {
        self.cpsr.v == 1
    }

    /// The state with N, Z, C and V replaced.
    pub open spec fn with_flags(self, n: bool, z: bool, c: bool, v: bool) -> CpuView {
        CpuView {
            cpsr: CpsrFlags {
                n: if n {
                    1
                } else {
                    0
                },
                z: if z {
                    1
                } else {
                    0
                },
                c: if c {
                    1
                } else {
                    0
                },
                v: if v {
                    1
                } else {
                    0
                },
                ..self.cpsr
            },
            ..self
        }
    }

    /// The saved status register of the active mode, if it has one.
    pub open spec fn saved_status(self) -> Option<u32> {
        match spsr_slot(self.mode) {
            Some(i) => Some(self.spsr[i]),
            None => None,
        }
    }

    /// The state after writing `value` to the active mode's saved-status slot;
    /// unchanged in User and System modes, which have none.
    pub open spec fn with_saved_status(self, value: u32) -> CpuView {
        match spsr_slot(self.mode) {
            Some(i) => CpuView { spsr: self.spsr.update(i, value), ..self },
            None => self,
        }
    }

    /// The state after copying N, Z, C and V from the active mode's saved
    /// status register (bits 31..28); unchanged in User and System modes.
    pub open spec fn with_restored_flags(self) -> CpuView {
        match self.saved_status() {
            Some(w) => CpuView {
                cpsr: CpsrFlags {
                    n: bit_range(w, 31, 31),
                    z: bit_range(w, 30, 30),
                    c: bit_range(w, 29, 29),
                    v: bit_range(w, 28, 28),
                    ..self.cpsr
                },
                ..self
            },
            None => self,
        }
    }
}

/// A write to r13 in FIQ mode is not seen by r13 in Supervisor mode, nor the
/// other way round.
pub proof fn lemma_fiq_and_supervisor_r13_are_separate(s: CpuView, value: u32)
    requires
        s.wf(),
    ensures
        (CpuView { mode: ProcessorMode::Supervisor, ..(CpuView { mode: ProcessorMode::FIQ, ..s }).with_gpr(13, value) }).gpr(13)
            == (CpuView { mode: ProcessorMode::Supervisor, ..s }).gpr(13),
        (CpuView { mode: ProcessorMode::FIQ, ..(CpuView { mode: ProcessorMode::Supervisor, ..s }).with_gpr(13, value) }).gpr(13)
            == (CpuView { mode: ProcessorMode::FIQ, ..s }).gpr(13),
{
}

/// r15 is never banked: every mode reads and writes the same program counter.
pub proof fn lemma_pc_is_shared(s: CpuView, m1: ProcessorMode, m2: ProcessorMode, value: u32)
    requires
        s.wf(),
    ensures
        (CpuView { mode: m1, ..s }).gpr(15) == (CpuView { mode: m2, ..s }).gpr(15),
        (CpuView { mode: m2, ..(CpuView { mode: m1, ..s }).with_gpr(15, value) }).gpr(15) == value,
{
}

/// Each logical register of each mode has one physical register, and two modes
/// share the physical register behind a logical register exactly when neither
/// banks it.
pub proof fn lemma_banking_is_an_indirection(m1: ProcessorMode, m2: ProcessorMode, reg: int)
    requires
        0 <= reg < 16,
    ensures
        0 <= phys_index(m1, reg) < PHYS_REGS,
        phys_index(m1, reg) == reg <==> !(m1 == ProcessorMode::FIQ && 8 <= reg <= 14 || (m1
            != ProcessorMode::User && m1 != ProcessorMode::System && 13 <= reg <= 14)),
        m1 != m2 && phys_index(m1, reg) != reg ==> phys_index(m1, reg) != phys_index(m2, reg),
        forall|r2: int| 0 <= r2 < 16 && r2 != reg ==> phys_index(m1, r2) != phys_index(m1, reg),
{
}

} // verus!
