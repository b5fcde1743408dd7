//! The pipeline controller: each step fetches the next word, decodes the word
//! fetched by the previous step, and executes the instruction decoded before
//! that, flushing the pipeline when control flow changes.

use vstd::prelude::*;

use crate::cpu::{ARMv4T, Bus, BusAccess, BusRW, Fault, PipelineState};
use crate::condition::condition_holds;
use crate::execute::{branch_target, execute_post, lemma_decoded_fields_in_range};
use crate::instruction::{decoded_of, Branch, DecodedInstruction, InstKind};
use crate::registers::CpuView;

verus! {

/// The bus trace records a successful read of `w` at `addr`.
pub open spec fn fetched_from(trace: Seq<BusAccess>, addr: u32, w: u32) -> bool {
    exists|j: int|
        0 <= j < trace.len() && #[trigger] trace[j] == (BusAccess {
            addr,
            rw: BusRW::Read,
            data: w,
            ok: true,
        })
}

/// The words in flight came from where the program counter says: a held word
/// was read at the program counter minus 4, and a decoded instruction at the
/// program counter minus 8.
pub open spec fn pipeline_consistent(pc: u32, pipeline: PipelineState, trace: Seq<BusAccess>) -> bool {
    match pipeline {
        PipelineState::Empty => true,
        PipelineState::Fetched(w) => fetched_from(trace, pc.wrapping_sub(4), w),
        PipelineState::Decoded(w, d) => fetched_from(trace, pc.wrapping_sub(4), w) && fetched_from(
            trace,
            pc.wrapping_sub(8),
            d.raw_inst,
        ),
    }
}

proof fn lemma_fetched_from_kept(t1: Seq<BusAccess>, t2: Seq<BusAccess>, addr: u32, w: u32)
    requires
        fetched_from(t1, addr, w),
        t1.len() <= t2.len(),
        t2.subrange(0, t1.len() as int) == t1,
    ensures
        fetched_from(t2, addr, w),
{
    let j = choose|j: int|
        0 <= j < t1.len() && #[trigger] t1[j] == (BusAccess { addr, rw: BusRW::Read, data: w, ok: true });
    assert(t2[j] == t2.subrange(0, t1.len() as int)[j]);
}

proof fn lemma_consistent_kept(pc: u32, pipeline: PipelineState, t1: Seq<BusAccess>, t2: Seq<BusAccess>)
    requires
        pipeline_consistent(pc, pipeline, t1),
        t1.len() <= t2.len(),
        t2.subrange(0, t1.len() as int) == t1,
    ensures
        pipeline_consistent(pc, pipeline, t2),
{
    match pipeline {
        PipelineState::Empty => {},
        PipelineState::Fetched(w) => lemma_fetched_from_kept(t1, t2, pc.wrapping_sub(4), w),
        PipelineState::Decoded(w, d) => {
            lemma_fetched_from_kept(t1, t2, pc.wrapping_sub(4), w);
            lemma_fetched_from_kept(t1, t2, pc.wrapping_sub(8), d.raw_inst);
        },
    }
}

/// One step took the machine from `pre` (pipeline `pre_pipeline`, bus trace
/// `pre_trace`) to `post`, `post_pipeline` and `post_trace`, returning `r`.
///
/// The step first fetches the word at the program counter. If the bus fails
/// the fetch, nothing else happens and a prefetch abort is returned. Otherwise:
/// - with nothing in flight, the word is held and the program counter moves on
///   by 4;
/// - with a fetched word held, that word is decoded, the new word is held, and
///   the program counter moves on by 4;
/// - with a decoded instruction pending, it executes (the program counter then
///   reads 8 past its address). If it changed the flow of control or faulted,
///   the pipeline is flushed; otherwise the held word is decoded, the new word
///   held, and the program counter moves on by 4.
pub open spec fn step_post(
    pre: CpuView,
    pre_pipeline: PipelineState,
    pre_trace: Seq<BusAccess>,
    post: CpuView,
    post_pipeline: PipelineState,
    post_trace: Seq<BusAccess>,
    r: Result<(), Fault>,
) -> bool {
    let pc = pre.pc();
    let next_pc = pc.wrapping_add(4);
    let fetch = post_trace[pre_trace.len() as int];
    let after_fetch = pre_trace.push(fetch);
    &&& post_trace.len() > pre_trace.len()
    &&& fetch.addr == pc
    &&& fetch.rw == BusRW::Read
    &&& if !fetch.ok {
        &&& r == Err::<(), Fault>(Fault::PrefetchAbort(pc))
        &&& post == pre
        &&& post_pipeline == pre_pipeline
        &&& post_trace == after_fetch
    } else {
        match pre_pipeline {
            PipelineState::Empty => {
                &&& r == Ok::<(), Fault>(())
                &&& post == pre.with_gpr(15, next_pc)
                &&& post_pipeline == PipelineState::Fetched(fetch.data)
                &&& post_trace == after_fetch
            },
            PipelineState::Fetched(w) => {
                &&& r == Ok::<(), Fault>(())
                &&& post == pre.with_gpr(15, next_pc)
                &&& post_pipeline == PipelineState::Decoded(fetch.data, decoded_of(w))
                &&& post_trace == after_fetch
            },
            PipelineState::Decoded(w, d) => {
                ||| {
                    &&& r is Err
                    &&& post_pipeline == PipelineState::Empty
                    &&& execute_post(
                        pre,
                        after_fetch,
                        d.inst,
                        d.cond,
                        post,
                        post_trace,
                        Err(r->Err_0),
                    )
                }
                ||| {
                    &&& r == Ok::<(), Fault>(())
                    &&& post_pipeline == PipelineState::Empty
                    &&& execute_post(pre, after_fetch, d.inst, d.cond, post, post_trace, Ok(true))
                }
                ||| {
                    &&& r == Ok::<(), Fault>(())
                    &&& post_pipeline == PipelineState::Decoded(fetch.data, decoded_of(w))
                    &&& post.pc() == next_pc
                    &&& execute_post(
                        pre,
                        after_fetch,
                        d.inst,
                        d.cond,
                        post.with_gpr(15, pc),
                        post_trace,
                        Ok(false),
                    )
                }
            },
        }
    }
}

/// A step whose pending instruction is a branch that passes its condition,
/// read from address `a` (the program counter minus 8), takes the branch and
/// flushes the pipeline: with the link bit r14 receives `a + 4`, the program
/// counter becomes the target counted from `a + 8`, and nothing fetched after
/// the branch is left to run.
pub proof fn lemma_taken_branch_flushes(
    pre: CpuView,
    pre_pipeline: PipelineState,
    pre_trace: Seq<BusAccess>,
    post: CpuView,
    post_pipeline: PipelineState,
    post_trace: Seq<BusAccess>,
    r: Result<(), Fault>,
    w: u32,
    d: DecodedInstruction,
    b: Branch,
)
    requires
        pre.wf(),
        pipeline_consistent(pre.pc(), pre_pipeline, pre_trace),
        step_post(pre, pre_pipeline, pre_trace, post, post_pipeline, post_trace, r),
        pre_pipeline == PipelineState::Decoded(w, d),
        d.inst == InstKind::Branch(b),
        condition_holds(d.cond, pre.n(), pre.z(), pre.c(), pre.v()),
        post_trace[pre_trace.len() as int].ok,
    ensures
        fetched_from(pre_trace, pre.pc().wrapping_sub(8), d.raw_inst),
        r == Ok::<(), Fault>(()),
        post_pipeline == PipelineState::Empty,
        post.pc() == branch_target(pre.pc().wrapping_sub(8).wrapping_add(8), b.offset),
        b.l != 0 ==> post.gpr(14) == pre.pc().wrapping_sub(8).wrapping_add(4),
        b.l == 0 ==> post.gpr(14) == pre.gpr(14),
{
}

/// From an empty pipeline (after a flush) a step only fetches: when the fetch
/// succeeds the word is held, the program counter moves on by 4, and no
/// instruction runs.
pub proof fn lemma_step_after_flush_only_fetches(
    pre: CpuView,
    pre_trace: Seq<BusAccess>,
    post: CpuView,
    post_pipeline: PipelineState,
    post_trace: Seq<BusAccess>,
    r: Result<(), Fault>,
)
    requires
        step_post(pre, PipelineState::Empty, pre_trace, post, post_pipeline, post_trace, r),
        post_trace[pre_trace.len() as int].ok,
    ensures
        r == Ok::<(), Fault>(()),
        post == pre.with_gpr(15, pre.pc().wrapping_add(4)),
        post_pipeline == PipelineState::Fetched(post_trace[pre_trace.len() as int].data),
        post_trace == pre_trace.push(
            BusAccess {
                addr: pre.pc(),
                rw: BusRW::Read,
                data: post_trace[pre_trace.len() as int].data,
                ok: true,
            },
        ),
{
}

impl<T: Bus> ARMv4T<T> {
    /// Advances the pipeline by one step: fetch, decode and execute overlap,
    /// and a change of control flow flushes what was fetched after the
    /// instruction that caused it.
    pub fn step(&mut self) -> (r: Result<(), Fault>)
        requires
            old(self).wf(),
        ensures
            final(self).wf(),
            step_post(
                old(self)@,
                old(self).pipeline,
                old(self).trace_log(),
                final(self)@,
                final(self).pipeline,
                final(self).trace_log(),
                r,
            ),
            pipeline_consistent(old(self)@.pc(), old(self).pipeline, old(self).trace_log())
                ==> pipeline_consistent(final(self)@.pc(), final(self).pipeline, final(self).trace_log()),
    {
        let pending = self.pipeline;
        let ghost pre = self@;
        let ghost pre_trace = self.trace_log();
        let ghost pc = pre.pc();
        let ghost consistent = pipeline_consistent(pc, pending, pre_trace);
        let fetched = match self.fetch() {
            Ok(w) => w,
            Err(f) => {
                proof {
                    assert(self.trace_log().subrange(0, pre_trace.len() as int) =~= pre_trace);
                    if consistent {
                        lemma_consistent_kept(pc, pending, pre_trace, self.trace_log());
                    }
                }
                return Err(f);
            },
        };
        let ghost after_fetch = self.trace_log();
        proof {
            assert(after_fetch.subrange(0, pre_trace.len() as int) =~= pre_trace);
            assert(after_fetch[pre_trace.len() as int] == (BusAccess {
                addr: pc,
                rw: BusRW::Read,
                data: fetched,
                ok: true,
            }));
            assert(fetched_from(after_fetch, pc, fetched));
            assert(pc.wrapping_add(4).wrapping_sub(4) == pc);
            assert(pc.wrapping_add(4).wrapping_sub(8) == pc.wrapping_sub(4));
            if consistent {
                lemma_consistent_kept(pc, pending, pre_trace, after_fetch);
            }
        }
        match pending {
            PipelineState::Empty => {
                self.set_pipeline(PipelineState::Fetched(fetched));
                self.advance_pc(4);
                Ok(())
            },
            PipelineState::Fetched(w) => {
                let d = self.decode(w);
                self.set_pipeline(PipelineState::Decoded(fetched, d));
                self.advance_pc(4);
                Ok(())
            },
            PipelineState::Decoded(w, d) => {
                let next = self.decode(w);
                proof {
                    lemma_decoded_fields_in_range(d.raw_inst);
                }
                match self.execute(d.inst, d.cond) {
                    Err(f) => {
                        self.flush_pipeline();
                        Err(f)
                    },
                    Ok(true) => {
                        self.flush_pipeline();
                        Ok(())
                    },
                    Ok(false) => {
                        let ghost ran = self@;
                        proof {
                            lemma_fetched_from_kept(after_fetch, self.trace_log(), pc, fetched);
                            if consistent {
                                lemma_fetched_from_kept(
                                    after_fetch,
                                    self.trace_log(),
                                    pc.wrapping_sub(4),
                                    w,
                                );
                            }
                        }
                        self.set_pipeline(PipelineState::Decoded(fetched, next));
                        self.advance_pc(4);
                        assert(self@.with_gpr(15, pre.pc()).regs =~= ran.regs);
                        Ok(())
                    },
                }
            },
        }
    }
}

} // verus!
