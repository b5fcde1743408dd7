//! The sixteen condition codes and when each one lets an instruction run.

use vstd::prelude::*;

verus! {

/// Whether condition code `cond` passes for the flags N, Z, C and V:
/// EQ, NE, CS, CC, MI, PL, VS, VC, HI, LS, GE, LT, GT, LE, AL (always) and NV
/// (never), in that order from 0 to 15; any larger value never passes.
pub open spec fn condition_holds(cond: u32, n: bool, z: bool, c: bool, v: bool) -> bool {
    if cond == 0x0 {
        z
    } else if cond == 0x1 {
        !z
    } else if cond == 0x2 {
        c
    } else if cond == 0x3 {
        !c
    } else if cond == 0x4 {
        n
    } else if cond == 0x5 {
        !n
    } else if cond == 0x6 {
        v
    } else if cond == 0x7 {
        !v
    } else if cond == 0x8 {
        c && !z
    } else if cond == 0x9 {
        !c || z
    } else if cond == 0xA {
        n == v
    } else if cond == 0xB {
        n != v
    } else if cond == 0xC {
        !z && n == v
    } else if cond == 0xD {
        z || n != v
    } else {
        cond == 0xE
    }
}

/// The codes come in complementary pairs: for every even code below 14, the
/// next code passes exactly when it fails. AL always passes and NV never does.
pub proof fn lemma_condition_pairs_complement(cond: u32, n: bool, z: bool, c: bool, v: bool)
    requires
        cond < 14,
        cond % 2 == 0,
    ensures
        condition_holds((cond + 1) as u32, n, z, c, v) == !condition_holds(cond, n, z, c, v),
        condition_holds(0xE, n, z, c, v),
        !condition_holds(0xF, n, z, c, v),
{
}

} // verus!
