//! Bit fields of a 32-bit word and the mask/pattern test used to classify
//! instruction words.

use vstd::prelude::*;

verus! {

/// A 32-bit machine word.
pub type Word = u32;

/// Bits `msb` down to `lsb` of `data`, shifted down to bit 0; zero when
/// `lsb > msb`.
pub open spec fn bit_range(data: u32, msb: u32, lsb: u32) -> u32 {
    if lsb > msb {
        0
    } else if msb - lsb >= 31 {
        data >> lsb
    } else {
        (data >> lsb) & (((1u32 << ((msb - lsb) + 1) as u32) - 1) as u32)
    }
}

/// Whether bit `i` of `data` is set.
pub open spec fn bit_set(data: u32, i: u32) -> bool {
    (data >> i) & 1 == 1
}

/// Extracts bits `msb` down to `lsb` of `data` as an unsigned value.
pub fn get_bit_range(data: Word, msb: u8, lsb: u8) -> (r: Word)
    requires
        msb < 32,
    ensures
        r == bit_range(data, msb as u32, lsb as u32),
{
    if lsb > msb {
        return 0;
    }
    let width: u32 = (msb - lsb) as u32 + 1;
    let shift: u32 = lsb as u32;
    if width == 32 {
        assert(shift == 0);
        assert(data >> 0u32 == data) by (bit_vector);
        return data;
    }
    assert(width < 32 ==> 1u32 << width >= 1) by (bit_vector);
    let low: u32 = (1u32 << width) - 1;
    let mask: u32 = low << shift;
    assert((data & (low << shift)) >> shift == (data >> shift) & low) by (bit_vector)
        requires
            width + shift <= 32,
            low == ((1u32 << width) - 1) as u32,
            width < 32,
    ;
    (data & mask) >> shift
}

/// A class of instruction words: those whose bits under `mask` equal `data`.
#[derive(Clone, Copy, Debug, PartialEq, Eq, Structural)]
pub struct InstFormat {
    pub mask: u32,
    pub data: u32,
}

/// Whether `inst` belongs to the class of words described by `mask` and `data`.
pub open spec fn matches_format(inst: u32, mask: u32, data: u32) -> bool {
    inst & mask == data
}

/// Whether the bits of `inst` under the format's mask equal its fixed bits.
pub fn is_match_format(inst: Word, format: InstFormat) -> (r: bool)
    ensures
        r == matches_format(inst, format.mask, format.data),
{
    (inst & format.mask) == format.data
}

} // verus!
