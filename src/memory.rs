//! A flat 64 KiB little-endian memory that serves as the processor's bus.

use vstd::prelude::*;

use crate::bits::Word;
use crate::cpu::{Bus, BusRW, BusState};

verus! {

/// Size of the memory in bytes.
pub const MEMORY_SIZE: usize = 0x10000;

/// The word stored little-endian in `mem` at byte address `addr`.
pub open spec fn word_at(mem: Seq<u8>, addr: int) -> int {
    mem[addr] + 0x100 * mem[addr + 1] + 0x1_0000 * mem[addr + 2] + 0x100_0000 * mem[addr + 3]
}

/// Byte `i` (0 to 3, least significant first) of `w`.
pub open spec fn byte_of(w: u32, i: int) -> u8 {
    if i == 0 {
        (w % 0x100) as u8
    } else if i == 1 {
        ((w / 0x100) % 0x100) as u8
    } else if i == 2 {
        ((w / 0x1_0000) % 0x100) as u8
    } else {
        ((w / 0x100_0000) % 0x100) as u8
    }
}

/// Whether a word access at `addr` lies inside the memory.
pub open spec fn word_in_range(addr: u32) -> bool {
    addr + 4 <= MEMORY_SIZE
}

/// `mem` with `w` stored little-endian at byte address `addr`.
pub open spec fn written(mem: Seq<u8>, addr: int, w: u32) -> Seq<u8> {
    mem.update(addr, byte_of(w, 0)).update(addr + 1, byte_of(w, 1)).update(addr + 2, byte_of(w, 2)).update(
        addr + 3,
        byte_of(w, 3),
    )
}

/// Reading back a word just written at the same address gives that word; the
/// bytes outside the four written ones keep their values.
pub proof fn lemma_write_then_read(mem: Seq<u8>, addr: int, w: u32)
    requires
        0 <= addr,
        addr + 4 <= mem.len(),
    ensures
        word_at(written(mem, addr, w), addr) == w,
        forall|i: int|
            0 <= i < mem.len() && !(addr <= i < addr + 4) ==> #[trigger] written(mem, addr, w)[i]
                == mem[i],
{
    assert(w % 0x100 + 0x100 * ((w / 0x100) % 0x100) + 0x1_0000 * ((w / 0x1_0000) % 0x100)
        + 0x100_0000 * ((w / 0x100_0000) % 0x100) == w) by (bit_vector);
}

/// 64 KiB of byte-addressed memory, all zero at first.
pub struct MyMemory {
    pub memory: [u8; 0x10000],
}

impl MyMemory {
    /// A memory with every byte zero.
    pub fn new() -> (r: MyMemory)
        ensures
            forall|i: int| 0 <= i < MEMORY_SIZE ==> r.memory@[i] == 0,
    {
        MyMemory { memory: [0; 0x10000] }
    }

    /// Stores byte `data` at `addr`.
    pub fn load(&mut self, addr: u32, data: u8)
        requires
            addr < MEMORY_SIZE,
        ensures
            final(self).memory@ == old(self).memory@.update(addr as int, data),
    {
        self.memory[addr as usize] = data;
    }

    /// The word at `addr`, least significant byte first; `None` when the four
    /// bytes do not all lie inside the memory.
    pub fn read_word(&self, addr: Word) -> (r: Option<Word>)
        ensures
            r is Some <==> word_in_range(addr),
            r is Some ==> r->Some_0 == word_at(self.memory@, addr as int),
    {
        if addr > 0xFFFC {
            return None;
        }
        let a = addr as usize;
        let b0 = self.memory[a] as u32;
        let b1 = self.memory[a + 1] as u32;
        let b2 = self.memory[a + 2] as u32;
        let b3 = self.memory[a + 3] as u32;
        Some(b0 + 0x100 * b1 + 0x1_0000 * b2 + 0x100_0000 * b3)
    }

    /// Stores `value` at `addr`, least significant byte first, and reports
    /// whether the four bytes all lie inside the memory; nothing changes when
    /// they do not.
    pub fn write_word(&mut self, addr: Word, value: Word) -> (r: bool)
        ensures
            r <==> word_in_range(addr),
            r ==> final(self).memory@ == written(old(self).memory@, addr as int, value),
            !r ==> final(self).memory@ == old(self).memory@,
    {
        if addr > 0xFFFC {
            return false;
        }
        let a = addr as usize;
        self.memory[a] = (value % 0x100) as u8;
        self.memory[a + 1] = ((value / 0x100) % 0x100) as u8;
        self.memory[a + 2] = ((value / 0x1_0000) % 0x100) as u8;
        self.memory[a + 3] = ((value / 0x100_0000) % 0x100) as u8;
        true
    }
}

impl Bus for MyMemory {
    /// Reads or writes the little-endian word at `addr`; fails when the word
    /// does not lie inside the memory.
    fn access(&mut self, addr: Word, data: &mut Word, rw: BusRW) -> (r: BusState)
        ensures
            word_in_range(addr) ==> r == Ok::<Word, ()>(0),
            !word_in_range(addr) ==> r == Err::<Word, ()>(()) && final(self).memory@ == old(
                self,
            ).memory@ && *final(data) == *old(data),
            rw == BusRW::Read && word_in_range(addr) ==> *final(data) == word_at(
                old(self).memory@,
                addr as int,
            ) && final(self).memory@ == old(self).memory@,
            rw == BusRW::Write ==> *final(data) == *old(data),
            rw == BusRW::Write && word_in_range(addr) ==> final(self).memory@ == written(
                old(self).memory@,
                addr as int,
                *old(data),
            ),
    {
        match rw {
            BusRW::Read => match self.read_word(addr) {
                Some(w) => {
                    *data = w;
                    Ok(0)
                },
                None => Err(()),
            },
            BusRW::Write => if self.write_word(addr, *data) {
                Ok(0)
            } else {
                Err(())
            },
        }
    }
}

} // verus!
