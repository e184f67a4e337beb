//! Read-only instruction store, seeded once at power-on from a full
//! image of the 15-bit address space.

use crate::convert_16b::i16_to_word;
use crate::word::{ival16, uval16};
use vstd::prelude::*;

verus! {

/// The instruction store: one word per instruction address.
pub struct Rom {
    /// The fixed instruction words; never mutated after power-on.
    pub words: Vec<[bool; 16]>,
}

/// A ROM covers the whole 15-bit address space.
pub open spec fn rom_wf(r: Rom) -> bool {
    r.words@.len() == 32768
}

/// The stored instruction words as bit sequences.
pub open spec fn rom_abs(r: Rom) -> Seq<Seq<bool>> {
    Seq::new(32768, |i: int| r.words@[i]@)
}

impl Rom {
    /// Seeds the store from a boot image of 32768 signed words; entry
    /// `i` becomes the instruction at address `i`.
    pub fn power_on(rom_disk: [i16; 32768]) -> (r: Rom)
        ensures
            rom_wf(r),
            forall|i: int| 0 <= i < 32768 ==> (#[trigger] rom_abs(r)[i]).len() == 16,
            forall|i: int| 0 <= i < 32768 ==> ival16(#[trigger] rom_abs(r)[i]) == rom_disk@[i] as int,
    {
        let mut words: Vec<[bool; 16]> = Vec::new();
        let mut i: usize = 0;
        while i < 32768
            invariant
                i <= 32768,
                words@.len() == i,
                forall|j: int| 0 <= j < i ==> (#[trigger] words@[j]@).len() == 16,
                forall|j: int| 0 <= j < i ==> ival16(#[trigger] words@[j]@) == rom_disk@[j] as int,
            decreases 32768 - i,
        {
            words.push(i16_to_word(rom_disk[i]));
            i = i + 1;
        }
        Rom { words }
    }

    /// Pure lookup of the instruction at the given address; the top
    /// bus bit is unused and must be low.
    pub fn rom(&self, address: [bool; 16]) -> (instr: [bool; 16])
        requires
            rom_wf(*self),
            !address@[15],
        ensures
            instr@ == rom_abs(*self)[uval16(address@) as int],
    {
        let idx = crate::convert_16b::word_to_u16(&address);
        proof {
            assert(uval16(address@) < 32768);
        }
        self.words[idx as usize]
    }
}

} // verus!
