//! Address-demultiplexed memory: one 15-bit address space partitioned
//! into general RAM, the screen buffer and the keyboard register.
//!
//! RAM occupies addresses 0..16384 and the screen buffer 16384..24576;
//! both are writable through the CPU's write-enable path.  Address
//! 24576 is the keyboard register, writable only through the external
//! I/O driver path; the CPU write path never reaches it.

use crate::word::{lemma_lval15_eq_uval15, lemma_lval_bound, lval, uval15};
use vstd::arithmetic::power2::{lemma2_to64, lemma_pow2_strictly_increases, lemma_pow2_unfold, pow2};
use vstd::pervasive::VecAdditionalExecFns;
use vstd::prelude::*;

verus! {

/// Number of words in the full 15-bit address space.
pub const ADDRESS_SPACE: usize = 32768;

/// First address the CPU write path cannot reach (the keyboard).
pub const KEYBOARD_ADDRESS: usize = 24576;

/// The addressable store behind the CPU's data bus.
pub struct Memory {
    /// One word per address of the 15-bit space.
    pub cells: Vec<[bool; 16]>,
}

/// A memory covers the whole 15-bit address space.
pub open spec fn mem_wf(m: Memory) -> bool {
    m.cells@.len() == 32768
}

/// The stored words as a sequence of bit sequences.
pub open spec fn mem_abs(m: Memory) -> Seq<Seq<bool>> {
    Seq::new(32768, |i: int| m.cells@[i]@)
}

/// One memory evaluation at the specification level: the write
/// commits only when enabled, on a high clock, and below the keyboard
/// address.
pub open spec fn mem_step(
    m: Seq<Seq<bool>>,
    data_in: Seq<bool>,
    write_enable: bool,
    addr: nat,
    clock: bool,
) -> Seq<Seq<bool>> {
    if write_enable && clock && addr < 24576 {
        m.update(addr as int, data_in)
    } else {
        m
    }
}

/// Machine index of a 15-bit address bus.
pub(crate) fn address_to_index(address: &[bool; 15]) -> (idx: usize)
    ensures
        idx as nat == uval15(address@),
        idx < 32768,
{
    let mut acc: usize = 0;
    let mut pw: usize = 1;
    let mut i: usize = 0;
    proof {
        lemma2_to64();
    }
    while i < 15
        invariant
            i <= 15,
            acc as nat == lval(address@, i as int),
            pw as nat == pow2(i as nat),
            pw <= 32768,
        decreases 15 - i,
    {
        proof {
            lemma_lval_bound(address@, i as int);
            if (i as int) < 14 {
                lemma_pow2_strictly_increases(i as nat, 14);
            }
            lemma2_to64();
        }
        if address[i] {
            acc = acc + pw;
        }
        proof {
            lemma_pow2_unfold((i + 1) as nat);
        }
        pw = pw * 2;
        i = i + 1;
    }
    proof {
        lemma_lval15_eq_uval15(address@);
        lemma_lval_bound(address@, 15);
        lemma2_to64();
    }
    acc
}

impl Memory {
    /// A powered-on memory holds zero at every address.
    pub fn power_on() -> (r: Memory)
        ensures
            mem_wf(r),
            forall|i: int| 0 <= i < 32768 ==> mem_abs(r)[i] == crate::word::zero16(),
    {
        let mut cells: Vec<[bool; 16]> = Vec::new();
        let zero: [bool; 16] = [false; 16];
        proof {
            assert(zero@ =~= crate::word::zero16());
        }
        let mut i: usize = 0;
        while i < ADDRESS_SPACE
            invariant
                i <= 32768,
                cells@.len() == i,
                zero@ == crate::word::zero16(),
                forall|j: int| 0 <= j < i ==> cells@[j] == zero,
            decreases 32768 - i,
        {
            cells.push(zero);
            i = i + 1;
        }
        Memory { cells }
    }

    /// One memory evaluation: commits the write (if enabled, on a high
    /// clock, and below the keyboard address) and returns the word now
    /// stored at the addressed cell.
    pub fn memory(
        &mut self,
        data_in: [bool; 16],
        write_enable: bool,
        address: [bool; 15],
        clock: bool,
    ) -> (out: [bool; 16])
        requires
            mem_wf(*old(self)),
        ensures
            mem_wf(*final(self)),
            mem_abs(*final(self)) == mem_step(
                mem_abs(*old(self)),
                data_in@,
                write_enable,
                uval15(address@),
                clock,
            ),
            out@ == mem_abs(*final(self))[uval15(address@) as int],
    {
        let idx = address_to_index(&address);
        if write_enable && clock && idx < KEYBOARD_ADDRESS {
            self.cells.set(idx, data_in);
            proof {
                assert(mem_abs(*self) =~= mem_abs(*old(self)).update(
                    uval15(address@) as int,
                    data_in@,
                ));
            }
        } else {
            proof {
                assert(mem_abs(*self) =~= mem_abs(*old(self)));
            }
        }
        self.cells[idx]
    }

    /// The external I/O driver's write path into the keyboard
    /// register; the only way that address is ever written.
    pub fn write_from_io_driver(&mut self, input: [bool; 16], clock: bool)
        requires
            mem_wf(*old(self)),
        ensures
            mem_wf(*final(self)),
            mem_abs(*final(self)) == if clock {
                mem_abs(*old(self)).update(24576, input@)
            } else {
                mem_abs(*old(self))
            },
    {
        if clock {
            self.cells.set(KEYBOARD_ADDRESS, input);
            proof {
                assert(mem_abs(*self) =~= mem_abs(*old(self)).update(24576, input@));
            }
        } else {
            proof {
                assert(mem_abs(*self) =~= mem_abs(*old(self)));
            }
        }
    }
}

/// Writing a RAM-range word and then reading the same address back,
/// with no intervening write, yields the written word; and a CPU-path
/// write aimed at the keyboard address (or beyond) leaves the whole
/// memory unchanged, whatever its data and clock are.
pub proof fn lemma_memory_write_read(
    m: Seq<Seq<bool>>,
    addr: nat,
    data: Seq<bool>,
    clock: bool,
)
    requires
        m.len() == 32768,
        addr < 32768,
    ensures
        addr < 24576 ==> mem_step(m, data, true, addr, true)[addr as int] == data,
        addr >= 24576 ==> mem_step(m, data, true, addr, clock) == m,
{
}

} // verus!
