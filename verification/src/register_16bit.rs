//! 16-bit register: sixteen parallel 1-bit master-slave registers
//! sharing one load line and one clock line.

use crate::register_1bit::{reg1_abs, reg1_step, Register1Bit};
use vstd::prelude::*;

verus! {

/// Sixteen 1-bit registers clocked together.
#[derive(Clone, Copy)]
pub struct Register16Bit {
    /// The sixteen lanes, least-significant first.
    pub bits: [Register1Bit; 16],
}

/// Abstract state: the (master, slave, visible) triple of each lane.
pub open spec fn reg16_state(r: Register16Bit) -> Seq<(bool, bool, bool)> {
    Seq::new(16, |i: int| reg1_abs(r.bits[i]))
}

/// One clocked evaluation applied to every lane.
pub open spec fn reg16_step_state(
    st: Seq<(bool, bool, bool)>,
    input: Seq<bool>,
    load: bool,
    clock: bool,
) -> Seq<(bool, bool, bool)> {
    Seq::new(16, |i: int| reg1_step(st[i], input[i], load, clock))
}

/// The word a register state shows: the slave bit of each lane.
pub open spec fn reg16_outs(st: Seq<(bool, bool, bool)>) -> Seq<bool> {
    Seq::new(16, |i: int| st[i].1)
}

impl Register16Bit {
    /// A powered-on register holds the all-zero word.
    pub fn power_on() -> (r: Register16Bit)
        ensures
            forall|i: int| 0 <= i < 16 ==> reg16_state(r)[i] == (false, false, false),
    {
        let cell = Register1Bit::power_on();
        let r = Register16Bit { bits: [cell; 16] };
        r
    }

    /// One clocked evaluation of all sixteen lanes; returns the word
    /// visible after the call.
    pub fn register_16bit_clocked(&mut self, input: [bool; 16], load: bool, clock: bool) -> (out: [
        bool;
        16
    ])
        ensures
            reg16_state(*final(self)) == reg16_step_state(
                reg16_state(*old(self)),
                input@,
                load,
                clock,
            ),
            out@ == reg16_outs(reg16_state(*final(self))),
            out@.len() == 16,
    {
        let mut out: [bool; 16] = [false; 16];
        let mut i: usize = 0;
        while i < 16
            invariant
                i <= 16,
                out@.len() == 16,
                self.bits@.len() == 16,
                forall|j: int|
                    i <= j < 16 ==> reg1_abs(self.bits@[j]) == reg1_abs((*old(self)).bits@[j]),
                forall|j: int|
                    0 <= j < i ==> reg1_abs(self.bits@[j]) == reg1_step(
                        reg1_abs((*old(self)).bits@[j]),
                        input@[j],
                        load,
                        clock,
                    ),
                forall|j: int| 0 <= j < i ==> out@[j] == reg1_abs(self.bits@[j]).1,
            decreases 16 - i,
        {
            let mut cell = self.bits[i];
            let o = cell.register_1bit_clocked(input[i], load, clock);
            self.bits[i] = cell;
            out[i] = o;
            i = i + 1;
        }
        proof {
            assert(reg16_state(*self) =~= reg16_step_state(
                reg16_state(*old(self)),
                input@,
                load,
                clock,
            ));
            assert(out@ =~= reg16_outs(reg16_state(*self)));
        }
        out
    }

    /// Read-only view of the word the register currently shows.
    pub fn peek(&self) -> (out: [bool; 16])
        ensures
            out@ == reg16_outs(reg16_state(*self)),
    {
        let mut out: [bool; 16] = [false; 16];
        let mut i: usize = 0;
        while i < 16
            invariant
                i <= 16,
                out@.len() == 16,
                forall|j: int| 0 <= j < i ==> out@[j] == reg1_abs(self.bits@[j]).1,
            decreases 16 - i,
        {
            out[i] = self.bits[i].child_circuit[1].q;
            i = i + 1;
        }
        proof {
            assert(out@ =~= reg16_outs(reg16_state(*self)));
        }
        out
    }
}

} // verus!


