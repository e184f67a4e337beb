//! Program counter: a 16-bit clocked register wrapped in the
//! reset/load/increment selection network.
//!
//! Priority is strict: reset beats load, load beats increment, and
//! with all three low the counter holds.  The selection is computed
//! from the counter's fed-back visible value, so the word stored on a
//! clock cycle already reflects that cycle's controls.

use crate::adder::{add16s, inc16, lemma_add16s_val};
use crate::gates::mux16;
use crate::register_16bit::{reg16_outs, reg16_state, reg16_step_state, Register16Bit};
use crate::word::{one16, uval16, zero16};
use vstd::prelude::*;

verus! {

/// The counter: its base register and the fed-back visible word.
pub struct ProgramCounter {
    /// The clocked register holding the counter word.
    pub base_circuit: Register16Bit,
    /// The visible word fed back into the selection network.
    pub feedback_out: [bool; 16],
}

/// The word the selection network feeds the base register: zero on
/// reset, else the jump target on load, else the incremented value on
/// inc, else the held value.
pub open spec fn pc_select(
    held: Seq<bool>,
    input: Seq<bool>,
    load: bool,
    inc: bool,
    reset: bool,
) -> Seq<bool> {
    if reset {
        zero16()
    } else if load {
        input
    } else if inc {
        add16s(held, one16())
    } else {
        held
    }
}

/// Abstract counter state: the base register lanes and the fed-back
/// visible word.
pub open spec fn pc_abs(p: ProgramCounter) -> (Seq<(bool, bool, bool)>, Seq<bool>) {
    (reg16_state(p.base_circuit), p.feedback_out@)
}

/// One clocked evaluation of the counter.
pub open spec fn pc_step(
    st: (Seq<(bool, bool, bool)>, Seq<bool>),
    input: Seq<bool>,
    load: bool,
    inc: bool,
    reset: bool,
    clock: bool,
) -> (Seq<(bool, bool, bool)>, Seq<bool>) {
    let sel = pc_select(st.1, input, load, inc, reset);
    let ns = reg16_step_state(st.0, sel, true, clock);
    (ns, reg16_outs(ns))
}

/// A counter at rest between cycles: every lane settled and the
/// feedback word mirroring the slave bits.
pub open spec fn pc_settled(st: (Seq<(bool, bool, bool)>, Seq<bool>)) -> bool {
    &&& st.0.len() == 16
    &&& st.1.len() == 16
    &&& forall|i: int| 0 <= i < 16 ==> (#[trigger] st.0[i]).0 == st.0[i].1
    &&& forall|i: int| 0 <= i < 16 ==> (#[trigger] st.0[i]).2 == st.0[i].1
    &&& forall|i: int| 0 <= i < 16 ==> st.1[i] == (#[trigger] st.0[i]).1
}

impl ProgramCounter {
    /// A powered-on counter holds zero and feeds back zero.
    pub fn power_on() -> (r: ProgramCounter)
        ensures
            pc_settled(pc_abs(r)),
            pc_abs(r).1 == zero16(),
    {
        let r = ProgramCounter {
            base_circuit: Register16Bit::power_on(),
            feedback_out: [false; 16],
        };
        proof {
            assert(pc_abs(r).1 =~= zero16());
        }
        r
    }

    /// One clocked evaluation: selects zero, the jump target, the
    /// incremented value or the held value by strict reset > load >
    /// inc priority, clocks it into the base register, and feeds back
    /// the register's visible word.
    pub fn program_counter_clocked(
        &mut self,
        input: [bool; 16],
        load: bool,
        inc: bool,
        reset: bool,
        clock: bool,
    ) -> (r: [bool; 16])
        ensures
            pc_abs(*final(self)) == pc_step(pc_abs(*old(self)), input@, load, inc, reset, clock),
            r@ == pc_abs(*final(self)).1,
            r@.len() == 16,
    {
        let held = self.feedback_out;
        let inc_out = inc16(held);
        let sel1 = mux16(held, inc_out, inc);
        let sel2 = mux16(sel1, input, load);
        let zero: [bool; 16] = [false; 16];
        let sel3 = mux16(sel2, zero, reset);
        proof {
            assert(zero@ =~= zero16());
            assert(sel3@ == pc_select((*old(self)).feedback_out@, input@, load, inc, reset));
        }
        let reg_out = self.base_circuit.register_16bit_clocked(sel3, true, clock);
        self.feedback_out = reg_out;
        reg_out
    }

    /// Read-only snapshot of the counter's visible word.
    pub fn get_debug_info(&mut self) -> (r: [bool; 16])
        ensures
            *final(self) == *old(self),
            r@ == pc_abs(*old(self)).1,
    {
        self.feedback_out
    }
}

/// One full clock cycle (a low call then a high call with the same
/// controls) applies the reset > load > inc selection exactly once: it
/// zeroes the counter on reset whatever the other controls are, loads
/// the supplied word when only load is set, increments when only inc
/// is set, and otherwise holds.
pub proof fn lemma_pc_cycle(
    st: (Seq<(bool, bool, bool)>, Seq<bool>),
    input: Seq<bool>,
    load: bool,
    inc: bool,
    reset: bool,
)
    requires
        pc_settled(st),
        input.len() == 16,
    ensures
        pc_settled(pc_step(pc_step(st, input, load, inc, reset, false), input, load, inc, reset, true)),
        pc_step(pc_step(st, input, load, inc, reset, false), input, load, inc, reset, true).1
            == pc_select(st.1, input, load, inc, reset),
        reset ==> pc_step(pc_step(st, input, load, inc, reset, false), input, load, inc, reset, true).1
            == zero16(),
        !reset && load ==> pc_step(
            pc_step(st, input, load, inc, reset, false),
            input,
            load,
            inc,
            reset,
            true,
        ).1 == input,
        !reset && !load && inc ==> uval16(
            pc_step(pc_step(st, input, load, inc, reset, false), input, load, inc, reset, true).1,
        ) == (uval16(st.1) + 1) % 65536,
        !reset && !load && !inc ==> pc_step(
            pc_step(st, input, load, inc, reset, false),
            input,
            load,
            inc,
            reset,
            true,
        ).1 == st.1,
{
    let st1 = pc_step(st, input, load, inc, reset, false);
    assert(st1.1 =~= st.1);
    let sel = pc_select(st.1, input, load, inc, reset);
    let st2 = pc_step(st1, input, load, inc, reset, true);
    assert(st2.1 =~= sel);
    assert(pc_settled(st2));
    if !reset && !load && inc {
        lemma_add16s_val(st.1, one16());
        assert(uval16(one16()) == 1);
    }
}

} // verus!
