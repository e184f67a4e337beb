//! Edge-triggered 1-bit register built from two level-sensitive
//! latches in a master-slave arrangement.
//!
//! The master latch is gated by the complement of the clock, the slave
//! by the clock itself, so a data bit written while `store` is high is
//! absorbed during a low clock phase and becomes visible only when the
//! clock next goes high.  One clock cycle is a call with the clock low
//! followed by a call with it high.

use crate::gates::{and, not, or};
use crate::latch::Latch;
use vstd::prelude::*;

verus! {

/// Master-slave 1-bit register; `current_value` mirrors the visible
/// (slave) bit after every clocked call.
#[derive(Clone, Copy)]
pub struct Register1Bit {
    /// Master and slave latches, in that order.
    pub child_circuit: [Latch; 2],
    /// The bit the register showed after its last clocked call.
    pub current_value: bool,
}

/// Abstract state of a 1-bit register: master bit, slave bit, and the
/// visible value fed back into the input multiplexer.
pub open spec fn reg1_abs(r: Register1Bit) -> (bool, bool, bool) {
    (r.child_circuit[0].q, r.child_circuit[1].q, r.current_value)
}

/// The bit the input multiplexer hands the master latch.
pub open spec fn reg1_sel(st: (bool, bool, bool), data: bool, store: bool) -> bool {
    if store {
        data
    } else {
        st.2
    }
}

/// One clocked evaluation of the register: the master absorbs while
/// the clock is low, the slave publishes while it is high.
pub open spec fn reg1_step(st: (bool, bool, bool), data: bool, store: bool, clock: bool) -> (
    bool,
    bool,
    bool,
) {
    let m = if !clock {
        reg1_sel(st, data, store)
    } else {
        st.0
    };
    let s = if clock {
        m
    } else {
        st.1
    };
    (m, s, s)
}

/// A register at rest: master, slave and visible value agree.  This
/// holds at power-on and at every cycle boundary.
pub open spec fn reg1_settled(st: (bool, bool, bool)) -> bool {
    st.0 == st.1 && st.2 == st.1
}

impl Register1Bit {
    /// A powered-on register holds zero in both latches.
    pub fn power_on() -> (r: Register1Bit)
        ensures
            reg1_abs(r) == (false, false, false),
    {
        let r = Register1Bit {
            current_value: false,
            child_circuit: [Latch::power_on(), Latch::power_on()],
        };
        proof {
            assert(r.child_circuit[0].q == false);
            assert(r.child_circuit[1].q == false);
        }
        r
    }

    /// Input multiplexer: keeps the previous output while `store` is
    /// low, else admits the new data bit.
    pub fn reg_mux(previous_out: bool, store: bool, data: bool) -> (r: bool)
        ensures
            r == if store {
                data
            } else {
                previous_out
            },
    {
        let and1_out = and(previous_out, not(store));
        let and2_out = and(data, store);
        or(and1_out, and2_out)
    }

    /// One clocked evaluation; returns the visible bit after the call.
    pub fn register_1bit_clocked(&mut self, data: bool, store: bool, clock: bool) -> (r: bool)
        ensures
            reg1_abs(*final(self)) == reg1_step(reg1_abs(*old(self)), data, store, clock),
            r == reg1_step(reg1_abs(*old(self)), data, store, clock).1,
    {
        let selected_data = Self::reg_mux(self.current_value, store, data);
        let mut master = self.child_circuit[0];
        let (queue_out, _) = master.d_latch(selected_data, not(clock));
        self.child_circuit[0] = master;
        let mut slave = self.child_circuit[1];
        let (out, _) = slave.d_latch(queue_out, clock);
        self.child_circuit[1] = slave;
        self.current_value = out;
        out
    }
}

/// Replays a sequence of clock pulses, each a `(data, clock)` pair,
/// with `store` held low throughout.
pub open spec fn reg1_run_unloaded(st: (bool, bool, bool), pulses: Seq<(bool, bool)>) -> (
    bool,
    bool,
    bool,
)
    decreases pulses.len(),
{
    if pulses.len() == 0 {
        st
    } else {
        reg1_run_unloaded(reg1_step(st, pulses[0].0, false, pulses[0].1), pulses.drop_first())
    }
}

/// Holding `store` low across any sequence of clock pulses leaves a
/// settled register, and with it the visible bit, unchanged.
pub proof fn lemma_register_hold(st: (bool, bool, bool), pulses: Seq<(bool, bool)>)
    requires
        reg1_settled(st),
    ensures
        reg1_run_unloaded(st, pulses) == st,
    decreases pulses.len(),
{
    if pulses.len() > 0 {
        assert(reg1_step(st, pulses[0].0, false, pulses[0].1) == st);
        lemma_register_hold(st, pulses.drop_first());
    }
}

/// A bit written while `store` is high is not visible after the
/// absorbing low-clock call, and becomes visible on the next
/// high-clock call, whatever that call's data and store inputs are.
pub proof fn lemma_register_write_visibility(
    st: (bool, bool, bool),
    data: bool,
    later_data: bool,
    later_store: bool,
)
    requires
        reg1_settled(st),
    ensures
        reg1_step(st, data, true, false).1 == st.1,
        reg1_step(reg1_step(st, data, true, false), later_data, later_store, true).1 == data,
{
}

} // verus!
