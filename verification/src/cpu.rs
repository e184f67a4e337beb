//! The CPU: decodes one 16-bit instruction word per evaluation and
//! wires the A and D registers, the ALU and the program counter.
//!
//! Instruction layout (bit 0 least significant): bits 0..2 are the
//! jump conditions, 3..5 the destination bits, 6..11 the ALU function
//! selectors, and bit 15 picks the computation form; with bit 15 low
//! the whole word is a literal loaded into A.  The D register's input
//! is the ALU word latched on the previous evaluation: D must be read
//! before the new ALU result exists, so a stored result is available
//! to D only on the following call.

use crate::alu::{alu, alu16_spec};
use crate::gates::{and, mux16, nor, not, or};
use crate::program_counter::{pc_abs, pc_step, ProgramCounter};
use crate::register_16bit::{reg16_outs, reg16_state, reg16_step_state, Register16Bit};
use crate::word::uval16;
use vstd::prelude::*;

verus! {

/// The CPU's state: the latched ALU word, both registers and the
/// program counter.
pub struct Cpu {
    /// ALU output latched from the previous evaluation; the D
    /// register's input.
    pub data_out_bus: [bool; 16],
    /// The A (address/auxiliary) register.
    pub a_register: Register16Bit,
    /// The D (data) register.
    pub d_register: Register16Bit,
    /// The program counter.
    pub program_counter: ProgramCounter,
    /// Whether the counter auto-increments; held high in operation.
    pub increment_pc: bool,
}

/// Abstract CPU state: latched ALU word, A lanes, D lanes, counter.
pub open spec fn cpu_abs(c: Cpu) -> (
    Seq<bool>,
    Seq<(bool, bool, bool)>,
    Seq<(bool, bool, bool)>,
    (Seq<(bool, bool, bool)>, Seq<bool>),
) {
    (
        c.data_out_bus@,
        reg16_state(c.a_register),
        reg16_state(c.d_register),
        pc_abs(c.program_counter),
    )
}

/// One CPU evaluation at the specification level.  Yields the next
/// state, the data-out word, the write-enable bit, the 15-bit data
/// address and the 15-bit instruction address.
pub open spec fn cpu_step(
    st: (
        Seq<bool>,
        Seq<(bool, bool, bool)>,
        Seq<(bool, bool, bool)>,
        (Seq<(bool, bool, bool)>, Seq<bool>),
    ),
    instr: Seq<bool>,
    data: Seq<bool>,
    inc: bool,
    reset: bool,
    clock: bool,
) -> (
    (
        Seq<bool>,
        Seq<(bool, bool, bool)>,
        Seq<(bool, bool, bool)>,
        (Seq<(bool, bool, bool)>, Seq<bool>),
    ),
    Seq<bool>,
    bool,
    Seq<bool>,
    Seq<bool>,
) {
    let use_instruction = instr[15];
    let reg_a_in = if use_instruction {
        data
    } else {
        instr
    };
    let load_a = instr[5] || !use_instruction;
    let ast = reg16_step_state(st.1, reg_a_in, load_a, clock);
    let a_out = reg16_outs(ast);
    let alu_y = if instr[5] {
        data
    } else {
        a_out
    };
    let load_d = instr[4] && use_instruction;
    let dst = reg16_step_state(st.2, st.0, load_d, clock);
    let alu_x = reg16_outs(dst);
    let out = alu16_spec(
        alu_x,
        alu_y,
        instr[11] && use_instruction,
        instr[10] && use_instruction,
        instr[9] || !use_instruction,
        instr[8] || !use_instruction,
        instr[7] && use_instruction,
        instr[6] && use_instruction,
    );
    let zr = uval16(out) == 0;
    let ng = out[15];
    let write_enable = instr[3] && use_instruction;
    let jump = ((instr[0] && ng) || (instr[1] && zr) || (instr[2] && !(zr || ng)))
        && use_instruction;
    let pcst = pc_step(st.3, a_out, jump, inc, reset, clock);
    ((out, ast, dst, pcst), out, write_enable, a_out.take(15), pcst.1.take(15))
}

impl Cpu {
    /// A powered-on CPU: registers and counter zeroed, auto-increment
    /// engaged.
    pub fn power_on() -> (r: Cpu)
        ensures
            r.increment_pc,
            cpu_abs(r).0 == crate::word::zero16(),
            forall|i: int| 0 <= i < 16 ==> cpu_abs(r).1[i] == (false, false, false),
            forall|i: int| 0 <= i < 16 ==> cpu_abs(r).2[i] == (false, false, false),
            crate::program_counter::pc_settled(cpu_abs(r).3),
            cpu_abs(r).3.1 == crate::word::zero16(),
    {
        let r = Cpu {
            increment_pc: true,
            data_out_bus: [false; 16],
            a_register: Register16Bit::power_on(),
            d_register: Register16Bit::power_on(),
            program_counter: ProgramCounter::power_on(),
        };
        proof {
            assert(r.data_out_bus@ =~= crate::word::zero16());
        }
        r
    }

    /// One CPU evaluation: decode the instruction, clock the
    /// registers, run the ALU, decide the jump, and emit the data-out
    /// bus, write enable and both 15-bit address buses.
    #[verifier::rlimit(100)]
    #[verifier::spinoff_prover]
    pub fn cpu(&mut self, instr_bus: [bool; 16], data_bus: [bool; 16], reset: bool, clock_pulse: bool) -> (r: (
        [bool; 16],
        bool,
        [bool; 15],
        [bool; 15],
    ))
        ensures
            (cpu_abs(*final(self)), r.0@, r.1, r.2@, r.3@) == cpu_step(
                cpu_abs(*old(self)),
                instr_bus@,
                data_bus@,
                (*old(self)).increment_pc,
                reset,
                clock_pulse,
            ),
            (*final(self)).increment_pc == (*old(self)).increment_pc,
    {
        let cb_j1 = instr_bus[0];
        let cb_j2 = instr_bus[1];
        let cb_j3 = instr_bus[2];
        let cb_d3 = instr_bus[3];
        let cb_d2 = instr_bus[4];
        let cb_d1 = instr_bus[5];
        let cb_c6 = instr_bus[6];
        let cb_c5 = instr_bus[7];
        let cb_c4 = instr_bus[8];
        let cb_c3 = instr_bus[9];
        let cb_c2 = instr_bus[10];
        let cb_c1 = instr_bus[11];
        let use_instruction = instr_bus[15];
        let not_instruction = not(use_instruction);

        // A register: literal word or incoming data bus.
        let reg_a_in = mux16(instr_bus, data_bus, use_instruction);
        let load_a_reg = or(cb_d1, not_instruction);
        let reg_a_out = self.a_register.register_16bit_clocked(reg_a_in, load_a_reg, clock_pulse);

        let alu_in_y = mux16(reg_a_out, data_bus, cb_d1);

        // D register: fed from the previous evaluation's ALU word.
        let load_d_reg = and(cb_d2, use_instruction);
        let alu_in_x = self.d_register.register_16bit_clocked(
            self.data_out_bus,
            load_d_reg,
            clock_pulse,
        );

        // ALU controls collapse to pass-through on an A-instruction.
        let zx = and(cb_c1, use_instruction);
        let nx = and(cb_c2, use_instruction);
        let zy = or(cb_c3, not_instruction);
        let ny = or(cb_c4, not_instruction);
        let f = and(cb_c5, use_instruction);
        let no = and(cb_c6, use_instruction);

        let (data_out_bus, zr, ng) = alu(alu_in_x, alu_in_y, zx, nx, zy, ny, f, no);
        self.data_out_bus = data_out_bus;

        let enable_write = and(cb_d3, use_instruction);

        // Jump decision from the flags, suppressed on A-instructions.
        let pc_pos = nor(zr, ng);
        let pc_j3 = and(cb_j3, pc_pos);
        let pc_j2 = and(cb_j2, zr);
        let pc_j1 = and(cb_j1, ng);
        let pc_j12 = or(pc_j2, pc_j1);
        let pc_j123 = or(pc_j12, pc_j3);
        let jump = and(pc_j123, use_instruction);

        let next_instr = self.program_counter.program_counter_clocked(
            reg_a_out,
            jump,
            self.increment_pc,
            reset,
            clock_pulse,
        );

        // Both address buses are the low 15 bits of their words.
        let mut m_address: [bool; 15] = [false; 15];
        let mut i: usize = 0;
        while i < 15
            invariant
                i <= 15,
                m_address@.len() == 15,
                forall|j: int| 0 <= j < i ==> m_address@[j] == reg_a_out@[j],
            decreases 15 - i,
        {
            m_address[i] = reg_a_out[i];
            i = i + 1;
        }
        let mut i_address: [bool; 15] = [false; 15];
        let mut k: usize = 0;
        while k < 15
            invariant
                k <= 15,
                i_address@.len() == 15,
                forall|j: int| 0 <= j < k ==> i_address@[j] == next_instr@[j],
            decreases 15 - k,
        {
            i_address[k] = next_instr[k];
            k = k + 1;
        }
        proof {
            assert(m_address@ =~= reg_a_out@.take(15));
            assert(i_address@ =~= next_instr@.take(15));
            let st0 = cpu_abs(*old(self));
            let step = cpu_step(
                st0,
                instr_bus@,
                data_bus@,
                (*old(self)).increment_pc,
                reset,
                clock_pulse,
            );
            assert(step.0.1 == reg16_state(self.a_register));
            assert(step.0.2 == reg16_state(self.d_register));
            assert(step.0.0 == self.data_out_bus@);
            assert(step.0.3 == pc_abs(self.program_counter));
            assert(step.1 == data_out_bus@);
            assert(step.2 == enable_write);
            assert(step.3 == m_address@);
            assert(step.4 == i_address@);
        }
        (data_out_bus, enable_write, m_address, i_address)
    }
}

} // verus!
