//! The top-level machine: CPU, memory and ROM wired bus-to-bus,
//! stepped one clock phase per `run` call.
//!
//! `run` fetches the instruction addressed by the instruction bus,
//! evaluates the CPU, evaluates memory, and only then publishes the
//! new data bus and instruction-address bus: no component ever sees
//! another's same-call output before the step boundary.  The `clock`
//! field is an external event level; the surrounding driver realizes
//! one full clock cycle by running once with it low and once with it
//! high.

use crate::convert_16b::word_to_i16;
use crate::cpu::{cpu_abs, cpu_step, Cpu};
use crate::memory::{mem_abs, mem_step, mem_wf, Memory};
use crate::register_16bit::{reg16_outs, reg16_state};
use crate::rom::{rom_abs, rom_wf, Rom};
use crate::word::{ival16, uval15, uval16};
use vstd::prelude::*;

verus! {

/// The whole machine and its inter-component buses and event inputs.
pub struct Computer {
    /// The processor.
    pub cpu: Cpu,
    /// The data store.
    pub memory: Memory,
    /// The instruction store.
    pub rom: Rom,
    /// Word the memory published at the end of the previous step.
    pub cpu_data_bus: [bool; 16],
    /// Instruction address published at the end of the previous step;
    /// its top bit is always low.
    pub instruction_address_bus: [bool; 16],
    /// External reset event.
    pub reset: bool,
    /// External clock level.
    pub clock: bool,
    /// Mirror of the word last sent toward the screen device.
    pub screen_out: [bool; 16],
    /// Mirror of the word last received from the keyboard device.
    pub keyboard_in: [bool; 16],
}

/// Structural health of the machine: full-size memory and ROM, a
/// legal instruction address, and the counter's auto-increment line
/// held high.
pub open spec fn computer_wf(c: Computer) -> bool {
    &&& mem_wf(c.memory)
    &&& rom_wf(c.rom)
    &&& !c.instruction_address_bus@[15]
    &&& c.cpu.increment_pc
}

impl Computer {
    /// Boots the machine: zeroed CPU, memory and buses, the ROM
    /// seeded from the given image, reset low and the clock level
    /// high.
    pub fn power_on(rom_disk: [i16; 32768]) -> (r: Computer)
        ensures
            computer_wf(r),
            forall|i: int|
                0 <= i < 32768 ==> ival16(#[trigger] rom_abs(r.rom)[i]) == rom_disk@[i] as int,
            forall|i: int| 0 <= i < 32768 ==> (#[trigger] rom_abs(r.rom)[i]).len() == 16,
            forall|i: int| 0 <= i < 32768 ==> mem_abs(r.memory)[i] == crate::word::zero16(),
            cpu_abs(r.cpu).0 == crate::word::zero16(),
            forall|i: int| 0 <= i < 16 ==> cpu_abs(r.cpu).1[i] == (false, false, false),
            forall|i: int| 0 <= i < 16 ==> cpu_abs(r.cpu).2[i] == (false, false, false),
            crate::program_counter::pc_settled(cpu_abs(r.cpu).3),
            cpu_abs(r.cpu).3.1 == crate::word::zero16(),
            r.cpu_data_bus@ == crate::word::zero16(),
            r.instruction_address_bus@ == crate::word::zero16(),
            !r.reset,
            r.clock,
    {
        let r = Computer {
            cpu: Cpu::power_on(),
            memory: Memory::power_on(),
            rom: Rom::power_on(rom_disk),
            cpu_data_bus: [false; 16],
            instruction_address_bus: [false; 16],
            reset: false,
            clock: true,
            screen_out: [false; 16],
            keyboard_in: [false; 16],
        };
        proof {
            assert(r.cpu_data_bus@ =~= crate::word::zero16());
            assert(r.instruction_address_bus@ =~= crate::word::zero16());
        }
        r
    }

    /// Hands a word from the external I/O driver to the keyboard
    /// register; independent of `run` and of the CPU's write path.
    pub fn get_input_from_io_device(&mut self, input: [bool; 16], clock: bool)
        requires
            computer_wf(*old(self)),
        ensures
            computer_wf(*final(self)),
            mem_abs((*final(self)).memory) == if clock {
                mem_abs((*old(self)).memory).update(24576, input@)
            } else {
                mem_abs((*old(self)).memory)
            },
            (*final(self)).cpu == (*old(self)).cpu,
            (*final(self)).rom == (*old(self)).rom,
            (*final(self)).cpu_data_bus == (*old(self)).cpu_data_bus,
            (*final(self)).instruction_address_bus == (*old(self)).instruction_address_bus,
            (*final(self)).reset == (*old(self)).reset,
            (*final(self)).clock == (*old(self)).clock,
    {
        self.memory.write_from_io_driver(input, clock);
    }

    /// One simulation step at the current clock level: fetch, CPU,
    /// memory, then publish the new buses atomically.
    #[verifier::rlimit(100)]
    #[verifier::spinoff_prover]
    pub fn run(&mut self)
        requires
            computer_wf(*old(self)),
        ensures
            computer_wf(*final(self)),
            ({
                let instr = rom_abs((*old(self)).rom)[uval16(
                    (*old(self)).instruction_address_bus@,
                ) as int];
                let step = cpu_step(
                    cpu_abs((*old(self)).cpu),
                    instr,
                    (*old(self)).cpu_data_bus@,
                    true,
                    (*old(self)).reset,
                    (*old(self)).clock,
                );
                &&& cpu_abs((*final(self)).cpu) == step.0
                &&& mem_abs((*final(self)).memory) == mem_step(
                    mem_abs((*old(self)).memory),
                    step.1,
                    step.2,
                    uval15(step.3),
                    (*old(self)).clock,
                )
                &&& (*final(self)).cpu_data_bus@ == mem_abs((*final(self)).memory)[uval15(
                    step.3,
                ) as int]
                &&& (*final(self)).instruction_address_bus@ == step.4.push(false)
            }),
            (*final(self)).rom == (*old(self)).rom,
            (*final(self)).reset == (*old(self)).reset,
            (*final(self)).clock == (*old(self)).clock,
            (*final(self)).screen_out == (*old(self)).screen_out,
            (*final(self)).keyboard_in == (*old(self)).keyboard_in,
    {
        let cpu_instr = self.rom.rom(self.instruction_address_bus);

        let (data_out_bus, write_enable, data_address_bus, instruction_address_bus) = self.cpu.cpu(
            cpu_instr,
            self.cpu_data_bus,
            self.reset,
            self.clock,
        );

        let ram_out = self.memory.memory(data_out_bus, write_enable, data_address_bus, self.clock);

        self.cpu_data_bus = ram_out;
        let mut published: [bool; 16] = [false; 16];
        let mut i: usize = 0;
        while i < 15
            invariant
                i <= 15,
                published@.len() == 16,
                forall|j: int| 0 <= j < i ==> published@[j] == instruction_address_bus@[j],
                forall|j: int| i <= j < 16 ==> published@[j] == false,
            decreases 15 - i,
        {
            published[i] = instruction_address_bus[i];
            i = i + 1;
        }
        self.instruction_address_bus = published;
        proof {
            assert(published@ =~= instruction_address_bus@.push(false));
        }
    }

    /// Signed snapshots of the A register, the D register and the
    /// program counter, for inspection only.
    pub fn get_cpu_debug_info(&mut self) -> (r: (i16, i16, i16))
        ensures
            *final(self) == *old(self),
            r.0 as int == ival16(reg16_outs(cpu_abs((*old(self)).cpu).1)),
            r.1 as int == ival16(reg16_outs(cpu_abs((*old(self)).cpu).2)),
            r.2 as int == ival16(cpu_abs((*old(self)).cpu).3.1),
    {
        let a = self.cpu.a_register.peek();
        let d = self.cpu.d_register.peek();
        let pc = self.cpu.program_counter.get_debug_info();
        (word_to_i16(&a), word_to_i16(&d), word_to_i16(&pc))
    }

    /// Signed snapshot of a memory range, `start` inclusive and `end`
    /// exclusive, for inspection only.
    pub fn print_ram(&mut self, start: usize, end: usize) -> (r: Vec<i16>)
        requires
            computer_wf(*old(self)),
            start <= end <= 32768,
        ensures
            *final(self) == *old(self),
            r@.len() == end - start,
            forall|k: int|
                0 <= k < end - start ==> r@[k] as int == ival16(
                    mem_abs((*old(self)).memory)[start + k],
                ),
    {
        let mut out: Vec<i16> = Vec::new();
        let mut i: usize = start;
        while i < end
            invariant
                start <= i <= end,
                end <= 32768,
                mem_wf(self.memory),
                *self == *old(self),
                out@.len() == i - start,
                forall|k: int|
                    0 <= k < i - start ==> out@[k] as int == ival16(
                        mem_abs((*old(self)).memory)[start + k],
                    ),
            decreases end - i,
        {
            let cell = self.memory.cells[i];
            out.push(word_to_i16(&cell));
            i = i + 1;
        }
        out
    }
}

} // verus!
