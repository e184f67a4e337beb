use hack_computer::alu::alu;
use hack_computer::gates::{mux4way16, or16};
use hack_computer::computer::Computer;
use hack_computer::memory::Memory;
use hack_computer::program_counter::ProgramCounter;
use hack_computer::register_1bit::Register1Bit;

/// Builds a word from its unsigned 16-bit value, bit 0 least
/// significant.
fn bits(u: u32) -> [bool; 16] {
    let mut w = [false; 16];
    for i in 0..16 {
        w[i] = (u >> i) & 1 == 1;
    }
    w
}

fn addr(u: u32) -> [bool; 15] {
    let mut w = [false; 15];
    for i in 0..15 {
        w[i] = (u >> i) & 1 == 1;
    }
    w
}

fn word_value(w: [bool; 16]) -> u32 {
    let mut u = 0u32;
    for i in 0..16 {
        if w[i] {
            u |= 1 << i;
        }
    }
    u
}

#[test]
fn test_register_1bit_clocked() {
    let mut register = Register1Bit::power_on();

    // (data, clock, store, expected) rows: the bit written while the
    // clock is low in the sixth row becomes visible on the rising
    // edge of the seventh and is then retained.
    let cases: [(bool, bool, bool, bool, &str); 10] = [
        (false, false, false, false, "test 1 - circuit inactive"),
        (false, false, true, false, "test 2 - store bit activated, clock would set to false"),
        (false, true, false, false, "test 3 - clock on, but other bits inactivated"),
        (false, true, true, false, "test 4 - write same data than on previous clock cycle"),
        (true, false, false, false, "test 5 - set data on for the next clock cycle"),
        (true, false, true, false, "test 6 - activate store, clock still off, no change"),
        (true, true, true, true, "test 7 - clock triggered, stored bit published"),
        (true, false, true, true, "test 7.1 - clock untriggered, bit retained"),
        (true, false, true, true, "test 8 - same bit written again, retained"),
        (false, false, false, true, "test 9 - get old value"),
    ];
    for (data, clock, store, expect, name) in cases {
        let res = register.register_1bit_clocked(data, store, clock);
        assert_eq!(res, expect, "{}", name);
    }
}

#[test]
fn test_register_16bit() {
    // one call with the clock low, one with it high: a counter with
    // every control line low holds its zero word.
    let mut register = ProgramCounter::power_on();

    let input = [
        true, false, true, false, true, false, true, false, true, false, true, false, true, false,
        true, false,
    ];

    let load = false;
    let inc = false;
    let reset = false;
    let mut clock = false;
    let mut output = register.program_counter_clocked(input, load, inc, reset, clock);
    assert_eq!(output, [false; 16], "tick tock 1");

    clock = true;
    output = register.program_counter_clocked(input, load, inc, reset, clock);

    assert_eq!(output, [false; 16], "tick tock 2");
}

#[test]
fn test_register_1bit_edge_visibility() {
    // A bit stored while the clock is low is not visible until the
    // clock next goes high.
    let mut r = Register1Bit::power_on();
    assert_eq!(r.register_1bit_clocked(true, true, false), false);
    assert_eq!(r.register_1bit_clocked(false, false, true), true);
    // Holding store low across further pulses never changes it.
    assert_eq!(r.register_1bit_clocked(false, false, false), true);
    assert_eq!(r.register_1bit_clocked(false, false, true), true);
    assert_eq!(r.register_1bit_clocked(true, false, false), true);
    assert_eq!(r.register_1bit_clocked(false, false, true), true);
}

fn pc_cycle(
    pc: &mut ProgramCounter,
    input: [bool; 16],
    load: bool,
    inc: bool,
    reset: bool,
) -> [bool; 16] {
    pc.program_counter_clocked(input, load, inc, reset, false);
    pc.program_counter_clocked(input, load, inc, reset, true)
}

#[test]
fn test_program_counter_priority() {
    let mut pc = ProgramCounter::power_on();
    let target = bits(1000);

    // inc alone increments.
    assert_eq!(word_value(pc_cycle(&mut pc, target, false, true, false)), 1);
    assert_eq!(word_value(pc_cycle(&mut pc, target, false, true, false)), 2);
    // load beats inc.
    assert_eq!(word_value(pc_cycle(&mut pc, target, true, true, false)), 1000);
    // all controls low: hold.
    assert_eq!(word_value(pc_cycle(&mut pc, target, false, false, false)), 1000);
    // reset beats both.
    assert_eq!(word_value(pc_cycle(&mut pc, target, true, true, true)), 0);
    // increment wraps modulo 2^16.
    let mut pc2 = ProgramCounter::power_on();
    pc_cycle(&mut pc2, bits(65535), true, false, false);
    assert_eq!(word_value(pc_cycle(&mut pc2, bits(0), false, true, false)), 0);
}

#[test]
fn test_alu_operations() {
    let x = bits(12345);
    let y = bits(54321);

    // constant zero and constant one, whatever the operands.
    let (out, zr, ng) = alu(x, y, true, false, true, false, true, false);
    assert_eq!(word_value(out), 0);
    assert!(zr);
    assert!(!ng);
    let (out, zr, _) = alu(x, y, true, true, true, true, true, true);
    assert_eq!(word_value(out), 1);
    assert!(!zr);

    // pass-through x.
    let (out, _, _) = alu(x, bits(0), false, false, true, true, false, false);
    assert_eq!(word_value(out), 12345);

    // addition and subtraction modulo 2^16.
    let (out, _, _) = alu(x, y, false, false, false, false, true, false);
    assert_eq!(word_value(out), (12345 + 54321) % 65536);
    let (out, _, ng) = alu(x, y, false, true, false, false, true, true);
    assert_eq!(word_value(out), (12345u32.wrapping_sub(54321)) & 0xFFFF);
    assert!(!ng);
    let (out, _, ng) = alu(y, x, false, true, false, false, true, true);
    assert_eq!(word_value(out), 54321 - 12345);
    assert!(ng);

    // flags: zr exactly on the all-zero result, ng exactly on bit 15.
    let (out, zr, ng) = alu(x, x, false, true, false, false, true, true);
    assert_eq!(word_value(out), 0);
    assert!(zr);
    assert!(!ng);
    let (out, zr, ng) = alu(bits(0), bits(32768), false, false, false, false, true, false);
    assert_eq!(word_value(out), 32768);
    assert!(!zr);
    assert!(ng);
}

#[test]
fn test_word_gates() {
    let a = bits(0x00FF);
    let b = bits(0x0F0F);
    assert_eq!(word_value(or16(a, b)), 0x0FFF);
    let c = bits(3);
    let d = bits(4);
    assert_eq!(word_value(mux4way16(a, b, c, d, [false, false])), 0x00FF);
    assert_eq!(word_value(mux4way16(a, b, c, d, [true, false])), 0x0F0F);
    assert_eq!(word_value(mux4way16(a, b, c, d, [false, true])), 3);
    assert_eq!(word_value(mux4way16(a, b, c, d, [true, true])), 4);
}

#[test]
fn test_memory_write_read() {
    let mut m = Memory::power_on();

    // a committed write is read back from the same address.
    m.memory(bits(4660), true, addr(77), true);
    let out = m.memory(bits(0), false, addr(77), true);
    assert_eq!(word_value(out), 4660);

    // a write with the clock low does not commit.
    m.memory(bits(9999), true, addr(78), false);
    let out = m.memory(bits(0), false, addr(78), true);
    assert_eq!(word_value(out), 0);

    // the CPU write path cannot reach the keyboard register...
    m.memory(bits(1234), true, addr(24576), true);
    let out = m.memory(bits(0), false, addr(24576), true);
    assert_eq!(word_value(out), 0);

    // ...but the I/O driver path can.
    m.write_from_io_driver(bits(1234), true);
    let out = m.memory(bits(0), false, addr(24576), true);
    assert_eq!(word_value(out), 1234);
}

/// A short program for the machine: write 7 to RAM[0] and 21 to
/// RAM[1], then halt in a tight jump at address 11.
fn test_script() -> [i16; 32768] {
    let code: [i16; 12] = [
        7,      // A = 7
        -29696, // compute A through the ALU (latches 7)
        -32752, // D = latched word (7)
        0,      // A = 0
        -31992, // RAM[A] = D
        21,     // A = 21
        -29696, // compute A through the ALU (latches 21)
        -32752, // D = latched word (21)
        1,      // A = 1
        -31992, // RAM[A] = D
        11,     // A = 11
        -32761, // unconditional jump to A
    ];
    let mut script: [i16; 32768] = [0; 32768];
    let mut index = 0;
    for &val in code.iter() {
        script[index] = val;
        index += 1;
    }
    script
}

#[test]
fn test_computer() {
    let rom_disk = test_script();
    let mut computer = Computer::power_on(rom_disk);

    for _cycle in 0..35 {
        computer.clock = false;
        computer.run();
        computer.clock = true;
        computer.run();
    }

    let ram = computer.print_ram(0, 40);
    assert_eq!(ram[0], 7);
    assert_eq!(ram[1], 21);
    for i in 2..40 {
        assert_eq!(ram[i], 0);
    }

    let (a, d, pc) = computer.get_cpu_debug_info();
    assert_eq!(a, 11);
    assert_eq!(d, 21);
    assert_eq!(pc, 11);
}

#[test]
fn test_computer_keyboard_input() {
    let mut computer = Computer::power_on([0; 32768]);
    computer.get_input_from_io_device(bits(42), true);
    let snapshot = computer.print_ram(24576, 24577);
    assert_eq!(snapshot[0], 42);
}
