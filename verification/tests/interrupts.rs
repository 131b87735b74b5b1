use z80_core::z80::interrupts::FloatingBus;
use z80_core::z80::{InterruptMode, MemoryAccessor, PortAccessor, Ram, Z80};
use z80_core::zx_spectrum::ZxSpectrumMemory;

fn ram() -> Ram {
    Ram::new(vec![0u8; 0x10000])
}

#[test]
fn reset_state() {
    let z80 = Z80::new();
    assert_eq!(0, z80.program_counter);
    assert_eq!(0xFFFF, z80.stack_pointer);
    assert_eq!(0, z80.i);
    assert_eq!(0, z80.r);
    assert_eq!(false, z80.iff1);
    assert_eq!(false, z80.iff2);
    assert_eq!(InterruptMode::Mode0, z80.interrupt_mode);
    assert_eq!(false, z80.halted);
    assert_eq!(0, z80.af());
    assert_eq!(0, z80.bc());
    assert_eq!(0, z80.de());
    assert_eq!(0, z80.hl());
    assert_eq!(0, z80.ix);
    assert_eq!(0, z80.iy);
}

#[test]
fn reset_puts_the_reset_state_back() {
    let mut z80 = Z80::new();
    z80.a = 1;
    z80.program_counter = 0x1234;
    z80.stack_pointer = 0x4000;
    z80.halted = true;
    z80.iff1 = true;
    z80.interrupt_mode = InterruptMode::Mode2;
    z80.h_prime = 9;
    z80.reset();
    assert_eq!(Z80::new(), z80);
}

#[test]
fn state_and_restore_replace_the_state_wholesale() {
    let mut z80 = Z80::new();
    z80.set_bc(0x1234);
    z80.a_prime = 0x55;
    z80.iff2 = true;
    let snapshot = z80.state();
    assert_eq!(z80, snapshot);
    assert_eq!(0x12, snapshot.b);

    let mut other = Z80::new();
    other.set_hl(0xFFFF);
    other.restore(snapshot);
    assert_eq!(z80, other);
    assert_eq!(0, other.hl());
}

#[test]
fn nmi_pushes_the_program_counter_and_goes_to_0066() {
    let mut z80 = Z80::new();
    z80.program_counter = 0x1234;
    z80.stack_pointer = 0x8000;
    z80.iff1 = true;
    z80.iff2 = false;
    let mut ram = ram();

    assert_eq!(11, z80.nmi(&mut ram));

    assert_eq!(0x0066, z80.program_counter);
    assert_eq!(0x7FFE, z80.stack_pointer);
    assert_eq!(0x34, ram.read(0x7FFE));
    assert_eq!(0x12, ram.read(0x7FFF));
    assert_eq!(false, z80.iff1);
    assert_eq!(true, z80.iff2);
}

#[test]
fn nmi_is_taken_with_interrupts_disabled() {
    let mut z80 = Z80::new();
    z80.program_counter = 0x0100;
    z80.stack_pointer = 0x8000;
    let mut ram = ram();

    assert_eq!(11, z80.nmi(&mut ram));

    assert_eq!(0x0066, z80.program_counter);
    assert_eq!(false, z80.iff1);
    assert_eq!(false, z80.iff2);
}

#[test]
fn irq_is_ignored_with_iff1_clear() {
    let mut z80 = Z80::new();
    z80.program_counter = 0x1234;
    z80.iff2 = true;
    z80.halted = true;
    let before = z80;
    let mut ram = ram();
    let mut ports = FloatingBus {};

    assert_eq!(0, z80.irq(0xFF, &mut ram, &mut ports));

    assert_eq!(before, z80);
    assert!(ram.bytes.iter().all(|&b| b == 0));
}

#[test]
fn irq_in_mode_1_restarts_at_0038() {
    let mut z80 = Z80::new();
    z80.program_counter = 0x1234;
    z80.stack_pointer = 0x8000;
    z80.iff1 = true;
    z80.iff2 = true;
    z80.interrupt_mode = InterruptMode::Mode1;
    let mut ram = ram();
    let mut ports = FloatingBus {};

    assert_eq!(13, z80.irq(0x00, &mut ram, &mut ports));

    assert_eq!(0x0038, z80.program_counter);
    assert_eq!(0x7FFE, z80.stack_pointer);
    assert_eq!(0x34, ram.read(0x7FFE));
    assert_eq!(0x12, ram.read(0x7FFF));
    assert_eq!(false, z80.iff1);
    assert_eq!(false, z80.iff2);
}

#[test]
fn irq_in_mode_2_jumps_through_the_vector_table() {
    let mut z80 = Z80::new();
    z80.program_counter = 0x1234;
    z80.stack_pointer = 0x8000;
    z80.iff1 = true;
    z80.i = 0x40;
    z80.interrupt_mode = InterruptMode::Mode2;
    let mut ram = ram();
    ram.write(0x40FE, 0xCD);
    ram.write(0x40FF, 0xAB);
    let mut ports = FloatingBus {};

    // the lowest bit of the bus byte is ignored
    assert_eq!(19, z80.irq(0xFF, &mut ram, &mut ports));

    assert_eq!(0xABCD, z80.program_counter);
    assert_eq!(0x7FFE, z80.stack_pointer);
    assert_eq!(0x34, ram.read(0x7FFE));
    assert_eq!(0x12, ram.read(0x7FFF));
}

#[test]
fn irq_in_mode_0_executes_the_bus_byte() {
    let mut z80 = Z80::new();
    z80.program_counter = 0x1234;
    z80.stack_pointer = 0x8000;
    z80.iff1 = true;
    z80.iff2 = true;
    let mut ram = ram();
    let mut ports = FloatingBus {};

    // RST 38h on the bus: 11 T-states and 2 more
    assert_eq!(13, z80.irq(0xFF, &mut ram, &mut ports));

    assert_eq!(0x0038, z80.program_counter);
    assert_eq!(0x34, ram.read(0x7FFE));
    assert_eq!(0x12, ram.read(0x7FFF));
    assert_eq!(false, z80.iff1);
    assert_eq!(1, z80.r);

    let mut z80 = Z80::new();
    z80.program_counter = 0x1234;
    z80.iff1 = true;
    z80.b = 7;
    // INC B on the bus
    assert_eq!(6, z80.irq(0x04, &mut ram, &mut ports));
    assert_eq!(8, z80.b);
    assert_eq!(0x1234, z80.program_counter);
}

#[test]
fn an_interrupt_ends_the_halt_state() {
    let mut z80 = Z80::new();
    let mut ram = ram();
    ram.write(0x0100, 0x76);
    z80.program_counter = 0x0100;
    z80.stack_pointer = 0x8000;
    z80.iff1 = true;
    z80.interrupt_mode = InterruptMode::Mode1;
    z80.process_next_instruction(&mut ram);
    assert!(z80.halted);
    assert_eq!(0x0100, z80.program_counter);
    let mut ports = FloatingBus {};

    assert_eq!(13, z80.irq(0, &mut ram, &mut ports));

    assert!(!z80.halted);
    assert_eq!(0x0038, z80.program_counter);
    // the return address is the instruction after HALT
    assert_eq!(0x01, ram.read(0x7FFE));
    assert_eq!(0x01, ram.read(0x7FFF));

    let mut z80 = Z80::new();
    z80.program_counter = 0x0100;
    z80.stack_pointer = 0x8000;
    z80.process_next_instruction(&mut ram);
    assert!(z80.halted);
    assert_eq!(11, z80.nmi(&mut ram));
    assert!(!z80.halted);
    assert_eq!(0x01, ram.read(0x7FFE));
}

#[test]
fn wake_moves_past_the_halt_only_when_halted() {
    let mut z80 = Z80::new();
    z80.program_counter = 7;
    z80.wake();
    assert_eq!(7, z80.program_counter);
    z80.halted = true;
    z80.wake();
    assert_eq!(8, z80.program_counter);
    assert!(!z80.halted);
}

#[test]
fn floating_bus_reads_ff_and_loses_writes() {
    let mut ports = FloatingBus {};
    ports.output(0x1234, 0x55);
    assert_eq!(0xFF, ports.input(0x1234));
    assert_eq!(0xFF, ports.input(0x0000));

    // IN A,(n) without any port attached
    let mut z80 = Z80::new();
    let mut ram = Ram::new(vec![0xDB, 0xFE]);
    assert_eq!(11, z80.process_next_instruction(&mut ram));
    assert_eq!(0xFF, z80.a);
}

#[test]
fn ram_reads_ff_and_ignores_writes_past_its_end() {
    let mut ram = Ram::new(vec![1, 2, 3]);
    assert_eq!(3, ram.read(2));
    assert_eq!(0xFF, ram.read(3));
    assert_eq!(0xFF, ram.read(0xFFFF));
    ram.write(3, 9);
    ram.write(0xFFFF, 9);
    assert_eq!(vec![1, 2, 3], ram.bytes);
    ram.write(0, 7);
    assert_eq!(vec![7, 2, 3], ram.bytes);
}

#[test]
fn ram_as_ports_latches_outputs() {
    let mut ports = Ram::new(vec![0u8; 0x10000]);
    ports.output(0xBEEF, 0x12);
    assert_eq!(0x12, ports.input(0xBEEF));
    assert_eq!(0x00, ports.input(0xBEEE));
}

#[test]
fn spectrum_memory_drops_writes_to_the_rom() {
    let mut memory = ZxSpectrumMemory::new(vec![0xF3; 0x4000], vec![0; 0x8000]);
    assert_eq!(0xF3, memory.read(0x0000));
    assert_eq!(0xF3, memory.read(0x3FFF));
    assert_eq!(0x00, memory.read(0x4000));

    memory.write(0x0000, 0x55);
    memory.write(0x3FFF, 0x55);
    assert_eq!(0xF3, memory.read(0x0000));
    assert_eq!(0xF3, memory.read(0x3FFF));

    memory.write(0x4000, 0x55);
    memory.write(0xBFFF, 0x66);
    assert_eq!(0x55, memory.read(0x4000));
    assert_eq!(0x55, memory.ram[0]);
    assert_eq!(0x66, memory.read(0xBFFF));

    // nothing is mapped above the RAM
    memory.write(0xC000, 0x77);
    assert_eq!(0xFF, memory.read(0xC000));
    assert_eq!(0xFF, memory.read(0xFFFF));
}
