use z80_core::z80::{Ram, Z80};

#[test]
fn mod_test_fetch_next_opcode() {
    let bytes = [0x00, 0x01, 0x02];

    let ram = Ram::new(bytes.to_vec());

    let mut z80 = Z80::new();

    assert_eq!(0, z80.program_counter);

    assert_eq!(ram.bytes[0], z80.fetch_next_opcode(&ram));

    assert_eq!(1, z80.program_counter);

    assert_eq!(ram.bytes[1], z80.fetch_next_opcode(&ram));

    assert_eq!(2, z80.program_counter);

    assert_eq!(ram.bytes[2], z80.fetch_next_opcode(&ram));

    assert_eq!(3, z80.program_counter);
}

#[test]
fn mod_test_process_next_instruction() {
    let bytes = [
        0x26, // LD H, n
        0xDD,
    ];

    let ram = &mut Ram::new(bytes.to_vec());

    let mut z80 = Z80::new();

    let t_states = z80.process_next_instruction(ram);

    assert_eq!(7, t_states);
    assert_eq!(bytes[1], z80.h);
}
