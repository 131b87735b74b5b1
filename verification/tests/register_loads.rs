use z80_core::z80::{MemoryAccessor, Ram, Z80};

#[test]
fn z80_test_fetch_next_opcode() {
    let bytes = [0x00, 0x01, 0x02];

    let ram = Ram::new(bytes.to_vec());

    let mut z80 = Z80::new();

    assert_eq!(0, z80.program_counter);

    assert_eq!(ram.bytes[0], z80.fetch_next_opcode(&ram));

    assert_eq!(1, z80.program_counter);

    assert_eq!(ram.bytes[1], z80.fetch_next_opcode(&ram));

    assert_eq!(2, z80.program_counter);

    assert_eq!(ram.bytes[2], z80.fetch_next_opcode(&ram));

    assert_eq!(3, z80.program_counter);
}

#[test]
fn z80_test_process_next_instruction() {
    let bytes = [
        0x26, // LD H, n
        0xDD,
    ];

    let ram = &mut Ram::new(bytes.to_vec());

    let mut z80 = Z80::new();

    let t_states = z80.process_next_instruction(ram);

    assert_eq!(7, t_states);
    assert_eq!(bytes[1], z80.h);
}

#[test]
fn z80_test_ld_r_rp() {
    let scenarios: [(
        fn(&mut Z80) -> u8,
        fn(&mut Z80) -> &mut u8,
        fn(&mut Z80) -> &mut u8,
    ); 49] = [
        (Z80::ld_a_a, |z80: &mut Z80| &mut z80.a, |z80: &mut Z80| &mut z80.a),
        (Z80::ld_a_b, |z80: &mut Z80| &mut z80.a, |z80: &mut Z80| &mut z80.b),
        (Z80::ld_a_c, |z80: &mut Z80| &mut z80.a, |z80: &mut Z80| &mut z80.c),
        (Z80::ld_a_d, |z80: &mut Z80| &mut z80.a, |z80: &mut Z80| &mut z80.d),
        (Z80::ld_a_e, |z80: &mut Z80| &mut z80.a, |z80: &mut Z80| &mut z80.e),
        (Z80::ld_a_h, |z80: &mut Z80| &mut z80.a, |z80: &mut Z80| &mut z80.h),
        (Z80::ld_a_l, |z80: &mut Z80| &mut z80.a, |z80: &mut Z80| &mut z80.l),
        (Z80::ld_b_a, |z80: &mut Z80| &mut z80.b, |z80: &mut Z80| &mut z80.a),
        (Z80::ld_b_b, |z80: &mut Z80| &mut z80.b, |z80: &mut Z80| &mut z80.b),
        (Z80::ld_b_c, |z80: &mut Z80| &mut z80.b, |z80: &mut Z80| &mut z80.c),
        (Z80::ld_b_d, |z80: &mut Z80| &mut z80.b, |z80: &mut Z80| &mut z80.d),
        (Z80::ld_b_e, |z80: &mut Z80| &mut z80.b, |z80: &mut Z80| &mut z80.e),
        (Z80::ld_b_h, |z80: &mut Z80| &mut z80.b, |z80: &mut Z80| &mut z80.h),
        (Z80::ld_b_l, |z80: &mut Z80| &mut z80.b, |z80: &mut Z80| &mut z80.l),
        (Z80::ld_c_a, |z80: &mut Z80| &mut z80.c, |z80: &mut Z80| &mut z80.a),
        (Z80::ld_c_b, |z80: &mut Z80| &mut z80.c, |z80: &mut Z80| &mut z80.b),
        (Z80::ld_c_c, |z80: &mut Z80| &mut z80.c, |z80: &mut Z80| &mut z80.c),
        (Z80::ld_c_d, |z80: &mut Z80| &mut z80.c, |z80: &mut Z80| &mut z80.d),
        (Z80::ld_c_e, |z80: &mut Z80| &mut z80.c, |z80: &mut Z80| &mut z80.e),
        (Z80::ld_c_h, |z80: &mut Z80| &mut z80.c, |z80: &mut Z80| &mut z80.h),
        (Z80::ld_c_l, |z80: &mut Z80| &mut z80.c, |z80: &mut Z80| &mut z80.l),
        (Z80::ld_d_a, |z80: &mut Z80| &mut z80.d, |z80: &mut Z80| &mut z80.a),
        (Z80::ld_d_b, |z80: &mut Z80| &mut z80.d, |z80: &mut Z80| &mut z80.b),
        (Z80::ld_d_c, |z80: &mut Z80| &mut z80.d, |z80: &mut Z80| &mut z80.c),
        (Z80::ld_d_d, |z80: &mut Z80| &mut z80.d, |z80: &mut Z80| &mut z80.d),
        (Z80::ld_d_e, |z80: &mut Z80| &mut z80.d, |z80: &mut Z80| &mut z80.e),
        (Z80::ld_d_h, |z80: &mut Z80| &mut z80.d, |z80: &mut Z80| &mut z80.h),
        (Z80::ld_d_l, |z80: &mut Z80| &mut z80.d, |z80: &mut Z80| &mut z80.l),
        (Z80::ld_e_a, |z80: &mut Z80| &mut z80.e, |z80: &mut Z80| &mut z80.a),
        (Z80::ld_e_b, |z80: &mut Z80| &mut z80.e, |z80: &mut Z80| &mut z80.b),
        (Z80::ld_e_c, |z80: &mut Z80| &mut z80.e, |z80: &mut Z80| &mut z80.c),
        (Z80::ld_e_d, |z80: &mut Z80| &mut z80.e, |z80: &mut Z80| &mut z80.d),
        (Z80::ld_e_e, |z80: &mut Z80| &mut z80.e, |z80: &mut Z80| &mut z80.e),
        (Z80::ld_e_h, |z80: &mut Z80| &mut z80.e, |z80: &mut Z80| &mut z80.h),
        (Z80::ld_e_l, |z80: &mut Z80| &mut z80.e, |z80: &mut Z80| &mut z80.l),
        (Z80::ld_h_a, |z80: &mut Z80| &mut z80.h, |z80: &mut Z80| &mut z80.a),
        (Z80::ld_h_b, |z80: &mut Z80| &mut z80.h, |z80: &mut Z80| &mut z80.b),
        (Z80::ld_h_c, |z80: &mut Z80| &mut z80.h, |z80: &mut Z80| &mut z80.c),
        (Z80::ld_h_d, |z80: &mut Z80| &mut z80.h, |z80: &mut Z80| &mut z80.d),
        (Z80::ld_h_e, |z80: &mut Z80| &mut z80.h, |z80: &mut Z80| &mut z80.e),
        (Z80::ld_h_h, |z80: &mut Z80| &mut z80.h, |z80: &mut Z80| &mut z80.h),
        (Z80::ld_h_l, |z80: &mut Z80| &mut z80.h, |z80: &mut Z80| &mut z80.l),
        (Z80::ld_l_a, |z80: &mut Z80| &mut z80.l, |z80: &mut Z80| &mut z80.a),
        (Z80::ld_l_b, |z80: &mut Z80| &mut z80.l, |z80: &mut Z80| &mut z80.b),
        (Z80::ld_l_c, |z80: &mut Z80| &mut z80.l, |z80: &mut Z80| &mut z80.c),
        (Z80::ld_l_d, |z80: &mut Z80| &mut z80.l, |z80: &mut Z80| &mut z80.d),
        (Z80::ld_l_e, |z80: &mut Z80| &mut z80.l, |z80: &mut Z80| &mut z80.e),
        (Z80::ld_l_h, |z80: &mut Z80| &mut z80.l, |z80: &mut Z80| &mut z80.h),
        (Z80::ld_l_l, |z80: &mut Z80| &mut z80.l, |z80: &mut Z80| &mut z80.l),
    ];

    for (opcode, r_supplier, r_prime_supplier) in scenarios {
        let z80 = &mut Z80::new();

        *r_prime_supplier(z80) = 0xDD;

        let t_states = opcode(z80);
        assert_eq!(4, t_states);

        let r = r_supplier(z80);
        assert_eq!(0xDD, *r);
    }
}

#[test]
fn z80_test_ld_r_hl() {
    let scenarios: [(
        fn(&mut Z80, &Ram) -> u8,
        fn(&mut Z80) -> &mut u8,
    ); 7] = [
        (Z80::ld_a_mem_hl, |z80: &mut Z80| &mut z80.a),
        (Z80::ld_b_mem_hl, |z80: &mut Z80| &mut z80.b),
        (Z80::ld_c_mem_hl, |z80: &mut Z80| &mut z80.c),
        (Z80::ld_d_mem_hl, |z80: &mut Z80| &mut z80.d),
        (Z80::ld_e_mem_hl, |z80: &mut Z80| &mut z80.e),
        (Z80::ld_h_mem_hl, |z80: &mut Z80| &mut z80.h),
        (Z80::ld_l_mem_hl, |z80: &mut Z80| &mut z80.l),
    ];

    let bytes = [0xAA, 0xBB, 0xCC];
    let ram = Ram::new(bytes.to_vec());

    for (opcode, register_supplier) in scenarios {
        let z80 = &mut Z80::new();
        z80.h = 0x00;
        z80.l = 0x02;

        let t_states = opcode(z80, &ram);
        assert_eq!(7, t_states);

        let register = register_supplier(z80);
        assert_eq!(ram.read(2), *register);
    }
}

#[test]
fn z80_test_ld_r_ixd() {
    let scenarios: [(
        fn(&mut Z80, &Ram) -> u8,
        fn(&mut Z80) -> &mut u8,
    ); 7] = [
        (Z80::ld_a_mem_ixd, |z80: &mut Z80| &mut z80.a),
        (Z80::ld_b_mem_ixd, |z80: &mut Z80| &mut z80.b),
        (Z80::ld_c_ixd, |z80: &mut Z80| &mut z80.c),
        (Z80::ld_d_mem_ixd, |z80: &mut Z80| &mut z80.d),
        (Z80::ld_e_mem_ixd, |z80: &mut Z80| &mut z80.e),
        (Z80::ld_h_mem_ixd, |z80: &mut Z80| &mut z80.h),
        (Z80::ld_l_mem_ixd, |z80: &mut Z80| &mut z80.l),
    ];

    let bytes = [0xDD, 0x77, (-2i8).to_ne_bytes()[0], 0xCC];
    let ram = Ram::new(bytes.to_vec());

    for (opcode, register_supplier) in scenarios {
        let z80 = &mut Z80::new();
        z80.program_counter = 2;
        z80.ix = 5;

        let t_states = opcode(z80, &ram);
        assert_eq!(19, t_states);

        let register = register_supplier(z80);
        assert_eq!(0xCC, *register);
    }
}

#[test]
fn z80_test_ld_r_iyd() {
    let scenarios: [(
        fn(&mut Z80, &Ram) -> u8,
        fn(&mut Z80) -> &mut u8,
    ); 7] = [
        (Z80::ld_a_mem_iyd, |z80: &mut Z80| &mut z80.a),
        (Z80::ld_b_mem_iyd, |z80: &mut Z80| &mut z80.b),
        (Z80::ld_c_mem_iyd, |z80: &mut Z80| &mut z80.c),
        (Z80::ld_d_mem_iyd, |z80: &mut Z80| &mut z80.d),
        (Z80::ld_e_mem_iyd, |z80: &mut Z80| &mut z80.e),
        (Z80::ld_h_mem_iyd, |z80: &mut Z80| &mut z80.h),
        (Z80::ld_l_mem_iyd, |z80: &mut Z80| &mut z80.l),
    ];

    let bytes = [0xDD, 0x77, (-2i8).to_ne_bytes()[0], 0xCC];
    let ram = Ram::new(bytes.to_vec());

    for (opcode, register_supplier) in scenarios {
        let z80 = &mut Z80::new();
        z80.program_counter = 2;
        z80.iy = 5;

        let t_states = opcode(z80, &ram);
        assert_eq!(19, t_states);

        let register = register_supplier(z80);
        assert_eq!(0xCC, *register);
    }
}

#[test]
fn z80_test_ld_hl_r() {
    let scenarios: [(
        fn(&Z80, &mut Ram) -> u8,
        fn(&mut Z80) -> &mut u8,
    ); 5] = [
        (Z80::ld_mem_hl_a, |z80: &mut Z80| &mut z80.a),
        (Z80::ld_mem_hl_b, |z80: &mut Z80| &mut z80.b),
        (Z80::ld_mem_hl_c, |z80: &mut Z80| &mut z80.c),
        (Z80::ld_mem_hl_d, |z80: &mut Z80| &mut z80.d),
        (Z80::ld_mem_hl_e, |z80: &mut Z80| &mut z80.e),
        // (Z80::ld_mem_hl_h, |z80: &mut Z80| &mut z80.h),
        // (Z80::ld_mem_hl_l, |z80: &mut Z80| &mut z80.l),
    ];

    let bytes = [0, 0, 0];
    let ram = &mut Ram::new(bytes.to_vec());

    for (opcode, register_supplier) in scenarios {
        let z80 = &mut Z80::new();

        z80.h = 0x00;
        z80.l = 0x02;

        let register = register_supplier(z80);
        *register = 0xDD;

        let t_states = opcode(z80, ram);
        assert_eq!(7, t_states);

        assert_eq!(0xDD, ram.read(2));
    }
}

#[test]
fn z80_test_ld_hl_h() {
    let bytes = [5, 5, 5];
    let ram = &mut Ram::new(bytes.to_vec());

    let z80 = &mut Z80::new();

    z80.h = 0x00;
    z80.l = 0x02;

    let t_states = z80.ld_mem_hl_h(ram);
    assert_eq!(7, t_states);

    assert_eq!(z80.h, ram.read(2));
}

#[test]
fn z80_test_ld_hl_l() {
    let bytes = [5, 5, 5];
    let ram = &mut Ram::new(bytes.to_vec());

    let z80 = &mut Z80::new();

    z80.h = 0x00;
    z80.l = 0x02;

    let t_states = z80.ld_mem_hl_l(ram);
    assert_eq!(7, t_states);

    assert_eq!(z80.l, ram.read(2));
}

#[test]
fn z80_test_ld_ixd_r() {
    let scenarios: [(
        fn(&mut Z80, &mut Ram) -> u8,
        fn(&mut Z80) -> &mut u8,
    ); 7] = [
        (Z80::ld_mem_ixd_a, |z80: &mut Z80| &mut z80.a),
        (Z80::ld_mem_ixd_b, |z80: &mut Z80| &mut z80.b),
        (Z80::ld_mem_ixd_c, |z80: &mut Z80| &mut z80.c),
        (Z80::ld_mem_ixd_d, |z80: &mut Z80| &mut z80.d),
        (Z80::ld_mem_ixd_e, |z80: &mut Z80| &mut z80.e),
        (Z80::ld_mem_ixd_h, |z80: &mut Z80| &mut z80.h),
        (Z80::ld_mem_ixd_l, |z80: &mut Z80| &mut z80.l),
    ];

    let bytes = [0xDD, 0x77, (-2i8).to_ne_bytes()[0], 0x00];
    let ram = &mut Ram::new(bytes.to_vec());

    for (opcode, register_supplier) in scenarios {
        let z80 = &mut Z80::new();
        z80.program_counter = 2;
        z80.ix = 5;
        *register_supplier(z80) = 0xFF;
        
        let t_states = opcode(z80, ram);
        assert_eq!(19, t_states);

        assert_eq!(0xFF, ram.read(3));
    }
}
