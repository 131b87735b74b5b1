use z80_core::flag_register::{h_flag_set, n_flag_set, p_flag_set, s_flag_set, z_flag_set};
use z80_core::z80::{MemoryAccessor, Ram, Z80};

#[test]
fn eight_bit_load_group_test_ld_r_rp() {
    let scenarios: [(
        fn(&mut Z80) -> u8,
        fn(&mut Z80) -> &mut u8,
        fn(&mut Z80) -> &mut u8,
    ); 49] = [
        (Z80::ld_a_a, |z80: &mut Z80| &mut z80.a, |z80: &mut Z80| &mut z80.a),
        (Z80::ld_a_b, |z80: &mut Z80| &mut z80.a, |z80: &mut Z80| &mut z80.b),
        (Z80::ld_a_c, |z80: &mut Z80| &mut z80.a, |z80: &mut Z80| &mut z80.c),
        (Z80::ld_a_d, |z80: &mut Z80| &mut z80.a, |z80: &mut Z80| &mut z80.d),
        (Z80::ld_a_e, |z80: &mut Z80| &mut z80.a, |z80: &mut Z80| &mut z80.e),
        (Z80::ld_a_h, |z80: &mut Z80| &mut z80.a, |z80: &mut Z80| &mut z80.h),
        (Z80::ld_a_l, |z80: &mut Z80| &mut z80.a, |z80: &mut Z80| &mut z80.l),
        (Z80::ld_b_a, |z80: &mut Z80| &mut z80.b, |z80: &mut Z80| &mut z80.a),
        (Z80::ld_b_b, |z80: &mut Z80| &mut z80.b, |z80: &mut Z80| &mut z80.b),
        (Z80::ld_b_c, |z80: &mut Z80| &mut z80.b, |z80: &mut Z80| &mut z80.c),
        (Z80::ld_b_d, |z80: &mut Z80| &mut z80.b, |z80: &mut Z80| &mut z80.d),
        (Z80::ld_b_e, |z80: &mut Z80| &mut z80.b, |z80: &mut Z80| &mut z80.e),
        (Z80::ld_b_h, |z80: &mut Z80| &mut z80.b, |z80: &mut Z80| &mut z80.h),
        (Z80::ld_b_l, |z80: &mut Z80| &mut z80.b, |z80: &mut Z80| &mut z80.l),
        (Z80::ld_c_a, |z80: &mut Z80| &mut z80.c, |z80: &mut Z80| &mut z80.a),
        (Z80::ld_c_b, |z80: &mut Z80| &mut z80.c, |z80: &mut Z80| &mut z80.b),
        (Z80::ld_c_c, |z80: &mut Z80| &mut z80.c, |z80: &mut Z80| &mut z80.c),
        (Z80::ld_c_d, |z80: &mut Z80| &mut z80.c, |z80: &mut Z80| &mut z80.d),
        (Z80::ld_c_e, |z80: &mut Z80| &mut z80.c, |z80: &mut Z80| &mut z80.e),
        (Z80::ld_c_h, |z80: &mut Z80| &mut z80.c, |z80: &mut Z80| &mut z80.h),
        (Z80::ld_c_l, |z80: &mut Z80| &mut z80.c, |z80: &mut Z80| &mut z80.l),
        (Z80::ld_d_a, |z80: &mut Z80| &mut z80.d, |z80: &mut Z80| &mut z80.a),
        (Z80::ld_d_b, |z80: &mut Z80| &mut z80.d, |z80: &mut Z80| &mut z80.b),
        (Z80::ld_d_c, |z80: &mut Z80| &mut z80.d, |z80: &mut Z80| &mut z80.c),
        (Z80::ld_d_d, |z80: &mut Z80| &mut z80.d, |z80: &mut Z80| &mut z80.d),
        (Z80::ld_d_e, |z80: &mut Z80| &mut z80.d, |z80: &mut Z80| &mut z80.e),
        (Z80::ld_d_h, |z80: &mut Z80| &mut z80.d, |z80: &mut Z80| &mut z80.h),
        (Z80::ld_d_l, |z80: &mut Z80| &mut z80.d, |z80: &mut Z80| &mut z80.l),
        (Z80::ld_e_a, |z80: &mut Z80| &mut z80.e, |z80: &mut Z80| &mut z80.a),
        (Z80::ld_e_b, |z80: &mut Z80| &mut z80.e, |z80: &mut Z80| &mut z80.b),
        (Z80::ld_e_c, |z80: &mut Z80| &mut z80.e, |z80: &mut Z80| &mut z80.c),
        (Z80::ld_e_d, |z80: &mut Z80| &mut z80.e, |z80: &mut Z80| &mut z80.d),
        (Z80::ld_e_e, |z80: &mut Z80| &mut z80.e, |z80: &mut Z80| &mut z80.e),
        (Z80::ld_e_h, |z80: &mut Z80| &mut z80.e, |z80: &mut Z80| &mut z80.h),
        (Z80::ld_e_l, |z80: &mut Z80| &mut z80.e, |z80: &mut Z80| &mut z80.l),
        (Z80::ld_h_a, |z80: &mut Z80| &mut z80.h, |z80: &mut Z80| &mut z80.a),
        (Z80::ld_h_b, |z80: &mut Z80| &mut z80.h, |z80: &mut Z80| &mut z80.b),
        (Z80::ld_h_c, |z80: &mut Z80| &mut z80.h, |z80: &mut Z80| &mut z80.c),
        (Z80::ld_h_d, |z80: &mut Z80| &mut z80.h, |z80: &mut Z80| &mut z80.d),
        (Z80::ld_h_e, |z80: &mut Z80| &mut z80.h, |z80: &mut Z80| &mut z80.e),
        (Z80::ld_h_h, |z80: &mut Z80| &mut z80.h, |z80: &mut Z80| &mut z80.h),
        (Z80::ld_h_l, |z80: &mut Z80| &mut z80.h, |z80: &mut Z80| &mut z80.l),
        (Z80::ld_l_a, |z80: &mut Z80| &mut z80.l, |z80: &mut Z80| &mut z80.a),
        (Z80::ld_l_b, |z80: &mut Z80| &mut z80.l, |z80: &mut Z80| &mut z80.b),
        (Z80::ld_l_c, |z80: &mut Z80| &mut z80.l, |z80: &mut Z80| &mut z80.c),
        (Z80::ld_l_d, |z80: &mut Z80| &mut z80.l, |z80: &mut Z80| &mut z80.d),
        (Z80::ld_l_e, |z80: &mut Z80| &mut z80.l, |z80: &mut Z80| &mut z80.e),
        (Z80::ld_l_h, |z80: &mut Z80| &mut z80.l, |z80: &mut Z80| &mut z80.h),
        (Z80::ld_l_l, |z80: &mut Z80| &mut z80.l, |z80: &mut Z80| &mut z80.l),
    ];

    for (opcode, r_supplier, r_prime_supplier) in scenarios {
        let z80 = &mut Z80::new();

        *r_prime_supplier(z80) = 0xDD;

        let t_states = opcode(z80);
        assert_eq!(4, t_states);

        let r = r_supplier(z80);
        assert_eq!(0xDD, *r);
    }
}

#[test]
fn eight_bit_load_group_test_ld_r_hl() {
    let scenarios: [(
        fn(&mut Z80, &Ram) -> u8,
        fn(&mut Z80) -> &mut u8,
    ); 7] = [
        (Z80::ld_a_mem_hl, |z80: &mut Z80| &mut z80.a),
        (Z80::ld_b_mem_hl, |z80: &mut Z80| &mut z80.b),
        (Z80::ld_c_mem_hl, |z80: &mut Z80| &mut z80.c),
        (Z80::ld_d_mem_hl, |z80: &mut Z80| &mut z80.d),
        (Z80::ld_e_mem_hl, |z80: &mut Z80| &mut z80.e),
        (Z80::ld_h_mem_hl, |z80: &mut Z80| &mut z80.h),
        (Z80::ld_l_mem_hl, |z80: &mut Z80| &mut z80.l),
    ];

    let bytes = [0xAA, 0xBB, 0xCC];
    let ram = Ram::new(bytes.to_vec());

    for (opcode, register_supplier) in scenarios {
        let mut z80 = Z80::new();
        z80.set_hl(0x0002);

        let t_states = opcode(&mut z80, &ram);
        assert_eq!(7, t_states);

        let register = register_supplier(&mut z80);
        assert_eq!(ram.read(2), *register);
    }
}

#[test]
fn eight_bit_load_group_test_ld_r_ixd() {
    let scenarios: [(
        fn(&mut Z80, &Ram) -> u8,
        fn(&mut Z80) -> &mut u8,
    ); 7] = [
        (Z80::ld_a_mem_ixd, |z80: &mut Z80| &mut z80.a),
        (Z80::ld_b_mem_ixd, |z80: &mut Z80| &mut z80.b),
        (Z80::ld_c_ixd, |z80: &mut Z80| &mut z80.c),
        (Z80::ld_d_mem_ixd, |z80: &mut Z80| &mut z80.d),
        (Z80::ld_e_mem_ixd, |z80: &mut Z80| &mut z80.e),
        (Z80::ld_h_mem_ixd, |z80: &mut Z80| &mut z80.h),
        (Z80::ld_l_mem_ixd, |z80: &mut Z80| &mut z80.l),
    ];

    let bytes = [0xDD, 0x77, (-2i8).to_le_bytes()[0], 0xCC];
    let ram = Ram::new(bytes.to_vec());

    for (opcode, register_supplier) in scenarios {
        let z80 = &mut Z80::new();
        z80.program_counter = 2;
        z80.ix = 5;

        let t_states = opcode(z80, &ram);
        assert_eq!(19, t_states);

        let register = register_supplier(z80);
        assert_eq!(0xCC, *register);
    }
}

#[test]
fn eight_bit_load_group_test_ld_r_iyd() {
    let scenarios: [(
        fn(&mut Z80, &Ram) -> u8,
        fn(&mut Z80) -> &mut u8,
    ); 7] = [
        (Z80::ld_a_mem_iyd, |z80: &mut Z80| &mut z80.a),
        (Z80::ld_b_mem_iyd, |z80: &mut Z80| &mut z80.b),
        (Z80::ld_c_mem_iyd, |z80: &mut Z80| &mut z80.c),
        (Z80::ld_d_mem_iyd, |z80: &mut Z80| &mut z80.d),
        (Z80::ld_e_mem_iyd, |z80: &mut Z80| &mut z80.e),
        (Z80::ld_h_mem_iyd, |z80: &mut Z80| &mut z80.h),
        (Z80::ld_l_mem_iyd, |z80: &mut Z80| &mut z80.l),
    ];

    let bytes = [0xDD, 0x77, (-2i8).to_le_bytes()[0], 0xCC];
    let ram = Ram::new(bytes.to_vec());

    for (opcode, register_supplier) in scenarios {
        let z80 = &mut Z80::new();
        z80.program_counter = 2;
        z80.iy = 5;

        let t_states = opcode(z80, &ram);
        assert_eq!(19, t_states);

        let register = register_supplier(z80);
        assert_eq!(0xCC, *register);
    }
}

#[test]
fn eight_bit_load_group_test_ld_hl_r() {
    let scenarios: [(
        fn(&Z80, &mut Ram) -> u8,
        fn(&mut Z80) -> &mut u8,
    ); 5] = [
        (Z80::ld_mem_hl_a, |z80: &mut Z80| &mut z80.a),
        (Z80::ld_mem_hl_b, |z80: &mut Z80| &mut z80.b),
        (Z80::ld_mem_hl_c, |z80: &mut Z80| &mut z80.c),
        (Z80::ld_mem_hl_d, |z80: &mut Z80| &mut z80.d),
        (Z80::ld_mem_hl_e, |z80: &mut Z80| &mut z80.e),
        // (Z80::ld_hl_h, |z80: &mut Z80| &mut z80.h),
        // (Z80::ld_hl_l, |z80: &mut Z80| &mut z80.l),
    ];

    let bytes = [0, 0, 0];
    let ram = &mut Ram::new(bytes.to_vec());

    for (opcode, register_supplier) in scenarios {
        let z80 = &mut Z80::new();
        z80.set_hl(0x0002);

        let register = register_supplier(z80);
        *register = 0xDD;

        let t_states = opcode(z80, ram);
        assert_eq!(7, t_states);

        assert_eq!(0xDD, ram.read(2));
    }
}

#[test]
fn eight_bit_load_group_test_ld_hl_h() {
    let bytes = [5, 5, 5];
    let ram = &mut Ram::new(bytes.to_vec());

    let z80 = &mut Z80::new();
    z80.set_hl(0x0002);

    let t_states = z80.ld_mem_hl_h(ram);
    assert_eq!(7, t_states);

    assert_eq!(z80.h, ram.read(2));
}

#[test]
fn eight_bit_load_group_test_ld_hl_l() {
    let bytes = [5, 5, 5];
    let ram = &mut Ram::new(bytes.to_vec());

    let z80 = &mut Z80::new();
    z80.set_hl(0x0002);

    let t_states = z80.ld_mem_hl_l(ram);
    assert_eq!(7, t_states);

    assert_eq!(z80.l, ram.read(2));
}

#[test]
fn eight_bit_load_group_test_ld_ixd_r() {
    let scenarios: [(
        fn(&mut Z80, &mut Ram) -> u8,
        fn(&mut Z80) -> &mut u8,
    ); 7] = [
        (Z80::ld_mem_ixd_a, |z80: &mut Z80| &mut z80.a),
        (Z80::ld_mem_ixd_b, |z80: &mut Z80| &mut z80.b),
        (Z80::ld_mem_ixd_c, |z80: &mut Z80| &mut z80.c),
        (Z80::ld_mem_ixd_d, |z80: &mut Z80| &mut z80.d),
        (Z80::ld_mem_ixd_e, |z80: &mut Z80| &mut z80.e),
        (Z80::ld_mem_ixd_h, |z80: &mut Z80| &mut z80.h),
        (Z80::ld_mem_ixd_l, |z80: &mut Z80| &mut z80.l),
    ];

    let bytes = [0xDD, 0x77, (-2i8).to_le_bytes()[0], 0x00];
    let ram = &mut Ram::new(bytes.to_vec());

    for (opcode, register_supplier) in scenarios {
        let z80 = &mut Z80::new();
        z80.program_counter = 2;
        z80.ix = 5;
        *register_supplier(z80) = 0xFF;

        let t_states = opcode(z80, ram);
        assert_eq!(19, t_states);

        assert_eq!(0xFF, ram.read(3));
    }
}

#[test]
fn test_ld_iyd_r() {
    let scenarios: [(
        fn(&mut Z80, &mut Ram) -> u8,
        fn(&mut Z80) -> &mut u8,
    ); 7] = [
        (Z80::ld_mem_iyd_a, |z80: &mut Z80| &mut z80.a),
        (Z80::ld_mem_iyd_b, |z80: &mut Z80| &mut z80.b),
        (Z80::ld_mem_iyd_c, |z80: &mut Z80| &mut z80.c),
        (Z80::ld_mem_iyd_d, |z80: &mut Z80| &mut z80.d),
        (Z80::ld_mem_iyd_e, |z80: &mut Z80| &mut z80.e),
        (Z80::ld_mem_iyd_h, |z80: &mut Z80| &mut z80.h),
        (Z80::ld_mem_iyd_l, |z80: &mut Z80| &mut z80.l),
    ];

    let bytes = [0xDD, 0x77, (-2i8).to_le_bytes()[0], 0x00];
    let ram = &mut Ram::new(bytes.to_vec());

    for (opcode, register_supplier) in scenarios {
        let z80 = &mut Z80::new();
        z80.program_counter = 2;
        z80.iy = 5;
        *register_supplier(z80) = 0xFF;

        let t_states = opcode(z80, ram);
        assert_eq!(19, t_states);

        assert_eq!(0xFF, ram.read(3));
    }
}

#[test]
fn test_ld_hl_n() {
    let bytes = [0x36, 0xFF, 0x00];
    let ram = &mut Ram::new(bytes.to_vec());

    let z80 = &mut Z80::new();
    z80.program_counter = 1;
    z80.set_hl(0x0002);
    let t_states = z80.ld_mem_hl_n(ram);

    assert_eq!(10, t_states);
    assert_eq!(0xFF, ram.read(2));
}

#[test]
fn test_ld_ixd_n() {
    let bytes = [0xDD, 0x26, 0x02, 0xFF, 0x00];
    let ram = &mut Ram::new(bytes.to_vec());

    let z80 = &mut Z80::new();
    z80.program_counter = 2;
    z80.ix = 0x02;
    let t_states = z80.ld_mem_ixd_n(ram);

    assert_eq!(19, t_states);
    assert_eq!(0xFF, ram.read(4));
}

#[test]
fn test_ld_iyd_n() {
    let bytes = [0xDD, 0x26, 0x02, 0xFF, 0x00];
    let ram = &mut Ram::new(bytes.to_vec());

    let z80 = &mut Z80::new();
    z80.program_counter = 2;
    z80.iy = 0x02;

    let t_states = z80.ld_mem_iyd_n(ram);

    assert_eq!(19, t_states);
    assert_eq!(0xFF, ram.read(4));
}

#[test]
fn test_ld_a_bc() {
    let bytes = [0x0A, 0xFF];
    let ram = &mut Ram::new(bytes.to_vec());

    let z80 = &mut Z80::new();
    z80.program_counter = 1;
    z80.set_bc(0x0001);

    let t_states = z80.ld_a_mem_bc(ram);

    assert_eq!(7, t_states);
    assert_eq!(0xFF, z80.a);
}

#[test]
fn test_ld_a_de() {
    let bytes = [0x0A, 0xFF];
    let ram = &Ram::new(bytes.to_vec());

    let z80 = &mut Z80::new();
    z80.program_counter = 1;
    z80.set_de(0x0001);

    let t_states = z80.ld_a_mem_de(ram);

    assert_eq!(7, t_states);
    assert_eq!(0xFF, z80.a);
}

#[test]
fn test_ld_a_nn() {
    let bytes = [0x3A, 0x03, 0x00, 0xFF];
    let ram = &Ram::new(bytes.to_vec());

    let z80 = &mut Z80::new();
    z80.program_counter = 1;
    let t_states = z80.ld_a_mem_nn(ram);

    assert_eq!(13, t_states);
    assert_eq!(0xFF, z80.a);
}

#[test]
fn test_ld_bc_a() {
    let bytes = [0x00, 0x00];
    let ram = &mut Ram::new(bytes.to_vec());

    let z80 = &mut Z80::new();
    z80.a = 0xFF;
    z80.set_bc(0x0001);
    let t_states = z80.ld_mem_bc_a(ram);

    assert_eq!(7, t_states);
    assert_eq!(0xFF, ram.read(1));
}

#[test]
fn test_ld_de_a() {
    let bytes = [0x00, 0x00];
    let ram = &mut Ram::new(bytes.to_vec());

    let z80 = &mut Z80::new();
    z80.a = 0xFF;
    z80.set_de(0x0001);
    let t_states = z80.ld_mem_de_a(ram);

    assert_eq!(7, t_states);
    assert_eq!(0xFF, ram.read(1));
}

#[test]
fn test_ld_nn_a() {
    let bytes = [0x32, 0x03, 0x00, 0x00];
    let ram = &mut Ram::new(bytes.to_vec());

    let z80 = &mut Z80::new();
    z80.program_counter = 1;
    z80.a = 0xFF;
    let t_states = z80.ld_mem_nn_a(ram);

    assert_eq!(13, t_states);
    assert_eq!(0xFF, ram.read(3));
}

#[test]
fn test_ld_a_i_positive() {
    let z80 = &mut Z80::new();
    z80.i = 0b01111111;
    let t_states = z80.ld_a_i();
    assert_eq!(9, t_states);

    assert_eq!(z80.i, z80.a);

    // S is set if the I Register is negative; otherwise, it is reset.
    assert_eq!(false, s_flag_set(&z80.f));

    // Z is set if the I Register is 0; otherwise, it is reset.
    assert_eq!(false, z_flag_set(&z80.f));

    // H is reset.
    assert_eq!(false, h_flag_set(&z80.f));

    // P/V contains contents of IFF2.
    assert_eq!(z80.iff2, p_flag_set(&z80.f));

    // N is reset.
    assert_eq!(false, n_flag_set(&z80.f));

}

#[test]
fn test_ld_a_i_zero() {
    let z80 = &mut Z80::new();
    z80.i = 0;
    let t_states = z80.ld_a_i();
    assert_eq!(9, t_states);

    assert_eq!(z80.i, z80.a);

    // S is set if the I Register is negative; otherwise, it is reset.
    assert_eq!(false, s_flag_set(&z80.f));

    // Z is set if the I Register is 0; otherwise, it is reset.
    assert_eq!(true, z_flag_set(&z80.f));

    // H is reset.
    assert_eq!(false, h_flag_set(&z80.f));

    // P/V contains contents of IFF2.
    assert_eq!(z80.iff2, p_flag_set(&z80.f));

    // N is reset.
    assert_eq!(false, n_flag_set(&z80.f));

}

#[test]
fn test_ld_a_i_negative() {
    let z80 = &mut Z80::new();
    z80.i = 0b11111111;
    let t_states = z80.ld_a_i();
    assert_eq!(9, t_states);

    assert_eq!(z80.i, z80.a);

    // S is set if the I Register is negative; otherwise, it is reset.
    assert_eq!(true, s_flag_set(&z80.f));

    // Z is set if the I Register is 0; otherwise, it is reset.
    assert_eq!(false, z_flag_set(&z80.f));

    // H is reset.
    assert_eq!(false, h_flag_set(&z80.f));

    // P/V contains contents of IFF2.
    assert_eq!(z80.iff2, p_flag_set(&z80.f));

    // N is reset.
    assert_eq!(false, n_flag_set(&z80.f));

}

#[test]
fn test_ld_a_r_positive() {
    let z80 = &mut Z80::new();
    z80.r = 0b01111111;
    let t_states = z80.ld_a_r();
    assert_eq!(9, t_states);

    assert_eq!(z80.r, z80.a);

    // S is set if the R Register is negative; otherwise, it is reset.
    assert_eq!(false, s_flag_set(&z80.f));

    // Z is set if the R Register is 0; otherwise, it is reset.
    assert_eq!(false, z_flag_set(&z80.f));

    // H is reset.
    assert_eq!(false, h_flag_set(&z80.f));

    // P/V contains contents of IFF2.
    assert_eq!(z80.iff2, p_flag_set(&z80.f));

    // N is reset.
    assert_eq!(false, n_flag_set(&z80.f));

}

#[test]
fn test_ld_a_r_zero() {
    let z80 = &mut Z80::new();
    z80.r = 0;
    let t_states = z80.ld_a_r();
    assert_eq!(9, t_states);

    assert_eq!(z80.r, z80.a);

    // S is set if the R Register is negative; otherwise, it is reset.
    assert_eq!(false, s_flag_set(&z80.f));

    // Z is set if the R Register is 0; otherwise, it is reset.
    assert_eq!(true, z_flag_set(&z80.f));

    // H is reset.
    assert_eq!(false, h_flag_set(&z80.f));

    // P/V contains contents of IFF2.
    assert_eq!(z80.iff2, p_flag_set(&z80.f));

    // N is reset.
    assert_eq!(false, n_flag_set(&z80.f));

}

#[test]
fn test_ld_a_r_negative() {
    let z80 = &mut Z80::new();
    z80.r = 0b11111111;
    let t_states = z80.ld_a_r();
    assert_eq!(9, t_states);

    assert_eq!(z80.r, z80.a);

    // S is set if the R Register is negative; otherwise, it is reset.
    assert_eq!(true, s_flag_set(&z80.f));

    // Z is set if the R Register is 0; otherwise, it is reset.
    assert_eq!(false, z_flag_set(&z80.f));

    // H is reset.
    assert_eq!(false, h_flag_set(&z80.f));

    // P/V contains contents of IFF2.
    assert_eq!(z80.iff2, p_flag_set(&z80.f));

    // N is reset.
    assert_eq!(false, n_flag_set(&z80.f));

}

#[test]
fn test_ld_i_a() {
    let z80 = &mut Z80::new();
    z80.a = 0xFF;

    let t_states = z80.ld_i_a();
    assert_eq!(9, t_states);

    assert_eq!(0xFF, z80.i);
}

#[test]
fn test_ld_r_a() {
    let z80 = &mut Z80::new();
    z80.a = 0xFF;

    let t_states = z80.ld_r_a();
    assert_eq!(9, t_states);

    assert_eq!(0xFF, z80.r);
}
