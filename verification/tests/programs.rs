use z80_core::flag_register::{
    c_flag_set, h_flag_set, n_flag_set, p_flag_set, s_flag_set, z_flag_set, H_FLAG_BITMASK,
    N_FLAG_BITMASK, Z_FLAG_BITMASK,
};
use z80_core::z80::{MemoryAccessor, Ram, Z80};

fn ram_with(size: usize, program: &[u8]) -> Ram {
    let mut bytes = vec![0u8; size];
    bytes[..program.len()].copy_from_slice(program);
    Ram::new(bytes)
}

#[test]
fn immediate_load() {
    let mut ram = Ram::new(vec![0x3E, 0x42]);
    let mut ports = Ram::new(vec![]);
    let mut z80 = Z80::new();

    let t_states = z80.step(&mut ram, &mut ports);

    assert_eq!(0x42, z80.a);
    assert_eq!(2, z80.program_counter);
    assert_eq!(7, t_states);
}

#[test]
fn sixteen_bit_load_and_store() {
    let mut ram = ram_with(0x2000, &[0x21, 0x34, 0x12, 0x22, 0x00, 0x10]);
    let mut z80 = Z80::new();

    let first = z80.process_next_instruction(&mut ram);
    let second = z80.process_next_instruction(&mut ram);

    assert_eq!(0x1234, z80.hl());
    assert_eq!(0x34, ram.read(0x1000));
    assert_eq!(0x12, ram.read(0x1001));
    assert_eq!(6, z80.program_counter);
    assert_eq!(10, first);
    assert_eq!(16, second);
    assert_eq!(26, first + second);
}

#[test]
fn conditional_branch_taken() {
    let mut ram = Ram::new(vec![0x3E, 0x00, 0x28, 0x02, 0x3E, 0xFF, 0x3E, 0xAA]);
    let mut z80 = Z80::new();
    // A load leaves the flags alone: the branch needs Z set beforehand.
    z80.f = Z_FLAG_BITMASK;

    let mut total = 0;
    total += z80.process_next_instruction(&mut ram);
    assert_eq!(7, total);
    let branch = z80.process_next_instruction(&mut ram);
    assert_eq!(12, branch);
    assert_eq!(6, z80.program_counter);
    total += branch;
    total += z80.process_next_instruction(&mut ram);

    assert_eq!(0xAA, z80.a);
    assert_eq!(8, z80.program_counter);
    assert_eq!(26, total);
}

#[test]
fn conditional_branch_not_taken() {
    let mut ram = Ram::new(vec![0x3E, 0x00, 0x28, 0x02, 0x3E, 0xFF, 0x3E, 0xAA]);
    let mut z80 = Z80::new();

    assert_eq!(7, z80.process_next_instruction(&mut ram));
    assert_eq!(false, z_flag_set(&z80.f));
    assert_eq!(7, z80.process_next_instruction(&mut ram));
    assert_eq!(4, z80.program_counter);
    assert_eq!(7, z80.process_next_instruction(&mut ram));

    assert_eq!(0xFF, z80.a);
    assert_eq!(6, z80.program_counter);
}

#[test]
fn stack_round_trip() {
    let mut ram = ram_with(0x8000, &[0xC5, 0xE1]);
    let mut z80 = Z80::new();
    z80.stack_pointer = 0x8000;
    z80.set_bc(0xBEEF);

    let push = z80.process_next_instruction(&mut ram);
    assert_eq!(0x7FFE, z80.stack_pointer);
    let pop = z80.process_next_instruction(&mut ram);

    assert_eq!(0xBEEF, z80.hl());
    assert_eq!(0x8000, z80.stack_pointer);
    assert_eq!(0xBE, ram.read(0x7FFF));
    assert_eq!(0xEF, ram.read(0x7FFE));
    assert_eq!(11, push);
    assert_eq!(10, pop);
    assert_eq!(21, push + pop);
}

#[test]
fn daa_after_bcd_add() {
    let mut ram = Ram::new(vec![0xC6, 0x27, 0x27]);
    let mut z80 = Z80::new();
    z80.a = 0x15;
    z80.f = 0;

    assert_eq!(7, z80.process_next_instruction(&mut ram));
    assert_eq!(0x3C, z80.a);
    // 5 + 7 carries nothing out of the low digit
    assert_eq!(false, h_flag_set(&z80.f));
    assert_eq!(false, n_flag_set(&z80.f));
    assert_eq!(false, c_flag_set(&z80.f));

    assert_eq!(4, z80.process_next_instruction(&mut ram));
    assert_eq!(0x42, z80.a);
    // the low digit C was above 9: the correction carried into the high digit
    assert_eq!(true, h_flag_set(&z80.f));
    assert_eq!(false, n_flag_set(&z80.f));
    assert_eq!(false, c_flag_set(&z80.f));
    assert_eq!(true, p_flag_set(&z80.f));
}

#[test]
fn daa_after_bcd_add_with_half_carry() {
    // 0x19 + 0x28 = 0x41 with a carry out of the low digit: H set, then
    // DAA gives 47 and clears H.
    let mut ram = Ram::new(vec![0xC6, 0x28, 0x27]);
    let mut z80 = Z80::new();
    z80.a = 0x19;

    z80.process_next_instruction(&mut ram);
    assert_eq!(0x41, z80.a);
    assert_eq!(true, h_flag_set(&z80.f));

    z80.process_next_instruction(&mut ram);
    assert_eq!(0x47, z80.a);
    assert_eq!(false, h_flag_set(&z80.f));
    assert_eq!(false, n_flag_set(&z80.f));
}

#[test]
fn block_copy() {
    let mut ram = ram_with(0x3000, &[0xED, 0xB0]);
    ram.write(0x1000, 0x11);
    ram.write(0x1001, 0x22);
    ram.write(0x1002, 0x33);
    let mut z80 = Z80::new();
    z80.set_hl(0x1000);
    z80.set_de(0x2000);
    z80.set_bc(0x0003);

    let first = z80.process_next_instruction(&mut ram);
    assert_eq!(0, z80.program_counter);
    let second = z80.process_next_instruction(&mut ram);
    assert_eq!(0, z80.program_counter);
    let third = z80.process_next_instruction(&mut ram);

    assert_eq!(0x11, ram.read(0x2000));
    assert_eq!(0x22, ram.read(0x2001));
    assert_eq!(0x33, ram.read(0x2002));
    assert_eq!(0x1003, z80.hl());
    assert_eq!(0x2003, z80.de());
    assert_eq!(0, z80.bc());
    assert_eq!(2, z80.program_counter);
    assert_eq!((21, 21, 16), (first, second, third));
    assert_eq!(58, first + second + third);
}

#[test]
fn add_7f_and_1_sets_overflow_and_sign() {
    let mut ram = Ram::new(vec![0xC6, 0x01]);
    let mut z80 = Z80::new();
    z80.a = 0x7F;

    z80.process_next_instruction(&mut ram);

    assert_eq!(0x80, z80.a);
    assert_eq!(true, p_flag_set(&z80.f));
    assert_eq!(true, s_flag_set(&z80.f));
}

#[test]
fn sub_1_from_80_sets_overflow_and_clears_carry() {
    let mut ram = Ram::new(vec![0xD6, 0x01]);
    let mut z80 = Z80::new();
    z80.a = 0x80;

    z80.process_next_instruction(&mut ram);

    assert_eq!(0x7F, z80.a);
    assert_eq!(true, p_flag_set(&z80.f));
    assert_eq!(false, c_flag_set(&z80.f));
}

#[test]
fn inc_ff_gives_zero_with_half_carry() {
    let mut ram = Ram::new(vec![0x3C]);
    let mut z80 = Z80::new();
    z80.a = 0xFF;

    assert_eq!(4, z80.process_next_instruction(&mut ram));

    assert_eq!(0x00, z80.a);
    assert_eq!(true, z_flag_set(&z80.f));
    assert_eq!(true, h_flag_set(&z80.f));
    assert_eq!(false, p_flag_set(&z80.f));
}

#[test]
fn dec_00_gives_ff_with_half_borrow() {
    let mut ram = Ram::new(vec![0x3D]);
    let mut z80 = Z80::new();
    z80.a = 0x00;

    assert_eq!(4, z80.process_next_instruction(&mut ram));

    assert_eq!(0xFF, z80.a);
    assert_eq!(true, s_flag_set(&z80.f));
    assert_eq!(true, h_flag_set(&z80.f));
    assert_eq!(false, p_flag_set(&z80.f));
}

#[test]
fn djnz_with_b_1_falls_through() {
    let mut ram = Ram::new(vec![0x10, 0x05]);
    let mut z80 = Z80::new();
    z80.b = 1;

    assert_eq!(8, z80.process_next_instruction(&mut ram));

    assert_eq!(0, z80.b);
    assert_eq!(2, z80.program_counter);
}

#[test]
fn djnz_with_b_2_branches() {
    let mut ram = Ram::new(vec![0x10, 0x05]);
    let mut z80 = Z80::new();
    z80.b = 2;

    assert_eq!(13, z80.process_next_instruction(&mut ram));

    assert_eq!(1, z80.b);
    assert_eq!(7, z80.program_counter);
}

#[test]
fn djnz_branches_backwards() {
    let mut ram = Ram::new(vec![0x00, 0x00, 0x10, 0xFC]);
    let mut z80 = Z80::new();
    z80.program_counter = 2;
    z80.b = 0;

    assert_eq!(13, z80.process_next_instruction(&mut ram));

    assert_eq!(0xFF, z80.b);
    assert_eq!(0, z80.program_counter);
}

#[test]
fn ldir_with_bc_0_runs_65536_times() {
    let mut ram = ram_with(0x10000, &[0xED, 0xB0]);
    let mut z80 = Z80::new();
    // every byte is copied onto itself, so the two opcode bytes stay
    z80.set_hl(0x4000);
    z80.set_de(0x4000);
    z80.set_bc(0);

    assert_eq!(21, z80.process_next_instruction(&mut ram));
    assert_eq!(0xFFFF, z80.bc());
    assert_eq!(0, z80.program_counter);

    let mut steps: u32 = 1;
    while z80.program_counter == 0 {
        z80.process_next_instruction(&mut ram);
        steps += 1;
    }

    assert_eq!(65536, steps);
    assert_eq!(0, z80.bc());
    assert_eq!(0x4000, z80.hl());
    assert_eq!(0x4000, z80.de());
    assert_eq!(2, z80.program_counter);
}

#[test]
fn ld_a_ix_minus_1_wraps_to_address_0() {
    let mut ram = Ram::new(vec![0xDD, 0x7E, 0xFF]);
    let mut z80 = Z80::new();
    z80.ix = 0x0001;

    assert_eq!(19, z80.process_next_instruction(&mut ram));

    assert_eq!(0xDD, z80.a);
    assert_eq!(3, z80.program_counter);
}

#[test]
fn ld_a_ix_plus_d_wraps_past_ffff() {
    let mut ram = ram_with(0x10000, &[0x99, 0xDD, 0x7E, 0x02]);
    let mut z80 = Z80::new();
    z80.program_counter = 1;
    z80.ix = 0xFFFE;

    assert_eq!(19, z80.process_next_instruction(&mut ram));

    assert_eq!(0x99, z80.a);
}

#[test]
fn flags_are_untouched_by_loads() {
    let mut ram = Ram::new(vec![0x3E, 0x00, 0x06, 0x80]);
    let mut z80 = Z80::new();
    z80.f = H_FLAG_BITMASK | N_FLAG_BITMASK;

    z80.process_next_instruction(&mut ram);
    z80.process_next_instruction(&mut ram);

    assert_eq!(H_FLAG_BITMASK | N_FLAG_BITMASK, z80.f);
    assert_eq!(0x80, z80.b);
}
