use z80_core::z80::{MemoryAccessor, Ram, Z80};

#[test]
fn test_ld_bc_nn() {
    let bytes = [0x02, 0x01];
    let ram = &mut Ram::new(bytes.to_vec());
    let z80 = &mut Z80::new();

    let t_states = z80.ld_bc_nn(ram);
    assert_eq!(10, t_states);

    assert_eq!(0x01, z80.b);
    assert_eq!(0x02, z80.c);
}

#[test]
fn test_ld_de_nn() {
    let bytes = [0x02, 0x01];
    let ram = &mut Ram::new(bytes.to_vec());
    let z80 = &mut Z80::new();

    let t_states = z80.ld_de_nn(ram);
    assert_eq!(10, t_states);

    assert_eq!(0x01, z80.d);
    assert_eq!(0x02, z80.e);
}

#[test]
fn test_ld_hl_nn() {
    let bytes = [0x02, 0x01];
    let ram = &mut Ram::new(bytes.to_vec());
    let z80 = &mut Z80::new();

    let t_states = z80.ld_hl_nn(ram);
    assert_eq!(10, t_states);

    assert_eq!(0x01, z80.h);
    assert_eq!(0x02, z80.l);
}

#[test]
fn test_ld_sp_nn() {
    let bytes = [0x02, 0x01];
    let ram = &mut Ram::new(bytes.to_vec());
    let z80 = &mut Z80::new();

    let t_states = z80.ld_sp_nn(ram);
    assert_eq!(10, t_states);

    assert_eq!(0x0102, z80.stack_pointer);
}

#[test]
fn test_ld_ix_nn() {
    let bytes = [0x02, 0x01];
    let ram = &mut Ram::new(bytes.to_vec());
    let z80 = &mut Z80::new();

    let t_states = z80.ld_ix_nn(ram);
    assert_eq!(14, t_states);

    assert_eq!(0x0102, z80.ix);
}

#[test]
fn test_ld_iy_nn() {
    let bytes = [0x02, 0x01];
    let ram = &mut Ram::new(bytes.to_vec());
    let z80 = &mut Z80::new();

    let t_states = z80.ld_iy_nn(ram);
    assert_eq!(14, t_states);

    assert_eq!(0x0102, z80.iy);
}

#[test]
fn test_ld_hl_mem_nn() {
    let bytes = [0x2A, 0x03, 0x00, 0x0F, 0xF0];
    let ram = &mut Ram::new(bytes.to_vec());
    let z80 = &mut Z80::new();
    z80.program_counter = 1;

    let t_states = z80.ld_hl_mem_nn(ram);
    assert_eq!(16, t_states);

    assert_eq!(0xF0, z80.h);
    assert_eq!(0x0F, z80.l);
}

#[test]
fn test_ld_ddbc_mem_nn() {
    let bytes = [0xED, 0x4B, 0x04, 0x00, 0x0F, 0xF0];
    let ram = &mut Ram::new(bytes.to_vec());
    let z80 = &mut Z80::new();
    z80.program_counter = 2;

    let t_states = z80.ld_ddbc_mem_nn(ram);
    assert_eq!(20, t_states);

    assert_eq!(0xF0, z80.b);
    assert_eq!(0x0F, z80.c);
}

#[test]
fn test_ld_ddde_mem_nn() {
    let bytes = [0xED, 0x5B, 0x04, 0x00, 0x0F, 0xF0];
    let ram = &mut Ram::new(bytes.to_vec());
    let z80 = &mut Z80::new();
    z80.program_counter = 2;

    let t_states = z80.ld_ddde_mem_nn(ram);
    assert_eq!(20, t_states);

    assert_eq!(0xF0, z80.d);
    assert_eq!(0x0F, z80.e);
}

#[test]
fn test_ld_ddhl_mem_nn() {
    let bytes = [0xED, 0x6B, 0x04, 0x00, 0x0F, 0xF0];
    let ram = &mut Ram::new(bytes.to_vec());
    let z80 = &mut Z80::new();
    z80.program_counter = 2;

    let t_states = z80.ld_ddhl_mem_nn(ram);
    assert_eq!(20, t_states);

    assert_eq!(0xF0, z80.h);
    assert_eq!(0x0F, z80.l);
}

#[test]
fn test_ld_ddsp_mem_nn() {
    let bytes = [0xED, 0x7B, 0x04, 0x00, 0x0F, 0xF0];
    let ram = &mut Ram::new(bytes.to_vec());
    let z80 = &mut Z80::new();
    z80.program_counter = 2;

    let t_states = z80.ld_ddsp_mem_nn(ram);
    assert_eq!(20, t_states);

    assert_eq!(0xF00F, z80.stack_pointer);
}

#[test]
fn test_ld_ix_mem_nn() {
    let bytes = [0xDD, 0x2A, 0x04, 0x00, 0x0F, 0xF0];
    let ram = &mut Ram::new(bytes.to_vec());
    let z80 = &mut Z80::new();
    z80.program_counter = 2;

    let t_states = z80.ld_ix_mem_nn(ram);
    assert_eq!(20, t_states);

    assert_eq!(0xF00F, z80.ix);
}

#[test]
fn test_ld_iy_mem_nn() {
    let bytes = [0xFD, 0x2A, 0x04, 0x00, 0x0F, 0xF0];
    let ram = &mut Ram::new(bytes.to_vec());
    let z80 = &mut Z80::new();
    z80.program_counter = 2;

    let t_states = z80.ld_iy_mem_nn(ram);
    assert_eq!(20, t_states);

    assert_eq!(0xF00F, z80.iy);
}

#[test]
fn test_ld_mem_nn_hl() {
    let bytes = [0x22, 0x03, 0x00, 0x00, 0x00];
    let ram = &mut Ram::new(bytes.to_vec());
    let z80 = &mut Z80::new();
    z80.program_counter = 1;
    z80.h = 0x0F;
    z80.l = 0xF0;

    let t_states = z80.ld_mem_nn_hl(ram);
    assert_eq!(16, t_states);

    assert_eq!(z80.l, ram.read(3));
    assert_eq!(z80.h, ram.read(4));
}

#[test]
fn test_ld_mem_nn_ddbc() {
    let bytes = [0xED, 0x43, 0x04, 0x00, 0x00, 0x00];
    let ram = &mut Ram::new(bytes.to_vec());
    let z80 = &mut Z80::new();
    z80.program_counter = 2;
    z80.b = 0xEE;
    z80.c = 0xFF;

    let t_states = z80.ld_mem_nn_ddbc(ram);
    assert_eq!(20, t_states);

    assert_eq!(z80.c, ram.read(4));
    assert_eq!(z80.b, ram.read(5));
}

#[test]
fn test_ld_mem_nn_ddde() {
    let bytes = [0xED, 0x53, 0x04, 0x00, 0x00, 0x00];
    let ram = &mut Ram::new(bytes.to_vec());
    let z80 = &mut Z80::new();
    z80.program_counter = 2;
    z80.d = 0xEE;
    z80.e = 0xFF;

    let t_states = z80.ld_mem_nn_ddde(ram);
    assert_eq!(20, t_states);

    assert_eq!(z80.e, ram.read(4));
    assert_eq!(z80.d, ram.read(5));
}

#[test]
fn test_ld_mem_nn_ddhl() {
    let bytes = [0xED, 0x63, 0x04, 0x00, 0x00, 0x00];
    let ram = &mut Ram::new(bytes.to_vec());
    let z80 = &mut Z80::new();
    z80.program_counter = 2;
    z80.h = 0xEE;
    z80.l = 0xFF;

    let t_states = z80.ld_mem_nn_ddhl(ram);
    assert_eq!(20, t_states);

    assert_eq!(z80.l, ram.read(4));
    assert_eq!(z80.h, ram.read(5));
}

#[test]
fn test_ld_mem_nn_ddsp() {
    let bytes = [0xED, 0x73, 0x04, 0x00, 0x00, 0x00];
    let ram = &mut Ram::new(bytes.to_vec());
    let z80 = &mut Z80::new();
    z80.program_counter = 2;
    z80.stack_pointer = 0xEEFF;

    let t_states = z80.ld_mem_nn_ddsp(ram);
    assert_eq!(20, t_states);

    assert_eq!(0xFF, ram.read(4));
    assert_eq!(0xEE, ram.read(5));
}

#[test]
fn test_ld_mem_nn_ix() {
    let bytes = [0xDD, 0x22, 0x04, 0x00, 0x00, 0x00];
    let ram = &mut Ram::new(bytes.to_vec());
    let z80 = &mut Z80::new();
    z80.program_counter = 2;
    z80.ix = 0xEEFF;

    let t_states = z80.ld_mem_nn_ix(ram);
    assert_eq!(20, t_states);

    assert_eq!(0xFF, ram.read(4));
    assert_eq!(0xEE, ram.read(5));
}

#[test]
fn test_ld_mem_nn_iy() {
    let bytes = [0xFD, 0x22, 0x04, 0x00, 0x00, 0x00];
    let ram = &mut Ram::new(bytes.to_vec());
    let z80 = &mut Z80::new();
    z80.program_counter = 2;
    z80.iy = 0xEEFF;

    let t_states = z80.ld_mem_nn_iy(ram);
    assert_eq!(20, t_states);

    assert_eq!(0xFF, ram.read(4));
    assert_eq!(0xEE, ram.read(5));
}

#[test]
fn test_ld_sp_hl() {
    let z80 = &mut Z80::new();
    z80.h = 0x44;
    z80.l = 0x2E;

    let t_states = z80.ld_sp_hl();
    assert_eq!(6, t_states);

    assert_eq!(0x442E, z80.stack_pointer);
}

#[test]
fn test_ld_sp_ix() {
    let z80 = &mut Z80::new();
    z80.iy = 0x98DA;

    let t_states = z80.ld_sp_ix();
    assert_eq!(10, t_states);

    assert_eq!(z80.ix, z80.stack_pointer);
}

#[test]
fn test_ld_sp_iy() {
    let z80 = &mut Z80::new();
    z80.iy = 0xA227;

    let t_states = z80.ld_sp_iy();
    assert_eq!(10, t_states);

    assert_eq!(z80.iy, z80.stack_pointer);
}

#[test]
fn test_push_qqbc() {
    let bytes = [0xC5, 0x00, 0x00];
    let ram = &mut Ram::new(bytes.to_vec());
    let z80 = &mut Z80::new();
    z80.stack_pointer = 3;
    z80.b = 0x22;
    z80.c = 0x33;

    let t_states = z80.push_qqbc(ram);
    assert_eq!(11, t_states);

    assert_eq!(0x22, ram.read(2));
    assert_eq!(0x33, ram.read(1));
    assert_eq!(1, z80.stack_pointer);
}

#[test]
fn test_push_qqde() {
    let bytes = [0xD5, 0x00, 0x00];
    let ram = &mut Ram::new(bytes.to_vec());
    let z80 = &mut Z80::new();
    z80.stack_pointer = 3;
    z80.d = 0x22;
    z80.e = 0x33;

    let t_states = z80.push_qqde(ram);
    assert_eq!(11, t_states);

    assert_eq!(0x22, ram.read(2));
    assert_eq!(0x33, ram.read(1));
    assert_eq!(1, z80.stack_pointer);
}

#[test]
fn test_push_qqhl() {
    let bytes = [0xE5, 0x00, 0x00];
    let ram = &mut Ram::new(bytes.to_vec());
    let z80 = &mut Z80::new();
    z80.stack_pointer = 3;
    z80.h = 0x22;
    z80.l = 0x33;

    let t_states = z80.push_qqhl(ram);
    assert_eq!(11, t_states);

    assert_eq!(0x22, ram.read(2));
    assert_eq!(0x33, ram.read(1));
    assert_eq!(1, z80.stack_pointer);
}

#[test]
fn test_push_qqaf() {
    let bytes = [0xF5, 0x00, 0x00];
    let ram = &mut Ram::new(bytes.to_vec());
    let z80 = &mut Z80::new();
    z80.stack_pointer = 3;
    z80.a = 0x22;
    z80.f = 0x33;

    let t_states = z80.push_qqaf(ram);
    assert_eq!(11, t_states);

    assert_eq!(0x22, ram.read(2));
    assert_eq!(0x33, ram.read(1));
    assert_eq!(1, z80.stack_pointer);
}

#[test]
fn test_push_ix() {
    let bytes = [0xDD, 0xE5, 0x00, 0x00];
    let ram = &mut Ram::new(bytes.to_vec());
    let z80 = &mut Z80::new();
    z80.stack_pointer = 4;
    z80.ix = 0x2233;

    let t_states = z80.push_ix(ram);
    assert_eq!(15, t_states);

    assert_eq!(0x22, ram.read(3));
    assert_eq!(0x33, ram.read(2));
    assert_eq!(2, z80.stack_pointer);
}

#[test]
fn test_push_iy() {
    let bytes = [0xFD, 0xE5, 0x00, 0x00];
    let ram = &mut Ram::new(bytes.to_vec());
    let z80 = &mut Z80::new();
    z80.stack_pointer = 4;
    z80.iy = 0x2233;

    let t_states = z80.push_iy(ram);
    assert_eq!(15, t_states);

    assert_eq!(0x22, ram.read(3));
    assert_eq!(0x33, ram.read(2));
    assert_eq!(2, z80.stack_pointer);
}

#[test]
fn test_pop_qqbc() {
    let bytes = [0xC1, 0x55, 0x33];
    let ram = &mut Ram::new(bytes.to_vec());
    let z80 = &mut Z80::new();
    z80.stack_pointer = 1;

    let t_states = z80.pop_qqbc(ram);
    assert_eq!(10, t_states);

    assert_eq!(3, z80.stack_pointer);
    assert_eq!(0x33, z80.b);
    assert_eq!(0x55, z80.c);
}

#[test]
fn test_pop_qqde() {
    let bytes = [0xD1, 0x55, 0x33];
    let ram = &mut Ram::new(bytes.to_vec());
    let z80 = &mut Z80::new();
    z80.stack_pointer = 1;

    let t_states = z80.pop_qqde(ram);
    assert_eq!(10, t_states);

    assert_eq!(3, z80.stack_pointer);
    assert_eq!(0x33, z80.d);
    assert_eq!(0x55, z80.e);
}

#[test]
fn test_pop_qqhl() {
    let bytes = [0xE1, 0x55, 0x33];
    let ram = &mut Ram::new(bytes.to_vec());
    let z80 = &mut Z80::new();
    z80.stack_pointer = 1;

    let t_states = z80.pop_qqhl(ram);
    assert_eq!(10, t_states);

    assert_eq!(3, z80.stack_pointer);
    assert_eq!(0x33, z80.h);
    assert_eq!(0x55, z80.l);
}

#[test]
fn test_pop_qqaf() {
    let bytes = [0xF1, 0x55, 0x33];
    let ram = &mut Ram::new(bytes.to_vec());
    let z80 = &mut Z80::new();
    z80.stack_pointer = 1;

    let t_states = z80.pop_qqaf(ram);
    assert_eq!(10, t_states);

    assert_eq!(3, z80.stack_pointer);
    assert_eq!(0x33, z80.a);
    assert_eq!(0x55, z80.f);
}

#[test]
fn test_pop_ix() {
    let bytes = [0xDD, 0xE1, 0x55, 0x33];
    let ram = &mut Ram::new(bytes.to_vec());
    let z80 = &mut Z80::new();
    z80.stack_pointer = 2;

    let t_states = z80.pop_ix(ram);
    assert_eq!(14, t_states);

    assert_eq!(4, z80.stack_pointer);
    assert_eq!(0x3355, z80.ix);
}

#[test]
fn test_pop_iy() {
    let bytes = [0xFD, 0xE1, 0x55, 0x33];
    let ram = &mut Ram::new(bytes.to_vec());
    let z80 = &mut Z80::new();
    z80.stack_pointer = 2;

    let t_states = z80.pop_iy(ram);
    assert_eq!(14, t_states);

    assert_eq!(4, z80.stack_pointer);
    assert_eq!(0x3355, z80.iy);
}
