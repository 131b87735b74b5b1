use z80_core::flag_register::FlagRegister;
use z80_core::register::Register;

#[test]
fn test_get_load() {
    let mut flag_register = FlagRegister::new();

    assert_eq!(0x00, flag_register.get());

    flag_register.load(0xDD);

    assert_eq!(0xDD, flag_register.get());
}

#[test]
fn test_s_flag() {
    let mut flag_register = FlagRegister::new();

    assert_eq!(false, flag_register.s_flag());
    assert_eq!(false, flag_register.z_flag());
    assert_eq!(false, flag_register.y_flag());
    assert_eq!(false, flag_register.h_flag());
    assert_eq!(false, flag_register.x_flag());
    assert_eq!(false, flag_register.p_flag());
    assert_eq!(false, flag_register.n_flag());
    assert_eq!(false, flag_register.c_flag());

    flag_register.set_s_flag();

    assert_eq!(true, flag_register.s_flag());
    assert_eq!(false, flag_register.z_flag());
    assert_eq!(false, flag_register.y_flag());
    assert_eq!(false, flag_register.h_flag());
    assert_eq!(false, flag_register.x_flag());
    assert_eq!(false, flag_register.p_flag());
    assert_eq!(false, flag_register.n_flag());
    assert_eq!(false, flag_register.c_flag());

    flag_register.unset_s_flag();

    assert_eq!(false, flag_register.s_flag());
    assert_eq!(false, flag_register.z_flag());
    assert_eq!(false, flag_register.y_flag());
    assert_eq!(false, flag_register.h_flag());
    assert_eq!(false, flag_register.x_flag());
    assert_eq!(false, flag_register.p_flag());
    assert_eq!(false, flag_register.n_flag());
    assert_eq!(false, flag_register.c_flag());
}

#[test]
fn test_z_flag() {
    let mut flag_register = FlagRegister::new();

    assert_eq!(false, flag_register.s_flag());
    assert_eq!(false, flag_register.z_flag());
    assert_eq!(false, flag_register.y_flag());
    assert_eq!(false, flag_register.h_flag());
    assert_eq!(false, flag_register.x_flag());
    assert_eq!(false, flag_register.p_flag());
    assert_eq!(false, flag_register.n_flag());
    assert_eq!(false, flag_register.c_flag());

    flag_register.set_z_flag();

    assert_eq!(false, flag_register.s_flag());
    assert_eq!(true, flag_register.z_flag());
    assert_eq!(false, flag_register.y_flag());
    assert_eq!(false, flag_register.h_flag());
    assert_eq!(false, flag_register.x_flag());
    assert_eq!(false, flag_register.p_flag());
    assert_eq!(false, flag_register.n_flag());
    assert_eq!(false, flag_register.c_flag());

    flag_register.unset_z_flag();

    assert_eq!(false, flag_register.s_flag());
    assert_eq!(false, flag_register.z_flag());
    assert_eq!(false, flag_register.y_flag());
    assert_eq!(false, flag_register.h_flag());
    assert_eq!(false, flag_register.x_flag());
    assert_eq!(false, flag_register.p_flag());
    assert_eq!(false, flag_register.n_flag());
    assert_eq!(false, flag_register.c_flag());
}

#[test]
fn test_y_flag() {
    let mut flag_register = FlagRegister::new();

    assert_eq!(false, flag_register.s_flag());
    assert_eq!(false, flag_register.z_flag());
    assert_eq!(false, flag_register.y_flag());
    assert_eq!(false, flag_register.h_flag());
    assert_eq!(false, flag_register.x_flag());
    assert_eq!(false, flag_register.p_flag());
    assert_eq!(false, flag_register.n_flag());
    assert_eq!(false, flag_register.c_flag());

    flag_register.set_y_flag();

    assert_eq!(false, flag_register.s_flag());
    assert_eq!(false, flag_register.z_flag());
    assert_eq!(true, flag_register.y_flag());
    assert_eq!(false, flag_register.h_flag());
    assert_eq!(false, flag_register.x_flag());
    assert_eq!(false, flag_register.p_flag());
    assert_eq!(false, flag_register.n_flag());
    assert_eq!(false, flag_register.c_flag());

    flag_register.unset_y_flag();

    assert_eq!(false, flag_register.s_flag());
    assert_eq!(false, flag_register.z_flag());
    assert_eq!(false, flag_register.y_flag());
    assert_eq!(false, flag_register.h_flag());
    assert_eq!(false, flag_register.x_flag());
    assert_eq!(false, flag_register.p_flag());
    assert_eq!(false, flag_register.n_flag());
    assert_eq!(false, flag_register.c_flag());
}

#[test]
fn test_h_flag() {
    let mut flag_register = FlagRegister::new();

    assert_eq!(false, flag_register.s_flag());
    assert_eq!(false, flag_register.z_flag());
    assert_eq!(false, flag_register.y_flag());
    assert_eq!(false, flag_register.h_flag());
    assert_eq!(false, flag_register.x_flag());
    assert_eq!(false, flag_register.p_flag());
    assert_eq!(false, flag_register.n_flag());
    assert_eq!(false, flag_register.c_flag());

    flag_register.set_h_flag();

    assert_eq!(false, flag_register.s_flag());
    assert_eq!(false, flag_register.z_flag());
    assert_eq!(false, flag_register.y_flag());
    assert_eq!(true, flag_register.h_flag());
    assert_eq!(false, flag_register.x_flag());
    assert_eq!(false, flag_register.p_flag());
    assert_eq!(false, flag_register.n_flag());
    assert_eq!(false, flag_register.c_flag());

    flag_register.unset_h_flag();

    assert_eq!(false, flag_register.s_flag());
    assert_eq!(false, flag_register.z_flag());
    assert_eq!(false, flag_register.y_flag());
    assert_eq!(false, flag_register.h_flag());
    assert_eq!(false, flag_register.x_flag());
    assert_eq!(false, flag_register.p_flag());
    assert_eq!(false, flag_register.n_flag());
    assert_eq!(false, flag_register.c_flag());
}

#[test]
fn test_x_flag() {
    let mut flag_register = FlagRegister::new();

    assert_eq!(false, flag_register.s_flag());
    assert_eq!(false, flag_register.z_flag());
    assert_eq!(false, flag_register.y_flag());
    assert_eq!(false, flag_register.h_flag());
    assert_eq!(false, flag_register.x_flag());
    assert_eq!(false, flag_register.p_flag());
    assert_eq!(false, flag_register.n_flag());
    assert_eq!(false, flag_register.c_flag());

    flag_register.set_x_flag();

    assert_eq!(false, flag_register.s_flag());
    assert_eq!(false, flag_register.z_flag());
    assert_eq!(false, flag_register.y_flag());
    assert_eq!(false, flag_register.h_flag());
    assert_eq!(true, flag_register.x_flag());
    assert_eq!(false, flag_register.p_flag());
    assert_eq!(false, flag_register.n_flag());
    assert_eq!(false, flag_register.c_flag());

    flag_register.unset_x_flag();

    assert_eq!(false, flag_register.s_flag());
    assert_eq!(false, flag_register.z_flag());
    assert_eq!(false, flag_register.y_flag());
    assert_eq!(false, flag_register.h_flag());
    assert_eq!(false, flag_register.x_flag());
    assert_eq!(false, flag_register.p_flag());
    assert_eq!(false, flag_register.n_flag());
    assert_eq!(false, flag_register.c_flag());
}

#[test]
fn test_p_flag() {
    let mut flag_register = FlagRegister::new();

    assert_eq!(false, flag_register.s_flag());
    assert_eq!(false, flag_register.z_flag());
    assert_eq!(false, flag_register.y_flag());
    assert_eq!(false, flag_register.h_flag());
    assert_eq!(false, flag_register.x_flag());
    assert_eq!(false, flag_register.p_flag());
    assert_eq!(false, flag_register.n_flag());
    assert_eq!(false, flag_register.c_flag());

    flag_register.set_p_flag();

    assert_eq!(false, flag_register.s_flag());
    assert_eq!(false, flag_register.z_flag());
    assert_eq!(false, flag_register.y_flag());
    assert_eq!(false, flag_register.h_flag());
    assert_eq!(false, flag_register.x_flag());
    assert_eq!(true, flag_register.p_flag());
    assert_eq!(false, flag_register.n_flag());
    assert_eq!(false, flag_register.c_flag());

    flag_register.unset_p_flag();

    assert_eq!(false, flag_register.s_flag());
    assert_eq!(false, flag_register.z_flag());
    assert_eq!(false, flag_register.y_flag());
    assert_eq!(false, flag_register.h_flag());
    assert_eq!(false, flag_register.x_flag());
    assert_eq!(false, flag_register.p_flag());
    assert_eq!(false, flag_register.n_flag());
    assert_eq!(false, flag_register.c_flag());
}

#[test]
fn test_n_flag() {
    let mut flag_register = FlagRegister::new();

    assert_eq!(false, flag_register.s_flag());
    assert_eq!(false, flag_register.z_flag());
    assert_eq!(false, flag_register.y_flag());
    assert_eq!(false, flag_register.h_flag());
    assert_eq!(false, flag_register.x_flag());
    assert_eq!(false, flag_register.p_flag());
    assert_eq!(false, flag_register.n_flag());
    assert_eq!(false, flag_register.c_flag());

    flag_register.set_n_flag();

    assert_eq!(false, flag_register.s_flag());
    assert_eq!(false, flag_register.z_flag());
    assert_eq!(false, flag_register.y_flag());
    assert_eq!(false, flag_register.h_flag());
    assert_eq!(false, flag_register.x_flag());
    assert_eq!(false, flag_register.p_flag());
    assert_eq!(true, flag_register.n_flag());
    assert_eq!(false, flag_register.c_flag());

    flag_register.unset_n_flag();

    assert_eq!(false, flag_register.s_flag());
    assert_eq!(false, flag_register.z_flag());
    assert_eq!(false, flag_register.y_flag());
    assert_eq!(false, flag_register.h_flag());
    assert_eq!(false, flag_register.x_flag());
    assert_eq!(false, flag_register.p_flag());
    assert_eq!(false, flag_register.n_flag());
    assert_eq!(false, flag_register.c_flag());
}

#[test]
fn test_c_flag() {
    let mut flag_register = FlagRegister::new();

    assert_eq!(false, flag_register.s_flag());
    assert_eq!(false, flag_register.z_flag());
    assert_eq!(false, flag_register.y_flag());
    assert_eq!(false, flag_register.h_flag());
    assert_eq!(false, flag_register.x_flag());
    assert_eq!(false, flag_register.p_flag());
    assert_eq!(false, flag_register.n_flag());
    assert_eq!(false, flag_register.c_flag());

    flag_register.set_c_flag();

    assert_eq!(false, flag_register.s_flag());
    assert_eq!(false, flag_register.z_flag());
    assert_eq!(false, flag_register.y_flag());
    assert_eq!(false, flag_register.h_flag());
    assert_eq!(false, flag_register.x_flag());
    assert_eq!(false, flag_register.p_flag());
    assert_eq!(false, flag_register.n_flag());
    assert_eq!(true, flag_register.c_flag());

    flag_register.unset_c_flag();

    assert_eq!(false, flag_register.s_flag());
    assert_eq!(false, flag_register.z_flag());
    assert_eq!(false, flag_register.y_flag());
    assert_eq!(false, flag_register.h_flag());
    assert_eq!(false, flag_register.x_flag());
    assert_eq!(false, flag_register.p_flag());
    assert_eq!(false, flag_register.n_flag());
    assert_eq!(false, flag_register.c_flag());
}
