use vstd::prelude::*;
use crate::register::Register;

verus! {

/// Sign: a copy of bit 7 of the last result.
pub const S_FLAG_BITMASK: u8 = 0b1000_0000;

/// Zero: the last result was 0.
pub const Z_FLAG_BITMASK: u8 = 0b0100_0000;

/// A copy of bit 5 of the last result.
pub const Y_FLAG_BITMASK: u8 = 0b0010_0000;

/// Half-carry: carry or borrow between bit 3 and bit 4.
pub const H_FLAG_BITMASK: u8 = 0b0001_0000;

/// A copy of bit 3 of the last result.
pub const X_FLAG_BITMASK: u8 = 0b0000_1000;

/// Parity of the last result, or two's complement overflow.
pub const P_FLAG_BITMASK: u8 = 0b0000_0100;

/// The last operation was a subtraction.
pub const N_FLAG_BITMASK: u8 = 0b0000_0010;

/// Carry or borrow out of the most significant bit.
pub const C_FLAG_BITMASK: u8 = 0b0000_0001;

/// Whether every bit of `flag_bitmask` is set in `register`.
pub open spec fn flag(register: u8, flag_bitmask: u8) -> bool {
    flag_bitmask & register == flag_bitmask
}

/// `register` with the bits of `flag_bitmask` set (`value`) or cleared.
pub open spec fn with_flag(register: u8, flag_bitmask: u8, value: bool) -> u8 {
    if value {
        register | flag_bitmask
    } else {
        register & !flag_bitmask
    }
}

/// The flag byte whose eight bits are the given flags, from S (bit 7) down
/// to C (bit 0).
pub open spec fn spec_flag_byte(
    s: bool,
    z: bool,
    y: bool,
    h: bool,
    x: bool,
    p: bool,
    n: bool,
    c: bool,
) -> u8 {
    (if s { S_FLAG_BITMASK } else { 0u8 })
        | (if z { Z_FLAG_BITMASK } else { 0u8 })
        | (if y { Y_FLAG_BITMASK } else { 0u8 })
        | (if h { H_FLAG_BITMASK } else { 0u8 })
        | (if x { X_FLAG_BITMASK } else { 0u8 })
        | (if p { P_FLAG_BITMASK } else { 0u8 })
        | (if n { N_FLAG_BITMASK } else { 0u8 })
        | (if c { C_FLAG_BITMASK } else { 0u8 })
}

/// Builds a flag byte from its eight flags.
#[verifier::when_used_as_spec(spec_flag_byte)]
pub fn flag_byte(s: bool, z: bool, y: bool, h: bool, x: bool, p: bool, n: bool, c: bool) -> (f: u8)
    ensures
        f == spec_flag_byte(s, z, y, h, x, p, n, c),
{
    (if s { S_FLAG_BITMASK } else { 0u8 })
        | (if z { Z_FLAG_BITMASK } else { 0u8 })
        | (if y { Y_FLAG_BITMASK } else { 0u8 })
        | (if h { H_FLAG_BITMASK } else { 0u8 })
        | (if x { X_FLAG_BITMASK } else { 0u8 })
        | (if p { P_FLAG_BITMASK } else { 0u8 })
        | (if n { N_FLAG_BITMASK } else { 0u8 })
        | (if c { C_FLAG_BITMASK } else { 0u8 })
}

/// Whether every bit of `flag_bitmask` is set in `register`.
pub fn flags_set(flag_bitmask: u8, register: &u8) -> (set: bool)
    ensures
        set == flag(*register, flag_bitmask),
{
    flag_bitmask & *register == flag_bitmask
}

/// Clears the bits of `flag_bitmask` in `register` and leaves the others.
pub fn unset_flags(flag_bitmask: u8, register: &mut u8)
    ensures
        *final(register) == with_flag(*old(register), flag_bitmask, false),
{
    *register = *register & !flag_bitmask;
}

/// Sets the bits of `flag_bitmask` in `register` and leaves the others.
pub fn set_flags(flag_bitmask: u8, register: &mut u8)
    ensures
        *final(register) == with_flag(*old(register), flag_bitmask, true),
{
    *register = *register | flag_bitmask;
}

/// Assigns `value` to the bits of `flag_bitmask` in `register` and leaves
/// the others.
pub fn set_flags_with(flag_bitmask: u8, register: &mut u8, value: bool)
    ensures
        *final(register) == with_flag(*old(register), flag_bitmask, value),
{
    if value {
        set_flags(flag_bitmask, register);
    } else {
        unset_flags(flag_bitmask, register);
    }
}

/// Tests the sign flag.
pub fn s_flag_set(register: &u8) -> (set: bool)
    ensures
        set == flag(*register, S_FLAG_BITMASK),
{
    flags_set(S_FLAG_BITMASK, register)
}

/// Sets the sign flag; the other seven bits stay.
pub fn set_s_flag(register: &mut u8)
    ensures
        *final(register) == with_flag(*old(register), S_FLAG_BITMASK, true),
{
    set_flags(S_FLAG_BITMASK, register);
}

/// Clears the sign flag; the other seven bits stay.
pub fn unset_s_flag(register: &mut u8)
    ensures
        *final(register) == with_flag(*old(register), S_FLAG_BITMASK, false),
{
    unset_flags(S_FLAG_BITMASK, register);
}

/// Assigns `value` to the sign flag; the other seven bits stay.
pub fn set_s_flag_with(register: &mut u8, value: bool)
    ensures
        *final(register) == with_flag(*old(register), S_FLAG_BITMASK, value),
{
    set_flags_with(S_FLAG_BITMASK, register, value);
}

/// Tests the zero flag.
pub fn z_flag_set(register: &u8) -> (set: bool)
    ensures
        set == flag(*register, Z_FLAG_BITMASK),
{
    flags_set(Z_FLAG_BITMASK, register)
}

/// Sets the zero flag; the other seven bits stay.
pub fn set_z_flag(register: &mut u8)
    ensures
        *final(register) == with_flag(*old(register), Z_FLAG_BITMASK, true),
{
    set_flags(Z_FLAG_BITMASK, register);
}

/// Clears the zero flag; the other seven bits stay.
pub fn unset_z_flag(register: &mut u8)
    ensures
        *final(register) == with_flag(*old(register), Z_FLAG_BITMASK, false),
{
    unset_flags(Z_FLAG_BITMASK, register);
}

/// Assigns `value` to the zero flag; the other seven bits stay.
pub fn set_z_flag_with(register: &mut u8, value: bool)
    ensures
        *final(register) == with_flag(*old(register), Z_FLAG_BITMASK, value),
{
    set_flags_with(Z_FLAG_BITMASK, register, value);
}

/// Tests the bit 5 flag.
pub fn y_flag_set(register: &u8) -> (set: bool)
    ensures
        set == flag(*register, Y_FLAG_BITMASK),
{
    flags_set(Y_FLAG_BITMASK, register)
}

/// Sets the bit 5 flag; the other seven bits stay.
pub fn set_y_flag(register: &mut u8)
    ensures
        *final(register) == with_flag(*old(register), Y_FLAG_BITMASK, true),
{
    set_flags(Y_FLAG_BITMASK, register);
}

/// Clears the bit 5 flag; the other seven bits stay.
pub fn unset_y_flag(register: &mut u8)
    ensures
        *final(register) == with_flag(*old(register), Y_FLAG_BITMASK, false),
{
    unset_flags(Y_FLAG_BITMASK, register);
}

/// Assigns `value` to the bit 5 flag; the other seven bits stay.
pub fn set_y_flag_with(register: &mut u8, value: bool)
    ensures
        *final(register) == with_flag(*old(register), Y_FLAG_BITMASK, value),
{
    set_flags_with(Y_FLAG_BITMASK, register, value);
}

/// Tests the half-carry flag.
pub fn h_flag_set(register: &u8) -> (set: bool)
    ensures
        set == flag(*register, H_FLAG_BITMASK),
{
    flags_set(H_FLAG_BITMASK, register)
}

/// Sets the half-carry flag; the other seven bits stay.
pub fn set_h_flag(register: &mut u8)
    ensures
        *final(register) == with_flag(*old(register), H_FLAG_BITMASK, true),
{
    set_flags(H_FLAG_BITMASK, register);
}

/// Clears the half-carry flag; the other seven bits stay.
pub fn unset_h_flag(register: &mut u8)
    ensures
        *final(register) == with_flag(*old(register), H_FLAG_BITMASK, false),
{
    unset_flags(H_FLAG_BITMASK, register);
}

/// Assigns `value` to the half-carry flag; the other seven bits stay.
pub fn set_h_flag_with(register: &mut u8, value: bool)
    ensures
        *final(register) == with_flag(*old(register), H_FLAG_BITMASK, value),
{
    set_flags_with(H_FLAG_BITMASK, register, value);
}

/// Tests the bit 3 flag.
pub fn x_flag_set(register: &u8) -> (set: bool)
    ensures
        set == flag(*register, X_FLAG_BITMASK),
{
    flags_set(X_FLAG_BITMASK, register)
}

/// Sets the bit 3 flag; the other seven bits stay.
pub fn set_x_flag(register: &mut u8)
    ensures
        *final(register) == with_flag(*old(register), X_FLAG_BITMASK, true),
{
    set_flags(X_FLAG_BITMASK, register);
}

/// Clears the bit 3 flag; the other seven bits stay.
pub fn unset_x_flag(register: &mut u8)
    ensures
        *final(register) == with_flag(*old(register), X_FLAG_BITMASK, false),
{
    unset_flags(X_FLAG_BITMASK, register);
}

/// Assigns `value` to the bit 3 flag; the other seven bits stay.
pub fn set_x_flag_with(register: &mut u8, value: bool)
    ensures
        *final(register) == with_flag(*old(register), X_FLAG_BITMASK, value),
{
    set_flags_with(X_FLAG_BITMASK, register, value);
}

/// Tests the parity/overflow flag.
pub fn p_flag_set(register: &u8) -> (set: bool)
    ensures
        set == flag(*register, P_FLAG_BITMASK),
{
    flags_set(P_FLAG_BITMASK, register)
}

/// Sets the parity/overflow flag; the other seven bits stay.
pub fn set_p_flag(register: &mut u8)
    ensures
        *final(register) == with_flag(*old(register), P_FLAG_BITMASK, true),
{
    set_flags(P_FLAG_BITMASK, register);
}

/// Clears the parity/overflow flag; the other seven bits stay.
pub fn unset_p_flag(register: &mut u8)
    ensures
        *final(register) == with_flag(*old(register), P_FLAG_BITMASK, false),
{
    unset_flags(P_FLAG_BITMASK, register);
}

/// Assigns `value` to the parity/overflow flag; the other seven bits stay.
pub fn set_p_flag_with(register: &mut u8, value: bool)
    ensures
        *final(register) == with_flag(*old(register), P_FLAG_BITMASK, value),
{
    set_flags_with(P_FLAG_BITMASK, register, value);
}

/// Tests the add/subtract flag.
pub fn n_flag_set(register: &u8) -> (set: bool)
    ensures
        set == flag(*register, N_FLAG_BITMASK),
{
    flags_set(N_FLAG_BITMASK, register)
}

/// Sets the add/subtract flag; the other seven bits stay.
pub fn set_n_flag(register: &mut u8)
    ensures
        *final(register) == with_flag(*old(register), N_FLAG_BITMASK, true),
{
    set_flags(N_FLAG_BITMASK, register);
}

/// Clears the add/subtract flag; the other seven bits stay.
pub fn unset_n_flag(register: &mut u8)
    ensures
        *final(register) == with_flag(*old(register), N_FLAG_BITMASK, false),
{
    unset_flags(N_FLAG_BITMASK, register);
}

/// Assigns `value` to the add/subtract flag; the other seven bits stay.
pub fn set_n_flag_with(register: &mut u8, value: bool)
    ensures
        *final(register) == with_flag(*old(register), N_FLAG_BITMASK, value),
{
    set_flags_with(N_FLAG_BITMASK, register, value);
}

/// Tests the carry flag.
pub fn c_flag_set(register: &u8) -> (set: bool)
    ensures
        set == flag(*register, C_FLAG_BITMASK),
{
    flags_set(C_FLAG_BITMASK, register)
}

/// Sets the carry flag; the other seven bits stay.
pub fn set_c_flag(register: &mut u8)
    ensures
        *final(register) == with_flag(*old(register), C_FLAG_BITMASK, true),
{
    set_flags(C_FLAG_BITMASK, register);
}

/// Clears the carry flag; the other seven bits stay.
pub fn unset_c_flag(register: &mut u8)
    ensures
        *final(register) == with_flag(*old(register), C_FLAG_BITMASK, false),
{
    unset_flags(C_FLAG_BITMASK, register);
}

/// Assigns `value` to the carry flag; the other seven bits stay.
pub fn set_c_flag_with(register: &mut u8, value: bool)
    ensures
        *final(register) == with_flag(*old(register), C_FLAG_BITMASK, value),
{
    set_flags_with(C_FLAG_BITMASK, register, value);
}

/// The flag register `F` as a value of its own, with one accessor per flag.
#[derive(Clone, Copy, Debug, PartialEq, Eq, Structural)]
pub struct FlagRegister {
    pub value: u8,
}

impl Register for FlagRegister {
    open spec fn value(&self) -> u8 {
        self.value
    }

    fn get(&self) -> (data: u8) {
        self.value
    }

    fn load(&mut self, r_prime: u8) {
        self.value = r_prime;
    }
}

impl FlagRegister {
    /// A flag register with every flag clear.
    pub fn new() -> (register: FlagRegister)
        ensures
            register.value == 0,
    {
        FlagRegister { value: 0 }
    }

    /// Whether every bit of `flag_bitmask` is set.
    pub fn flags(&self, flag_bitmask: u8) -> (set: bool)
        ensures
            set == flag(self.value, flag_bitmask),
    {
        flags_set(flag_bitmask, &self.value)
    }

    /// Clears the bits of `flag_bitmask` and leaves the others.
    pub fn unset_flags(&mut self, flag_bitmask: u8)
        ensures
            final(self).value == with_flag(old(self).value, flag_bitmask, false),
    {
        self.value = self.value & !flag_bitmask;
    }

    /// Sets the bits of `flag_bitmask` and leaves the others.
    pub fn set_flags(&mut self, flag_bitmask: u8)
        ensures
            final(self).value == with_flag(old(self).value, flag_bitmask, true),
    {
        self.value = self.value | flag_bitmask;
    }

    /// Tests the sign flag.
    pub fn s_flag(&self) -> (set: bool)
        ensures
            set == flag(self.value, S_FLAG_BITMASK),
    {
        self.flags(S_FLAG_BITMASK)
    }

    /// Sets the sign flag; the other seven bits stay.
    pub fn set_s_flag(&mut self)
        ensures
            final(self).value == with_flag(old(self).value, S_FLAG_BITMASK, true),
    {
        self.set_flags(S_FLAG_BITMASK);
    }

    /// Clears the sign flag; the other seven bits stay.
    pub fn unset_s_flag(&mut self)
        ensures
            final(self).value == with_flag(old(self).value, S_FLAG_BITMASK, false),
    {
        self.unset_flags(S_FLAG_BITMASK);
    }

    /// Tests the zero flag.
    pub fn z_flag(&self) -> (set: bool)
        ensures
            set == flag(self.value, Z_FLAG_BITMASK),
    {
        self.flags(Z_FLAG_BITMASK)
    }

    /// Sets the zero flag; the other seven bits stay.
    pub fn set_z_flag(&mut self)
        ensures
            final(self).value == with_flag(old(self).value, Z_FLAG_BITMASK, true),
    {
        self.set_flags(Z_FLAG_BITMASK);
    }

    /// Clears the zero flag; the other seven bits stay.
    pub fn unset_z_flag(&mut self)
        ensures
            final(self).value == with_flag(old(self).value, Z_FLAG_BITMASK, false),
    {
        self.unset_flags(Z_FLAG_BITMASK);
    }

    /// Tests the bit 5 flag.
    pub fn y_flag(&self) -> (set: bool)
        ensures
            set == flag(self.value, Y_FLAG_BITMASK),
    {
        self.flags(Y_FLAG_BITMASK)
    }

    /// Sets the bit 5 flag; the other seven bits stay.
    pub fn set_y_flag(&mut self)
        ensures
            final(self).value == with_flag(old(self).value, Y_FLAG_BITMASK, true),
    {
        self.set_flags(Y_FLAG_BITMASK);
    }

    /// Clears the bit 5 flag; the other seven bits stay.
    pub fn unset_y_flag(&mut self)
        ensures
            final(self).value == with_flag(old(self).value, Y_FLAG_BITMASK, false),
    {
        self.unset_flags(Y_FLAG_BITMASK);
    }

    /// Tests the half-carry flag.
    pub fn h_flag(&self) -> (set: bool)
        ensures
            set == flag(self.value, H_FLAG_BITMASK),
    {
        self.flags(H_FLAG_BITMASK)
    }

    /// Sets the half-carry flag; the other seven bits stay.
    pub fn set_h_flag(&mut self)
        ensures
            final(self).value == with_flag(old(self).value, H_FLAG_BITMASK, true),
    {
        self.set_flags(H_FLAG_BITMASK);
    }

    /// Clears the half-carry flag; the other seven bits stay.
    pub fn unset_h_flag(&mut self)
        ensures
            final(self).value == with_flag(old(self).value, H_FLAG_BITMASK, false),
    {
        self.unset_flags(H_FLAG_BITMASK);
    }

    /// Tests the bit 3 flag.
    pub fn x_flag(&self) -> (set: bool)
        ensures
            set == flag(self.value, X_FLAG_BITMASK),
    {
        self.flags(X_FLAG_BITMASK)
    }

    /// Sets the bit 3 flag; the other seven bits stay.
    pub fn set_x_flag(&mut self)
        ensures
            final(self).value == with_flag(old(self).value, X_FLAG_BITMASK, true),
    {
        self.set_flags(X_FLAG_BITMASK);
    }

    /// Clears the bit 3 flag; the other seven bits stay.
    pub fn unset_x_flag(&mut self)
        ensures
            final(self).value == with_flag(old(self).value, X_FLAG_BITMASK, false),
    {
        self.unset_flags(X_FLAG_BITMASK);
    }

    /// Tests the parity/overflow flag.
    pub fn p_flag(&self) -> (set: bool)
        ensures
            set == flag(self.value, P_FLAG_BITMASK),
    {
        self.flags(P_FLAG_BITMASK)
    }

    /// Sets the parity/overflow flag; the other seven bits stay.
    pub fn set_p_flag(&mut self)
        ensures
            final(self).value == with_flag(old(self).value, P_FLAG_BITMASK, true),
    {
        self.set_flags(P_FLAG_BITMASK);
    }

    /// Clears the parity/overflow flag; the other seven bits stay.
    pub fn unset_p_flag(&mut self)
        ensures
            final(self).value == with_flag(old(self).value, P_FLAG_BITMASK, false),
    {
        self.unset_flags(P_FLAG_BITMASK);
    }

    /// Tests the add/subtract flag.
    pub fn n_flag(&self) -> (set: bool)
        ensures
            set == flag(self.value, N_FLAG_BITMASK),
    {
        self.flags(N_FLAG_BITMASK)
    }

    /// Sets the add/subtract flag; the other seven bits stay.
    pub fn set_n_flag(&mut self)
        ensures
            final(self).value == with_flag(old(self).value, N_FLAG_BITMASK, true),
    {
        self.set_flags(N_FLAG_BITMASK);
    }

    /// Clears the add/subtract flag; the other seven bits stay.
    pub fn unset_n_flag(&mut self)
        ensures
            final(self).value == with_flag(old(self).value, N_FLAG_BITMASK, false),
    {
        self.unset_flags(N_FLAG_BITMASK);
    }

    /// Tests the carry flag.
    pub fn c_flag(&self) -> (set: bool)
        ensures
            set == flag(self.value, C_FLAG_BITMASK),
    {
        self.flags(C_FLAG_BITMASK)
    }

    /// Sets the carry flag; the other seven bits stay.
    pub fn set_c_flag(&mut self)
        ensures
            final(self).value == with_flag(old(self).value, C_FLAG_BITMASK, true),
    {
        self.set_flags(C_FLAG_BITMASK);
    }

    /// Clears the carry flag; the other seven bits stay.
    pub fn unset_c_flag(&mut self)
        ensures
            final(self).value == with_flag(old(self).value, C_FLAG_BITMASK, false),
    {
        self.unset_flags(C_FLAG_BITMASK);
    }

}

/// Assigning a flag makes its test return the assigned value and changes no
/// bit outside the mask.
pub proof fn lemma_with_flag(register: u8, flag_bitmask: u8, value: bool)
    requires
        flag_bitmask != 0,
    ensures
        flag(with_flag(register, flag_bitmask, value), flag_bitmask) == value,
        with_flag(register, flag_bitmask, value) & !flag_bitmask == register & !flag_bitmask,
{
    assert(flag_bitmask != 0 ==> flag_bitmask & (register | flag_bitmask) == flag_bitmask
        && flag_bitmask & (register & !flag_bitmask) != flag_bitmask
        && (register | flag_bitmask) & !flag_bitmask == register & !flag_bitmask
        && (register & !flag_bitmask) & !flag_bitmask == register & !flag_bitmask)
        by (bit_vector);
}

/// Assigning one of the eight flags leaves the tests of the other seven as
/// they were: two different single-bit masks never interfere.
pub proof fn lemma_with_flag_other(register: u8, i: u8, j: u8, value: bool)
    requires
        i < 8,
        j < 8,
        i != j,
    ensures
        flag(with_flag(register, 1u8 << i, value), 1u8 << j) == flag(register, 1u8 << j),
{
    assert(i < 8 && j < 8 && i != j ==> ((1u8 << j) & (register | (1u8 << i)) == (1u8 << j)) == ((
    1u8 << j) & register == (1u8 << j)) && ((1u8 << j) & (register & !(1u8 << i)) == (1u8 << j))
        == ((1u8 << j) & register == (1u8 << j))) by (bit_vector);
}

/// Reading any flag of a built flag byte gives back the flag it was built
/// from.
pub proof fn lemma_flag_byte(s: bool, z: bool, y: bool, h: bool, x: bool, p: bool, n: bool, c: bool)
    ensures
        flag(spec_flag_byte(s, z, y, h, x, p, n, c), S_FLAG_BITMASK) == s,
        flag(spec_flag_byte(s, z, y, h, x, p, n, c), Z_FLAG_BITMASK) == z,
        flag(spec_flag_byte(s, z, y, h, x, p, n, c), Y_FLAG_BITMASK) == y,
        flag(spec_flag_byte(s, z, y, h, x, p, n, c), H_FLAG_BITMASK) == h,
        flag(spec_flag_byte(s, z, y, h, x, p, n, c), X_FLAG_BITMASK) == x,
        flag(spec_flag_byte(s, z, y, h, x, p, n, c), P_FLAG_BITMASK) == p,
        flag(spec_flag_byte(s, z, y, h, x, p, n, c), N_FLAG_BITMASK) == n,
        flag(spec_flag_byte(s, z, y, h, x, p, n, c), C_FLAG_BITMASK) == c,
{
    let b7: u8 = if s { 0x80 } else { 0 };
    let b6: u8 = if z { 0x40 } else { 0 };
    let b5: u8 = if y { 0x20 } else { 0 };
    let b4: u8 = if h { 0x10 } else { 0 };
    let b3: u8 = if x { 0x08 } else { 0 };
    let b2: u8 = if p { 0x04 } else { 0 };
    let b1: u8 = if n { 0x02 } else { 0 };
    let b0: u8 = if c { 0x01 } else { 0 };
    let f = b7 | b6 | b5 | b4 | b3 | b2 | b1 | b0;
    assert((b7 == 0 || b7 == 0x80) && (b6 == 0 || b6 == 0x40) && (b5 == 0 || b5 == 0x20) && (b4
        == 0 || b4 == 0x10) && (b3 == 0 || b3 == 0x08) && (b2 == 0 || b2 == 0x04) && (b1 == 0
        || b1 == 0x02) && (b0 == 0 || b0 == 0x01) && f == b7 | b6 | b5 | b4 | b3 | b2 | b1 | b0
        ==> (0x80 & f == 0x80) == (b7 == 0x80) && (0x40 & f == 0x40) == (b6 == 0x40) && (0x20 & f
        == 0x20) == (b5 == 0x20) && (0x10 & f == 0x10) == (b4 == 0x10) && (0x08 & f == 0x08) == (
    b3 == 0x08) && (0x04 & f == 0x04) == (b2 == 0x04) && (0x02 & f == 0x02) == (b1 == 0x02) && (
    0x01 & f == 0x01) == (b0 == 0x01)) by (bit_vector);
}

} // verus!
