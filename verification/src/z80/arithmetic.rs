//! The arithmetic and logic unit: what each operation class computes from
//! its operands, as a result and a flag byte.

use vstd::prelude::*;
use crate::flag_register::{
    c_flag_set, flag, flag_byte, h_flag_set, n_flag_set, p_flag_set, s_flag_set, spec_flag_byte,
    z_flag_set, C_FLAG_BITMASK, H_FLAG_BITMASK, N_FLAG_BITMASK, P_FLAG_BITMASK, S_FLAG_BITMASK,
    Z_FLAG_BITMASK,
};

verus! {

/// Bit 0 of `v`.
pub open spec fn spec_bit0(v: u8) -> bool {
    v % 2 == 1
}

/// Bit 1 of `v`.
pub open spec fn spec_bit1(v: u8) -> bool {
    (v / 2) % 2 == 1
}

/// Bit 3 of `v`.
pub open spec fn spec_bit3(v: u8) -> bool {
    (v / 8) % 2 == 1
}

/// Bit 5 of `v`.
pub open spec fn spec_bit5(v: u8) -> bool {
    (v / 32) % 2 == 1
}

/// Bit 7 of `v`, the sign of a two's complement byte.
pub open spec fn spec_bit7(v: u8) -> bool {
    v >= 128
}

/// The value of bit `b`: 2 to the power `b`, for `b` below 8.
pub open spec fn spec_weight(b: u8) -> u8 {
    if b == 0 {
        1
    } else if b == 1 {
        2
    } else if b == 2 {
        4
    } else if b == 3 {
        8
    } else if b == 4 {
        16
    } else if b == 5 {
        32
    } else if b == 6 {
        64
    } else {
        128
    }
}

/// Bit `b` of `v`, for `b` below 8.
pub open spec fn spec_bit(v: u8, b: u8) -> bool {
    (v / spec_weight(b)) % 2 == 1
}

/// Whether `v` has an even number of bits set.
pub open spec fn spec_parity(v: u8) -> bool {
    (v % 2 + (v / 2) % 2 + (v / 4) % 2 + (v / 8) % 2 + (v / 16) % 2 + (v / 32) % 2 + (v / 64) % 2
        + v / 128) % 2 == 0
}

/// 1 for a set carry, 0 for a clear one.
pub open spec fn spec_carry_in(carry: bool) -> int {
    if carry {
        1
    } else {
        0
    }
}

/// `a + b + carry`: the sum modulo 256 and the flags S Z Y H X V N C, with V
/// the signed overflow and N clear.
pub open spec fn spec_add8(a: u8, b: u8, carry: bool) -> (u8, u8) {
    let sum = a + b + spec_carry_in(carry);
    let result = (sum % 256) as u8;
    (
        result,
        spec_flag_byte(
            spec_bit7(result),
            result == 0,
            spec_bit5(result),
            a % 16 + b % 16 + spec_carry_in(carry) > 15,
            spec_bit3(result),
            spec_bit7(a) == spec_bit7(b) && spec_bit7(result) != spec_bit7(a),
            false,
            sum > 255,
        ),
    )
}

/// `a - b - carry`: the difference modulo 256 and the flags S Z Y H X V N C,
/// with H and C the borrows, V the signed overflow and N set.
pub open spec fn spec_sub8(a: u8, b: u8, carry: bool) -> (u8, u8) {
    let difference = a - b - spec_carry_in(carry);
    let result = (difference % 256) as u8;
    (
        result,
        spec_flag_byte(
            spec_bit7(result),
            result == 0,
            spec_bit5(result),
            a % 16 < b % 16 + spec_carry_in(carry),
            spec_bit3(result),
            spec_bit7(a) != spec_bit7(b) && spec_bit7(result) != spec_bit7(a),
            true,
            difference < 0,
        ),
    )
}

/// The flags S Z Y H X P N C of a logical result: parity in P, `half` in H, N
/// and C clear.
pub open spec fn spec_logic_flags(result: u8, half: bool) -> u8 {
    spec_flag_byte(
        spec_bit7(result),
        result == 0,
        spec_bit5(result),
        half,
        spec_bit3(result),
        spec_parity(result),
        false,
        false,
    )
}

/// `a & b` with H set.
pub open spec fn spec_and8(a: u8, b: u8) -> (u8, u8) {
    (a & b, spec_logic_flags(a & b, true))
}

/// `a | b` with H clear.
pub open spec fn spec_or8(a: u8, b: u8) -> (u8, u8) {
    (a | b, spec_logic_flags(a | b, false))
}

/// `a ^ b` with H clear.
pub open spec fn spec_xor8(a: u8, b: u8) -> (u8, u8) {
    (a ^ b, spec_logic_flags(a ^ b, false))
}

/// The eight accumulator operations by their number in the opcode: `ADD`,
/// `ADC`, `SUB`, `SBC`, `AND`, `XOR`, `OR`, `CP`. The result is the new
/// accumulator (for `CP` the old one) and the new flags.
pub open spec fn spec_alu8(operation: u8, a: u8, operand: u8, flags: u8) -> (u8, u8) {
    let carry = flag(flags, C_FLAG_BITMASK);
    if operation == 0 {
        spec_add8(a, operand, false)
    } else if operation == 1 {
        spec_add8(a, operand, carry)
    } else if operation == 2 {
        spec_sub8(a, operand, false)
    } else if operation == 3 {
        spec_sub8(a, operand, carry)
    } else if operation == 4 {
        spec_and8(a, operand)
    } else if operation == 5 {
        spec_xor8(a, operand)
    } else if operation == 6 {
        spec_or8(a, operand)
    } else {
        (a, spec_sub8(a, operand, false).1)
    }
}

/// `v + 1` modulo 256 and the flags: S Z Y X of the result, H the carry out
/// of bit 3, V set only for `0x7F`, N clear, C as in `flags`.
pub open spec fn spec_inc8(v: u8, flags: u8) -> (u8, u8) {
    let result = ((v + 1) % 256) as u8;
    (
        result,
        spec_flag_byte(
            spec_bit7(result),
            result == 0,
            spec_bit5(result),
            v % 16 == 15,
            spec_bit3(result),
            v == 0x7F,
            false,
            flag(flags, C_FLAG_BITMASK),
        ),
    )
}

/// `v - 1` modulo 256 and the flags: S Z Y X of the result, H the borrow
/// into bit 3, V set only for `0x80`, N set, C as in `flags`.
pub open spec fn spec_dec8(v: u8, flags: u8) -> (u8, u8) {
    let result = ((v - 1) % 256) as u8;
    (
        result,
        spec_flag_byte(
            spec_bit7(result),
            result == 0,
            spec_bit5(result),
            v % 16 == 0,
            spec_bit3(result),
            v == 0x80,
            true,
            flag(flags, C_FLAG_BITMASK),
        ),
    )
}

/// `ADD HL,ss` on 16-bit values: the sum modulo 2^16 and the flags. S, Z and
/// P stay as in `flags`; Y and X are bits 13 and 11 of the sum, H the carry
/// out of bit 11, N clear, C the carry out of bit 15.
pub open spec fn spec_add16(a: u16, b: u16, flags: u8) -> (u16, u8) {
    let sum = a + b;
    let result = (sum % 0x10000) as u16;
    (
        result,
        spec_flag_byte(
            flag(flags, S_FLAG_BITMASK),
            flag(flags, Z_FLAG_BITMASK),
            spec_bit5((result / 256) as u8),
            a % 0x1000 + b % 0x1000 > 0xFFF,
            spec_bit3((result / 256) as u8),
            flag(flags, P_FLAG_BITMASK),
            false,
            sum > 0xFFFF,
        ),
    )
}

/// `ADC HL,ss`: the sum with carry modulo 2^16 and all eight flags, taken
/// from the 16-bit result, with V the signed overflow and N clear.
pub open spec fn spec_adc16(a: u16, b: u16, carry: bool) -> (u16, u8) {
    let sum = a + b + spec_carry_in(carry);
    let result = (sum % 0x10000) as u16;
    (
        result,
        spec_flag_byte(
            result >= 0x8000,
            result == 0,
            spec_bit5((result / 256) as u8),
            a % 0x1000 + b % 0x1000 + spec_carry_in(carry) > 0xFFF,
            spec_bit3((result / 256) as u8),
            (a >= 0x8000) == (b >= 0x8000) && (result >= 0x8000) != (a >= 0x8000),
            false,
            sum > 0xFFFF,
        ),
    )
}

/// `SBC HL,ss`: the difference with borrow modulo 2^16 and all eight flags,
/// taken from the 16-bit result, with V the signed overflow and N set.
pub open spec fn spec_sbc16(a: u16, b: u16, carry: bool) -> (u16, u8) {
    let difference = a - b - spec_carry_in(carry);
    let result = (difference % 0x10000) as u16;
    (
        result,
        spec_flag_byte(
            result >= 0x8000,
            result == 0,
            spec_bit5((result / 256) as u8),
            a % 0x1000 < b % 0x1000 + spec_carry_in(carry),
            spec_bit3((result / 256) as u8),
            (a >= 0x8000) != (b >= 0x8000) && (result >= 0x8000) != (a >= 0x8000),
            true,
            difference < 0,
        ),
    )
}

/// The eight rotates and shifts by their number in the opcode: `RLC`, `RRC`,
/// `RL`, `RR`, `SLA`, `SRA`, `SLL`, `SRL`. The result is the moved byte and
/// the bit that left it.
pub open spec fn spec_rotated(operation: u8, v: u8, carry: bool) -> (u8, bool) {
    if operation == 0 {
        (((v * 2) % 256 + v / 128) as u8, v >= 128)
    } else if operation == 1 {
        ((v / 2 + (v % 2) * 128) as u8, v % 2 == 1)
    } else if operation == 2 {
        (((v * 2) % 256 + spec_carry_in(carry)) as u8, v >= 128)
    } else if operation == 3 {
        ((v / 2 + spec_carry_in(carry) * 128) as u8, v % 2 == 1)
    } else if operation == 4 {
        (((v * 2) % 256) as u8, v >= 128)
    } else if operation == 5 {
        ((v / 2 + (v / 128) * 128) as u8, v % 2 == 1)
    } else if operation == 6 {
        (((v * 2) % 256 + 1) as u8, v >= 128)
    } else {
        ((v / 2) as u8, v % 2 == 1)
    }
}

/// A rotate or shift of an operand: the moved byte and the flags S Z Y X and
/// parity of it, H and N clear, C the bit that left.
pub open spec fn spec_shift8(operation: u8, v: u8, flags: u8) -> (u8, u8) {
    let (result, out) = spec_rotated(operation, v, flag(flags, C_FLAG_BITMASK));
    (
        result,
        spec_flag_byte(
            spec_bit7(result),
            result == 0,
            spec_bit5(result),
            false,
            spec_bit3(result),
            spec_parity(result),
            false,
            out,
        ),
    )
}

/// `RLCA`, `RRCA`, `RLA`, `RRA` (operations 0 to 3): the accumulator moved by
/// one bit and the flags. S, Z and P stay; Y and X are bits 5 and 3 of the
/// new accumulator, H and N clear, C the bit that left.
pub open spec fn spec_rotate_a(operation: u8, a: u8, flags: u8) -> (u8, u8) {
    let (result, out) = spec_rotated(operation, a, flag(flags, C_FLAG_BITMASK));
    (
        result,
        spec_flag_byte(
            flag(flags, S_FLAG_BITMASK),
            flag(flags, Z_FLAG_BITMASK),
            spec_bit5(result),
            false,
            spec_bit3(result),
            flag(flags, P_FLAG_BITMASK),
            false,
            out,
        ),
    )
}

/// The flags after `BIT b` on `v`: Z and P set iff the bit is clear, S set
/// iff bit 7 is tested and set, H set, N clear, C as in `flags`, X bit 3 of
/// `v`, Y bit 5 of `y_source`.
pub open spec fn spec_bit_flags(b: u8, v: u8, y_source: u8, flags: u8) -> u8 {
    spec_flag_byte(
        b == 7 && spec_bit(v, b),
        !spec_bit(v, b),
        spec_bit5(y_source),
        true,
        spec_bit3(v),
        !spec_bit(v, b),
        false,
        flag(flags, C_FLAG_BITMASK),
    )
}

/// `v` with bit `b` cleared.
pub open spec fn spec_reset_bit(b: u8, v: u8) -> u8 {
    if spec_bit(v, b) {
        (v - spec_weight(b)) as u8
    } else {
        v
    }
}

/// `v` with bit `b` set.
pub open spec fn spec_set_bit(b: u8, v: u8) -> u8 {
    if spec_bit(v, b) {
        v
    } else {
        (v + spec_weight(b)) as u8
    }
}

/// What `DAA` adds to (after an addition) or subtracts from (after a
/// subtraction) the accumulator: 6 in the low digit if it is above 9 or H is
/// set, and 6 in the high digit if the accumulator is above `0x99` or C is
/// set.
pub open spec fn spec_daa_correction(a: u8, half: bool, carry: bool) -> u8 {
    let low_digit: int = if half || a % 16 > 9 {
        0x06
    } else {
        0x00
    };
    let high_digit: int = if carry || a > 0x99 {
        0x60
    } else {
        0x00
    };
    (high_digit + low_digit) as u8
}

/// `DAA`: the accumulator adjusted to two decimal digits, and the flags. The
/// correction is added if N is clear and subtracted if it is set. S Z Y X
/// and parity come from the adjusted value; N stays; C is set iff it was set
/// or the accumulator was above `0x99`; H is the carry out of the low digit
/// (after an addition: the low digit was above 9; after a subtraction: H was
/// set and the low digit was below 6).
pub open spec fn spec_daa8(a: u8, flags: u8) -> (u8, u8) {
    let half = flag(flags, H_FLAG_BITMASK);
    let carry = flag(flags, C_FLAG_BITMASK);
    let subtract = flag(flags, N_FLAG_BITMASK);
    let correction = spec_daa_correction(a, half, carry);
    let result = if subtract {
        ((a - correction) % 256) as u8
    } else {
        ((a + correction) % 256) as u8
    };
    (
        result,
        spec_flag_byte(
            spec_bit7(result),
            result == 0,
            spec_bit5(result),
            if subtract {
                half && a % 16 < 6
            } else {
                a % 16 > 9
            },
            spec_bit3(result),
            spec_parity(result),
            subtract,
            carry || a > 0x99,
        ),
    )
}

/// The flags S Z Y X of `v` with H and N clear, `parity` in P and C as in
/// `flags`: what a load of `I` or `R`, an input and a digit rotate leave.
pub open spec fn spec_value_flags(v: u8, parity: bool, flags: u8) -> u8 {
    spec_flag_byte(
        spec_bit7(v),
        v == 0,
        spec_bit5(v),
        false,
        spec_bit3(v),
        parity,
        false,
        flag(flags, C_FLAG_BITMASK),
    )
}

/// The flags after one step of a block load that moved `data` and left
/// `counter` in `BC`: S, Z and C stay; with `n = a + data`, Y is bit 1 and X
/// bit 3 of `n`; H and N are clear; P is set iff `counter` is not 0.
pub open spec fn spec_block_load_flags(a: u8, data: u8, counter: u16, flags: u8) -> u8 {
    let n = ((a + data) % 256) as u8;
    spec_flag_byte(
        flag(flags, S_FLAG_BITMASK),
        flag(flags, Z_FLAG_BITMASK),
        spec_bit1(n),
        false,
        spec_bit3(n),
        counter != 0,
        false,
        flag(flags, C_FLAG_BITMASK),
    )
}

/// The flags after one step of a block compare of `a` with `data` that left
/// `counter` in `BC`: S and Z of `a - data`; H the borrow into bit 3; with
/// `n = a - data - H`, Y is bit 1 and X bit 3 of `n`; P is set iff `counter`
/// is not 0; N is set; C stays.
pub open spec fn spec_block_compare_flags(a: u8, data: u8, counter: u16, flags: u8) -> u8 {
    let result = ((a - data) % 256) as u8;
    let half = a % 16 < data % 16;
    let n = ((a - data - spec_carry_in(half)) % 256) as u8;
    spec_flag_byte(
        spec_bit7(result),
        a == data,
        spec_bit1(n),
        half,
        spec_bit3(n),
        counter != 0,
        true,
        flag(flags, C_FLAG_BITMASK),
    )
}

/// The flags after one step of a block input or output that left `counter`
/// in `B`: S Z Y X of `counter`, N set, and H, P and C as in `flags`.
pub open spec fn spec_block_io_flags(counter: u8, flags: u8) -> u8 {
    spec_flag_byte(
        spec_bit7(counter),
        counter == 0,
        spec_bit5(counter),
        flag(flags, H_FLAG_BITMASK),
        spec_bit3(counter),
        flag(flags, P_FLAG_BITMASK),
        true,
        flag(flags, C_FLAG_BITMASK),
    )
}

#[verifier::when_used_as_spec(spec_bit0)]
pub fn bit0(v: u8) -> (set: bool)
    ensures
        set == spec_bit0(v),
{
    v % 2 == 1
}

#[verifier::when_used_as_spec(spec_bit1)]
pub fn bit1(v: u8) -> (set: bool)
    ensures
        set == spec_bit1(v),
{
    (v / 2) % 2 == 1
}

#[verifier::when_used_as_spec(spec_bit3)]
pub fn bit3(v: u8) -> (set: bool)
    ensures
        set == spec_bit3(v),
{
    (v / 8) % 2 == 1
}

#[verifier::when_used_as_spec(spec_bit5)]
pub fn bit5(v: u8) -> (set: bool)
    ensures
        set == spec_bit5(v),
{
    (v / 32) % 2 == 1
}

#[verifier::when_used_as_spec(spec_bit7)]
pub fn bit7(v: u8) -> (set: bool)
    ensures
        set == spec_bit7(v),
{
    v >= 128
}

/// 2 to the power `b`.
#[verifier::when_used_as_spec(spec_weight)]
pub fn weight(b: u8) -> (w: u8)
    requires
        b < 8,
    ensures
        w == spec_weight(b),
        w >= 1,
{
    if b == 0 {
        1
    } else if b == 1 {
        2
    } else if b == 2 {
        4
    } else if b == 3 {
        8
    } else if b == 4 {
        16
    } else if b == 5 {
        32
    } else if b == 6 {
        64
    } else {
        128
    }
}

/// Tests bit `b` of `v`.
#[verifier::when_used_as_spec(spec_bit)]
pub fn bit(v: u8, b: u8) -> (set: bool)
    requires
        b < 8,
    ensures
        set == spec_bit(v, b),
{
    (v / weight(b)) % 2 == 1
}

/// Whether `v` has an even number of bits set.
#[verifier::when_used_as_spec(spec_parity)]
pub fn parity(v: u8) -> (even: bool)
    ensures
        even == spec_parity(v),
{
    (v % 2 + (v / 2) % 2 + (v / 4) % 2 + (v / 8) % 2 + (v / 16) % 2 + (v / 32) % 2 + (v / 64) % 2
        + v / 128) % 2 == 0
}

/// `a + b + carry` with its flags.
#[verifier::rlimit(50)]
pub fn add8(a: u8, b: u8, carry: bool) -> (out: (u8, u8))
    ensures
        out == spec_add8(a, b, carry),
{
    let carry_in: u16 = if carry { 1 } else { 0 };
    let sum: u16 = a as u16 + b as u16 + carry_in;
    let result: u8 = (sum % 256) as u8;
    let half = (a % 16) as u16 + (b % 16) as u16 + carry_in > 15;
    let overflow = bit7(a) == bit7(b) && bit7(result) != bit7(a);
    (
        result,
        flag_byte(
            bit7(result),
            result == 0,
            bit5(result),
            half,
            bit3(result),
            overflow,
            false,
            sum > 255,
        ),
    )
}

/// `a - b - carry` with its flags.
#[verifier::rlimit(50)]
pub fn sub8(a: u8, b: u8, carry: bool) -> (out: (u8, u8))
    ensures
        out == spec_sub8(a, b, carry),
{
    let carry_in: i16 = if carry { 1 } else { 0 };
    let difference: i16 = a as i16 - b as i16 - carry_in;
    let result: u8 = if difference < 0 {
        (difference + 256) as u8
    } else {
        difference as u8
    };
    let half = ((a % 16) as i16) < (b % 16) as i16 + carry_in;
    let overflow = bit7(a) != bit7(b) && bit7(result) != bit7(a);
    (
        result,
        flag_byte(
            bit7(result),
            result == 0,
            bit5(result),
            half,
            bit3(result),
            overflow,
            true,
            difference < 0,
        ),
    )
}

/// The flags of a logical result.
pub fn logic_flags(result: u8, half: bool) -> (flags: u8)
    ensures
        flags == spec_logic_flags(result, half),
{
    flag_byte(
        bit7(result),
        result == 0,
        bit5(result),
        half,
        bit3(result),
        parity(result),
        false,
        false,
    )
}

/// One of the eight accumulator operations, chosen by its number in the
/// opcode.
pub fn alu8(operation: u8, a: u8, operand: u8, flags: u8) -> (out: (u8, u8))
    ensures
        out == spec_alu8(operation, a, operand, flags),
{
    let carry = c_flag_set(&flags);
    if operation == 0 {
        add8(a, operand, false)
    } else if operation == 1 {
        add8(a, operand, carry)
    } else if operation == 2 {
        sub8(a, operand, false)
    } else if operation == 3 {
        sub8(a, operand, carry)
    } else if operation == 4 {
        (a & operand, logic_flags(a & operand, true))
    } else if operation == 5 {
        (a ^ operand, logic_flags(a ^ operand, false))
    } else if operation == 6 {
        (a | operand, logic_flags(a | operand, false))
    } else {
        (a, sub8(a, operand, false).1)
    }
}

/// `v + 1` with its flags; the carry flag stays.
pub fn inc8(v: u8, flags: u8) -> (out: (u8, u8))
    ensures
        out == spec_inc8(v, flags),
{
    let result = v.wrapping_add(1);
    (
        result,
        flag_byte(
            bit7(result),
            result == 0,
            bit5(result),
            v % 16 == 15,
            bit3(result),
            v == 0x7F,
            false,
            c_flag_set(&flags),
        ),
    )
}

/// `v - 1` with its flags; the carry flag stays.
pub fn dec8(v: u8, flags: u8) -> (out: (u8, u8))
    ensures
        out == spec_dec8(v, flags),
{
    let result = v.wrapping_sub(1);
    (
        result,
        flag_byte(
            bit7(result),
            result == 0,
            bit5(result),
            v % 16 == 0,
            bit3(result),
            v == 0x80,
            true,
            c_flag_set(&flags),
        ),
    )
}

/// The 16-bit `ADD`.
#[verifier::rlimit(50)]
pub fn add16(a: u16, b: u16, flags: u8) -> (out: (u16, u8))
    ensures
        out == spec_add16(a, b, flags),
{
    let sum: u32 = a as u32 + b as u32;
    let result: u16 = (sum % 0x10000) as u16;
    let upper: u8 = (result / 256) as u8;
    (
        result,
        flag_byte(
            s_flag_set(&flags),
            z_flag_set(&flags),
            bit5(upper),
            (a % 0x1000) as u32 + (b % 0x1000) as u32 > 0xFFF,
            bit3(upper),
            p_flag_set(&flags),
            false,
            sum > 0xFFFF,
        ),
    )
}

/// The 16-bit `ADC`.
#[verifier::rlimit(50)]
pub fn adc16(a: u16, b: u16, carry: bool) -> (out: (u16, u8))
    ensures
        out == spec_adc16(a, b, carry),
{
    let carry_in: u32 = if carry { 1 } else { 0 };
    let sum: u32 = a as u32 + b as u32 + carry_in;
    let result: u16 = (sum % 0x10000) as u16;
    let upper: u8 = (result / 256) as u8;
    (
        result,
        flag_byte(
            result >= 0x8000,
            result == 0,
            bit5(upper),
            (a % 0x1000) as u32 + (b % 0x1000) as u32 + carry_in > 0xFFF,
            bit3(upper),
            (a >= 0x8000) == (b >= 0x8000) && (result >= 0x8000) != (a >= 0x8000),
            false,
            sum > 0xFFFF,
        ),
    )
}

/// The 16-bit `SBC`.
#[verifier::rlimit(50)]
pub fn sbc16(a: u16, b: u16, carry: bool) -> (out: (u16, u8))
    ensures
        out == spec_sbc16(a, b, carry),
{
    let carry_in: i32 = if carry { 1 } else { 0 };
    let difference: i32 = a as i32 - b as i32 - carry_in;
    let result: u16 = if difference < 0 {
        (difference + 0x10000) as u16
    } else {
        difference as u16
    };
    let upper: u8 = (result / 256) as u8;
    (
        result,
        flag_byte(
            result >= 0x8000,
            result == 0,
            bit5(upper),
            ((a % 0x1000) as i32) < (b % 0x1000) as i32 + carry_in,
            bit3(upper),
            (a >= 0x8000) != (b >= 0x8000) && (result >= 0x8000) != (a >= 0x8000),
            true,
            difference < 0,
        ),
    )
}

/// Moves `v` by one bit as the rotate or shift `operation` says.
#[verifier::rlimit(50)]
pub fn rotated(operation: u8, v: u8, carry: bool) -> (out: (u8, bool))
    ensures
        out == spec_rotated(operation, v, carry),
{
    let carry_in: u8 = if carry { 1 } else { 0 };
    let doubled: u8 = ((v as u16 * 2) % 256) as u8;
    if operation == 0 {
        (doubled + v / 128, v >= 128)
    } else if operation == 1 {
        (v / 2 + (v % 2) * 128, v % 2 == 1)
    } else if operation == 2 {
        (doubled + carry_in, v >= 128)
    } else if operation == 3 {
        (v / 2 + carry_in * 128, v % 2 == 1)
    } else if operation == 4 {
        (doubled, v >= 128)
    } else if operation == 5 {
        (v / 2 + (v / 128) * 128, v % 2 == 1)
    } else if operation == 6 {
        (doubled + 1, v >= 128)
    } else {
        (v / 2, v % 2 == 1)
    }
}

/// A rotate or shift of an operand with its flags.
pub fn shift8(operation: u8, v: u8, flags: u8) -> (out: (u8, u8))
    ensures
        out == spec_shift8(operation, v, flags),
{
    let (result, carry_out) = rotated(operation, v, c_flag_set(&flags));
    (
        result,
        flag_byte(
            bit7(result),
            result == 0,
            bit5(result),
            false,
            bit3(result),
            parity(result),
            false,
            carry_out,
        ),
    )
}

/// A rotate of the accumulator with its flags.
pub fn rotate_a(operation: u8, a: u8, flags: u8) -> (out: (u8, u8))
    ensures
        out == spec_rotate_a(operation, a, flags),
{
    let (result, carry_out) = rotated(operation, a, c_flag_set(&flags));
    (
        result,
        flag_byte(
            s_flag_set(&flags),
            z_flag_set(&flags),
            bit5(result),
            false,
            bit3(result),
            p_flag_set(&flags),
            false,
            carry_out,
        ),
    )
}

/// The flags after `BIT b` on `v`.
pub fn bit_flags(b: u8, v: u8, y_source: u8, flags: u8) -> (out: u8)
    requires
        b < 8,
    ensures
        out == spec_bit_flags(b, v, y_source, flags),
{
    let set = bit(v, b);
    flag_byte(b == 7 && set, !set, bit5(y_source), true, bit3(v), !set, false, c_flag_set(&flags))
}

/// Clears bit `b` of `v`.
pub fn reset_bit(b: u8, v: u8) -> (out: u8)
    requires
        b < 8,
    ensures
        out == spec_reset_bit(b, v),
{
    if bit(v, b) {
        proof {
            lemma_bit_weight(v, b);
        }
        v - weight(b)
    } else {
        v
    }
}

/// Sets bit `b` of `v`.
pub fn set_bit(b: u8, v: u8) -> (out: u8)
    requires
        b < 8,
    ensures
        out == spec_set_bit(b, v),
{
    if bit(v, b) {
        v
    } else {
        proof {
            lemma_bit_weight(v, b);
        }
        v + weight(b)
    }
}

/// A byte is at least the weight of any bit set in it, and has room for the
/// weight of any bit clear in it.
pub proof fn lemma_bit_weight(v: u8, b: u8)
    requires
        b < 8,
    ensures
        spec_bit(v, b) ==> v >= spec_weight(b),
        !spec_bit(v, b) ==> v + spec_weight(b) <= 255,
{
}

/// `a + b` modulo 256.
pub fn add_mod(a: u8, b: u8) -> (result: u8)
    ensures
        result == ((a + b) % 256) as u8,
{
    a.wrapping_add(b)
}

/// `a - b` modulo 256.
pub fn sub_mod(a: u8, b: u8) -> (result: u8)
    ensures
        result == ((a - b) % 256) as u8,
{
    a.wrapping_sub(b)
}

/// The `DAA` correction, looked up by the four conditions it depends on.
pub fn daa_correction(a: u8, half: bool, carry: bool) -> (correction: u8)
    ensures
        correction == spec_daa_correction(a, half, carry),
{
    match (carry || a > 0x99, half || a % 16 > 9) {
        (false, false) => 0x00,
        (false, true) => 0x06,
        (true, false) => 0x60,
        (true, true) => 0x66,
    }
}

/// `DAA` on the accumulator `a` with the flags `flags`.
#[verifier::rlimit(50)]
pub fn daa8(a: u8, flags: u8) -> (out: (u8, u8))
    ensures
        out == spec_daa8(a, flags),
{
    let half = h_flag_set(&flags);
    let carry = c_flag_set(&flags);
    let subtract = n_flag_set(&flags);
    let correction = daa_correction(a, half, carry);
    let result = if subtract {
        sub_mod(a, correction)
    } else {
        add_mod(a, correction)
    };
    let new_half = if subtract {
        half && a % 16 < 6
    } else {
        a % 16 > 9
    };
    (
        result,
        flag_byte(
            bit7(result),
            result == 0,
            bit5(result),
            new_half,
            bit3(result),
            parity(result),
            subtract,
            carry || a > 0x99,
        ),
    )
}

/// The flags of a loaded or received byte.
pub fn value_flags(v: u8, parity: bool, flags: u8) -> (out: u8)
    ensures
        out == spec_value_flags(v, parity, flags),
{
    flag_byte(bit7(v), v == 0, bit5(v), false, bit3(v), parity, false, c_flag_set(&flags))
}

/// The flags after one step of a block load.
pub fn block_load_flags(a: u8, data: u8, counter: u16, flags: u8) -> (out: u8)
    ensures
        out == spec_block_load_flags(a, data, counter, flags),
{
    let n = add_mod(a, data);
    flag_byte(
        s_flag_set(&flags),
        z_flag_set(&flags),
        bit1(n),
        false,
        bit3(n),
        counter != 0,
        false,
        c_flag_set(&flags),
    )
}

/// The flags after one step of a block compare.
#[verifier::rlimit(50)]
pub fn block_compare_flags(a: u8, data: u8, counter: u16, flags: u8) -> (out: u8)
    ensures
        out == spec_block_compare_flags(a, data, counter, flags),
{
    let result = sub_mod(a, data);
    let half = a % 16 < data % 16;
    let n = if half {
        sub_mod(result, 1)
    } else {
        result
    };
    assert(n == ((a - data - spec_carry_in(half)) % 256) as u8);
    flag_byte(
        bit7(result),
        a == data,
        bit1(n),
        half,
        bit3(n),
        counter != 0,
        true,
        c_flag_set(&flags),
    )
}

/// The flags after one step of a block input or output.
pub fn block_io_flags(counter: u8, flags: u8) -> (out: u8)
    ensures
        out == spec_block_io_flags(counter, flags),
{
    flag_byte(
        bit7(counter),
        counter == 0,
        bit5(counter),
        h_flag_set(&flags),
        bit3(counter),
        p_flag_set(&flags),
        true,
        c_flag_set(&flags),
    )
}

} // verus!
