//! Laws of the instruction set: what holds of every state, and of
//! instructions in a row.

use vstd::prelude::*;
use crate::flag_register::{flag, lemma_flag_byte, C_FLAG_BITMASK, H_FLAG_BITMASK, N_FLAG_BITMASK, P_FLAG_BITMASK, S_FLAG_BITMASK, X_FLAG_BITMASK, Y_FLAG_BITMASK, Z_FLAG_BITMASK};
use crate::z80::arithmetic::{spec_adc16, spec_add16, spec_add8, spec_alu8, spec_bit3, spec_bit5, spec_daa8, spec_dec8, spec_inc8, spec_parity, spec_rotate_a, spec_rotated, spec_sbc16, spec_shift8, spec_sub8};
use crate::z80::arithmetic_group::{spec_alu_reg, spec_ccf, spec_cpl};
use crate::z80::decoder::{spec_execute, spec_execute_cb, spec_execute_ed, spec_execute_main, spec_execute_x0, spec_execute_x1, spec_execute_x2, spec_execute_x3, spec_fetched, spec_is_page_prefix, spec_step};
use crate::z80::exchange_block_transfer::{spec_block_load, spec_ex_af_afp, spec_ex_de_hl, spec_ex_mem_sp, spec_exx};
use crate::z80::operands::{spec_condition, spec_immediate, spec_index, spec_reg16, spec_reg8, spec_stack_reg16, spec_with_reg16};
use crate::z80::sixteen_bit_load_group::{spec_pop, spec_push};
use crate::z80::{byte_at, peek_word, poke_word, push_word, spec_high, spec_low, spec_pair, spec_refreshed, store_at, IndexMode, MemoryAccessor, PortAccessor, Ram, Z80};

verus! {

/// How many opcode bytes the instruction that starts with the bytes `first`
/// and `second` fetches: one, or two where `first` is a prefix; a `DD` or
/// `FD` in front of `DD`, `ED` or `FD` counts alone.
pub open spec fn spec_opcode_fetches(first: u8, second: u8) -> int {
    if first == 0xCB || first == 0xED {
        2
    } else if first == 0xDD || first == 0xFD {
        if spec_is_page_prefix(second) {
            1
        } else {
            2
        }
    } else {
        1
    }
}

/// The refresh register after `n` opcode fetches: its low seven bits count
/// up by `n` modulo 128, bit 7 stays.
pub open spec fn spec_refreshed_by(r: u8, n: int) -> u8 {
    ((r / 128) * 128 + (r % 128 + n) % 128) as u8
}

/// Whether a 16-bit value written at `address` in state `memory` is read
/// back from there, as in read-write memory.
pub open spec fn spec_word_reads_back<M: MemoryAccessor>(
    memory: M::V,
    address: u16,
    value: u16,
) -> bool {
    peek_word::<M>(poke_word::<M>(memory, address, value), address) == value
}

/// Whether a 16-bit value pushed below `stack_pointer` in state `memory` is
/// read back from there, as in read-write memory.
pub open spec fn spec_push_reads_back<M: MemoryAccessor>(
    memory: M::V,
    stack_pointer: u16,
    value: u16,
) -> bool {
    peek_word::<M>(push_word::<M>(memory, stack_pointer, value), stack_pointer.wrapping_sub(2))
        == value
}

/// The two halves of a register pair are the upper and the lower eight bits
/// of its value: loading `BC`, `DE`, `HL` with `value` puts `value >> 8` in
/// the first register and `value & 0xFF` in the second, and the pair reads
/// back as `value`.
#[verifier::rlimit(50)]
pub proof fn law_pair_views(c: Z80, p: u8, value: u16)
    requires
        p < 3,
    ensures
        spec_high(value) == (value >> 8) as u8,
        spec_low(value) == (value & 0xFF) as u8,
        spec_pair(spec_high(value), spec_low(value)) == value,
        spec_reg16(spec_with_reg16(c, p, IndexMode::HL, value), p, IndexMode::HL) == value,
        p == 0 ==> spec_with_reg16(c, p, IndexMode::HL, value).b == (value >> 8) as u8
            && spec_with_reg16(c, p, IndexMode::HL, value).c == (value & 0xFF) as u8,
        p == 1 ==> spec_with_reg16(c, p, IndexMode::HL, value).d == (value >> 8) as u8
            && spec_with_reg16(c, p, IndexMode::HL, value).e == (value & 0xFF) as u8,
        p == 2 ==> spec_with_reg16(c, p, IndexMode::HL, value).h == (value >> 8) as u8
            && spec_with_reg16(c, p, IndexMode::HL, value).l == (value & 0xFF) as u8,
{
    assert(value >> 8 == value / 256 && value & 0xFF == value % 256) by (bit_vector);
}

/// Writing one half of a pair leaves the other half as it was.
#[verifier::rlimit(50)]
pub proof fn law_half_writes(c: Z80, value: u8)
    ensures
        (Z80 { b: value, ..c }).bc() == spec_pair(value, c.c),
        (Z80 { c: value, ..c }).bc() == spec_pair(c.b, value),
        spec_high(spec_pair(value, c.c)) == value,
        spec_low(spec_pair(value, c.c)) == c.c,
{
}

/// `EX DE,HL`, `EX AF,AF'` and `EXX` are involutions: executed twice, each
/// leaves the state as it was.
#[verifier::rlimit(50)]
pub proof fn law_exchanges_are_involutions(c: Z80)
    ensures
        spec_ex_de_hl(spec_ex_de_hl(c)) == c,
        spec_ex_af_afp(spec_ex_af_afp(c)) == c,
        spec_exx(spec_exx(c)) == c,
{
}

/// `EX (SP),HL` (and its `IX` and `IY` forms) executed twice restores the
/// pair and the value on top of the stack, where the stack reads back what
/// is written to it.
#[verifier::rlimit(50)]
pub proof fn law_ex_mem_sp_twice<M: MemoryAccessor>(c: Z80, memory: M::V, idx: IndexMode)
    requires
        spec_word_reads_back::<M>(memory, c.stack_pointer, spec_index(c, idx)),
        spec_word_reads_back::<M>(
            spec_ex_mem_sp::<M>(c, memory, idx).1,
            c.stack_pointer,
            peek_word::<M>(memory, c.stack_pointer),
        ),
    ensures
        ({
            let once = spec_ex_mem_sp::<M>(c, memory, idx);
            let twice = spec_ex_mem_sp::<M>(once.0, once.1, idx);
            &&& twice.0 == c
            &&& peek_word::<M>(twice.1, c.stack_pointer) == peek_word::<M>(memory, c.stack_pointer)
        }),
{
}

/// Read-write memory that holds the two bytes at `address` reads back a
/// 16-bit value written there.
#[verifier::rlimit(50)]
pub proof fn law_ram_word_reads_back(memory: Seq<u8>, address: u16, value: u16)
    requires
        address < memory.len(),
        address.wrapping_add(1) < memory.len(),
    ensures
        spec_word_reads_back::<Ram>(memory, address, value),
{
    let upper = address.wrapping_add(1);
    let first = store_at(memory, address, spec_low(value));
    let second = store_at(first, upper, spec_high(value));
    assert(poke_word::<Ram>(memory, address, value) == second);
    assert(byte_at(second, address) == spec_low(value));
    assert(byte_at(second, upper) == spec_high(value));
    assert(peek_word::<Ram>(second, address) == spec_pair(spec_high(value), spec_low(value)));
}

/// On read-write memory that holds both bytes of the top of the stack, `EX
/// (SP),HL` executed twice restores the state and the whole memory.
#[verifier::rlimit(50)]
pub proof fn law_ex_mem_sp_twice_in_ram(c: Z80, memory: Seq<u8>, idx: IndexMode)
    requires
        c.stack_pointer < memory.len(),
        c.stack_pointer.wrapping_add(1) < memory.len(),
    ensures
        ({
            let once = spec_ex_mem_sp::<Ram>(c, memory, idx);
            let twice = spec_ex_mem_sp::<Ram>(once.0, once.1, idx);
            &&& twice.0 == c
            &&& twice.1 == memory
        }),
{
    let once = spec_ex_mem_sp::<Ram>(c, memory, idx);
    let twice = spec_ex_mem_sp::<Ram>(once.0, once.1, idx);
    assert(twice.1 =~= memory);
}

/// `PUSH qq` followed by `POP qq` restores the pair, the flags included for
/// `AF`, and the stack pointer: the whole state is as before, where the
/// stack reads back what is pushed.
#[verifier::rlimit(50)]
pub proof fn law_push_pop<M: MemoryAccessor>(c: Z80, memory: M::V, p: u8, idx: IndexMode)
    requires
        p < 4,
        spec_push_reads_back::<M>(memory, c.stack_pointer, spec_stack_reg16(c, p, idx)),
    ensures
        ({
            let pushed = spec_push::<M>(c, memory, p, idx);
            spec_pop::<M>(pushed.0, pushed.1, p, idx).0 == c
        }),
{
}

/// Read-write memory that holds the two bytes below the stack pointer reads
/// back what is pushed.
#[verifier::rlimit(50)]
pub proof fn law_ram_push_reads_back(memory: Seq<u8>, stack_pointer: u16, value: u16)
    requires
        stack_pointer.wrapping_sub(1) < memory.len(),
        stack_pointer.wrapping_sub(2) < memory.len(),
    ensures
        spec_push_reads_back::<Ram>(memory, stack_pointer, value),
{
    let upper = stack_pointer.wrapping_sub(1);
    let lower = stack_pointer.wrapping_sub(2);
    let first = store_at(memory, upper, spec_high(value));
    let second = store_at(first, lower, spec_low(value));
    assert(lower.wrapping_add(1) == upper);
    assert(push_word::<Ram>(memory, stack_pointer, value) == second);
    assert(byte_at(second, lower) == spec_low(value));
    assert(byte_at(second, upper) == spec_high(value));
    assert(peek_word::<Ram>(second, lower) == spec_pair(spec_high(value), spec_low(value)));
}

/// `ADD A,x` followed by `SUB x` restores the accumulator.
#[verifier::rlimit(50)]
pub proof fn law_add_then_sub(a: u8, x: u8)
    ensures
        spec_sub8(spec_add8(a, x, false).0, x, false).0 == a,
{
    let sum = a + x;
    let result = (sum % 256) as u8;
    assert(spec_add8(a, x, false).0 == result);
    if sum > 255 {
        assert(result == sum - 256);
        assert((result - x) % 256 == a);
    } else {
        assert(result == sum);
        assert((result - x) % 256 == a);
    }
    assert(spec_sub8(result, x, false).0 == ((result - x) % 256) as u8);
}

/// `ADD A,r` followed by `SUB r` restores the accumulator, for every
/// register `r` but the accumulator itself.
#[verifier::rlimit(50)]
pub proof fn law_add_then_sub_register(c: Z80, z: u8, idx: IndexMode)
    requires
        z < 6,
    ensures
        spec_alu_reg(spec_alu_reg(c, 0, z, idx).0, 2, z, idx).0.a == c.a,
{
    let operand = spec_reg8(c, z, idx);
    let sum = spec_add8(c.a, operand, false);
    let after = Z80 { a: sum.0, f: sum.1, ..c };
    assert(spec_alu_reg(c, 0, z, idx).0 == after);
    assert(spec_reg8(after, z, idx) == operand);
    law_add_then_sub(c.a, operand);
    assert(spec_alu_reg(after, 2, z, idx).0.a == spec_sub8(sum.0, operand, false).0);
}

/// `CPL` executed twice restores the accumulator. It leaves H and N set,
/// and S, Z, P and C as they were.
#[verifier::rlimit(50)]
pub proof fn law_cpl_twice(c: Z80)
    ensures
        spec_cpl(spec_cpl(c)).a == c.a,
        flag(spec_cpl(spec_cpl(c)).f, H_FLAG_BITMASK),
        flag(spec_cpl(spec_cpl(c)).f, N_FLAG_BITMASK),
        flag(spec_cpl(spec_cpl(c)).f, S_FLAG_BITMASK) == flag(c.f, S_FLAG_BITMASK),
        flag(spec_cpl(spec_cpl(c)).f, Z_FLAG_BITMASK) == flag(c.f, Z_FLAG_BITMASK),
        flag(spec_cpl(spec_cpl(c)).f, P_FLAG_BITMASK) == flag(c.f, P_FLAG_BITMASK),
        flag(spec_cpl(spec_cpl(c)).f, C_FLAG_BITMASK) == flag(c.f, C_FLAG_BITMASK),
{
    let once = spec_cpl(c);
    let a1 = (255 - c.a) as u8;
    lemma_flag_byte(
        flag(c.f, S_FLAG_BITMASK),
        flag(c.f, Z_FLAG_BITMASK),
        spec_bit5(a1),
        true,
        spec_bit3(a1),
        flag(c.f, P_FLAG_BITMASK),
        true,
        flag(c.f, C_FLAG_BITMASK),
    );
    lemma_flag_byte(
        flag(once.f, S_FLAG_BITMASK),
        flag(once.f, Z_FLAG_BITMASK),
        spec_bit5(c.a),
        true,
        spec_bit3(c.a),
        flag(once.f, P_FLAG_BITMASK),
        true,
        flag(once.f, C_FLAG_BITMASK),
    );
}

/// `CCF` executed twice restores C. H is then the carry that the second
/// `CCF` found, the inverse of the C before the first.
#[verifier::rlimit(50)]
pub proof fn law_ccf_twice(c: Z80)
    ensures
        flag(spec_ccf(spec_ccf(c)).f, C_FLAG_BITMASK) == flag(c.f, C_FLAG_BITMASK),
        flag(spec_ccf(spec_ccf(c)).f, H_FLAG_BITMASK) == !flag(c.f, C_FLAG_BITMASK),
        flag(spec_ccf(c).f, H_FLAG_BITMASK) == flag(c.f, C_FLAG_BITMASK),
        !flag(spec_ccf(spec_ccf(c)).f, N_FLAG_BITMASK),
        spec_ccf(spec_ccf(c)).a == c.a,
{
    let once = spec_ccf(c);
    lemma_flag_byte(
        flag(c.f, S_FLAG_BITMASK),
        flag(c.f, Z_FLAG_BITMASK),
        spec_bit5(c.a),
        flag(c.f, C_FLAG_BITMASK),
        spec_bit3(c.a),
        flag(c.f, P_FLAG_BITMASK),
        false,
        !flag(c.f, C_FLAG_BITMASK),
    );
    lemma_flag_byte(
        flag(once.f, S_FLAG_BITMASK),
        flag(once.f, Z_FLAG_BITMASK),
        spec_bit5(c.a),
        flag(once.f, C_FLAG_BITMASK),
        spec_bit3(c.a),
        flag(once.f, P_FLAG_BITMASK),
        false,
        !flag(once.f, C_FLAG_BITMASK),
    );
}

/// After each of the eight accumulator operations, X is bit 3 and Y is bit 5
/// of the result; for `CP` the result is the difference that is not stored.
#[verifier::rlimit(50)]
pub proof fn law_alu8_copies_bits(operation: u8, a: u8, operand: u8, flags: u8)
    ensures
        ({
            let out = spec_alu8(operation, a, operand, flags);
            let result = if operation >= 7 {
                spec_sub8(a, operand, false).0
            } else {
                out.0
            };
            &&& flag(out.1, X_FLAG_BITMASK) == spec_bit3(result)
            &&& flag(out.1, Y_FLAG_BITMASK) == spec_bit5(result)
            &&& flag(out.1, Z_FLAG_BITMASK) == (result == 0)
            &&& flag(out.1, S_FLAG_BITMASK) == (result >= 128)
        }),
{
    let carry = flag(flags, C_FLAG_BITMASK);
    if operation == 0 || operation == 1 {
        let cin = operation == 1 && carry;
        let sum = a + operand + (if cin {
            1int
        } else {
            0int
        });
        let r = (sum % 256) as u8;
        lemma_flag_byte(
            r >= 128,
            r == 0,
            spec_bit5(r),
            a % 16 + operand % 16 + (if cin {
                1int
            } else {
                0int
            }) > 15,
            spec_bit3(r),
            (a >= 128) == (operand >= 128) && (r >= 128) != (a >= 128),
            false,
            sum > 255,
        );
    } else if operation == 2 || operation == 3 || operation >= 7 {
        let cin = operation == 3 && carry;
        let difference = a - operand - (if cin {
            1int
        } else {
            0int
        });
        let r = (difference % 256) as u8;
        lemma_flag_byte(
            r >= 128,
            r == 0,
            spec_bit5(r),
            a % 16 < operand % 16 + (if cin {
                1int
            } else {
                0int
            }),
            spec_bit3(r),
            (a >= 128) != (operand >= 128) && (r >= 128) != (a >= 128),
            true,
            difference < 0,
        );
    } else {
        let r = if operation == 4 {
            a & operand
        } else if operation == 5 {
            a ^ operand
        } else {
            a | operand
        };
        lemma_flag_byte(
            r >= 128,
            r == 0,
            spec_bit5(r),
            operation == 4,
            spec_bit3(r),
            spec_parity(r),
            false,
            false,
        );
    }
}

/// After `INC` and `DEC`, after a rotate or shift and after `DAA`, X is bit
/// 3 and Y is bit 5 of the result; `INC` and `DEC` leave C as it was.
#[verifier::rlimit(50)]
pub proof fn law_unary_copies_bits(operation: u8, v: u8, flags: u8)
    ensures
        flag(spec_inc8(v, flags).1, X_FLAG_BITMASK) == spec_bit3(spec_inc8(v, flags).0),
        flag(spec_inc8(v, flags).1, Y_FLAG_BITMASK) == spec_bit5(spec_inc8(v, flags).0),
        flag(spec_inc8(v, flags).1, C_FLAG_BITMASK) == flag(flags, C_FLAG_BITMASK),
        flag(spec_dec8(v, flags).1, X_FLAG_BITMASK) == spec_bit3(spec_dec8(v, flags).0),
        flag(spec_dec8(v, flags).1, Y_FLAG_BITMASK) == spec_bit5(spec_dec8(v, flags).0),
        flag(spec_dec8(v, flags).1, C_FLAG_BITMASK) == flag(flags, C_FLAG_BITMASK),
        flag(spec_shift8(operation, v, flags).1, X_FLAG_BITMASK) == spec_bit3(
            spec_shift8(operation, v, flags).0,
        ),
        flag(spec_shift8(operation, v, flags).1, Y_FLAG_BITMASK) == spec_bit5(
            spec_shift8(operation, v, flags).0,
        ),
        flag(spec_rotate_a(operation, v, flags).1, X_FLAG_BITMASK) == spec_bit3(
            spec_rotate_a(operation, v, flags).0,
        ),
        flag(spec_rotate_a(operation, v, flags).1, Y_FLAG_BITMASK) == spec_bit5(
            spec_rotate_a(operation, v, flags).0,
        ),
        flag(spec_daa8(v, flags).1, X_FLAG_BITMASK) == spec_bit3(spec_daa8(v, flags).0),
        flag(spec_daa8(v, flags).1, Y_FLAG_BITMASK) == spec_bit5(spec_daa8(v, flags).0),
{
    let carry = flag(flags, C_FLAG_BITMASK);
    let up = spec_inc8(v, flags).0;
    lemma_flag_byte(up >= 128, up == 0, spec_bit5(up), v % 16 == 15, spec_bit3(up), v == 0x7F, false, carry);
    let down = spec_dec8(v, flags).0;
    lemma_flag_byte(down >= 128, down == 0, spec_bit5(down), v % 16 == 0, spec_bit3(down), v == 0x80, true, carry);
    let moved = spec_rotated(operation, v, carry);
    lemma_flag_byte(
        moved.0 >= 128,
        moved.0 == 0,
        spec_bit5(moved.0),
        false,
        spec_bit3(moved.0),
        spec_parity(moved.0),
        false,
        moved.1,
    );
    lemma_flag_byte(
        flag(flags, S_FLAG_BITMASK),
        flag(flags, Z_FLAG_BITMASK),
        spec_bit5(moved.0),
        false,
        spec_bit3(moved.0),
        flag(flags, P_FLAG_BITMASK),
        false,
        moved.1,
    );
    let half = flag(flags, H_FLAG_BITMASK);
    let subtract = flag(flags, N_FLAG_BITMASK);
    let adjusted = spec_daa8(v, flags).0;
    lemma_flag_byte(
        adjusted >= 128,
        adjusted == 0,
        spec_bit5(adjusted),
        if subtract {
            half && v % 16 < 6
        } else {
            v % 16 > 9
        },
        spec_bit3(adjusted),
        spec_parity(adjusted),
        subtract,
        carry || v > 0x99,
    );
}

/// After the 16-bit `ADD`, `ADC` and `SBC`, X is bit 11 and Y is bit 13 of
/// the result: bits 3 and 5 of its high byte.
#[verifier::rlimit(50)]
pub proof fn law_arithmetic16_copies_bits(a: u16, b: u16, flags: u8)
    ensures
        flag(spec_add16(a, b, flags).1, X_FLAG_BITMASK) == spec_bit3(
            spec_high(spec_add16(a, b, flags).0),
        ),
        flag(spec_add16(a, b, flags).1, Y_FLAG_BITMASK) == spec_bit5(
            spec_high(spec_add16(a, b, flags).0),
        ),
        flag(spec_add16(a, b, flags).1, S_FLAG_BITMASK) == flag(flags, S_FLAG_BITMASK),
        flag(spec_add16(a, b, flags).1, Z_FLAG_BITMASK) == flag(flags, Z_FLAG_BITMASK),
        flag(spec_add16(a, b, flags).1, P_FLAG_BITMASK) == flag(flags, P_FLAG_BITMASK),
        forall|carry: bool|
            flag(#[trigger] spec_adc16(a, b, carry).1, X_FLAG_BITMASK) == spec_bit3(
                spec_high(spec_adc16(a, b, carry).0),
            ) && flag(spec_adc16(a, b, carry).1, Y_FLAG_BITMASK) == spec_bit5(
                spec_high(spec_adc16(a, b, carry).0),
            ),
        forall|carry: bool|
            flag(#[trigger] spec_sbc16(a, b, carry).1, X_FLAG_BITMASK) == spec_bit3(
                spec_high(spec_sbc16(a, b, carry).0),
            ) && flag(spec_sbc16(a, b, carry).1, Y_FLAG_BITMASK) == spec_bit5(
                spec_high(spec_sbc16(a, b, carry).0),
            ),
{
    let sum = spec_add16(a, b, flags).0;
    lemma_flag_byte(
        flag(flags, S_FLAG_BITMASK),
        flag(flags, Z_FLAG_BITMASK),
        spec_bit5((sum / 256) as u8),
        a % 0x1000 + b % 0x1000 > 0xFFF,
        spec_bit3((sum / 256) as u8),
        flag(flags, P_FLAG_BITMASK),
        false,
        a + b > 0xFFFF,
    );
    assert forall|carry: bool|
        flag(#[trigger] spec_adc16(a, b, carry).1, X_FLAG_BITMASK) == spec_bit3(
            spec_high(spec_adc16(a, b, carry).0),
        ) && flag(spec_adc16(a, b, carry).1, Y_FLAG_BITMASK) == spec_bit5(
            spec_high(spec_adc16(a, b, carry).0),
        ) by {
        let cin = if carry {
            1int
        } else {
            0int
        };
        let r = spec_adc16(a, b, carry).0;
        lemma_flag_byte(
            r >= 0x8000,
            r == 0,
            spec_bit5((r / 256) as u8),
            a % 0x1000 + b % 0x1000 + cin > 0xFFF,
            spec_bit3((r / 256) as u8),
            (a >= 0x8000) == (b >= 0x8000) && (r >= 0x8000) != (a >= 0x8000),
            false,
            a + b + cin > 0xFFFF,
        );
    }
    assert forall|carry: bool|
        flag(#[trigger] spec_sbc16(a, b, carry).1, X_FLAG_BITMASK) == spec_bit3(
            spec_high(spec_sbc16(a, b, carry).0),
        ) && flag(spec_sbc16(a, b, carry).1, Y_FLAG_BITMASK) == spec_bit5(
            spec_high(spec_sbc16(a, b, carry).0),
        ) by {
        let cin = if carry {
            1int
        } else {
            0int
        };
        let r = spec_sbc16(a, b, carry).0;
        lemma_flag_byte(
            r >= 0x8000,
            r == 0,
            spec_bit5((r / 256) as u8),
            a % 0x1000 < b % 0x1000 + cin,
            spec_bit3((r / 256) as u8),
            (a >= 0x8000) != (b >= 0x8000) && (r >= 0x8000) != (a >= 0x8000),
            true,
            a - b - cin < 0,
        );
    }
}

/// One step of `LDIR` or `LDDR` does what one step of `LDI` or `LDD` does:
/// the same memory, the same registers and flags. They differ in the program
/// counter, which a repeating step moves back by 2 while `BC` is not 0, and
/// in the T-states.
#[verifier::rlimit(50)]
pub proof fn law_repeating_block_load<M: MemoryAccessor>(c: Z80, memory: M::V, increment: bool)
    ensures
        ({
            let repeated = spec_block_load::<M>(c, memory, increment, true);
            let single = spec_block_load::<M>(c, memory, increment, false);
            &&& repeated.1 == single.1
            &&& repeated.0 == (Z80 { program_counter: repeated.0.program_counter, ..single.0 })
            &&& repeated.0.program_counter == (if c.bc() == 1 {
                c.program_counter
            } else {
                c.program_counter.wrapping_sub(2)
            })
            &&& repeated.2 == (if c.bc() == 1 {
                16u8
            } else {
                21u8
            })
            &&& single.2 == 16
        }),
{
}

/// `n` steps of a block load from `c` and `memory`, each starting with the
/// program counter of `c`: the repeating forms as the processor runs them,
/// fetching their two opcode bytes again after every step that moved the
/// program counter back.
pub open spec fn spec_block_load_steps<M: MemoryAccessor>(
    c: Z80,
    memory: M::V,
    increment: bool,
    repeat: bool,
    n: nat,
) -> (Z80, M::V)
    decreases n,
{
    if n == 0 {
        (c, memory)
    } else {
        let before = spec_block_load_steps::<M>(c, memory, increment, repeat, (n - 1) as nat);
        let after = spec_block_load::<M>(before.0, before.1, increment, repeat);
        (Z80 { program_counter: c.program_counter, ..after.0 }, after.1)
    }
}

/// `LDIR` run for `n` steps leaves the same memory and the same registers
/// and flags as `n` successive `LDI`, and `LDDR` as `n` successive `LDD`.
#[verifier::rlimit(50)]
pub proof fn law_ldir_is_repeated_ldi<M: MemoryAccessor>(
    c: Z80,
    memory: M::V,
    increment: bool,
    n: nat,
)
    ensures
        spec_block_load_steps::<M>(c, memory, increment, true, n) == spec_block_load_steps::<M>(
            c,
            memory,
            increment,
            false,
            n,
        ),
    decreases n,
{
    if n > 0 {
        law_ldir_is_repeated_ldi::<M>(c, memory, increment, (n - 1) as nat);
        let before = spec_block_load_steps::<M>(c, memory, increment, false, (n - 1) as nat);
        law_repeating_block_load::<M>(before.0, before.1, increment);
    }
}

/// `LDIR` entered with `BC` 0 counts down to `0xFFFF` and repeats: 65536
/// steps pass before `BC` is 0 again.
#[verifier::rlimit(50)]
pub proof fn law_ldir_from_zero<M: MemoryAccessor>(c: Z80, memory: M::V, increment: bool)
    requires
        c.bc() == 0,
    ensures
        spec_block_load::<M>(c, memory, increment, true).0.bc() == 0xFFFF,
        spec_block_load::<M>(c, memory, increment, true).0.program_counter
            == c.program_counter.wrapping_sub(2),
        spec_block_load::<M>(c, memory, increment, true).2 == 21,
{
}

/// A conditional instruction takes the T-states of its taken form iff its
/// condition holds: `JR cc` 12 and 7, `CALL cc` 17 and 10, `RET cc` 11 and 5;
/// `JP cc` takes 10 either way. `DJNZ` takes 13 iff `B` was not 1, else 8.
/// The condition is the one that the field `y` of the opcode selects, for `JR
/// cc` the one that `y - 4` selects.
#[verifier::rlimit(50)]
pub proof fn law_conditional_t_states<M: MemoryAccessor, P: PortAccessor>(
    c: Z80,
    memory: M::V,
    ports: P::V,
    opcode: u8,
)
    ensures
        ({
            let y = ((opcode / 8) % 8) as u8;
            let t_states = spec_execute::<M, P>(c, memory, ports, opcode).3;
            &&& opcode / 64 == 0 && opcode % 8 == 0 && y >= 4 ==> t_states == (if spec_condition(
                c.f,
                (y - 4) as u8,
            ) {
                12u8
            } else {
                7u8
            })
            &&& opcode == 0x10 ==> t_states == (if c.b != 1 {
                13u8
            } else {
                8u8
            })
            &&& opcode / 64 == 3 && opcode % 8 == 0 ==> t_states == (if spec_condition(c.f, y) {
                11u8
            } else {
                5u8
            })
            &&& opcode / 64 == 3 && opcode % 8 == 2 ==> t_states == 10
            &&& opcode / 64 == 3 && opcode % 8 == 4 ==> t_states == (if spec_condition(c.f, y) {
                17u8
            } else {
                10u8
            })
        }),
{
    if opcode / 64 == 0 && opcode % 8 == 0 {
        reveal(spec_execute_x0);
    } else if opcode / 64 == 3 && (opcode % 8 == 0 || opcode % 8 == 2 || opcode % 8 == 4) {
        reveal(spec_execute_x3);
    }
}

/// An opcode of the main page leaves the refresh register as it is.
#[verifier::rlimit(50)]
pub proof fn lemma_main_keeps_refresh<M: MemoryAccessor, P: PortAccessor>(
    c: Z80,
    memory: M::V,
    ports: P::V,
    opcode: u8,
    idx: IndexMode,
)
    ensures
        spec_execute_main::<M, P>(c, memory, ports, opcode, idx).0.r == c.r,
{
    reveal(spec_execute_x1);
    reveal(spec_execute_x2);
    if opcode / 64 == 0 {
        lemma_x0_keeps_refresh::<M, P>(c, memory, ports, opcode, idx);
    } else if opcode / 64 == 1 {
        assert(spec_execute_x1::<M, P>(c, memory, ports, opcode, idx).0.r == c.r);
    } else if opcode / 64 == 2 {
        assert(spec_execute_x2::<M, P>(c, memory, ports, opcode, idx).0.r == c.r);
    } else {
        lemma_x3_keeps_refresh::<M, P>(c, memory, ports, opcode, idx);
    }
}

/// The opcodes `0x00` to `0x3F` leave the refresh register as it is.
#[verifier::rlimit(50)]
pub proof fn lemma_x0_keeps_refresh<M: MemoryAccessor, P: PortAccessor>(
    c: Z80,
    memory: M::V,
    ports: P::V,
    opcode: u8,
    idx: IndexMode,
)
    ensures
        spec_execute_x0::<M, P>(c, memory, ports, opcode, idx).0.r == c.r,
{
    reveal(spec_execute_x0);
}

/// The opcodes `0xC0` to `0xFF` leave the refresh register as it is.
#[verifier::rlimit(50)]
pub proof fn lemma_x3_keeps_refresh<M: MemoryAccessor, P: PortAccessor>(
    c: Z80,
    memory: M::V,
    ports: P::V,
    opcode: u8,
    idx: IndexMode,
)
    ensures
        spec_execute_x3::<M, P>(c, memory, ports, opcode, idx).0.r == c.r,
{
    reveal(spec_execute_x3);
}

/// What follows a `CB` prefix counts one more opcode fetch in the refresh
/// register, unless an index prefix came before.
#[verifier::rlimit(50)]
pub proof fn lemma_cb_refresh<M: MemoryAccessor, P: PortAccessor>(
    c: Z80,
    memory: M::V,
    ports: P::V,
    idx: IndexMode,
)
    ensures
        spec_execute_cb::<M, P>(c, memory, ports, idx).0.r == (if idx == IndexMode::HL {
            spec_refreshed(c.r)
        } else {
            c.r
        }),
{
    reveal(spec_execute_cb);
}

/// An opcode of the `ED` page other than `LD R,A` leaves the refresh
/// register as it is.
#[verifier::rlimit(50)]
pub proof fn lemma_ed_keeps_refresh<M: MemoryAccessor, P: PortAccessor>(
    c: Z80,
    memory: M::V,
    ports: P::V,
    opcode: u8,
)
    requires
        opcode != 0x4F,
    ensures
        spec_execute_ed::<M, P>(c, memory, ports, opcode).0.r == c.r,
{
    reveal(spec_execute_ed);
}

/// One step counts each opcode byte that it fetches once in the low seven
/// bits of the refresh register and leaves bit 7 as it is: one byte for an
/// instruction without prefix, two for one with a prefix, the displacement
/// and the last byte after `DD CB` or `FD CB` not counted. A halted
/// processor counts one fetch per step. `LD R,A` loads the register and is
/// left out.
#[verifier::rlimit(50)]
pub proof fn law_refresh_counts_opcode_fetches<M: MemoryAccessor, P: PortAccessor>(
    c: Z80,
    memory: M::V,
    ports: P::V,
)
    requires
        !(!c.halted && spec_immediate::<M>(c, memory) == 0xED && spec_immediate::<M>(
            spec_fetched(c),
            memory,
        ) == 0x4F),
    ensures
        spec_step::<M, P>(c, memory, ports).0.r == spec_refreshed_by(
            c.r,
            if c.halted {
                1
            } else {
                spec_opcode_fetches(
                    spec_immediate::<M>(c, memory),
                    spec_immediate::<M>(spec_fetched(c), memory),
                )
            },
        ),
        spec_step::<M, P>(c, memory, ports).0.r / 128 == c.r / 128,
{
    let first = spec_immediate::<M>(c, memory);
    let c1 = spec_fetched(c);
    let second = spec_immediate::<M>(c1, memory);
    let c2 = spec_fetched(c1);
    assert(c1.r == spec_refreshed_by(c.r, 1));
    assert(c2.r == spec_refreshed_by(c.r, 2));
    if c.halted {
    } else if first == 0xED {
        lemma_ed_keeps_refresh::<M, P>(c2, memory, ports, second);
    } else if first == 0xDD || first == 0xFD {
        if !spec_is_page_prefix(second) {
            let idx = if first == 0xDD {
                IndexMode::IX
            } else {
                IndexMode::IY
            };
            if second == 0xCB {
                lemma_cb_refresh::<M, P>(c2, memory, ports, idx);
            } else {
                lemma_main_keeps_refresh::<M, P>(c2, memory, ports, second, idx);
            }
        }
    } else if first == 0xCB {
        lemma_cb_refresh::<M, P>(c1, memory, ports, IndexMode::HL);
    } else {
        lemma_main_keeps_refresh::<M, P>(c1, memory, ports, first, IndexMode::HL);
    }
}

} // verus!
