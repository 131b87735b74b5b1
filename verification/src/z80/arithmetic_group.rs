//! 8-bit arithmetic and logic, general-purpose arithmetic and CPU control,
//! and 16-bit arithmetic groups.

use vstd::prelude::*;
use crate::flag_register::{
    c_flag_set, flag, flag_byte, p_flag_set, s_flag_set, spec_flag_byte, z_flag_set,
    C_FLAG_BITMASK, P_FLAG_BITMASK, S_FLAG_BITMASK, Z_FLAG_BITMASK,
};
use crate::z80::arithmetic::{
    adc16, add16, alu8, bit3, bit5, daa8, dec8, inc8, sbc16, spec_adc16, spec_add16, spec_alu8,
    spec_bit3, spec_bit5, spec_daa8, spec_dec8, spec_inc8, spec_sbc16, spec_sub8, sub8,
};
use crate::z80::operands::{
    displacement_cost, index_cost, spec_displacement_cost, spec_immediate, spec_index,
    spec_index_cost, spec_operand_address, spec_past_displacement, spec_reg16, spec_reg8,
    spec_skip, spec_with_index, spec_with_reg16, spec_with_reg8,
};
use crate::z80::{spec_high, spec_low, IndexMode, InterruptMode, MemoryAccessor, Z80};

verus! {

/// `ADD`, `ADC`, `SUB`, `SBC`, `AND`, `XOR`, `OR`, `CP` (operation 0 to 7) of
/// the accumulator with register `z`.
pub open spec fn spec_alu_reg(c: Z80, operation: u8, z: u8, idx: IndexMode) -> (Z80, u8) {
    let (a, f) = spec_alu8(operation, c.a, spec_reg8(c, z, idx), c.f);
    (Z80 { a, f, ..c }, (4 + spec_index_cost(idx)) as u8)
}

/// An accumulator operation with the memory operand.
pub open spec fn spec_alu_mem<M: MemoryAccessor>(
    c: Z80,
    memory: M::V,
    operation: u8,
    idx: IndexMode,
) -> (Z80, u8) {
    let operand = M::peek(memory, spec_operand_address::<M>(c, memory, idx));
    let (a, f) = spec_alu8(operation, c.a, operand, c.f);
    (Z80 { a, f, ..spec_past_displacement(c, idx) }, (7 + spec_displacement_cost(idx)) as u8)
}

/// An accumulator operation with the operand byte.
pub open spec fn spec_alu_n<M: MemoryAccessor>(c: Z80, memory: M::V, operation: u8) -> (Z80, u8) {
    let (a, f) = spec_alu8(operation, c.a, spec_immediate::<M>(c, memory), c.f);
    (Z80 { a, f, ..spec_skip(c, 1) }, 7)
}

/// `INC r` or, with `decrement`, `DEC r` on register `y`.
pub open spec fn spec_step_reg(c: Z80, y: u8, idx: IndexMode, decrement: bool) -> (Z80, u8) {
    let (result, f) = if decrement {
        spec_dec8(spec_reg8(c, y, idx), c.f)
    } else {
        spec_inc8(spec_reg8(c, y, idx), c.f)
    };
    (Z80 { f, ..spec_with_reg8(c, y, idx, result) }, (4 + spec_index_cost(idx)) as u8)
}

/// `INC` or `DEC` on the memory operand.
pub open spec fn spec_step_mem<M: MemoryAccessor>(
    c: Z80,
    memory: M::V,
    idx: IndexMode,
    decrement: bool,
) -> (Z80, M::V, u8) {
    let address = spec_operand_address::<M>(c, memory, idx);
    let (result, f) = if decrement {
        spec_dec8(M::peek(memory, address), c.f)
    } else {
        spec_inc8(M::peek(memory, address), c.f)
    };
    (
        Z80 { f, ..spec_past_displacement(c, idx) },
        M::poke(memory, address, result),
        (11 + spec_displacement_cost(idx)) as u8,
    )
}

/// `DAA`: the accumulator is adjusted to two decimal digits.
pub open spec fn spec_daa(c: Z80) -> Z80 {
    Z80 { a: spec_daa8(c.a, c.f).0, f: spec_daa8(c.a, c.f).1, ..c }
}

/// `CPL`: every bit of the accumulator is inverted. H and N are set; Y and X
/// are bits 5 and 3 of the new accumulator; S, Z, P and C stay.
pub open spec fn spec_cpl(c: Z80) -> Z80 {
    let a = (255 - c.a) as u8;
    Z80 {
        a,
        f: spec_flag_byte(
            flag(c.f, S_FLAG_BITMASK),
            flag(c.f, Z_FLAG_BITMASK),
            spec_bit5(a),
            true,
            spec_bit3(a),
            flag(c.f, P_FLAG_BITMASK),
            true,
            flag(c.f, C_FLAG_BITMASK),
        ),
        ..c
    }
}

/// `NEG`: the accumulator is subtracted from 0.
pub open spec fn spec_neg(c: Z80) -> Z80 {
    Z80 { a: spec_sub8(0, c.a, false).0, f: spec_sub8(0, c.a, false).1, ..c }
}

/// `SCF`: C is set, H and N are cleared; Y and X are bits 5 and 3 of the
/// accumulator; S, Z and P stay.
pub open spec fn spec_scf(c: Z80) -> Z80 {
    Z80 {
        f: spec_flag_byte(
            flag(c.f, S_FLAG_BITMASK),
            flag(c.f, Z_FLAG_BITMASK),
            spec_bit5(c.a),
            false,
            spec_bit3(c.a),
            flag(c.f, P_FLAG_BITMASK),
            false,
            true,
        ),
        ..c
    }
}

/// `CCF`: C is inverted and H takes the old C; N is cleared; Y and X are
/// bits 5 and 3 of the accumulator; S, Z and P stay.
pub open spec fn spec_ccf(c: Z80) -> Z80 {
    Z80 {
        f: spec_flag_byte(
            flag(c.f, S_FLAG_BITMASK),
            flag(c.f, Z_FLAG_BITMASK),
            spec_bit5(c.a),
            flag(c.f, C_FLAG_BITMASK),
            spec_bit3(c.a),
            flag(c.f, P_FLAG_BITMASK),
            false,
            !flag(c.f, C_FLAG_BITMASK),
        ),
        ..c
    }
}

/// `HALT`: the processor is halted, with the program counter back on the
/// `HALT` opcode.
pub open spec fn spec_halt(c: Z80) -> Z80 {
    Z80 { halted: true, program_counter: c.program_counter.wrapping_sub(1), ..c }
}

/// `EI` (`enabled`) and `DI`: both interrupt latches take `enabled`.
pub open spec fn spec_interrupts_enabled(c: Z80, enabled: bool) -> Z80 {
    Z80 { iff1: enabled, iff2: enabled, ..c }
}

/// The interrupt mode that field value `y` of an `IM` opcode selects: mode 0
/// for 0, 1, 4, 5, mode 1 for 2 and 6, mode 2 for 3 and 7.
pub open spec fn spec_interrupt_mode(y: u8) -> InterruptMode {
    if y % 4 == 2 {
        InterruptMode::Mode1
    } else if y % 4 == 3 {
        InterruptMode::Mode2
    } else {
        InterruptMode::Mode0
    }
}

/// `ADD HL,ss`, `ADD IX,pp`, `ADD IY,rr`: pair `p` is added to the pair that
/// stands for `HL`.
pub open spec fn spec_add_index(c: Z80, p: u8, idx: IndexMode) -> (Z80, u8) {
    let (result, f) = spec_add16(spec_index(c, idx), spec_reg16(c, p, idx), c.f);
    (Z80 { f, ..spec_with_index(c, idx, result) }, (11 + spec_index_cost(idx)) as u8)
}

/// `ADC HL,ss` or, with `subtract`, `SBC HL,ss`, with pair `p`.
pub open spec fn spec_carry_hl(c: Z80, p: u8, subtract: bool) -> (Z80, u8) {
    let (result, f) = if subtract {
        spec_sbc16(c.hl(), spec_reg16(c, p, IndexMode::HL), flag(c.f, C_FLAG_BITMASK))
    } else {
        spec_adc16(c.hl(), spec_reg16(c, p, IndexMode::HL), flag(c.f, C_FLAG_BITMASK))
    };
    (Z80 { h: spec_high(result), l: spec_low(result), f, ..c }, 15)
}

/// `INC ss` or, with `decrement`, `DEC ss` on pair `p`, modulo 2^16; no flag
/// changes.
pub open spec fn spec_step_reg16(c: Z80, p: u8, idx: IndexMode, decrement: bool) -> (Z80, u8) {
    let value = if decrement {
        spec_reg16(c, p, idx).wrapping_sub(1)
    } else {
        spec_reg16(c, p, idx).wrapping_add(1)
    };
    (spec_with_reg16(c, p, idx, value), (6 + spec_index_cost(idx)) as u8)
}

/// Chooses the interrupt mode for field value `y` of an `IM` opcode.
#[verifier::when_used_as_spec(spec_interrupt_mode)]
pub fn interrupt_mode(y: u8) -> (mode: InterruptMode)
    ensures
        mode == spec_interrupt_mode(y),
{
    if y % 4 == 2 {
        InterruptMode::Mode1
    } else if y % 4 == 3 {
        InterruptMode::Mode2
    } else {
        InterruptMode::Mode0
    }
}

impl Z80 {
    /// An accumulator operation with register `z`.
    pub fn alu_reg(&mut self, operation: u8, z: u8, idx: IndexMode) -> (t_states: u8)
        ensures
            (*final(self), t_states) == spec_alu_reg(*old(self), operation, z, idx),
    {
        let (a, f) = alu8(operation, self.a, self.reg8(z, idx), self.f);
        self.a = a;
        self.f = f;

        // T states
        4 + index_cost(idx)
    }

    /// An accumulator operation with the memory operand.
    pub fn alu_mem<M: MemoryAccessor>(&mut self, mem: &M, operation: u8, idx: IndexMode) -> (t_states: u8)
        ensures
            (*final(self), t_states) == spec_alu_mem::<M>(*old(self), mem@, operation, idx),
    {
        let address = self.operand_address(mem, idx);
        let (a, f) = alu8(operation, self.a, mem.read(address), self.f);
        self.a = a;
        self.f = f;

        // T states
        7 + displacement_cost(idx)
    }

    /// An accumulator operation with the operand byte.
    pub fn alu_n<M: MemoryAccessor>(&mut self, mem: &M, operation: u8) -> (t_states: u8)
        ensures
            (*final(self), t_states) == spec_alu_n::<M>(*old(self), mem@, operation),
    {
        let n = self.fetch_next_opcode(mem);
        let (a, f) = alu8(operation, self.a, n, self.f);
        self.a = a;
        self.f = f;

        // T states
        7
    }

    /// `INC r` or `DEC r`.
    pub fn step_reg(&mut self, y: u8, idx: IndexMode, decrement: bool) -> (t_states: u8)
        ensures
            (*final(self), t_states) == spec_step_reg(*old(self), y, idx, decrement),
    {
        let value = self.reg8(y, idx);
        let (result, f) = if decrement {
            dec8(value, self.f)
        } else {
            inc8(value, self.f)
        };
        self.set_reg8(y, idx, result);
        self.f = f;

        // T states
        4 + index_cost(idx)
    }

    /// `INC` or `DEC` on the memory operand.
    pub fn step_mem<M: MemoryAccessor>(&mut self, mem: &mut M, idx: IndexMode, decrement: bool) -> (t_states: u8)
        ensures
            (*final(self), final(mem)@, t_states) == spec_step_mem::<M>(
                *old(self),
                old(mem)@,
                idx,
                decrement,
            ),
    {
        let address = self.operand_address(mem, idx);
        let value = mem.read(address);
        let (result, f) = if decrement {
            dec8(value, self.f)
        } else {
            inc8(value, self.f)
        };
        mem.write(address, result);
        self.f = f;

        // T states
        11 + displacement_cost(idx)
    }

    // General-Purpose Arithmetic and CPU Control Groups
    /// `DAA`: adjusts the accumulator for BCD addition and subtraction.
    ///
    /// After adding 15 (BCD) and 27 (BCD) the accumulator holds `0x3C`; `DAA`
    /// adds `0x06` and leaves `0x42`.
    pub fn daa(&mut self) -> (t_states: u8)
        ensures
            *final(self) == spec_daa(*old(self)),
            t_states == 4,
    {
        let (a, f) = daa8(self.a, self.f);
        self.a = a;
        self.f = f;

        // T states
        4
    }

    /// `CPL`
    pub fn cpl(&mut self) -> (t_states: u8)
        ensures
            *final(self) == spec_cpl(*old(self)),
            t_states == 4,
    {
        self.a = 255 - self.a;
        self.f = flag_byte(
            s_flag_set(&self.f),
            z_flag_set(&self.f),
            bit5(self.a),
            true,
            bit3(self.a),
            p_flag_set(&self.f),
            true,
            c_flag_set(&self.f),
        );

        // T states
        4
    }

    /// `NEG`
    pub fn neg(&mut self) -> (t_states: u8)
        ensures
            *final(self) == spec_neg(*old(self)),
            t_states == 8,
    {
        let (a, f) = sub8(0, self.a, false);
        self.a = a;
        self.f = f;

        // T states
        8
    }

    /// `SCF`
    pub fn scf(&mut self) -> (t_states: u8)
        ensures
            *final(self) == spec_scf(*old(self)),
            t_states == 4,
    {
        self.f = flag_byte(
            s_flag_set(&self.f),
            z_flag_set(&self.f),
            bit5(self.a),
            false,
            bit3(self.a),
            p_flag_set(&self.f),
            false,
            true,
        );

        // T states
        4
    }

    /// `CCF`
    pub fn ccf(&mut self) -> (t_states: u8)
        ensures
            *final(self) == spec_ccf(*old(self)),
            t_states == 4,
    {
        let carry = c_flag_set(&self.f);
        self.f = flag_byte(
            s_flag_set(&self.f),
            z_flag_set(&self.f),
            bit5(self.a),
            carry,
            bit3(self.a),
            p_flag_set(&self.f),
            false,
            !carry,
        );

        // T states
        4
    }

    /// `HALT`
    pub fn halt(&mut self) -> (t_states: u8)
        ensures
            *final(self) == spec_halt(*old(self)),
            t_states == 4,
    {
        self.halted = true;
        self.program_counter = self.program_counter.wrapping_sub(1);

        // T states
        4
    }

    /// `DI`
    pub fn di(&mut self) -> (t_states: u8)
        ensures
            *final(self) == spec_interrupts_enabled(*old(self), false),
            t_states == 4,
    {
        self.iff1 = false;
        self.iff2 = false;

        // T states
        4
    }

    /// `EI`
    pub fn ei(&mut self) -> (t_states: u8)
        ensures
            *final(self) == spec_interrupts_enabled(*old(self), true),
            t_states == 4,
    {
        self.iff1 = true;
        self.iff2 = true;

        // T states
        4
    }

    /// `IM 0`, `IM 1`, `IM 2`
    pub fn im(&mut self, mode: InterruptMode) -> (t_states: u8)
        ensures
            *final(self) == (Z80 { interrupt_mode: mode, ..*old(self) }),
            t_states == 8,
    {
        self.interrupt_mode = mode;

        // T states
        8
    }

    /// Adds pair `p` to the pair that stands for `HL`.
    pub fn add_index(&mut self, p: u8, idx: IndexMode) -> (t_states: u8)
        ensures
            (*final(self), t_states) == spec_add_index(*old(self), p, idx),
    {
        let (result, f) = add16(self.index(idx), self.reg16(p, idx), self.f);
        self.set_index(idx, result);
        self.f = f;

        // T states
        11 + index_cost(idx)
    }

    /// `ADC HL,ss` or `SBC HL,ss`.
    pub fn carry_hl(&mut self, p: u8, subtract: bool) -> (t_states: u8)
        ensures
            (*final(self), t_states) == spec_carry_hl(*old(self), p, subtract),
    {
        let carry = c_flag_set(&self.f);
        let operand = self.reg16(p, IndexMode::HL);
        let (result, f) = if subtract {
            sbc16(self.hl(), operand, carry)
        } else {
            adc16(self.hl(), operand, carry)
        };
        self.set_hl(result);
        self.f = f;

        // T states
        15
    }

    /// `INC ss` or `DEC ss`.
    pub fn step_reg16(&mut self, p: u8, idx: IndexMode, decrement: bool) -> (t_states: u8)
        ensures
            (*final(self), t_states) == spec_step_reg16(*old(self), p, idx, decrement),
    {
        let value = if decrement {
            self.reg16(p, idx).wrapping_sub(1)
        } else {
            self.reg16(p, idx).wrapping_add(1)
        };
        self.set_reg16(p, idx, value);

        // T states
        6 + index_cost(idx)
    }
}

} // verus!
