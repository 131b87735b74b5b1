//! 8-bit load group.

use vstd::prelude::*;
use crate::z80::arithmetic::{spec_value_flags, value_flags};
use crate::z80::operands::{
    displacement_cost, index_cost, spec_displacement_cost, spec_immediate, spec_immediate_word,
    spec_index_cost, spec_operand_address, spec_past_displacement, spec_reg8, spec_skip,
    spec_with_reg8,
};
use crate::z80::{displaced, spec_displaced, IndexMode, MemoryAccessor, Z80};

verus! {

/// `LD r,r'`: register `z` is copied to register `y`.
pub open spec fn spec_ld_r_r(c: Z80, y: u8, z: u8, idx: IndexMode) -> (Z80, u8) {
    (spec_with_reg8(c, y, idx, spec_reg8(c, z, idx)), (4 + spec_index_cost(idx)) as u8)
}

/// `LD r,n`: the operand byte goes to register `y`.
pub open spec fn spec_ld_r_n<M: MemoryAccessor>(c: Z80, memory: M::V, y: u8, idx: IndexMode) -> (
    Z80,
    u8,
) {
    (
        spec_with_reg8(spec_skip(c, 1), y, idx, spec_immediate::<M>(c, memory)),
        (7 + spec_index_cost(idx)) as u8,
    )
}

/// `LD r,(HL)`, `LD r,(IX+d)`, `LD r,(IY+d)`: the memory operand goes to
/// register `y`, which is one of the plain registers also under a prefix.
pub open spec fn spec_ld_r_mem<M: MemoryAccessor>(c: Z80, memory: M::V, y: u8, idx: IndexMode) -> (
    Z80,
    u8,
) {
    (
        spec_with_reg8(
            spec_past_displacement(c, idx),
            y,
            IndexMode::HL,
            M::peek(memory, spec_operand_address::<M>(c, memory, idx)),
        ),
        (7 + spec_displacement_cost(idx)) as u8,
    )
}

/// `LD (HL),r`, `LD (IX+d),r`, `LD (IY+d),r`: register `z`, one of the plain
/// registers, is stored in the memory operand.
pub open spec fn spec_ld_mem_r<M: MemoryAccessor>(c: Z80, memory: M::V, z: u8, idx: IndexMode) -> (
    Z80,
    M::V,
    u8,
) {
    (
        spec_past_displacement(c, idx),
        M::poke(
            memory,
            spec_operand_address::<M>(c, memory, idx),
            spec_reg8(c, z, IndexMode::HL),
        ),
        (7 + spec_displacement_cost(idx)) as u8,
    )
}

/// `LD (HL),n`, `LD (IX+d),n`, `LD (IY+d),n`: the operand byte, which follows
/// the displacement, is stored in the memory operand.
pub open spec fn spec_ld_mem_n<M: MemoryAccessor>(c: Z80, memory: M::V, idx: IndexMode) -> (
    Z80,
    M::V,
    u8,
) {
    (
        spec_skip(spec_past_displacement(c, idx), 1),
        M::poke(
            memory,
            spec_operand_address::<M>(c, memory, idx),
            spec_immediate::<M>(spec_past_displacement(c, idx), memory),
        ),
        if idx == IndexMode::HL {
            10
        } else {
            19
        },
    )
}

/// `LD A,I` and `LD A,R`: `value` goes to the accumulator; S Z Y X follow
/// it, H and N are cleared, P takes `IFF2` and C stays.
pub open spec fn spec_ld_a_special(c: Z80, value: u8) -> (Z80, u8) {
    (Z80 { a: value, f: spec_value_flags(value, c.iff2, c.f), ..c }, 9)
}

impl Z80 {
    // 8-Bit Load Group
    fn ld_r_rp(r: &mut u8, r_prime: u8) -> (t_states: u8)
        ensures
            *final(r) == r_prime,
            t_states == 4,
    {
        *r = r_prime;

        // T states
        4
    }

    fn ld_r_n(r: &mut u8, n: u8) -> (t_states: u8)
        ensures
            *final(r) == n,
            t_states == 7,
    {
        *r = n;

        // T states
        7
    }

    fn ld_r_mem_hl<M: MemoryAccessor>(r: &mut u8, hl: u16, mem: &M) -> (t_states: u8)
        ensures
            *final(r) == M::peek(mem@, hl),
            t_states == 7,
    {
        let data = mem.read(hl);
        *r = data;

        // T states
        7
    }

    fn ld_r_mem_ixd<M: MemoryAccessor>(r: &mut u8, ix: u16, d: u8, mem: &M) -> (t_states: u8)
        ensures
            *final(r) == M::peek(mem@, spec_displaced(ix, d)),
            t_states == 19,
    {
        let address = displaced(ix, d);
        let data = mem.read(address);
        *r = data;

        // T states
        19
    }

    fn ld_r_mem_iyd<M: MemoryAccessor>(r: &mut u8, iy: u16, d: u8, mem: &M) -> (t_states: u8)
        ensures
            *final(r) == M::peek(mem@, spec_displaced(iy, d)),
            t_states == 19,
    {
        let address = displaced(iy, d);
        let data = mem.read(address);
        *r = data;

        // T states
        19
    }

    fn ld_mem_hl_r<M: MemoryAccessor>(hl: u16, r: u8, mem: &mut M) -> (t_states: u8)
        ensures
            final(mem)@ == M::poke(old(mem)@, hl, r),
            t_states == 7,
    {
        mem.write(hl, r);

        // T states
        7
    }

    fn ld_mem_ixd_r<M: MemoryAccessor>(ix: u16, d: u8, r: u8, mem: &mut M) -> (t_states: u8)
        ensures
            final(mem)@ == M::poke(old(mem)@, spec_displaced(ix, d), r),
            t_states == 19,
    {
        let address = displaced(ix, d);
        mem.write(address, r);

        // T states
        19
    }

    fn ld_mem_iyd_r<M: MemoryAccessor>(iy: u16, d: u8, r: u8, mem: &mut M) -> (t_states: u8)
        ensures
            final(mem)@ == M::poke(old(mem)@, spec_displaced(iy, d), r),
            t_states == 19,
    {
        let address = displaced(iy, d);
        mem.write(address, r);

        // T states
        19
    }

    /// Copies register `z` to register `y`, with the halves of `IX` or `IY`
    /// for `H` and `L` under a prefix.
    pub fn load_reg_reg(&mut self, y: u8, z: u8, idx: IndexMode) -> (t_states: u8)
        ensures
            (*final(self), t_states) == spec_ld_r_r(*old(self), y, z, idx),
    {
        let value = self.reg8(z, idx);
        self.set_reg8(y, idx, value);

        // T states
        4 + index_cost(idx)
    }

    /// Loads register `y` with the operand byte.
    pub fn load_reg_immediate<M: MemoryAccessor>(&mut self, mem: &M, y: u8, idx: IndexMode) -> (t_states: u8)
        ensures
            (*final(self), t_states) == spec_ld_r_n::<M>(*old(self), mem@, y, idx),
    {
        let n = self.fetch_next_opcode(mem);
        self.set_reg8(y, idx, n);

        // T states
        7 + index_cost(idx)
    }

    /// Loads the plain register `y` from the memory operand.
    pub fn load_reg_mem<M: MemoryAccessor>(&mut self, mem: &M, y: u8, idx: IndexMode) -> (t_states: u8)
        ensures
            (*final(self), t_states) == spec_ld_r_mem::<M>(*old(self), mem@, y, idx),
    {
        let address = self.operand_address(mem, idx);
        let data = mem.read(address);
        self.set_reg8(y, IndexMode::HL, data);

        // T states
        7 + displacement_cost(idx)
    }

    /// Stores the plain register `z` in the memory operand.
    pub fn load_mem_reg<M: MemoryAccessor>(&mut self, mem: &mut M, z: u8, idx: IndexMode) -> (t_states: u8)
        ensures
            (*final(self), final(mem)@, t_states) == spec_ld_mem_r::<M>(
                *old(self),
                old(mem)@,
                z,
                idx,
            ),
    {
        let value = self.reg8(z, IndexMode::HL);
        let address = self.operand_address(mem, idx);
        mem.write(address, value);

        // T states
        7 + displacement_cost(idx)
    }

    /// Stores the operand byte in the memory operand.
    pub fn load_mem_immediate<M: MemoryAccessor>(&mut self, mem: &mut M, idx: IndexMode) -> (t_states: u8)
        ensures
            (*final(self), final(mem)@, t_states) == spec_ld_mem_n::<M>(
                *old(self),
                old(mem)@,
                idx,
            ),
    {
        let address = self.operand_address(mem, idx);
        let n = self.fetch_next_opcode(mem);
        mem.write(address, n);

        // T states
        match idx {
            IndexMode::HL => 10,
            _ => 19,
        }
    }

    /// `LD B,B`
    pub fn ld_b_b(&mut self) -> (t_states: u8)
        ensures
            (*final(self), t_states) == spec_ld_r_r(*old(self), 0, 0, IndexMode::HL),
            *final(self) == (Z80 { b: old(self).b, ..*old(self) }),
            t_states == 4,
    {
        let r_prime = self.b;
        Z80::ld_r_rp(&mut self.b, r_prime)
    }

    /// `LD B,C`
    pub fn ld_b_c(&mut self) -> (t_states: u8)
        ensures
            (*final(self), t_states) == spec_ld_r_r(*old(self), 0, 1, IndexMode::HL),
            *final(self) == (Z80 { b: old(self).c, ..*old(self) }),
            t_states == 4,
    {
        let r_prime = self.c;
        Z80::ld_r_rp(&mut self.b, r_prime)
    }

    /// `LD B,D`
    pub fn ld_b_d(&mut self) -> (t_states: u8)
        ensures
            (*final(self), t_states) == spec_ld_r_r(*old(self), 0, 2, IndexMode::HL),
            *final(self) == (Z80 { b: old(self).d, ..*old(self) }),
            t_states == 4,
    {
        let r_prime = self.d;
        Z80::ld_r_rp(&mut self.b, r_prime)
    }

    /// `LD B,E`
    pub fn ld_b_e(&mut self) -> (t_states: u8)
        ensures
            (*final(self), t_states) == spec_ld_r_r(*old(self), 0, 3, IndexMode::HL),
            *final(self) == (Z80 { b: old(self).e, ..*old(self) }),
            t_states == 4,
    {
        let r_prime = self.e;
        Z80::ld_r_rp(&mut self.b, r_prime)
    }

    /// `LD B,H`
    pub fn ld_b_h(&mut self) -> (t_states: u8)
        ensures
            (*final(self), t_states) == spec_ld_r_r(*old(self), 0, 4, IndexMode::HL),
            *final(self) == (Z80 { b: old(self).h, ..*old(self) }),
            t_states == 4,
    {
        let r_prime = self.h;
        Z80::ld_r_rp(&mut self.b, r_prime)
    }

    /// `LD B,L`
    pub fn ld_b_l(&mut self) -> (t_states: u8)
        ensures
            (*final(self), t_states) == spec_ld_r_r(*old(self), 0, 5, IndexMode::HL),
            *final(self) == (Z80 { b: old(self).l, ..*old(self) }),
            t_states == 4,
    {
        let r_prime = self.l;
        Z80::ld_r_rp(&mut self.b, r_prime)
    }

    /// `LD B,A`
    pub fn ld_b_a(&mut self) -> (t_states: u8)
        ensures
            (*final(self), t_states) == spec_ld_r_r(*old(self), 0, 7, IndexMode::HL),
            *final(self) == (Z80 { b: old(self).a, ..*old(self) }),
            t_states == 4,
    {
        let r_prime = self.a;
        Z80::ld_r_rp(&mut self.b, r_prime)
    }

    /// `LD C,B`
    pub fn ld_c_b(&mut self) -> (t_states: u8)
        ensures
            (*final(self), t_states) == spec_ld_r_r(*old(self), 1, 0, IndexMode::HL),
            *final(self) == (Z80 { c: old(self).b, ..*old(self) }),
            t_states == 4,
    {
        let r_prime = self.b;
        Z80::ld_r_rp(&mut self.c, r_prime)
    }

    /// `LD C,C`
    pub fn ld_c_c(&mut self) -> (t_states: u8)
        ensures
            (*final(self), t_states) == spec_ld_r_r(*old(self), 1, 1, IndexMode::HL),
            *final(self) == (Z80 { c: old(self).c, ..*old(self) }),
            t_states == 4,
    {
        let r_prime = self.c;
        Z80::ld_r_rp(&mut self.c, r_prime)
    }

    /// `LD C,D`
    pub fn ld_c_d(&mut self) -> (t_states: u8)
        ensures
            (*final(self), t_states) == spec_ld_r_r(*old(self), 1, 2, IndexMode::HL),
            *final(self) == (Z80 { c: old(self).d, ..*old(self) }),
            t_states == 4,
    {
        let r_prime = self.d;
        Z80::ld_r_rp(&mut self.c, r_prime)
    }

    /// `LD C,E`
    pub fn ld_c_e(&mut self) -> (t_states: u8)
        ensures
            (*final(self), t_states) == spec_ld_r_r(*old(self), 1, 3, IndexMode::HL),
            *final(self) == (Z80 { c: old(self).e, ..*old(self) }),
            t_states == 4,
    {
        let r_prime = self.e;
        Z80::ld_r_rp(&mut self.c, r_prime)
    }

    /// `LD C,H`
    pub fn ld_c_h(&mut self) -> (t_states: u8)
        ensures
            (*final(self), t_states) == spec_ld_r_r(*old(self), 1, 4, IndexMode::HL),
            *final(self) == (Z80 { c: old(self).h, ..*old(self) }),
            t_states == 4,
    {
        let r_prime = self.h;
        Z80::ld_r_rp(&mut self.c, r_prime)
    }

    /// `LD C,L`
    pub fn ld_c_l(&mut self) -> (t_states: u8)
        ensures
            (*final(self), t_states) == spec_ld_r_r(*old(self), 1, 5, IndexMode::HL),
            *final(self) == (Z80 { c: old(self).l, ..*old(self) }),
            t_states == 4,
    {
        let r_prime = self.l;
        Z80::ld_r_rp(&mut self.c, r_prime)
    }

    /// `LD C,A`
    pub fn ld_c_a(&mut self) -> (t_states: u8)
        ensures
            (*final(self), t_states) == spec_ld_r_r(*old(self), 1, 7, IndexMode::HL),
            *final(self) == (Z80 { c: old(self).a, ..*old(self) }),
            t_states == 4,
    {
        let r_prime = self.a;
        Z80::ld_r_rp(&mut self.c, r_prime)
    }

    /// `LD D,B`
    pub fn ld_d_b(&mut self) -> (t_states: u8)
        ensures
            (*final(self), t_states) == spec_ld_r_r(*old(self), 2, 0, IndexMode::HL),
            *final(self) == (Z80 { d: old(self).b, ..*old(self) }),
            t_states == 4,
    {
        let r_prime = self.b;
        Z80::ld_r_rp(&mut self.d, r_prime)
    }

    /// `LD D,C`
    pub fn ld_d_c(&mut self) -> (t_states: u8)
        ensures
            (*final(self), t_states) == spec_ld_r_r(*old(self), 2, 1, IndexMode::HL),
            *final(self) == (Z80 { d: old(self).c, ..*old(self) }),
            t_states == 4,
    {
        let r_prime = self.c;
        Z80::ld_r_rp(&mut self.d, r_prime)
    }

    /// `LD D,D`
    pub fn ld_d_d(&mut self) -> (t_states: u8)
        ensures
            (*final(self), t_states) == spec_ld_r_r(*old(self), 2, 2, IndexMode::HL),
            *final(self) == (Z80 { d: old(self).d, ..*old(self) }),
            t_states == 4,
    {
        let r_prime = self.d;
        Z80::ld_r_rp(&mut self.d, r_prime)
    }

    /// `LD D,E`
    pub fn ld_d_e(&mut self) -> (t_states: u8)
        ensures
            (*final(self), t_states) == spec_ld_r_r(*old(self), 2, 3, IndexMode::HL),
            *final(self) == (Z80 { d: old(self).e, ..*old(self) }),
            t_states == 4,
    {
        let r_prime = self.e;
        Z80::ld_r_rp(&mut self.d, r_prime)
    }

    /// `LD D,H`
    pub fn ld_d_h(&mut self) -> (t_states: u8)
        ensures
            (*final(self), t_states) == spec_ld_r_r(*old(self), 2, 4, IndexMode::HL),
            *final(self) == (Z80 { d: old(self).h, ..*old(self) }),
            t_states == 4,
    {
        let r_prime = self.h;
        Z80::ld_r_rp(&mut self.d, r_prime)
    }

    /// `LD D,L`
    pub fn ld_d_l(&mut self) -> (t_states: u8)
        ensures
            (*final(self), t_states) == spec_ld_r_r(*old(self), 2, 5, IndexMode::HL),
            *final(self) == (Z80 { d: old(self).l, ..*old(self) }),
            t_states == 4,
    {
        let r_prime = self.l;
        Z80::ld_r_rp(&mut self.d, r_prime)
    }

    /// `LD D,A`
    pub fn ld_d_a(&mut self) -> (t_states: u8)
        ensures
            (*final(self), t_states) == spec_ld_r_r(*old(self), 2, 7, IndexMode::HL),
            *final(self) == (Z80 { d: old(self).a, ..*old(self) }),
            t_states == 4,
    {
        let r_prime = self.a;
        Z80::ld_r_rp(&mut self.d, r_prime)
    }

    /// `LD E,B`
    pub fn ld_e_b(&mut self) -> (t_states: u8)
        ensures
            (*final(self), t_states) == spec_ld_r_r(*old(self), 3, 0, IndexMode::HL),
            *final(self) == (Z80 { e: old(self).b, ..*old(self) }),
            t_states == 4,
    {
        let r_prime = self.b;
        Z80::ld_r_rp(&mut self.e, r_prime)
    }

    /// `LD E,C`
    pub fn ld_e_c(&mut self) -> (t_states: u8)
        ensures
            (*final(self), t_states) == spec_ld_r_r(*old(self), 3, 1, IndexMode::HL),
            *final(self) == (Z80 { e: old(self).c, ..*old(self) }),
            t_states == 4,
    {
        let r_prime = self.c;
        Z80::ld_r_rp(&mut self.e, r_prime)
    }

    /// `LD E,D`
    pub fn ld_e_d(&mut self) -> (t_states: u8)
        ensures
            (*final(self), t_states) == spec_ld_r_r(*old(self), 3, 2, IndexMode::HL),
            *final(self) == (Z80 { e: old(self).d, ..*old(self) }),
            t_states == 4,
    {
        let r_prime = self.d;
        Z80::ld_r_rp(&mut self.e, r_prime)
    }

    /// `LD E,E`
    pub fn ld_e_e(&mut self) -> (t_states: u8)
        ensures
            (*final(self), t_states) == spec_ld_r_r(*old(self), 3, 3, IndexMode::HL),
            *final(self) == (Z80 { e: old(self).e, ..*old(self) }),
            t_states == 4,
    {
        let r_prime = self.e;
        Z80::ld_r_rp(&mut self.e, r_prime)
    }

    /// `LD E,H`
    pub fn ld_e_h(&mut self) -> (t_states: u8)
        ensures
            (*final(self), t_states) == spec_ld_r_r(*old(self), 3, 4, IndexMode::HL),
            *final(self) == (Z80 { e: old(self).h, ..*old(self) }),
            t_states == 4,
    {
        let r_prime = self.h;
        Z80::ld_r_rp(&mut self.e, r_prime)
    }

    /// `LD E,L`
    pub fn ld_e_l(&mut self) -> (t_states: u8)
        ensures
            (*final(self), t_states) == spec_ld_r_r(*old(self), 3, 5, IndexMode::HL),
            *final(self) == (Z80 { e: old(self).l, ..*old(self) }),
            t_states == 4,
    {
        let r_prime = self.l;
        Z80::ld_r_rp(&mut self.e, r_prime)
    }

    /// `LD E,A`
    pub fn ld_e_a(&mut self) -> (t_states: u8)
        ensures
            (*final(self), t_states) == spec_ld_r_r(*old(self), 3, 7, IndexMode::HL),
            *final(self) == (Z80 { e: old(self).a, ..*old(self) }),
            t_states == 4,
    {
        let r_prime = self.a;
        Z80::ld_r_rp(&mut self.e, r_prime)
    }

    /// `LD H,B`
    pub fn ld_h_b(&mut self) -> (t_states: u8)
        ensures
            (*final(self), t_states) == spec_ld_r_r(*old(self), 4, 0, IndexMode::HL),
            *final(self) == (Z80 { h: old(self).b, ..*old(self) }),
            t_states == 4,
    {
        let r_prime = self.b;
        Z80::ld_r_rp(&mut self.h, r_prime)
    }

    /// `LD H,C`
    pub fn ld_h_c(&mut self) -> (t_states: u8)
        ensures
            (*final(self), t_states) == spec_ld_r_r(*old(self), 4, 1, IndexMode::HL),
            *final(self) == (Z80 { h: old(self).c, ..*old(self) }),
            t_states == 4,
    {
        let r_prime = self.c;
        Z80::ld_r_rp(&mut self.h, r_prime)
    }

    /// `LD H,D`
    pub fn ld_h_d(&mut self) -> (t_states: u8)
        ensures
            (*final(self), t_states) == spec_ld_r_r(*old(self), 4, 2, IndexMode::HL),
            *final(self) == (Z80 { h: old(self).d, ..*old(self) }),
            t_states == 4,
    {
        let r_prime = self.d;
        Z80::ld_r_rp(&mut self.h, r_prime)
    }

    /// `LD H,E`
    pub fn ld_h_e(&mut self) -> (t_states: u8)
        ensures
            (*final(self), t_states) == spec_ld_r_r(*old(self), 4, 3, IndexMode::HL),
            *final(self) == (Z80 { h: old(self).e, ..*old(self) }),
            t_states == 4,
    {
        let r_prime = self.e;
        Z80::ld_r_rp(&mut self.h, r_prime)
    }

    /// `LD H,H`
    pub fn ld_h_h(&mut self) -> (t_states: u8)
        ensures
            (*final(self), t_states) == spec_ld_r_r(*old(self), 4, 4, IndexMode::HL),
            *final(self) == (Z80 { h: old(self).h, ..*old(self) }),
            t_states == 4,
    {
        let r_prime = self.h;
        Z80::ld_r_rp(&mut self.h, r_prime)
    }

    /// `LD H,L`
    pub fn ld_h_l(&mut self) -> (t_states: u8)
        ensures
            (*final(self), t_states) == spec_ld_r_r(*old(self), 4, 5, IndexMode::HL),
            *final(self) == (Z80 { h: old(self).l, ..*old(self) }),
            t_states == 4,
    {
        let r_prime = self.l;
        Z80::ld_r_rp(&mut self.h, r_prime)
    }

    /// `LD H,A`
    pub fn ld_h_a(&mut self) -> (t_states: u8)
        ensures
            (*final(self), t_states) == spec_ld_r_r(*old(self), 4, 7, IndexMode::HL),
            *final(self) == (Z80 { h: old(self).a, ..*old(self) }),
            t_states == 4,
    {
        let r_prime = self.a;
        Z80::ld_r_rp(&mut self.h, r_prime)
    }

    /// `LD L,B`
    pub fn ld_l_b(&mut self) -> (t_states: u8)
        ensures
            (*final(self), t_states) == spec_ld_r_r(*old(self), 5, 0, IndexMode::HL),
            *final(self) == (Z80 { l: old(self).b, ..*old(self) }),
            t_states == 4,
    {
        let r_prime = self.b;
        Z80::ld_r_rp(&mut self.l, r_prime)
    }

    /// `LD L,C`
    pub fn ld_l_c(&mut self) -> (t_states: u8)
        ensures
            (*final(self), t_states) == spec_ld_r_r(*old(self), 5, 1, IndexMode::HL),
            *final(self) == (Z80 { l: old(self).c, ..*old(self) }),
            t_states == 4,
    {
        let r_prime = self.c;
        Z80::ld_r_rp(&mut self.l, r_prime)
    }

    /// `LD L,D`
    pub fn ld_l_d(&mut self) -> (t_states: u8)
        ensures
            (*final(self), t_states) == spec_ld_r_r(*old(self), 5, 2, IndexMode::HL),
            *final(self) == (Z80 { l: old(self).d, ..*old(self) }),
            t_states == 4,
    {
        let r_prime = self.d;
        Z80::ld_r_rp(&mut self.l, r_prime)
    }

    /// `LD L,E`
    pub fn ld_l_e(&mut self) -> (t_states: u8)
        ensures
            (*final(self), t_states) == spec_ld_r_r(*old(self), 5, 3, IndexMode::HL),
            *final(self) == (Z80 { l: old(self).e, ..*old(self) }),
            t_states == 4,
    {
        let r_prime = self.e;
        Z80::ld_r_rp(&mut self.l, r_prime)
    }

    /// `LD L,H`
    pub fn ld_l_h(&mut self) -> (t_states: u8)
        ensures
            (*final(self), t_states) == spec_ld_r_r(*old(self), 5, 4, IndexMode::HL),
            *final(self) == (Z80 { l: old(self).h, ..*old(self) }),
            t_states == 4,
    {
        let r_prime = self.h;
        Z80::ld_r_rp(&mut self.l, r_prime)
    }

    /// `LD L,L`
    pub fn ld_l_l(&mut self) -> (t_states: u8)
        ensures
            (*final(self), t_states) == spec_ld_r_r(*old(self), 5, 5, IndexMode::HL),
            *final(self) == (Z80 { l: old(self).l, ..*old(self) }),
            t_states == 4,
    {
        let r_prime = self.l;
        Z80::ld_r_rp(&mut self.l, r_prime)
    }

    /// `LD L,A`
    pub fn ld_l_a(&mut self) -> (t_states: u8)
        ensures
            (*final(self), t_states) == spec_ld_r_r(*old(self), 5, 7, IndexMode::HL),
            *final(self) == (Z80 { l: old(self).a, ..*old(self) }),
            t_states == 4,
    {
        let r_prime = self.a;
        Z80::ld_r_rp(&mut self.l, r_prime)
    }

    /// `LD A,B`
    pub fn ld_a_b(&mut self) -> (t_states: u8)
        ensures
            (*final(self), t_states) == spec_ld_r_r(*old(self), 7, 0, IndexMode::HL),
            *final(self) == (Z80 { a: old(self).b, ..*old(self) }),
            t_states == 4,
    {
        let r_prime = self.b;
        Z80::ld_r_rp(&mut self.a, r_prime)
    }

    /// `LD A,C`
    pub fn ld_a_c(&mut self) -> (t_states: u8)
        ensures
            (*final(self), t_states) == spec_ld_r_r(*old(self), 7, 1, IndexMode::HL),
            *final(self) == (Z80 { a: old(self).c, ..*old(self) }),
            t_states == 4,
    {
        let r_prime = self.c;
        Z80::ld_r_rp(&mut self.a, r_prime)
    }

    /// `LD A,D`
    pub fn ld_a_d(&mut self) -> (t_states: u8)
        ensures
            (*final(self), t_states) == spec_ld_r_r(*old(self), 7, 2, IndexMode::HL),
            *final(self) == (Z80 { a: old(self).d, ..*old(self) }),
            t_states == 4,
    {
        let r_prime = self.d;
        Z80::ld_r_rp(&mut self.a, r_prime)
    }

    /// `LD A,E`
    pub fn ld_a_e(&mut self) -> (t_states: u8)
        ensures
            (*final(self), t_states) == spec_ld_r_r(*old(self), 7, 3, IndexMode::HL),
            *final(self) == (Z80 { a: old(self).e, ..*old(self) }),
            t_states == 4,
    {
        let r_prime = self.e;
        Z80::ld_r_rp(&mut self.a, r_prime)
    }

    /// `LD A,H`
    pub fn ld_a_h(&mut self) -> (t_states: u8)
        ensures
            (*final(self), t_states) == spec_ld_r_r(*old(self), 7, 4, IndexMode::HL),
            *final(self) == (Z80 { a: old(self).h, ..*old(self) }),
            t_states == 4,
    {
        let r_prime = self.h;
        Z80::ld_r_rp(&mut self.a, r_prime)
    }

    /// `LD A,L`
    pub fn ld_a_l(&mut self) -> (t_states: u8)
        ensures
            (*final(self), t_states) == spec_ld_r_r(*old(self), 7, 5, IndexMode::HL),
            *final(self) == (Z80 { a: old(self).l, ..*old(self) }),
            t_states == 4,
    {
        let r_prime = self.l;
        Z80::ld_r_rp(&mut self.a, r_prime)
    }

    /// `LD A,A`
    pub fn ld_a_a(&mut self) -> (t_states: u8)
        ensures
            (*final(self), t_states) == spec_ld_r_r(*old(self), 7, 7, IndexMode::HL),
            *final(self) == (Z80 { a: old(self).a, ..*old(self) }),
            t_states == 4,
    {
        let r_prime = self.a;
        Z80::ld_r_rp(&mut self.a, r_prime)
    }

    /// `LD A,n`
    pub fn ld_a_n<M: MemoryAccessor>(&mut self, mem: &M) -> (t_states: u8)
        ensures
            (*final(self), t_states) == spec_ld_r_n::<M>(*old(self), mem@, 7, IndexMode::HL),
            t_states == 7,
    {
        let n = self.fetch_next_opcode(mem);
        Z80::ld_r_n(&mut self.a, n)
    }

    /// `LD B,n`
    pub fn ld_b_n<M: MemoryAccessor>(&mut self, mem: &M) -> (t_states: u8)
        ensures
            (*final(self), t_states) == spec_ld_r_n::<M>(*old(self), mem@, 0, IndexMode::HL),
            t_states == 7,
    {
        let n = self.fetch_next_opcode(mem);
        Z80::ld_r_n(&mut self.b, n)
    }

    /// `LD C,n`
    pub fn ld_c_n<M: MemoryAccessor>(&mut self, mem: &M) -> (t_states: u8)
        ensures
            (*final(self), t_states) == spec_ld_r_n::<M>(*old(self), mem@, 1, IndexMode::HL),
            t_states == 7,
    {
        let n = self.fetch_next_opcode(mem);
        Z80::ld_r_n(&mut self.c, n)
    }

    /// `LD D,n`
    pub fn ld_d_n<M: MemoryAccessor>(&mut self, mem: &M) -> (t_states: u8)
        ensures
            (*final(self), t_states) == spec_ld_r_n::<M>(*old(self), mem@, 2, IndexMode::HL),
            t_states == 7,
    {
        let n = self.fetch_next_opcode(mem);
        Z80::ld_r_n(&mut self.d, n)
    }

    /// `LD E,n`
    pub fn ld_e_n<M: MemoryAccessor>(&mut self, mem: &M) -> (t_states: u8)
        ensures
            (*final(self), t_states) == spec_ld_r_n::<M>(*old(self), mem@, 3, IndexMode::HL),
            t_states == 7,
    {
        let n = self.fetch_next_opcode(mem);
        Z80::ld_r_n(&mut self.e, n)
    }

    /// `LD H,n`
    pub fn ld_h_n<M: MemoryAccessor>(&mut self, mem: &M) -> (t_states: u8)
        ensures
            (*final(self), t_states) == spec_ld_r_n::<M>(*old(self), mem@, 4, IndexMode::HL),
            t_states == 7,
    {
        let n = self.fetch_next_opcode(mem);
        Z80::ld_r_n(&mut self.h, n)
    }

    /// `LD L,n`
    pub fn ld_l_n<M: MemoryAccessor>(&mut self, mem: &M) -> (t_states: u8)
        ensures
            (*final(self), t_states) == spec_ld_r_n::<M>(*old(self), mem@, 5, IndexMode::HL),
            t_states == 7,
    {
        let n = self.fetch_next_opcode(mem);
        Z80::ld_r_n(&mut self.l, n)
    }

    /// `LD A,(HL)`
    pub fn ld_a_mem_hl<M: MemoryAccessor>(&mut self, mem: &M) -> (t_states: u8)
        ensures
            (*final(self), t_states) == spec_ld_r_mem::<M>(*old(self), mem@, 7, IndexMode::HL),
            t_states == 7,
    {
        let hl = self.hl();
        Z80::ld_r_mem_hl(&mut self.a, hl, mem)
    }

    /// `LD B,(HL)`
    pub fn ld_b_mem_hl<M: MemoryAccessor>(&mut self, mem: &M) -> (t_states: u8)
        ensures
            (*final(self), t_states) == spec_ld_r_mem::<M>(*old(self), mem@, 0, IndexMode::HL),
            t_states == 7,
    {
        let hl = self.hl();
        Z80::ld_r_mem_hl(&mut self.b, hl, mem)
    }

    /// `LD C,(HL)`
    pub fn ld_c_mem_hl<M: MemoryAccessor>(&mut self, mem: &M) -> (t_states: u8)
        ensures
            (*final(self), t_states) == spec_ld_r_mem::<M>(*old(self), mem@, 1, IndexMode::HL),
            t_states == 7,
    {
        let hl = self.hl();
        Z80::ld_r_mem_hl(&mut self.c, hl, mem)
    }

    /// `LD D,(HL)`
    pub fn ld_d_mem_hl<M: MemoryAccessor>(&mut self, mem: &M) -> (t_states: u8)
        ensures
            (*final(self), t_states) == spec_ld_r_mem::<M>(*old(self), mem@, 2, IndexMode::HL),
            t_states == 7,
    {
        let hl = self.hl();
        Z80::ld_r_mem_hl(&mut self.d, hl, mem)
    }

    /// `LD E,(HL)`
    pub fn ld_e_mem_hl<M: MemoryAccessor>(&mut self, mem: &M) -> (t_states: u8)
        ensures
            (*final(self), t_states) == spec_ld_r_mem::<M>(*old(self), mem@, 3, IndexMode::HL),
            t_states == 7,
    {
        let hl = self.hl();
        Z80::ld_r_mem_hl(&mut self.e, hl, mem)
    }

    /// `LD H,(HL)`
    pub fn ld_h_mem_hl<M: MemoryAccessor>(&mut self, mem: &M) -> (t_states: u8)
        ensures
            (*final(self), t_states) == spec_ld_r_mem::<M>(*old(self), mem@, 4, IndexMode::HL),
            t_states == 7,
    {
        let hl = self.hl();
        Z80::ld_r_mem_hl(&mut self.h, hl, mem)
    }

    /// `LD L,(HL)`
    pub fn ld_l_mem_hl<M: MemoryAccessor>(&mut self, mem: &M) -> (t_states: u8)
        ensures
            (*final(self), t_states) == spec_ld_r_mem::<M>(*old(self), mem@, 5, IndexMode::HL),
            t_states == 7,
    {
        let hl = self.hl();
        Z80::ld_r_mem_hl(&mut self.l, hl, mem)
    }

    /// `LD A,(IX+d)`
    pub fn ld_a_mem_ixd<M: MemoryAccessor>(&mut self, mem: &M) -> (t_states: u8)
        ensures
            (*final(self), t_states) == spec_ld_r_mem::<M>(*old(self), mem@, 7, IndexMode::IX),
            t_states == 19,
    {
        let d = self.fetch_next_opcode(mem);
        let ix = self.ix;
        Z80::ld_r_mem_ixd(&mut self.a, ix, d, mem)
    }

    /// `LD B,(IX+d)`
    pub fn ld_b_mem_ixd<M: MemoryAccessor>(&mut self, mem: &M) -> (t_states: u8)
        ensures
            (*final(self), t_states) == spec_ld_r_mem::<M>(*old(self), mem@, 0, IndexMode::IX),
            t_states == 19,
    {
        let d = self.fetch_next_opcode(mem);
        let ix = self.ix;
        Z80::ld_r_mem_ixd(&mut self.b, ix, d, mem)
    }

    /// `LD C,(IX+d)`
    pub fn ld_c_ixd<M: MemoryAccessor>(&mut self, mem: &M) -> (t_states: u8)
        ensures
            (*final(self), t_states) == spec_ld_r_mem::<M>(*old(self), mem@, 1, IndexMode::IX),
            t_states == 19,
    {
        let d = self.fetch_next_opcode(mem);
        let ix = self.ix;
        Z80::ld_r_mem_ixd(&mut self.c, ix, d, mem)
    }

    /// `LD D,(IX+d)`
    pub fn ld_d_mem_ixd<M: MemoryAccessor>(&mut self, mem: &M) -> (t_states: u8)
        ensures
            (*final(self), t_states) == spec_ld_r_mem::<M>(*old(self), mem@, 2, IndexMode::IX),
            t_states == 19,
    {
        let d = self.fetch_next_opcode(mem);
        let ix = self.ix;
        Z80::ld_r_mem_ixd(&mut self.d, ix, d, mem)
    }

    /// `LD E,(IX+d)`
    pub fn ld_e_mem_ixd<M: MemoryAccessor>(&mut self, mem: &M) -> (t_states: u8)
        ensures
            (*final(self), t_states) == spec_ld_r_mem::<M>(*old(self), mem@, 3, IndexMode::IX),
            t_states == 19,
    {
        let d = self.fetch_next_opcode(mem);
        let ix = self.ix;
        Z80::ld_r_mem_ixd(&mut self.e, ix, d, mem)
    }

    /// `LD H,(IX+d)`
    pub fn ld_h_mem_ixd<M: MemoryAccessor>(&mut self, mem: &M) -> (t_states: u8)
        ensures
            (*final(self), t_states) == spec_ld_r_mem::<M>(*old(self), mem@, 4, IndexMode::IX),
            t_states == 19,
    {
        let d = self.fetch_next_opcode(mem);
        let ix = self.ix;
        Z80::ld_r_mem_ixd(&mut self.h, ix, d, mem)
    }

    /// `LD L,(IX+d)`
    pub fn ld_l_mem_ixd<M: MemoryAccessor>(&mut self, mem: &M) -> (t_states: u8)
        ensures
            (*final(self), t_states) == spec_ld_r_mem::<M>(*old(self), mem@, 5, IndexMode::IX),
            t_states == 19,
    {
        let d = self.fetch_next_opcode(mem);
        let ix = self.ix;
        Z80::ld_r_mem_ixd(&mut self.l, ix, d, mem)
    }

    /// `LD A,(IY+d)`
    pub fn ld_a_mem_iyd<M: MemoryAccessor>(&mut self, mem: &M) -> (t_states: u8)
        ensures
            (*final(self), t_states) == spec_ld_r_mem::<M>(*old(self), mem@, 7, IndexMode::IY),
            t_states == 19,
    {
        let d = self.fetch_next_opcode(mem);
        let iy = self.iy;
        Z80::ld_r_mem_iyd(&mut self.a, iy, d, mem)
    }

    /// `LD B,(IY+d)`
    pub fn ld_b_mem_iyd<M: MemoryAccessor>(&mut self, mem: &M) -> (t_states: u8)
        ensures
            (*final(self), t_states) == spec_ld_r_mem::<M>(*old(self), mem@, 0, IndexMode::IY),
            t_states == 19,
    {
        let d = self.fetch_next_opcode(mem);
        let iy = self.iy;
        Z80::ld_r_mem_iyd(&mut self.b, iy, d, mem)
    }

    /// `LD C,(IY+d)`
    pub fn ld_c_mem_iyd<M: MemoryAccessor>(&mut self, mem: &M) -> (t_states: u8)
        ensures
            (*final(self), t_states) == spec_ld_r_mem::<M>(*old(self), mem@, 1, IndexMode::IY),
            t_states == 19,
    {
        let d = self.fetch_next_opcode(mem);
        let iy = self.iy;
        Z80::ld_r_mem_iyd(&mut self.c, iy, d, mem)
    }

    /// `LD D,(IY+d)`
    pub fn ld_d_mem_iyd<M: MemoryAccessor>(&mut self, mem: &M) -> (t_states: u8)
        ensures
            (*final(self), t_states) == spec_ld_r_mem::<M>(*old(self), mem@, 2, IndexMode::IY),
            t_states == 19,
    {
        let d = self.fetch_next_opcode(mem);
        let iy = self.iy;
        Z80::ld_r_mem_iyd(&mut self.d, iy, d, mem)
    }

    /// `LD E,(IY+d)`
    pub fn ld_e_mem_iyd<M: MemoryAccessor>(&mut self, mem: &M) -> (t_states: u8)
        ensures
            (*final(self), t_states) == spec_ld_r_mem::<M>(*old(self), mem@, 3, IndexMode::IY),
            t_states == 19,
    {
        let d = self.fetch_next_opcode(mem);
        let iy = self.iy;
        Z80::ld_r_mem_iyd(&mut self.e, iy, d, mem)
    }

    /// `LD H,(IY+d)`
    pub fn ld_h_mem_iyd<M: MemoryAccessor>(&mut self, mem: &M) -> (t_states: u8)
        ensures
            (*final(self), t_states) == spec_ld_r_mem::<M>(*old(self), mem@, 4, IndexMode::IY),
            t_states == 19,
    {
        let d = self.fetch_next_opcode(mem);
        let iy = self.iy;
        Z80::ld_r_mem_iyd(&mut self.h, iy, d, mem)
    }

    /// `LD L,(IY+d)`
    pub fn ld_l_mem_iyd<M: MemoryAccessor>(&mut self, mem: &M) -> (t_states: u8)
        ensures
            (*final(self), t_states) == spec_ld_r_mem::<M>(*old(self), mem@, 5, IndexMode::IY),
            t_states == 19,
    {
        let d = self.fetch_next_opcode(mem);
        let iy = self.iy;
        Z80::ld_r_mem_iyd(&mut self.l, iy, d, mem)
    }

    /// `LD (HL),A`
    pub fn ld_mem_hl_a<M: MemoryAccessor>(&self, mem: &mut M) -> (t_states: u8)
        ensures
            (*self, final(mem)@, t_states) == spec_ld_mem_r::<M>(*self, old(mem)@, 7, IndexMode::HL),
            t_states == 7,
    {
        Z80::ld_mem_hl_r(self.hl(), self.a, mem)
    }

    /// `LD (HL),B`
    pub fn ld_mem_hl_b<M: MemoryAccessor>(&self, mem: &mut M) -> (t_states: u8)
        ensures
            (*self, final(mem)@, t_states) == spec_ld_mem_r::<M>(*self, old(mem)@, 0, IndexMode::HL),
            t_states == 7,
    {
        Z80::ld_mem_hl_r(self.hl(), self.b, mem)
    }

    /// `LD (HL),C`
    pub fn ld_mem_hl_c<M: MemoryAccessor>(&self, mem: &mut M) -> (t_states: u8)
        ensures
            (*self, final(mem)@, t_states) == spec_ld_mem_r::<M>(*self, old(mem)@, 1, IndexMode::HL),
            t_states == 7,
    {
        Z80::ld_mem_hl_r(self.hl(), self.c, mem)
    }

    /// `LD (HL),D`
    pub fn ld_mem_hl_d<M: MemoryAccessor>(&self, mem: &mut M) -> (t_states: u8)
        ensures
            (*self, final(mem)@, t_states) == spec_ld_mem_r::<M>(*self, old(mem)@, 2, IndexMode::HL),
            t_states == 7,
    {
        Z80::ld_mem_hl_r(self.hl(), self.d, mem)
    }

    /// `LD (HL),E`
    pub fn ld_mem_hl_e<M: MemoryAccessor>(&self, mem: &mut M) -> (t_states: u8)
        ensures
            (*self, final(mem)@, t_states) == spec_ld_mem_r::<M>(*self, old(mem)@, 3, IndexMode::HL),
            t_states == 7,
    {
        Z80::ld_mem_hl_r(self.hl(), self.e, mem)
    }

    /// `LD (HL),H`
    pub fn ld_mem_hl_h<M: MemoryAccessor>(&self, mem: &mut M) -> (t_states: u8)
        ensures
            (*self, final(mem)@, t_states) == spec_ld_mem_r::<M>(*self, old(mem)@, 4, IndexMode::HL),
            t_states == 7,
    {
        Z80::ld_mem_hl_r(self.hl(), self.h, mem)
    }

    /// `LD (HL),L`
    pub fn ld_mem_hl_l<M: MemoryAccessor>(&self, mem: &mut M) -> (t_states: u8)
        ensures
            (*self, final(mem)@, t_states) == spec_ld_mem_r::<M>(*self, old(mem)@, 5, IndexMode::HL),
            t_states == 7,
    {
        Z80::ld_mem_hl_r(self.hl(), self.l, mem)
    }

    /// `LD (IX+d),A`
    pub fn ld_mem_ixd_a<M: MemoryAccessor>(&mut self, mem: &mut M) -> (t_states: u8)
        ensures
            (*final(self), final(mem)@, t_states) == spec_ld_mem_r::<M>(
                *old(self),
                old(mem)@,
                7,
                IndexMode::IX,
            ),
            t_states == 19,
    {
        let d = self.fetch_next_opcode(mem);
        Z80::ld_mem_ixd_r(self.ix, d, self.a, mem)
    }

    /// `LD (IX+d),B`
    pub fn ld_mem_ixd_b<M: MemoryAccessor>(&mut self, mem: &mut M) -> (t_states: u8)
        ensures
            (*final(self), final(mem)@, t_states) == spec_ld_mem_r::<M>(
                *old(self),
                old(mem)@,
                0,
                IndexMode::IX,
            ),
            t_states == 19,
    {
        let d = self.fetch_next_opcode(mem);
        Z80::ld_mem_ixd_r(self.ix, d, self.b, mem)
    }

    /// `LD (IX+d),C`
    pub fn ld_mem_ixd_c<M: MemoryAccessor>(&mut self, mem: &mut M) -> (t_states: u8)
        ensures
            (*final(self), final(mem)@, t_states) == spec_ld_mem_r::<M>(
                *old(self),
                old(mem)@,
                1,
                IndexMode::IX,
            ),
            t_states == 19,
    {
        let d = self.fetch_next_opcode(mem);
        Z80::ld_mem_ixd_r(self.ix, d, self.c, mem)
    }

    /// `LD (IX+d),D`
    pub fn ld_mem_ixd_d<M: MemoryAccessor>(&mut self, mem: &mut M) -> (t_states: u8)
        ensures
            (*final(self), final(mem)@, t_states) == spec_ld_mem_r::<M>(
                *old(self),
                old(mem)@,
                2,
                IndexMode::IX,
            ),
            t_states == 19,
    {
        let d = self.fetch_next_opcode(mem);
        Z80::ld_mem_ixd_r(self.ix, d, self.d, mem)
    }

    /// `LD (IX+d),E`
    pub fn ld_mem_ixd_e<M: MemoryAccessor>(&mut self, mem: &mut M) -> (t_states: u8)
        ensures
            (*final(self), final(mem)@, t_states) == spec_ld_mem_r::<M>(
                *old(self),
                old(mem)@,
                3,
                IndexMode::IX,
            ),
            t_states == 19,
    {
        let d = self.fetch_next_opcode(mem);
        Z80::ld_mem_ixd_r(self.ix, d, self.e, mem)
    }

    /// `LD (IX+d),H`
    pub fn ld_mem_ixd_h<M: MemoryAccessor>(&mut self, mem: &mut M) -> (t_states: u8)
        ensures
            (*final(self), final(mem)@, t_states) == spec_ld_mem_r::<M>(
                *old(self),
                old(mem)@,
                4,
                IndexMode::IX,
            ),
            t_states == 19,
    {
        let d = self.fetch_next_opcode(mem);
        Z80::ld_mem_ixd_r(self.ix, d, self.h, mem)
    }

    /// `LD (IX+d),L`
    pub fn ld_mem_ixd_l<M: MemoryAccessor>(&mut self, mem: &mut M) -> (t_states: u8)
        ensures
            (*final(self), final(mem)@, t_states) == spec_ld_mem_r::<M>(
                *old(self),
                old(mem)@,
                5,
                IndexMode::IX,
            ),
            t_states == 19,
    {
        let d = self.fetch_next_opcode(mem);
        Z80::ld_mem_ixd_r(self.ix, d, self.l, mem)
    }

    /// `LD (IY+d),A`
    pub fn ld_mem_iyd_a<M: MemoryAccessor>(&mut self, mem: &mut M) -> (t_states: u8)
        ensures
            (*final(self), final(mem)@, t_states) == spec_ld_mem_r::<M>(
                *old(self),
                old(mem)@,
                7,
                IndexMode::IY,
            ),
            t_states == 19,
    {
        let d = self.fetch_next_opcode(mem);
        Z80::ld_mem_iyd_r(self.iy, d, self.a, mem)
    }

    /// `LD (IY+d),B`
    pub fn ld_mem_iyd_b<M: MemoryAccessor>(&mut self, mem: &mut M) -> (t_states: u8)
        ensures
            (*final(self), final(mem)@, t_states) == spec_ld_mem_r::<M>(
                *old(self),
                old(mem)@,
                0,
                IndexMode::IY,
            ),
            t_states == 19,
    {
        let d = self.fetch_next_opcode(mem);
        Z80::ld_mem_iyd_r(self.iy, d, self.b, mem)
    }

    /// `LD (IY+d),C`
    pub fn ld_mem_iyd_c<M: MemoryAccessor>(&mut self, mem: &mut M) -> (t_states: u8)
        ensures
            (*final(self), final(mem)@, t_states) == spec_ld_mem_r::<M>(
                *old(self),
                old(mem)@,
                1,
                IndexMode::IY,
            ),
            t_states == 19,
    {
        let d = self.fetch_next_opcode(mem);
        Z80::ld_mem_iyd_r(self.iy, d, self.c, mem)
    }

    /// `LD (IY+d),D`
    pub fn ld_mem_iyd_d<M: MemoryAccessor>(&mut self, mem: &mut M) -> (t_states: u8)
        ensures
            (*final(self), final(mem)@, t_states) == spec_ld_mem_r::<M>(
                *old(self),
                old(mem)@,
                2,
                IndexMode::IY,
            ),
            t_states == 19,
    {
        let d = self.fetch_next_opcode(mem);
        Z80::ld_mem_iyd_r(self.iy, d, self.d, mem)
    }

    /// `LD (IY+d),E`
    pub fn ld_mem_iyd_e<M: MemoryAccessor>(&mut self, mem: &mut M) -> (t_states: u8)
        ensures
            (*final(self), final(mem)@, t_states) == spec_ld_mem_r::<M>(
                *old(self),
                old(mem)@,
                3,
                IndexMode::IY,
            ),
            t_states == 19,
    {
        let d = self.fetch_next_opcode(mem);
        Z80::ld_mem_iyd_r(self.iy, d, self.e, mem)
    }

    /// `LD (IY+d),H`
    pub fn ld_mem_iyd_h<M: MemoryAccessor>(&mut self, mem: &mut M) -> (t_states: u8)
        ensures
            (*final(self), final(mem)@, t_states) == spec_ld_mem_r::<M>(
                *old(self),
                old(mem)@,
                4,
                IndexMode::IY,
            ),
            t_states == 19,
    {
        let d = self.fetch_next_opcode(mem);
        Z80::ld_mem_iyd_r(self.iy, d, self.h, mem)
    }

    /// `LD (IY+d),L`
    pub fn ld_mem_iyd_l<M: MemoryAccessor>(&mut self, mem: &mut M) -> (t_states: u8)
        ensures
            (*final(self), final(mem)@, t_states) == spec_ld_mem_r::<M>(
                *old(self),
                old(mem)@,
                5,
                IndexMode::IY,
            ),
            t_states == 19,
    {
        let d = self.fetch_next_opcode(mem);
        Z80::ld_mem_iyd_r(self.iy, d, self.l, mem)
    }

    /// `LD (HL),n`
    pub fn ld_mem_hl_n<M: MemoryAccessor>(&mut self, mem: &mut M) -> (t_states: u8)
        ensures
            (*final(self), final(mem)@, t_states) == spec_ld_mem_n::<M>(
                *old(self),
                old(mem)@,
                IndexMode::HL,
            ),
            t_states == 10,
    {
        self.load_mem_immediate(mem, IndexMode::HL)
    }

    /// `LD (IX+d),n`
    pub fn ld_mem_ixd_n<M: MemoryAccessor>(&mut self, mem: &mut M) -> (t_states: u8)
        ensures
            (*final(self), final(mem)@, t_states) == spec_ld_mem_n::<M>(
                *old(self),
                old(mem)@,
                IndexMode::IX,
            ),
            t_states == 19,
    {
        self.load_mem_immediate(mem, IndexMode::IX)
    }

    /// `LD (IY+d),n`
    pub fn ld_mem_iyd_n<M: MemoryAccessor>(&mut self, mem: &mut M) -> (t_states: u8)
        ensures
            (*final(self), final(mem)@, t_states) == spec_ld_mem_n::<M>(
                *old(self),
                old(mem)@,
                IndexMode::IY,
            ),
            t_states == 19,
    {
        self.load_mem_immediate(mem, IndexMode::IY)
    }

    /// `LD A,(BC)`
    pub fn ld_a_mem_bc<M: MemoryAccessor>(&mut self, mem: &M) -> (t_states: u8)
        ensures
            *final(self) == (Z80 { a: M::peek(mem@, old(self).bc()), ..*old(self) }),
            t_states == 7,
    {
        self.a = mem.read(self.bc());

        // T states
        7
    }

    /// `LD A,(DE)`
    pub fn ld_a_mem_de<M: MemoryAccessor>(&mut self, mem: &M) -> (t_states: u8)
        ensures
            *final(self) == (Z80 { a: M::peek(mem@, old(self).de()), ..*old(self) }),
            t_states == 7,
    {
        self.a = mem.read(self.de());

        // T states
        7
    }

    /// `LD A,(nn)`
    pub fn ld_a_mem_nn<M: MemoryAccessor>(&mut self, mem: &M) -> (t_states: u8)
        ensures
            *final(self) == (Z80 {
                a: M::peek(mem@, spec_immediate_word::<M>(*old(self), mem@)),
                ..spec_skip(*old(self), 2)
            }),
            t_states == 13,
    {
        let address = self.fetch_word(mem);
        self.a = mem.read(address);

        // T states
        13
    }

    /// `LD (BC),A`
    pub fn ld_mem_bc_a<M: MemoryAccessor>(&mut self, mem: &mut M) -> (t_states: u8)
        ensures
            *final(self) == *old(self),
            final(mem)@ == M::poke(old(mem)@, old(self).bc(), old(self).a),
            t_states == 7,
    {
        mem.write(self.bc(), self.a);

        // T states
        7
    }

    /// `LD (DE),A`
    pub fn ld_mem_de_a<M: MemoryAccessor>(&mut self, mem: &mut M) -> (t_states: u8)
        ensures
            *final(self) == *old(self),
            final(mem)@ == M::poke(old(mem)@, old(self).de(), old(self).a),
            t_states == 7,
    {
        mem.write(self.de(), self.a);

        // T states
        7
    }

    /// `LD (nn),A`
    pub fn ld_mem_nn_a<M: MemoryAccessor>(&mut self, mem: &mut M) -> (t_states: u8)
        ensures
            *final(self) == spec_skip(*old(self), 2),
            final(mem)@ == M::poke(
                old(mem)@,
                spec_immediate_word::<M>(*old(self), old(mem)@),
                old(self).a,
            ),
            t_states == 13,
    {
        let address = self.fetch_word(mem);
        mem.write(address, self.a);

        // T states
        13
    }

    /// `LD A,I`
    pub fn ld_a_i(&mut self) -> (t_states: u8)
        ensures
            (*final(self), t_states) == spec_ld_a_special(*old(self), old(self).i),
            t_states == 9,
    {
        self.a = self.i;
        self.f = value_flags(self.i, self.iff2, self.f);

        // T states
        9
    }

    /// `LD A,R`
    pub fn ld_a_r(&mut self) -> (t_states: u8)
        ensures
            (*final(self), t_states) == spec_ld_a_special(*old(self), old(self).r),
            t_states == 9,
    {
        self.a = self.r;
        self.f = value_flags(self.r, self.iff2, self.f);

        // T states
        9
    }

    /// `LD I,A`
    pub fn ld_i_a(&mut self) -> (t_states: u8)
        ensures
            *final(self) == (Z80 { i: old(self).a, ..*old(self) }),
            t_states == 9,
    {
        self.i = self.a;

        // T states
        9
    }

    /// `LD R,A`
    pub fn ld_r_a(&mut self) -> (t_states: u8)
        ensures
            *final(self) == (Z80 { r: old(self).a, ..*old(self) }),
            t_states == 9,
    {
        self.r = self.a;

        // T states
        9
    }
}

} // verus!
