//! 16-bit load group: loads of register pairs, and the stack.

use vstd::prelude::*;
use crate::z80::operands::{
    index_cost, spec_immediate_word, spec_index, spec_index_cost, spec_reg16, spec_skip,
    spec_stack_reg16, spec_with_index, spec_with_reg16, spec_with_stack_reg16,
};
use crate::z80::{
    high, low, peek_word, poke_word, push_word, read_word, write_word, IndexMode, MemoryAccessor,
    Z80,
};

verus! {

/// `LD dd,nn`, `LD IX,nn`, `LD IY,nn`: the 16-bit operand goes to the pair
/// that `p` selects.
pub open spec fn spec_ld_reg16_nn<M: MemoryAccessor>(
    c: Z80,
    memory: M::V,
    p: u8,
    idx: IndexMode,
) -> (Z80, u8) {
    (
        spec_with_reg16(spec_skip(c, 2), p, idx, spec_immediate_word::<M>(c, memory)),
        (10 + spec_index_cost(idx)) as u8,
    )
}

/// `LD HL,(nn)`, `LD IX,(nn)`, `LD IY,(nn)`: the 16-bit value stored at the
/// operand address goes to the pair that stands for `HL`.
pub open spec fn spec_ld_index_mem_nn<M: MemoryAccessor>(c: Z80, memory: M::V, idx: IndexMode) -> (
    Z80,
    u8,
) {
    (
        spec_with_index(
            spec_skip(c, 2),
            idx,
            peek_word::<M>(memory, spec_immediate_word::<M>(c, memory)),
        ),
        (16 + spec_index_cost(idx)) as u8,
    )
}

/// `LD dd,(nn)`: the 16-bit value stored at the operand address goes to the
/// pair that `p` selects.
pub open spec fn spec_ld_reg16_mem_nn<M: MemoryAccessor>(c: Z80, memory: M::V, p: u8) -> (Z80, u8) {
    (
        spec_with_reg16(
            spec_skip(c, 2),
            p,
            IndexMode::HL,
            peek_word::<M>(memory, spec_immediate_word::<M>(c, memory)),
        ),
        20,
    )
}

/// `LD (nn),HL`, `LD (nn),IX`, `LD (nn),IY`: the pair that stands for `HL` is
/// stored at the operand address, low byte first.
pub open spec fn spec_ld_mem_nn_index<M: MemoryAccessor>(c: Z80, memory: M::V, idx: IndexMode) -> (
    Z80,
    M::V,
    u8,
) {
    (
        spec_skip(c, 2),
        poke_word::<M>(memory, spec_immediate_word::<M>(c, memory), spec_index(c, idx)),
        (16 + spec_index_cost(idx)) as u8,
    )
}

/// `LD (nn),dd`: the pair that `p` selects is stored at the operand address,
/// low byte first.
pub open spec fn spec_ld_mem_nn_reg16<M: MemoryAccessor>(c: Z80, memory: M::V, p: u8) -> (
    Z80,
    M::V,
    u8,
) {
    (
        spec_skip(c, 2),
        poke_word::<M>(
            memory,
            spec_immediate_word::<M>(c, memory),
            spec_reg16(c, p, IndexMode::HL),
        ),
        20,
    )
}

/// `LD SP,HL`, `LD SP,IX`, `LD SP,IY`.
pub open spec fn spec_ld_sp_index(c: Z80, idx: IndexMode) -> (Z80, u8) {
    (Z80 { stack_pointer: spec_index(c, idx), ..c }, (6 + spec_index_cost(idx)) as u8)
}

/// `PUSH qq`, `PUSH IX`, `PUSH IY`: the stack pointer goes down by 2 and the
/// pair is stored there, the high byte first at the upper address.
pub open spec fn spec_push<M: MemoryAccessor>(c: Z80, memory: M::V, p: u8, idx: IndexMode) -> (
    Z80,
    M::V,
    u8,
) {
    (
        Z80 { stack_pointer: c.stack_pointer.wrapping_sub(2), ..c },
        push_word::<M>(memory, c.stack_pointer, spec_stack_reg16(c, p, idx)),
        (11 + spec_index_cost(idx)) as u8,
    )
}

/// `POP qq`, `POP IX`, `POP IY`: the pair takes the 16-bit value at the stack
/// pointer, which goes up by 2.
pub open spec fn spec_pop<M: MemoryAccessor>(c: Z80, memory: M::V, p: u8, idx: IndexMode) -> (
    Z80,
    u8,
) {
    (
        spec_with_stack_reg16(
            Z80 { stack_pointer: c.stack_pointer.wrapping_add(2), ..c },
            p,
            idx,
            peek_word::<M>(memory, c.stack_pointer),
        ),
        (10 + spec_index_cost(idx)) as u8,
    )
}

impl Z80 {
    /// Pushes `value`: the stack pointer goes down by 2, modulo 2^16, and
    /// the value is stored there.
    pub fn push_value<M: MemoryAccessor>(&mut self, mem: &mut M, value: u16)
        ensures
            *final(self) == (Z80 {
                stack_pointer: old(self).stack_pointer.wrapping_sub(2),
                ..*old(self)
            }),
            final(mem)@ == push_word::<M>(old(mem)@, old(self).stack_pointer, value),
    {
        self.stack_pointer = self.stack_pointer.wrapping_sub(1);
        mem.write(self.stack_pointer, high(value));

        self.stack_pointer = self.stack_pointer.wrapping_sub(1);
        mem.write(self.stack_pointer, low(value));
    }

    /// Pops a 16-bit value: it is read at the stack pointer, which goes up by
    /// 2, modulo 2^16.
    pub fn pop_value<M: MemoryAccessor>(&mut self, mem: &M) -> (value: u16)
        ensures
            value == peek_word::<M>(mem@, old(self).stack_pointer),
            *final(self) == (Z80 {
                stack_pointer: old(self).stack_pointer.wrapping_add(2),
                ..*old(self)
            }),
    {
        let value = read_word(mem, self.stack_pointer);
        self.stack_pointer = self.stack_pointer.wrapping_add(2);
        value
    }

    /// Loads the pair that `p` selects with the 16-bit operand.
    pub fn ld_reg16_nn<M: MemoryAccessor>(&mut self, mem: &M, p: u8, idx: IndexMode) -> (t_states: u8)
        ensures
            (*final(self), t_states) == spec_ld_reg16_nn::<M>(*old(self), mem@, p, idx),
    {
        let nn = self.fetch_word(mem);
        self.set_reg16(p, idx, nn);

        // T states
        10 + index_cost(idx)
    }

    /// Loads the pair that stands for `HL` from the operand address.
    pub fn ld_index_mem_nn<M: MemoryAccessor>(&mut self, mem: &M, idx: IndexMode) -> (t_states: u8)
        ensures
            (*final(self), t_states) == spec_ld_index_mem_nn::<M>(*old(self), mem@, idx),
    {
        let address = self.fetch_word(mem);
        let value = read_word(mem, address);
        self.set_index(idx, value);

        // T states
        16 + index_cost(idx)
    }

    /// Loads the pair that `p` selects from the operand address.
    pub fn ld_reg16_mem_nn<M: MemoryAccessor>(&mut self, mem: &M, p: u8) -> (t_states: u8)
        ensures
            (*final(self), t_states) == spec_ld_reg16_mem_nn::<M>(*old(self), mem@, p),
    {
        let address = self.fetch_word(mem);
        let value = read_word(mem, address);
        self.set_reg16(p, IndexMode::HL, value);

        // T states
        20
    }

    /// Stores the pair that stands for `HL` at the operand address.
    pub fn ld_mem_nn_index<M: MemoryAccessor>(&mut self, mem: &mut M, idx: IndexMode) -> (t_states: u8)
        ensures
            (*final(self), final(mem)@, t_states) == spec_ld_mem_nn_index::<M>(
                *old(self),
                old(mem)@,
                idx,
            ),
    {
        let value = self.index(idx);
        let address = self.fetch_word(mem);
        write_word(mem, address, value);

        // T states
        16 + index_cost(idx)
    }

    /// Stores the pair that `p` selects at the operand address.
    pub fn ld_mem_nn_reg16<M: MemoryAccessor>(&mut self, mem: &mut M, p: u8) -> (t_states: u8)
        ensures
            (*final(self), final(mem)@, t_states) == spec_ld_mem_nn_reg16::<M>(
                *old(self),
                old(mem)@,
                p,
            ),
    {
        let value = self.reg16(p, IndexMode::HL);
        let address = self.fetch_word(mem);
        write_word(mem, address, value);

        // T states
        20
    }

    /// Loads the stack pointer from the pair that stands for `HL`.
    pub fn ld_sp_index(&mut self, idx: IndexMode) -> (t_states: u8)
        ensures
            (*final(self), t_states) == spec_ld_sp_index(*old(self), idx),
    {
        self.stack_pointer = self.index(idx);

        // T states
        6 + index_cost(idx)
    }

    /// Pushes the pair that `p` selects.
    pub fn push<M: MemoryAccessor>(&mut self, mem: &mut M, p: u8, idx: IndexMode) -> (t_states: u8)
        ensures
            (*final(self), final(mem)@, t_states) == spec_push::<M>(*old(self), old(mem)@, p, idx),
    {
        let value = self.stack_reg16(p, idx);
        self.push_value(mem, value);

        // T states
        11 + index_cost(idx)
    }

    /// Pops into the pair that `p` selects.
    pub fn pop<M: MemoryAccessor>(&mut self, mem: &M, p: u8, idx: IndexMode) -> (t_states: u8)
        ensures
            (*final(self), t_states) == spec_pop::<M>(*old(self), mem@, p, idx),
    {
        let value = self.pop_value(mem);
        self.set_stack_reg16(p, idx, value);

        // T states
        10 + index_cost(idx)
    }

    /// `LD BC,nn`
    pub fn ld_bc_nn<M: MemoryAccessor>(&mut self, mem: &M) -> (t_states: u8)
        ensures
            (*final(self), t_states) == spec_ld_reg16_nn::<M>(*old(self), mem@, 0, IndexMode::HL),
            t_states == 10,
    {
        self.ld_reg16_nn(mem, 0, IndexMode::HL)
    }

    /// `LD DE,nn`
    pub fn ld_de_nn<M: MemoryAccessor>(&mut self, mem: &M) -> (t_states: u8)
        ensures
            (*final(self), t_states) == spec_ld_reg16_nn::<M>(*old(self), mem@, 1, IndexMode::HL),
            t_states == 10,
    {
        self.ld_reg16_nn(mem, 1, IndexMode::HL)
    }

    /// `LD HL,nn`
    pub fn ld_hl_nn<M: MemoryAccessor>(&mut self, mem: &M) -> (t_states: u8)
        ensures
            (*final(self), t_states) == spec_ld_reg16_nn::<M>(*old(self), mem@, 2, IndexMode::HL),
            t_states == 10,
    {
        self.ld_reg16_nn(mem, 2, IndexMode::HL)
    }

    /// `LD SP,nn`
    pub fn ld_sp_nn<M: MemoryAccessor>(&mut self, mem: &M) -> (t_states: u8)
        ensures
            (*final(self), t_states) == spec_ld_reg16_nn::<M>(*old(self), mem@, 3, IndexMode::HL),
            t_states == 10,
    {
        self.ld_reg16_nn(mem, 3, IndexMode::HL)
    }

    /// `LD IX,nn`
    pub fn ld_ix_nn<M: MemoryAccessor>(&mut self, mem: &M) -> (t_states: u8)
        ensures
            (*final(self), t_states) == spec_ld_reg16_nn::<M>(*old(self), mem@, 2, IndexMode::IX),
            t_states == 14,
    {
        self.ld_reg16_nn(mem, 2, IndexMode::IX)
    }

    /// `LD IY,nn`
    pub fn ld_iy_nn<M: MemoryAccessor>(&mut self, mem: &M) -> (t_states: u8)
        ensures
            (*final(self), t_states) == spec_ld_reg16_nn::<M>(*old(self), mem@, 2, IndexMode::IY),
            t_states == 14,
    {
        self.ld_reg16_nn(mem, 2, IndexMode::IY)
    }

    /// `LD HL,(nn)`
    pub fn ld_hl_mem_nn<M: MemoryAccessor>(&mut self, mem: &M) -> (t_states: u8)
        ensures
            (*final(self), t_states) == spec_ld_index_mem_nn::<M>(*old(self), mem@, IndexMode::HL),
            t_states == 16,
    {
        self.ld_index_mem_nn(mem, IndexMode::HL)
    }

    /// `LD BC,(nn)` in its two-byte form, `ED` first`
    pub fn ld_ddbc_mem_nn<M: MemoryAccessor>(&mut self, mem: &M) -> (t_states: u8)
        ensures
            (*final(self), t_states) == spec_ld_reg16_mem_nn::<M>(*old(self), mem@, 0),
            t_states == 20,
    {
        self.ld_reg16_mem_nn(mem, 0)
    }

    /// `LD DE,(nn)` in its two-byte form, `ED` first`
    pub fn ld_ddde_mem_nn<M: MemoryAccessor>(&mut self, mem: &M) -> (t_states: u8)
        ensures
            (*final(self), t_states) == spec_ld_reg16_mem_nn::<M>(*old(self), mem@, 1),
            t_states == 20,
    {
        self.ld_reg16_mem_nn(mem, 1)
    }

    /// `LD HL,(nn)` in its two-byte form, `ED` first`
    pub fn ld_ddhl_mem_nn<M: MemoryAccessor>(&mut self, mem: &M) -> (t_states: u8)
        ensures
            (*final(self), t_states) == spec_ld_reg16_mem_nn::<M>(*old(self), mem@, 2),
            t_states == 20,
    {
        self.ld_reg16_mem_nn(mem, 2)
    }

    /// `LD SP,(nn)` in its two-byte form, `ED` first`
    pub fn ld_ddsp_mem_nn<M: MemoryAccessor>(&mut self, mem: &M) -> (t_states: u8)
        ensures
            (*final(self), t_states) == spec_ld_reg16_mem_nn::<M>(*old(self), mem@, 3),
            t_states == 20,
    {
        self.ld_reg16_mem_nn(mem, 3)
    }

    /// `LD IX,(nn)`
    pub fn ld_ix_mem_nn<M: MemoryAccessor>(&mut self, mem: &M) -> (t_states: u8)
        ensures
            (*final(self), t_states) == spec_ld_index_mem_nn::<M>(*old(self), mem@, IndexMode::IX),
            t_states == 20,
    {
        self.ld_index_mem_nn(mem, IndexMode::IX)
    }

    /// `LD IY,(nn)`
    pub fn ld_iy_mem_nn<M: MemoryAccessor>(&mut self, mem: &M) -> (t_states: u8)
        ensures
            (*final(self), t_states) == spec_ld_index_mem_nn::<M>(*old(self), mem@, IndexMode::IY),
            t_states == 20,
    {
        self.ld_index_mem_nn(mem, IndexMode::IY)
    }

    /// `LD (nn),HL`
    pub fn ld_mem_nn_hl<M: MemoryAccessor>(&mut self, mem: &mut M) -> (t_states: u8)
        ensures
            (*final(self), final(mem)@, t_states) == spec_ld_mem_nn_index::<M>(*old(self), old(mem)@, IndexMode::HL),
            t_states == 16,
    {
        self.ld_mem_nn_index(mem, IndexMode::HL)
    }

    /// `LD (nn),BC` in its two-byte form, `ED` first`
    pub fn ld_mem_nn_ddbc<M: MemoryAccessor>(&mut self, mem: &mut M) -> (t_states: u8)
        ensures
            (*final(self), final(mem)@, t_states) == spec_ld_mem_nn_reg16::<M>(*old(self), old(mem)@, 0),
            t_states == 20,
    {
        self.ld_mem_nn_reg16(mem, 0)
    }

    /// `LD (nn),DE` in its two-byte form, `ED` first`
    pub fn ld_mem_nn_ddde<M: MemoryAccessor>(&mut self, mem: &mut M) -> (t_states: u8)
        ensures
            (*final(self), final(mem)@, t_states) == spec_ld_mem_nn_reg16::<M>(*old(self), old(mem)@, 1),
            t_states == 20,
    {
        self.ld_mem_nn_reg16(mem, 1)
    }

    /// `LD (nn),HL` in its two-byte form, `ED` first`
    pub fn ld_mem_nn_ddhl<M: MemoryAccessor>(&mut self, mem: &mut M) -> (t_states: u8)
        ensures
            (*final(self), final(mem)@, t_states) == spec_ld_mem_nn_reg16::<M>(*old(self), old(mem)@, 2),
            t_states == 20,
    {
        self.ld_mem_nn_reg16(mem, 2)
    }

    /// `LD (nn),SP` in its two-byte form, `ED` first`
    pub fn ld_mem_nn_ddsp<M: MemoryAccessor>(&mut self, mem: &mut M) -> (t_states: u8)
        ensures
            (*final(self), final(mem)@, t_states) == spec_ld_mem_nn_reg16::<M>(*old(self), old(mem)@, 3),
            t_states == 20,
    {
        self.ld_mem_nn_reg16(mem, 3)
    }

    /// `LD (nn),IX`
    pub fn ld_mem_nn_ix<M: MemoryAccessor>(&mut self, mem: &mut M) -> (t_states: u8)
        ensures
            (*final(self), final(mem)@, t_states) == spec_ld_mem_nn_index::<M>(*old(self), old(mem)@, IndexMode::IX),
            t_states == 20,
    {
        self.ld_mem_nn_index(mem, IndexMode::IX)
    }

    /// `LD (nn),IY`
    pub fn ld_mem_nn_iy<M: MemoryAccessor>(&mut self, mem: &mut M) -> (t_states: u8)
        ensures
            (*final(self), final(mem)@, t_states) == spec_ld_mem_nn_index::<M>(*old(self), old(mem)@, IndexMode::IY),
            t_states == 20,
    {
        self.ld_mem_nn_index(mem, IndexMode::IY)
    }

    /// `LD SP,HL`
    pub fn ld_sp_hl(&mut self) -> (t_states: u8)
        ensures
            (*final(self), t_states) == spec_ld_sp_index(*old(self), IndexMode::HL),
            t_states == 6,
    {
        self.ld_sp_index(IndexMode::HL)
    }

    /// `LD SP,IX`
    pub fn ld_sp_ix(&mut self) -> (t_states: u8)
        ensures
            (*final(self), t_states) == spec_ld_sp_index(*old(self), IndexMode::IX),
            t_states == 10,
    {
        self.ld_sp_index(IndexMode::IX)
    }

    /// `LD SP,IY`
    pub fn ld_sp_iy(&mut self) -> (t_states: u8)
        ensures
            (*final(self), t_states) == spec_ld_sp_index(*old(self), IndexMode::IY),
            t_states == 10,
    {
        self.ld_sp_index(IndexMode::IY)
    }

    /// `PUSH BC`
    pub fn push_qqbc<M: MemoryAccessor>(&mut self, mem: &mut M) -> (t_states: u8)
        ensures
            (*final(self), final(mem)@, t_states) == spec_push::<M>(*old(self), old(mem)@, 0, IndexMode::HL),
            t_states == 11,
    {
        self.push(mem, 0, IndexMode::HL)
    }

    /// `PUSH DE`
    pub fn push_qqde<M: MemoryAccessor>(&mut self, mem: &mut M) -> (t_states: u8)
        ensures
            (*final(self), final(mem)@, t_states) == spec_push::<M>(*old(self), old(mem)@, 1, IndexMode::HL),
            t_states == 11,
    {
        self.push(mem, 1, IndexMode::HL)
    }

    /// `PUSH HL`
    pub fn push_qqhl<M: MemoryAccessor>(&mut self, mem: &mut M) -> (t_states: u8)
        ensures
            (*final(self), final(mem)@, t_states) == spec_push::<M>(*old(self), old(mem)@, 2, IndexMode::HL),
            t_states == 11,
    {
        self.push(mem, 2, IndexMode::HL)
    }

    /// `PUSH AF`
    pub fn push_qqaf<M: MemoryAccessor>(&mut self, mem: &mut M) -> (t_states: u8)
        ensures
            (*final(self), final(mem)@, t_states) == spec_push::<M>(*old(self), old(mem)@, 3, IndexMode::HL),
            t_states == 11,
    {
        self.push(mem, 3, IndexMode::HL)
    }

    /// `PUSH IX`
    pub fn push_ix<M: MemoryAccessor>(&mut self, mem: &mut M) -> (t_states: u8)
        ensures
            (*final(self), final(mem)@, t_states) == spec_push::<M>(*old(self), old(mem)@, 2, IndexMode::IX),
            t_states == 15,
    {
        self.push(mem, 2, IndexMode::IX)
    }

    /// `PUSH IY`
    pub fn push_iy<M: MemoryAccessor>(&mut self, mem: &mut M) -> (t_states: u8)
        ensures
            (*final(self), final(mem)@, t_states) == spec_push::<M>(*old(self), old(mem)@, 2, IndexMode::IY),
            t_states == 15,
    {
        self.push(mem, 2, IndexMode::IY)
    }

    /// `POP BC`
    pub fn pop_qqbc<M: MemoryAccessor>(&mut self, mem: &M) -> (t_states: u8)
        ensures
            (*final(self), t_states) == spec_pop::<M>(*old(self), mem@, 0, IndexMode::HL),
            t_states == 10,
    {
        self.pop(mem, 0, IndexMode::HL)
    }

    /// `POP DE`
    pub fn pop_qqde<M: MemoryAccessor>(&mut self, mem: &M) -> (t_states: u8)
        ensures
            (*final(self), t_states) == spec_pop::<M>(*old(self), mem@, 1, IndexMode::HL),
            t_states == 10,
    {
        self.pop(mem, 1, IndexMode::HL)
    }

    /// `POP HL`
    pub fn pop_qqhl<M: MemoryAccessor>(&mut self, mem: &M) -> (t_states: u8)
        ensures
            (*final(self), t_states) == spec_pop::<M>(*old(self), mem@, 2, IndexMode::HL),
            t_states == 10,
    {
        self.pop(mem, 2, IndexMode::HL)
    }

    /// `POP AF`
    pub fn pop_qqaf<M: MemoryAccessor>(&mut self, mem: &M) -> (t_states: u8)
        ensures
            (*final(self), t_states) == spec_pop::<M>(*old(self), mem@, 3, IndexMode::HL),
            t_states == 10,
    {
        self.pop(mem, 3, IndexMode::HL)
    }

    /// `POP IX`
    pub fn pop_ix<M: MemoryAccessor>(&mut self, mem: &M) -> (t_states: u8)
        ensures
            (*final(self), t_states) == spec_pop::<M>(*old(self), mem@, 2, IndexMode::IX),
            t_states == 14,
    {
        self.pop(mem, 2, IndexMode::IX)
    }

    /// `POP IY`
    pub fn pop_iy<M: MemoryAccessor>(&mut self, mem: &M) -> (t_states: u8)
        ensures
            (*final(self), t_states) == spec_pop::<M>(*old(self), mem@, 2, IndexMode::IY),
            t_states == 14,
    {
        self.pop(mem, 2, IndexMode::IY)
    }

}

} // verus!
