//! Jump group, and call and return group.

use vstd::prelude::*;
use crate::z80::operands::{
    index_cost, spec_immediate, spec_immediate_word, spec_index, spec_index_cost, spec_skip,
};
use crate::z80::{
    displaced, peek_word, push_word, spec_displaced, IndexMode, MemoryAccessor, Z80,
};

verus! {

/// `JP nn` and `JP cc,nn`: the program counter takes the 16-bit operand if
/// the jump is taken and moves past it if not; 10 T-states either way.
pub open spec fn spec_jp<M: MemoryAccessor>(c: Z80, memory: M::V, taken: bool) -> (Z80, u8) {
    (
        if taken {
            Z80 { program_counter: spec_immediate_word::<M>(c, memory), ..c }
        } else {
            spec_skip(c, 2)
        },
        10,
    )
}

/// `JR e` and `JR cc,e`: the program counter moves past the displacement byte
/// and, if the jump is taken, on by that signed displacement. 12 T-states
/// taken, 7 not taken.
pub open spec fn spec_jr<M: MemoryAccessor>(c: Z80, memory: M::V, taken: bool) -> (Z80, u8) {
    if taken {
        (
            Z80 {
                program_counter: spec_displaced(
                    c.program_counter.wrapping_add(1),
                    spec_immediate::<M>(c, memory),
                ),
                ..c
            },
            12,
        )
    } else {
        (spec_skip(c, 1), 7)
    }
}

/// `DJNZ e`: `B` counts down by one, modulo 256, and the relative jump is
/// taken iff `B` is then not 0. 13 T-states taken, 8 not taken.
pub open spec fn spec_djnz<M: MemoryAccessor>(c: Z80, memory: M::V) -> (Z80, u8) {
    let b = c.b.wrapping_sub(1);
    if b != 0 {
        (
            Z80 {
                b,
                program_counter: spec_displaced(
                    c.program_counter.wrapping_add(1),
                    spec_immediate::<M>(c, memory),
                ),
                ..c
            },
            13,
        )
    } else {
        (Z80 { b, ..spec_skip(c, 1) }, 8)
    }
}

/// `JP (HL)`, `JP (IX)`, `JP (IY)`: the program counter takes the pair.
pub open spec fn spec_jp_index(c: Z80, idx: IndexMode) -> (Z80, u8) {
    (Z80 { program_counter: spec_index(c, idx), ..c }, (4 + spec_index_cost(idx)) as u8)
}

/// `CALL nn` and `CALL cc,nn`: if taken, the address after the operand is
/// pushed and the program counter takes the operand, in 17 T-states; if not,
/// the program counter moves past the operand in 10.
pub open spec fn spec_call<M: MemoryAccessor>(c: Z80, memory: M::V, taken: bool) -> (
    Z80,
    M::V,
    u8,
) {
    if taken {
        (
            Z80 {
                program_counter: spec_immediate_word::<M>(c, memory),
                stack_pointer: c.stack_pointer.wrapping_sub(2),
                ..c
            },
            push_word::<M>(memory, c.stack_pointer, c.program_counter.wrapping_add(2)),
            17,
        )
    } else {
        (spec_skip(c, 2), memory, 10)
    }
}

/// The state after a return: the program counter takes the 16-bit value at
/// the stack pointer, which goes up by 2.
pub open spec fn spec_returned<M: MemoryAccessor>(c: Z80, memory: M::V) -> Z80 {
    Z80 {
        program_counter: peek_word::<M>(memory, c.stack_pointer),
        stack_pointer: c.stack_pointer.wrapping_add(2),
        ..c
    }
}

/// `RET cc`: a return in 11 T-states if taken, nothing in 5 if not.
pub open spec fn spec_ret_cc<M: MemoryAccessor>(c: Z80, memory: M::V, taken: bool) -> (Z80, u8) {
    if taken {
        (spec_returned::<M>(c, memory), 11)
    } else {
        (c, 5)
    }
}

/// `RETN`: a return that also copies `IFF2` to `IFF1`.
pub open spec fn spec_retn<M: MemoryAccessor>(c: Z80, memory: M::V) -> Z80 {
    Z80 { iff1: c.iff2, ..spec_returned::<M>(c, memory) }
}

/// `RST p` and the entry into an interrupt routine: the program counter is
/// pushed and takes `target`.
pub open spec fn spec_restart<M: MemoryAccessor>(c: Z80, memory: M::V, target: u16) -> (
    Z80,
    M::V,
) {
    (
        Z80 { program_counter: target, stack_pointer: c.stack_pointer.wrapping_sub(2), ..c },
        push_word::<M>(memory, c.stack_pointer, c.program_counter),
    )
}

impl Z80 {
    /// `JP nn` (`taken`) and `JP cc,nn`.
    pub fn jp<M: MemoryAccessor>(&mut self, mem: &M, taken: bool) -> (t_states: u8)
        ensures
            (*final(self), t_states) == spec_jp::<M>(*old(self), mem@, taken),
    {
        let target = self.fetch_word(mem);
        if taken {
            self.program_counter = target;
        }

        // T states
        10
    }

    /// `JR e` (`taken`) and `JR cc,e`.
    pub fn jr<M: MemoryAccessor>(&mut self, mem: &M, taken: bool) -> (t_states: u8)
        ensures
            (*final(self), t_states) == spec_jr::<M>(*old(self), mem@, taken),
    {
        let e = self.fetch_next_opcode(mem);
        if taken {
            self.program_counter = displaced(self.program_counter, e);
            12
        } else {
            7
        }
    }

    /// `DJNZ e`
    pub fn djnz<M: MemoryAccessor>(&mut self, mem: &M) -> (t_states: u8)
        ensures
            (*final(self), t_states) == spec_djnz::<M>(*old(self), mem@),
    {
        let e = self.fetch_next_opcode(mem);
        self.b = self.b.wrapping_sub(1);
        if self.b != 0 {
            self.program_counter = displaced(self.program_counter, e);
            13
        } else {
            8
        }
    }

    /// `JP (HL)`, `JP (IX)`, `JP (IY)`.
    pub fn jp_index(&mut self, idx: IndexMode) -> (t_states: u8)
        ensures
            (*final(self), t_states) == spec_jp_index(*old(self), idx),
    {
        self.program_counter = self.index(idx);

        // T states
        4 + index_cost(idx)
    }

    /// `CALL nn` (`taken`) and `CALL cc,nn`.
    pub fn call<M: MemoryAccessor>(&mut self, mem: &mut M, taken: bool) -> (t_states: u8)
        ensures
            (*final(self), final(mem)@, t_states) == spec_call::<M>(*old(self), old(mem)@, taken),
    {
        let target = self.fetch_word(mem);
        if taken {
            self.push_value(mem, self.program_counter);
            self.program_counter = target;
            17
        } else {
            10
        }
    }

    /// `RET`
    pub fn ret<M: MemoryAccessor>(&mut self, mem: &M) -> (t_states: u8)
        ensures
            *final(self) == spec_returned::<M>(*old(self), mem@),
            t_states == 10,
    {
        self.program_counter = self.pop_value(mem);

        // T states
        10
    }

    /// `RET cc`
    pub fn ret_cc<M: MemoryAccessor>(&mut self, mem: &M, taken: bool) -> (t_states: u8)
        ensures
            (*final(self), t_states) == spec_ret_cc::<M>(*old(self), mem@, taken),
    {
        if taken {
            self.program_counter = self.pop_value(mem);
            11
        } else {
            5
        }
    }

    /// `RETI`
    pub fn reti<M: MemoryAccessor>(&mut self, mem: &M) -> (t_states: u8)
        ensures
            *final(self) == spec_returned::<M>(*old(self), mem@),
            t_states == 14,
    {
        self.program_counter = self.pop_value(mem);

        // T states
        14
    }

    /// `RETN`
    pub fn retn<M: MemoryAccessor>(&mut self, mem: &M) -> (t_states: u8)
        ensures
            *final(self) == spec_retn::<M>(*old(self), mem@),
            t_states == 14,
    {
        self.program_counter = self.pop_value(mem);
        self.iff1 = self.iff2;

        // T states
        14
    }

    /// Pushes the program counter and continues at `target`.
    pub fn restart<M: MemoryAccessor>(&mut self, mem: &mut M, target: u16)
        ensures
            (*final(self), final(mem)@) == spec_restart::<M>(*old(self), old(mem)@, target),
    {
        self.push_value(mem, self.program_counter);
        self.program_counter = target;
    }

    /// `RST p`
    pub fn rst<M: MemoryAccessor>(&mut self, mem: &mut M, target: u16) -> (t_states: u8)
        ensures
            (*final(self), final(mem)@) == spec_restart::<M>(*old(self), old(mem)@, target),
            t_states == 11,
    {
        self.restart(mem, target);

        // T states
        11
    }
}

} // verus!
