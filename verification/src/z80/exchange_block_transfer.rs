//! Exchange, block transfer and search group.

use vstd::prelude::*;
use crate::z80::arithmetic::{
    block_compare_flags, block_load_flags, spec_block_compare_flags, spec_block_load_flags,
};
use crate::z80::operands::{spec_index, spec_index_cost, spec_with_index, index_cost};
use crate::z80::{
    peek_word, poke_word, read_word, spec_high, spec_low, write_word, IndexMode, MemoryAccessor,
    Z80,
};

verus! {

/// `address` moved one byte up (`increment`) or down, modulo 2^16.
pub open spec fn spec_stepped(address: u16, increment: bool) -> u16 {
    if increment {
        address.wrapping_add(1)
    } else {
        address.wrapping_sub(1)
    }
}

/// `EX DE,HL`: the two pairs change places.
pub open spec fn spec_ex_de_hl(c: Z80) -> Z80 {
    Z80 { d: c.h, e: c.l, h: c.d, l: c.e, ..c }
}

/// `EX AF,AF'`: the accumulator and the flags change places with their
/// alternates.
pub open spec fn spec_ex_af_afp(c: Z80) -> Z80 {
    Z80 { a: c.a_prime, f: c.f_prime, a_prime: c.a, f_prime: c.f, ..c }
}

/// `EXX`: `BC`, `DE` and `HL` change places with their alternates.
pub open spec fn spec_exx(c: Z80) -> Z80 {
    Z80 {
        b: c.b_prime,
        c: c.c_prime,
        d: c.d_prime,
        e: c.e_prime,
        h: c.h_prime,
        l: c.l_prime,
        b_prime: c.b,
        c_prime: c.c,
        d_prime: c.d,
        e_prime: c.e,
        h_prime: c.h,
        l_prime: c.l,
        ..c
    }
}

/// `EX (SP),HL` and its `IX` and `IY` forms: the pair and the 16-bit value on
/// top of the stack change places. Both bytes are read before the low and
/// then the high byte are written.
pub open spec fn spec_ex_mem_sp<M: MemoryAccessor>(c: Z80, memory: M::V, idx: IndexMode) -> (
    Z80,
    M::V,
    u8,
) {
    (
        spec_with_index(c, idx, peek_word::<M>(memory, c.stack_pointer)),
        poke_word::<M>(memory, c.stack_pointer, spec_index(c, idx)),
        (19 + spec_index_cost(idx)) as u8,
    )
}

/// One step of a block load (`LDI`, `LDD`, `LDIR`, `LDDR`): the byte at `HL`
/// goes to `DE`, both move one byte up or down, and `BC` counts down. A
/// repeating form that leaves `BC` other than 0 moves the program counter
/// back onto its own two opcode bytes and takes 21 T-states; every other step
/// takes 16.
pub open spec fn spec_block_load<M: MemoryAccessor>(
    c: Z80,
    memory: M::V,
    increment: bool,
    repeat: bool,
) -> (Z80, M::V, u8) {
    let data = M::peek(memory, c.hl());
    let hl = spec_stepped(c.hl(), increment);
    let de = spec_stepped(c.de(), increment);
    let bc = c.bc().wrapping_sub(1);
    let again = repeat && bc != 0;
    (
        Z80 {
            h: spec_high(hl),
            l: spec_low(hl),
            d: spec_high(de),
            e: spec_low(de),
            b: spec_high(bc),
            c: spec_low(bc),
            f: spec_block_load_flags(c.a, data, bc, c.f),
            program_counter: if again {
                c.program_counter.wrapping_sub(2)
            } else {
                c.program_counter
            },
            ..c
        },
        M::poke(memory, c.de(), data),
        if again {
            21
        } else {
            16
        },
    )
}

/// One step of a block compare (`CPI`, `CPD`, `CPIR`, `CPDR`): the
/// accumulator is compared with the byte at `HL`, `HL` moves one byte up or
/// down, and `BC` counts down. A repeating form that leaves `BC` other than 0
/// and has not found the accumulator's value moves the program counter back
/// onto its own two opcode bytes and takes 21 T-states; every other step
/// takes 16.
pub open spec fn spec_block_compare<M: MemoryAccessor>(
    c: Z80,
    memory: M::V,
    increment: bool,
    repeat: bool,
) -> (Z80, u8) {
    let data = M::peek(memory, c.hl());
    let hl = spec_stepped(c.hl(), increment);
    let bc = c.bc().wrapping_sub(1);
    let again = repeat && bc != 0 && c.a != data;
    (
        Z80 {
            h: spec_high(hl),
            l: spec_low(hl),
            b: spec_high(bc),
            c: spec_low(bc),
            f: spec_block_compare_flags(c.a, data, bc, c.f),
            program_counter: if again {
                c.program_counter.wrapping_sub(2)
            } else {
                c.program_counter
            },
            ..c
        },
        if again {
            21
        } else {
            16
        },
    )
}

/// Moves an address one byte up or down, modulo 2^16.
#[verifier::when_used_as_spec(spec_stepped)]
pub fn stepped(address: u16, increment: bool) -> (next: u16)
    ensures
        next == spec_stepped(address, increment),
{
    if increment {
        address.wrapping_add(1)
    } else {
        address.wrapping_sub(1)
    }
}

impl Z80 {
    /// `EX DE,HL`
    pub fn ex_de_hl(&mut self) -> (t_states: u8)
        ensures
            t_states == 4,
            *final(self) == spec_ex_de_hl(*old(self)),
    {
        let temp_d = self.d;
        let temp_e = self.e;
        let temp_h = self.h;
        let temp_l = self.l;

        self.d = temp_h;
        self.e = temp_l;
        self.h = temp_d;
        self.l = temp_e;

        // T states
        4
    }

    /// `EX AF,AF'`
    pub fn ex_af_afp(&mut self) -> (t_states: u8)
        ensures
            t_states == 4,
            *final(self) == spec_ex_af_afp(*old(self)),
    {
        let temp_a = self.a;
        let temp_f = self.f;
        let temp_a_prime = self.a_prime;
        let temp_f_prime = self.f_prime;

        self.a = temp_a_prime;
        self.f = temp_f_prime;
        self.a_prime = temp_a;
        self.f_prime = temp_f;

        // T states
        4
    }

    /// `EXX`
    pub fn exx(&mut self) -> (t_states: u8)
        ensures
            t_states == 4,
            *final(self) == spec_exx(*old(self)),
    {
        let temp_b = self.b;
        let temp_c = self.c;
        let temp_d = self.d;
        let temp_e = self.e;
        let temp_h = self.h;
        let temp_l = self.l;
        let temp_b_prime = self.b_prime;
        let temp_c_prime = self.c_prime;
        let temp_d_prime = self.d_prime;
        let temp_e_prime = self.e_prime;
        let temp_h_prime = self.h_prime;
        let temp_l_prime = self.l_prime;

        self.b_prime = temp_b;
        self.c_prime = temp_c;
        self.d_prime = temp_d;
        self.e_prime = temp_e;
        self.h_prime = temp_h;
        self.l_prime = temp_l;
        self.b = temp_b_prime;
        self.c = temp_c_prime;
        self.d = temp_d_prime;
        self.e = temp_e_prime;
        self.h = temp_h_prime;
        self.l = temp_l_prime;

        // T states
        4
    }

    /// Exchanges the pair that stands for `HL` with the 16-bit value on top
    /// of the stack.
    pub fn ex_mem_sp<M: MemoryAccessor>(&mut self, mem: &mut M, idx: IndexMode) -> (t_states: u8)
        ensures
            (*final(self), final(mem)@, t_states) == spec_ex_mem_sp::<M>(
                *old(self),
                old(mem)@,
                idx,
            ),
    {
        let from_stack = read_word(mem, self.stack_pointer);
        write_word(mem, self.stack_pointer, self.index(idx));
        self.set_index(idx, from_stack);

        // T states
        19 + index_cost(idx)
    }

    /// `EX (SP),HL`
    pub fn ex_mem_sp_hl<M: MemoryAccessor>(&mut self, mem: &mut M) -> (t_states: u8)
        ensures
            (*final(self), final(mem)@, t_states) == spec_ex_mem_sp::<M>(
                *old(self),
                old(mem)@,
                IndexMode::HL,
            ),
            t_states == 19,
    {
        self.ex_mem_sp(mem, IndexMode::HL)
    }

    /// `EX (SP),IX`
    pub fn ex_mem_sp_ix<M: MemoryAccessor>(&mut self, mem: &mut M) -> (t_states: u8)
        ensures
            (*final(self), final(mem)@, t_states) == spec_ex_mem_sp::<M>(
                *old(self),
                old(mem)@,
                IndexMode::IX,
            ),
            t_states == 23,
    {
        self.ex_mem_sp(mem, IndexMode::IX)
    }

    /// `EX (SP),IY`
    pub fn ex_mem_sp_iy<M: MemoryAccessor>(&mut self, mem: &mut M) -> (t_states: u8)
        ensures
            (*final(self), final(mem)@, t_states) == spec_ex_mem_sp::<M>(
                *old(self),
                old(mem)@,
                IndexMode::IY,
            ),
            t_states == 23,
    {
        self.ex_mem_sp(mem, IndexMode::IY)
    }

    /// One step of a block load, up or down, repeating or not.
    pub fn block_load<M: MemoryAccessor>(
        &mut self,
        mem: &mut M,
        increment: bool,
        repeat: bool,
    ) -> (t_states: u8)
        ensures
            (*final(self), final(mem)@, t_states) == spec_block_load::<M>(
                *old(self),
                old(mem)@,
                increment,
                repeat,
            ),
    {
        // Transfer data from HL address to DE address
        let hl = self.hl();
        let data = mem.read(hl);
        let de = self.de();
        mem.write(de, data);

        // Move HL and DE
        self.set_hl(stepped(hl, increment));
        self.set_de(stepped(de, increment));

        // Read and decrement BC
        let bc = self.bc().wrapping_sub(1);
        self.set_bc(bc);

        self.f = block_load_flags(self.a, data, bc, self.f);

        if repeat && bc != 0 {
            self.program_counter = self.program_counter.wrapping_sub(2);
            21
        } else {
            16
        }
    }

    /// `LDI`
    pub fn ldi<M: MemoryAccessor>(&mut self, mem: &mut M) -> (t_states: u8)
        ensures
            (*final(self), final(mem)@, t_states) == spec_block_load::<M>(
                *old(self),
                old(mem)@,
                true,
                false,
            ),
            t_states == 16,
    {
        self.block_load(mem, true, false)
    }

    /// `LDIR`
    pub fn ldir<M: MemoryAccessor>(&mut self, mem: &mut M) -> (t_states: u8)
        ensures
            (*final(self), final(mem)@, t_states) == spec_block_load::<M>(
                *old(self),
                old(mem)@,
                true,
                true,
            ),
            t_states == (if old(self).bc() == 1 {
                16u8
            } else {
                21u8
            }),
    {
        self.block_load(mem, true, true)
    }

    /// `LDD`
    pub fn ldd<M: MemoryAccessor>(&mut self, mem: &mut M) -> (t_states: u8)
        ensures
            (*final(self), final(mem)@, t_states) == spec_block_load::<M>(
                *old(self),
                old(mem)@,
                false,
                false,
            ),
            t_states == 16,
    {
        self.block_load(mem, false, false)
    }

    /// `LDDR`
    pub fn lddr<M: MemoryAccessor>(&mut self, mem: &mut M) -> (t_states: u8)
        ensures
            (*final(self), final(mem)@, t_states) == spec_block_load::<M>(
                *old(self),
                old(mem)@,
                false,
                true,
            ),
            t_states == (if old(self).bc() == 1 {
                16u8
            } else {
                21u8
            }),
    {
        self.block_load(mem, false, true)
    }

    /// One step of a block compare, up or down, repeating or not.
    pub fn block_compare<M: MemoryAccessor>(&mut self, mem: &M, increment: bool, repeat: bool) -> (t_states: u8)
        ensures
            (*final(self), t_states) == spec_block_compare::<M>(
                *old(self),
                mem@,
                increment,
                repeat,
            ),
    {
        let address = self.hl();
        let data = mem.read(address);
        let a = self.a;

        self.set_hl(stepped(address, increment));

        let bc = self.bc().wrapping_sub(1);
        self.set_bc(bc);

        self.f = block_compare_flags(a, data, bc, self.f);

        if repeat && bc != 0 && a != data {
            self.program_counter = self.program_counter.wrapping_sub(2);
            21
        } else {
            16
        }
    }

    /// `CPI`
    pub fn cpi<M: MemoryAccessor>(&mut self, mem: &M) -> (t_states: u8)
        ensures
            (*final(self), t_states) == spec_block_compare::<M>(*old(self), mem@, true, false),
            t_states == 16,
    {
        self.block_compare(mem, true, false)
    }

    /// `CPD`
    pub fn cpd<M: MemoryAccessor>(&mut self, mem: &M) -> (t_states: u8)
        ensures
            (*final(self), t_states) == spec_block_compare::<M>(*old(self), mem@, false, false),
            t_states == 16,
    {
        self.block_compare(mem, false, false)
    }

    /// `CPIR`
    pub fn cpir<M: MemoryAccessor>(&mut self, mem: &M) -> (t_states: u8)
        ensures
            (*final(self), t_states) == spec_block_compare::<M>(*old(self), mem@, true, true),
    {
        self.block_compare(mem, true, true)
    }

    /// `CPDR`
    pub fn cpdr<M: MemoryAccessor>(&mut self, mem: &M) -> (t_states: u8)
        ensures
            (*final(self), t_states) == spec_block_compare::<M>(*old(self), mem@, false, true),
    {
        self.block_compare(mem, false, true)
    }
}

} // verus!
