//! Input and output group.

use vstd::prelude::*;
use crate::z80::arithmetic::{
    block_io_flags, parity, spec_block_io_flags, spec_parity, spec_value_flags, value_flags,
};
use crate::z80::exchange_block_transfer::{spec_stepped, stepped};
use crate::z80::operands::{spec_immediate, spec_reg8, spec_skip, spec_with_reg8};
use crate::z80::{
    pair, spec_high, spec_low, spec_pair, IndexMode, MemoryAccessor, PortAccessor, Z80,
};

verus! {

/// `IN A,(n)`: the accumulator takes the byte from the port whose high
/// address byte is the old accumulator and whose low byte is the operand. No
/// flag changes.
pub open spec fn spec_in_a_n<M: MemoryAccessor, P: PortAccessor>(
    c: Z80,
    memory: M::V,
    ports: P::V,
) -> (Z80, P::V, u8) {
    let received = P::port_in(ports, spec_pair(c.a, spec_immediate::<M>(c, memory)));
    (Z80 { a: received.0, ..spec_skip(c, 1) }, received.1, 11)
}

/// `OUT (n),A`: the accumulator goes to the port whose high address byte is
/// the accumulator and whose low byte is the operand.
pub open spec fn spec_out_n_a<M: MemoryAccessor, P: PortAccessor>(
    c: Z80,
    memory: M::V,
    ports: P::V,
) -> (Z80, P::V, u8) {
    (spec_skip(c, 1), P::port_out(ports, spec_pair(c.a, spec_immediate::<M>(c, memory)), c.a), 11)
}

/// `IN r,(C)`: register `y` takes the byte from port `BC`; with `y` 6 only
/// the flags change. S Z Y X and parity follow the byte, H and N are cleared,
/// C stays.
pub open spec fn spec_in_r_c<P: PortAccessor>(c: Z80, ports: P::V, y: u8) -> (Z80, P::V, u8) {
    let received = P::port_in(ports, c.bc());
    let f = spec_value_flags(received.0, spec_parity(received.0), c.f);
    (
        if y == 6 {
            Z80 { f, ..c }
        } else {
            Z80 { f, ..spec_with_reg8(c, y, IndexMode::HL, received.0) }
        },
        received.1,
        12,
    )
}

/// `OUT (C),r`: register `y` goes to port `BC`; with `y` 6 the byte 0 goes.
pub open spec fn spec_out_c_r<P: PortAccessor>(c: Z80, ports: P::V, y: u8) -> (P::V, u8) {
    (
        P::port_out(
            ports,
            c.bc(),
            if y == 6 {
                0
            } else {
                spec_reg8(c, y, IndexMode::HL)
            },
        ),
        12,
    )
}

/// One step of a block input (`INI`, `IND`, `INIR`, `INDR`): the byte from
/// port `BC` is stored at `HL`, `HL` moves one byte up or down and `B` counts
/// down. A repeating form that leaves `B` other than 0 moves the program
/// counter back onto its own two opcode bytes and takes 21 T-states; every
/// other step takes 16.
pub open spec fn spec_block_input<M: MemoryAccessor, P: PortAccessor>(
    c: Z80,
    memory: M::V,
    ports: P::V,
    increment: bool,
    repeat: bool,
) -> (Z80, M::V, P::V, u8) {
    let received = P::port_in(ports, c.bc());
    let hl = spec_stepped(c.hl(), increment);
    let b = c.b.wrapping_sub(1);
    let again = repeat && b != 0;
    (
        Z80 {
            h: spec_high(hl),
            l: spec_low(hl),
            b,
            f: spec_block_io_flags(b, c.f),
            program_counter: if again {
                c.program_counter.wrapping_sub(2)
            } else {
                c.program_counter
            },
            ..c
        },
        M::poke(memory, c.hl(), received.0),
        received.1,
        if again {
            21
        } else {
            16
        },
    )
}

/// One step of a block output (`OUTI`, `OUTD`, `OTIR`, `OTDR`): `B` counts
/// down, the byte at `HL` goes to port `BC` (with the new `B`), and `HL`
/// moves one byte up or down. Repeats and T-states as for a block input.
pub open spec fn spec_block_output<M: MemoryAccessor, P: PortAccessor>(
    c: Z80,
    memory: M::V,
    ports: P::V,
    increment: bool,
    repeat: bool,
) -> (Z80, P::V, u8) {
    let hl = spec_stepped(c.hl(), increment);
    let b = c.b.wrapping_sub(1);
    let again = repeat && b != 0;
    (
        Z80 {
            h: spec_high(hl),
            l: spec_low(hl),
            b,
            f: spec_block_io_flags(b, c.f),
            program_counter: if again {
                c.program_counter.wrapping_sub(2)
            } else {
                c.program_counter
            },
            ..c
        },
        P::port_out(ports, spec_pair(b, c.c), M::peek(memory, c.hl())),
        if again {
            21
        } else {
            16
        },
    )
}

impl Z80 {
    /// `IN A,(n)`
    pub fn in_a_n<M: MemoryAccessor, P: PortAccessor>(&mut self, mem: &M, ports: &mut P) -> (t_states: u8)
        ensures
            (*final(self), final(ports)@, t_states) == spec_in_a_n::<M, P>(
                *old(self),
                mem@,
                old(ports)@,
            ),
    {
        let n = self.fetch_next_opcode(mem);
        self.a = ports.input(pair(self.a, n));

        // T states
        11
    }

    /// `OUT (n),A`
    pub fn out_n_a<M: MemoryAccessor, P: PortAccessor>(&mut self, mem: &M, ports: &mut P) -> (t_states: u8)
        ensures
            (*final(self), final(ports)@, t_states) == spec_out_n_a::<M, P>(
                *old(self),
                mem@,
                old(ports)@,
            ),
    {
        let n = self.fetch_next_opcode(mem);
        ports.output(pair(self.a, n), self.a);

        // T states
        11
    }

    /// `IN r,(C)`
    pub fn in_r_c<P: PortAccessor>(&mut self, ports: &mut P, y: u8) -> (t_states: u8)
        ensures
            (*final(self), final(ports)@, t_states) == spec_in_r_c::<P>(
                *old(self),
                old(ports)@,
                y,
            ),
    {
        let data = ports.input(self.bc());
        let f = value_flags(data, parity(data), self.f);
        if y != 6 {
            self.set_reg8(y, IndexMode::HL, data);
        }
        self.f = f;

        // T states
        12
    }

    /// `OUT (C),r`
    pub fn out_c_r<P: PortAccessor>(&self, ports: &mut P, y: u8) -> (t_states: u8)
        ensures
            (final(ports)@, t_states) == spec_out_c_r::<P>(*self, old(ports)@, y),
    {
        let data = if y == 6 {
            0
        } else {
            self.reg8(y, IndexMode::HL)
        };
        ports.output(self.bc(), data);

        // T states
        12
    }

    /// One step of a block input, up or down, repeating or not.
    pub fn block_input<M: MemoryAccessor, P: PortAccessor>(
        &mut self,
        mem: &mut M,
        ports: &mut P,
        increment: bool,
        repeat: bool,
    ) -> (t_states: u8)
        ensures
            (*final(self), final(mem)@, final(ports)@, t_states) == spec_block_input::<M, P>(
                *old(self),
                old(mem)@,
                old(ports)@,
                increment,
                repeat,
            ),
    {
        let data = ports.input(self.bc());
        let hl = self.hl();
        mem.write(hl, data);
        self.set_hl(stepped(hl, increment));
        self.b = self.b.wrapping_sub(1);
        self.f = block_io_flags(self.b, self.f);

        if repeat && self.b != 0 {
            self.program_counter = self.program_counter.wrapping_sub(2);
            21
        } else {
            16
        }
    }

    /// One step of a block output, up or down, repeating or not.
    pub fn block_output<M: MemoryAccessor, P: PortAccessor>(
        &mut self,
        mem: &M,
        ports: &mut P,
        increment: bool,
        repeat: bool,
    ) -> (t_states: u8)
        ensures
            (*final(self), final(ports)@, t_states) == spec_block_output::<M, P>(
                *old(self),
                mem@,
                old(ports)@,
                increment,
                repeat,
            ),
    {
        let hl = self.hl();
        let data = mem.read(hl);
        self.b = self.b.wrapping_sub(1);
        ports.output(self.bc(), data);
        self.set_hl(stepped(hl, increment));
        self.f = block_io_flags(self.b, self.f);

        if repeat && self.b != 0 {
            self.program_counter = self.program_counter.wrapping_sub(2);
            21
        } else {
            16
        }
    }
}

} // verus!
