//! Rotate and shift group, and bit set, reset and test group.

use vstd::prelude::*;
use crate::z80::arithmetic::{
    bit_flags, parity, reset_bit, rotate_a, set_bit, shift8, spec_bit_flags, spec_parity,
    spec_reset_bit, spec_rotate_a, spec_set_bit, spec_shift8, spec_value_flags, value_flags,
};
use crate::z80::operands::{spec_reg8, spec_with_reg8};
use crate::z80::{high, spec_high, IndexMode, MemoryAccessor, Z80};

verus! {

/// `RLCA`, `RRCA`, `RLA`, `RRA` (operation 0 to 3).
pub open spec fn spec_rotate_accumulator(c: Z80, operation: u8) -> Z80 {
    Z80 { a: spec_rotate_a(operation, c.a, c.f).0, f: spec_rotate_a(operation, c.a, c.f).1, ..c }
}

/// What an opcode of the `CB` page does to the byte `v`: the byte to write
/// back, if any, and the new flags. The top two bits of the opcode choose
/// between a rotate or shift (chosen by the field `y`), `BIT y`, `RES y` and
/// `SET y`. `BIT` writes nothing back and takes Y from `y_source`; `RES` and
/// `SET` leave the flags.
pub open spec fn spec_cb_operate(opcode: u8, v: u8, y_source: u8, flags: u8) -> (Option<u8>, u8) {
    let y = (opcode / 8) % 8;
    if opcode / 64 == 0 {
        (Some(spec_shift8(y, v, flags).0), spec_shift8(y, v, flags).1)
    } else if opcode / 64 == 1 {
        (None, spec_bit_flags(y, v, y_source, flags))
    } else if opcode / 64 == 2 {
        (Some(spec_reset_bit(y, v)), flags)
    } else {
        (Some(spec_set_bit(y, v)), flags)
    }
}

/// An opcode of the `CB` page on the register that its field `z` selects.
pub open spec fn spec_cb_reg(c: Z80, opcode: u8) -> (Z80, u8) {
    let z = opcode % 8;
    let v = spec_reg8(c, z, IndexMode::HL);
    let (written, f) = spec_cb_operate(opcode, v, v, c.f);
    (
        match written {
            Some(result) => Z80 { f, ..spec_with_reg8(c, z, IndexMode::HL, result) },
            None => Z80 { f, ..c },
        },
        8,
    )
}

/// An opcode of the `CB` page on the byte at `address`: `(HL)`, or `(IX+d)`
/// or `(IY+d)` after a second prefix. `BIT` takes Y from the high byte of the
/// address. In the indexed forms a byte written back is also copied to the
/// register that field `z` selects, unless `z` is 6; they take 8 T-states
/// more.
pub open spec fn spec_cb_mem<M: MemoryAccessor>(
    c: Z80,
    memory: M::V,
    opcode: u8,
    address: u16,
    idx: IndexMode,
) -> (Z80, M::V, u8) {
    let z = opcode % 8;
    let (written, f) = spec_cb_operate(
        opcode,
        M::peek(memory, address),
        spec_high(address),
        c.f,
    );
    let extra: int = if idx == IndexMode::HL {
        0
    } else {
        8
    };
    match written {
        Some(result) => (
            if idx != IndexMode::HL && z != 6 {
                Z80 { f, ..spec_with_reg8(c, z, IndexMode::HL, result) }
            } else {
                Z80 { f, ..c }
            },
            M::poke(memory, address, result),
            (15 + extra) as u8,
        ),
        None => (Z80 { f, ..c }, memory, (12 + extra) as u8),
    }
}

/// `RLD` (`left`) and `RRD`: the low digit of the accumulator and the two
/// digits of the byte at `HL` rotate by one digit. `RLD` moves the low digit
/// of the byte up, its high digit into the accumulator and the accumulator's
/// low digit into the byte; `RRD` goes the other way. S Z Y X and parity
/// follow the new accumulator, H and N are cleared, C stays.
pub open spec fn spec_rotate_digit<M: MemoryAccessor>(c: Z80, memory: M::V, left: bool) -> (
    Z80,
    M::V,
    u8,
) {
    let v = M::peek(memory, c.hl());
    let a = if left {
        ((c.a / 16) * 16 + v / 16) as u8
    } else {
        ((c.a / 16) * 16 + v % 16) as u8
    };
    let stored = if left {
        ((v % 16) * 16 + c.a % 16) as u8
    } else {
        ((c.a % 16) * 16 + v / 16) as u8
    };
    (
        Z80 { a, f: spec_value_flags(a, spec_parity(a), c.f), ..c },
        M::poke(memory, c.hl(), stored),
        18,
    )
}

/// Works an opcode of the `CB` page on the byte `v`.
pub fn cb_operate(opcode: u8, v: u8, y_source: u8, flags: u8) -> (out: (Option<u8>, u8))
    ensures
        out == spec_cb_operate(opcode, v, y_source, flags),
{
    let y = (opcode / 8) % 8;
    if opcode / 64 == 0 {
        let (result, f) = shift8(y, v, flags);
        (Some(result), f)
    } else if opcode / 64 == 1 {
        (None, bit_flags(y, v, y_source, flags))
    } else if opcode / 64 == 2 {
        (Some(reset_bit(y, v)), flags)
    } else {
        (Some(set_bit(y, v)), flags)
    }
}

impl Z80 {
    /// `RLCA`, `RRCA`, `RLA`, `RRA`.
    pub fn rotate_accumulator(&mut self, operation: u8) -> (t_states: u8)
        ensures
            *final(self) == spec_rotate_accumulator(*old(self), operation),
            t_states == 4,
    {
        let (a, f) = rotate_a(operation, self.a, self.f);
        self.a = a;
        self.f = f;

        // T states
        4
    }

    /// An opcode of the `CB` page on a register.
    pub fn cb_reg(&mut self, opcode: u8) -> (t_states: u8)
        ensures
            (*final(self), t_states) == spec_cb_reg(*old(self), opcode),
    {
        let z = opcode % 8;
        let v = self.reg8(z, IndexMode::HL);
        let (written, f) = cb_operate(opcode, v, v, self.f);
        match written {
            Some(result) => {
                self.set_reg8(z, IndexMode::HL, result);
            },
            None => {},
        }
        self.f = f;

        // T states
        8
    }

    /// An opcode of the `CB` page on the byte at `address`.
    pub fn cb_mem<M: MemoryAccessor>(
        &mut self,
        mem: &mut M,
        opcode: u8,
        address: u16,
        idx: IndexMode,
    ) -> (t_states: u8)
        ensures
            (*final(self), final(mem)@, t_states) == spec_cb_mem::<M>(
                *old(self),
                old(mem)@,
                opcode,
                address,
                idx,
            ),
    {
        let z = opcode % 8;
        let (written, f) = cb_operate(opcode, mem.read(address), high(address), self.f);
        let extra: u8 = match idx {
            IndexMode::HL => 0,
            _ => 8,
        };
        match written {
            Some(result) => {
                mem.write(address, result);
                if extra != 0 && z != 6 {
                    self.set_reg8(z, IndexMode::HL, result);
                }
                self.f = f;
                15 + extra
            },
            None => {
                self.f = f;
                12 + extra
            },
        }
    }

    /// `RLD` and `RRD`.
    pub fn rotate_digit<M: MemoryAccessor>(&mut self, mem: &mut M, left: bool) -> (t_states: u8)
        ensures
            (*final(self), final(mem)@, t_states) == spec_rotate_digit::<M>(
                *old(self),
                old(mem)@,
                left,
            ),
    {
        let address = self.hl();
        let v = mem.read(address);
        let a = if left {
            (self.a / 16) * 16 + v / 16
        } else {
            (self.a / 16) * 16 + v % 16
        };
        let stored = if left {
            (v % 16) * 16 + self.a % 16
        } else {
            (self.a % 16) * 16 + v / 16
        };
        mem.write(address, stored);
        self.a = a;
        self.f = value_flags(a, parity(a), self.f);

        // T states
        18
    }
}

} // verus!
