//! How the fields of an opcode select registers, register pairs, conditions
//! and the memory operand, with `IX` or `IY` standing in for `HL` after a
//! prefix.

use vstd::prelude::*;
use crate::flag_register::{
    c_flag_set, flag, p_flag_set, s_flag_set, z_flag_set, C_FLAG_BITMASK, P_FLAG_BITMASK,
    S_FLAG_BITMASK, Z_FLAG_BITMASK,
};
use crate::z80::{
    displaced, high, low, pair, spec_displaced, spec_high, spec_low, spec_pair, IndexMode,
    MemoryAccessor, Z80,
};

verus! {

/// The extra T-states of an instruction under a `DD` or `FD` prefix that
/// makes no use of a displacement.
pub open spec fn spec_index_cost(idx: IndexMode) -> u8 {
    if idx == IndexMode::HL {
        0
    } else {
        4
    }
}

/// The extra T-states of an instruction that addresses `(IX+d)` or `(IY+d)`
/// in place of `(HL)`.
pub open spec fn spec_displacement_cost(idx: IndexMode) -> u8 {
    if idx == IndexMode::HL {
        0
    } else {
        12
    }
}

/// The byte at the program counter: the next operand byte.
pub open spec fn spec_immediate<M: MemoryAccessor>(c: Z80, memory: M::V) -> u8 {
    M::peek(memory, c.program_counter)
}

/// The 16-bit operand at the program counter, low byte first.
pub open spec fn spec_immediate_word<M: MemoryAccessor>(c: Z80, memory: M::V) -> u16 {
    spec_pair(
        M::peek(memory, c.program_counter.wrapping_add(1)),
        M::peek(memory, c.program_counter),
    )
}

/// `c` with the program counter moved `n` bytes on, modulo 2^16.
pub open spec fn spec_skip(c: Z80, n: u16) -> Z80 {
    Z80 { program_counter: c.program_counter.wrapping_add(n), ..c }
}

/// The register pair that stands for `HL`.
pub open spec fn spec_index(c: Z80, idx: IndexMode) -> u16 {
    match idx {
        IndexMode::HL => c.hl(),
        IndexMode::IX => c.ix,
        IndexMode::IY => c.iy,
    }
}

/// `c` with `value` in the register pair that stands for `HL`.
pub open spec fn spec_with_index(c: Z80, idx: IndexMode, value: u16) -> Z80 {
    match idx {
        IndexMode::HL => Z80 { h: spec_high(value), l: spec_low(value), ..c },
        IndexMode::IX => Z80 { ix: value, ..c },
        IndexMode::IY => Z80 { iy: value, ..c },
    }
}

/// The 8-bit register that field value `r` selects: `B C D E H L - A` for 0
/// to 7, where `H` and `L` are the halves of the pair that stands for `HL`.
/// Field value 6 selects the memory operand and no register.
pub open spec fn spec_reg8(c: Z80, r: u8, idx: IndexMode) -> u8 {
    if r == 0 {
        c.b
    } else if r == 1 {
        c.c
    } else if r == 2 {
        c.d
    } else if r == 3 {
        c.e
    } else if r == 4 {
        spec_high(spec_index(c, idx))
    } else if r == 5 {
        spec_low(spec_index(c, idx))
    } else {
        c.a
    }
}

/// `c` with `value` in the 8-bit register that field value `r` selects.
pub open spec fn spec_with_reg8(c: Z80, r: u8, idx: IndexMode, value: u8) -> Z80 {
    if r == 0 {
        Z80 { b: value, ..c }
    } else if r == 1 {
        Z80 { c: value, ..c }
    } else if r == 2 {
        Z80 { d: value, ..c }
    } else if r == 3 {
        Z80 { e: value, ..c }
    } else if r == 4 {
        spec_with_index(c, idx, spec_pair(value, spec_low(spec_index(c, idx))))
    } else if r == 5 {
        spec_with_index(c, idx, spec_pair(spec_high(spec_index(c, idx)), value))
    } else {
        Z80 { a: value, ..c }
    }
}

/// The register pair that field value `p` selects: `BC DE HL SP` for 0 to 3.
pub open spec fn spec_reg16(c: Z80, p: u8, idx: IndexMode) -> u16 {
    if p == 0 {
        c.bc()
    } else if p == 1 {
        c.de()
    } else if p == 2 {
        spec_index(c, idx)
    } else {
        c.stack_pointer
    }
}

/// `c` with `value` in the register pair that field value `p` selects.
pub open spec fn spec_with_reg16(c: Z80, p: u8, idx: IndexMode, value: u16) -> Z80 {
    if p == 0 {
        Z80 { b: spec_high(value), c: spec_low(value), ..c }
    } else if p == 1 {
        Z80 { d: spec_high(value), e: spec_low(value), ..c }
    } else if p == 2 {
        spec_with_index(c, idx, value)
    } else {
        Z80 { stack_pointer: value, ..c }
    }
}

/// The register pair that field value `p` selects for `PUSH` and `POP`: `BC
/// DE HL AF` for 0 to 3.
pub open spec fn spec_stack_reg16(c: Z80, p: u8, idx: IndexMode) -> u16 {
    if p == 3 {
        c.af()
    } else {
        spec_reg16(c, p, idx)
    }
}

/// `c` with `value` in the register pair that field value `p` selects for
/// `PUSH` and `POP`.
pub open spec fn spec_with_stack_reg16(c: Z80, p: u8, idx: IndexMode, value: u16) -> Z80 {
    if p == 3 {
        Z80 { a: spec_high(value), f: spec_low(value), ..c }
    } else {
        spec_with_reg16(c, p, idx, value)
    }
}

/// Whether the condition that field value `y` selects holds of the flags: `NZ
/// Z NC C PO PE P M` for 0 to 7.
pub open spec fn spec_condition(flags: u8, y: u8) -> bool {
    if y == 0 {
        !flag(flags, Z_FLAG_BITMASK)
    } else if y == 1 {
        flag(flags, Z_FLAG_BITMASK)
    } else if y == 2 {
        !flag(flags, C_FLAG_BITMASK)
    } else if y == 3 {
        flag(flags, C_FLAG_BITMASK)
    } else if y == 4 {
        !flag(flags, P_FLAG_BITMASK)
    } else if y == 5 {
        flag(flags, P_FLAG_BITMASK)
    } else if y == 6 {
        !flag(flags, S_FLAG_BITMASK)
    } else {
        flag(flags, S_FLAG_BITMASK)
    }
}

/// The address of the memory operand: `HL`, or `IX` or `IY` moved by the
/// displacement byte at the program counter.
pub open spec fn spec_operand_address<M: MemoryAccessor>(
    c: Z80,
    memory: M::V,
    idx: IndexMode,
) -> u16 {
    match idx {
        IndexMode::HL => c.hl(),
        IndexMode::IX => spec_displaced(c.ix, spec_immediate::<M>(c, memory)),
        IndexMode::IY => spec_displaced(c.iy, spec_immediate::<M>(c, memory)),
    }
}

/// `c` once the address of the memory operand is formed: past the
/// displacement byte, if there is one.
pub open spec fn spec_past_displacement(c: Z80, idx: IndexMode) -> Z80 {
    match idx {
        IndexMode::HL => c,
        _ => spec_skip(c, 1),
    }
}

#[verifier::when_used_as_spec(spec_index_cost)]
pub fn index_cost(idx: IndexMode) -> (t_states: u8)
    ensures
        t_states == spec_index_cost(idx),
{
    match idx {
        IndexMode::HL => 0,
        _ => 4,
    }
}

#[verifier::when_used_as_spec(spec_displacement_cost)]
pub fn displacement_cost(idx: IndexMode) -> (t_states: u8)
    ensures
        t_states == spec_displacement_cost(idx),
{
    match idx {
        IndexMode::HL => 0,
        _ => 12,
    }
}

/// Tests the condition that field value `y` selects.
#[verifier::when_used_as_spec(spec_condition)]
pub fn condition(flags: u8, y: u8) -> (holds: bool)
    ensures
        holds == spec_condition(flags, y),
{
    if y == 0 {
        !z_flag_set(&flags)
    } else if y == 1 {
        z_flag_set(&flags)
    } else if y == 2 {
        !c_flag_set(&flags)
    } else if y == 3 {
        c_flag_set(&flags)
    } else if y == 4 {
        !p_flag_set(&flags)
    } else if y == 5 {
        p_flag_set(&flags)
    } else if y == 6 {
        !s_flag_set(&flags)
    } else {
        s_flag_set(&flags)
    }
}

impl Z80 {
    /// The register pair that stands for `HL`.
    pub fn index(&self, idx: IndexMode) -> (value: u16)
        ensures
            value == spec_index(*self, idx),
    {
        match idx {
            IndexMode::HL => self.hl(),
            IndexMode::IX => self.ix,
            IndexMode::IY => self.iy,
        }
    }

    /// Loads the register pair that stands for `HL`.
    pub fn set_index(&mut self, idx: IndexMode, value: u16)
        ensures
            *final(self) == spec_with_index(*old(self), idx, value),
    {
        match idx {
            IndexMode::HL => {
                self.set_hl(value);
            },
            IndexMode::IX => {
                self.ix = value;
            },
            IndexMode::IY => {
                self.iy = value;
            },
        }
    }

    /// Reads the 8-bit register that field value `r` selects.
    pub fn reg8(&self, r: u8, idx: IndexMode) -> (value: u8)
        ensures
            value == spec_reg8(*self, r, idx),
    {
        if r == 0 {
            self.b
        } else if r == 1 {
            self.c
        } else if r == 2 {
            self.d
        } else if r == 3 {
            self.e
        } else if r == 4 {
            high(self.index(idx))
        } else if r == 5 {
            low(self.index(idx))
        } else {
            self.a
        }
    }

    /// Loads the 8-bit register that field value `r` selects.
    pub fn set_reg8(&mut self, r: u8, idx: IndexMode, value: u8)
        ensures
            *final(self) == spec_with_reg8(*old(self), r, idx, value),
    {
        if r == 0 {
            self.b = value;
        } else if r == 1 {
            self.c = value;
        } else if r == 2 {
            self.d = value;
        } else if r == 3 {
            self.e = value;
        } else if r == 4 {
            let other = low(self.index(idx));
            self.set_index(idx, pair(value, other));
        } else if r == 5 {
            let other = high(self.index(idx));
            self.set_index(idx, pair(other, value));
        } else {
            self.a = value;
        }
    }

    /// Reads the register pair that field value `p` selects.
    pub fn reg16(&self, p: u8, idx: IndexMode) -> (value: u16)
        ensures
            value == spec_reg16(*self, p, idx),
    {
        if p == 0 {
            self.bc()
        } else if p == 1 {
            self.de()
        } else if p == 2 {
            self.index(idx)
        } else {
            self.stack_pointer
        }
    }

    /// Loads the register pair that field value `p` selects.
    pub fn set_reg16(&mut self, p: u8, idx: IndexMode, value: u16)
        ensures
            *final(self) == spec_with_reg16(*old(self), p, idx, value),
    {
        if p == 0 {
            self.set_bc(value);
        } else if p == 1 {
            self.set_de(value);
        } else if p == 2 {
            self.set_index(idx, value);
        } else {
            self.stack_pointer = value;
        }
    }

    /// Reads the register pair that field value `p` selects for `PUSH`.
    pub fn stack_reg16(&self, p: u8, idx: IndexMode) -> (value: u16)
        ensures
            value == spec_stack_reg16(*self, p, idx),
    {
        if p == 3 {
            self.af()
        } else {
            self.reg16(p, idx)
        }
    }

    /// Loads the register pair that field value `p` selects for `POP`.
    pub fn set_stack_reg16(&mut self, p: u8, idx: IndexMode, value: u16)
        ensures
            *final(self) == spec_with_stack_reg16(*old(self), p, idx, value),
    {
        if p == 3 {
            self.set_af(value);
        } else {
            self.set_reg16(p, idx, value);
        }
    }

    /// Forms the address of the memory operand, fetching the displacement
    /// byte where `IX` or `IY` stands for `HL`.
    pub fn operand_address<M: MemoryAccessor>(&mut self, mem: &M, idx: IndexMode) -> (address: u16)
        ensures
            address == spec_operand_address::<M>(*old(self), mem@, idx),
            *final(self) == spec_past_displacement(*old(self), idx),
    {
        match idx {
            IndexMode::HL => self.hl(),
            IndexMode::IX => {
                let d = self.fetch_next_opcode(mem);
                displaced(self.ix, d)
            },
            IndexMode::IY => {
                let d = self.fetch_next_opcode(mem);
                displaced(self.iy, d)
            },
        }
    }
}

} // verus!
