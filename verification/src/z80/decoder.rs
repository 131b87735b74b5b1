//! The decoder: which instruction the bytes at the program counter select,
//! page by page, and what executing it leaves behind.
//!
//! An opcode byte is read as the fields `x` (bits 7-6), `y` (bits 5-3) and
//! `z` (bits 2-0); `p` is the upper two bits of `y` and `q` its lowest bit.

use vstd::prelude::*;
use crate::z80::arithmetic_group::{
    interrupt_mode, spec_add_index, spec_alu_mem, spec_alu_n, spec_alu_reg, spec_carry_hl,
    spec_ccf, spec_cpl, spec_daa, spec_halt, spec_interrupt_mode, spec_interrupts_enabled,
    spec_neg, spec_scf, spec_step_mem, spec_step_reg, spec_step_reg16,
};
use crate::z80::eight_bit_load_group::{
    spec_ld_a_special, spec_ld_mem_n, spec_ld_mem_r, spec_ld_r_mem, spec_ld_r_n, spec_ld_r_r,
};
use crate::z80::exchange_block_transfer::{
    spec_block_compare, spec_block_load, spec_ex_af_afp, spec_ex_de_hl, spec_ex_mem_sp, spec_exx,
};
use crate::z80::input_output::{
    spec_block_input, spec_block_output, spec_in_a_n, spec_in_r_c, spec_out_c_r, spec_out_n_a,
};
use crate::z80::jump_call_return::{
    spec_call, spec_djnz, spec_jp, spec_jp_index, spec_jr, spec_restart, spec_ret_cc, spec_retn,
    spec_returned,
};
use crate::z80::operands::{
    condition, index_cost, spec_condition, spec_immediate, spec_immediate_word, spec_index,
    spec_index_cost, spec_skip,
};
use crate::z80::rotate_shift_bit::{
    spec_cb_mem, spec_cb_reg, spec_rotate_accumulator, spec_rotate_digit,
};
use crate::z80::sixteen_bit_load_group::{
    spec_ld_index_mem_nn, spec_ld_mem_nn_index, spec_ld_mem_nn_reg16, spec_ld_reg16_mem_nn,
    spec_ld_reg16_nn, spec_ld_sp_index, spec_pop, spec_push,
};
use crate::z80::{
    displaced, spec_displaced, spec_refreshed, IndexMode, MemoryAccessor, PortAccessor, Z80,
};

verus! {

/// The outcome of an instruction that touches neither memory nor ports, with
/// `extra` T-states added.
pub open spec fn spec_cpu_only<MV, PV>(r: (Z80, u8), memory: MV, ports: PV, extra: u8) -> (
    Z80,
    MV,
    PV,
    u8,
) {
    (r.0, memory, ports, (r.1 + extra) as u8)
}

/// The outcome of an instruction that may write memory and touches no port,
/// with `extra` T-states added.
pub open spec fn spec_cpu_memory<MV, PV>(r: (Z80, MV, u8), ports: PV, extra: u8) -> (
    Z80,
    MV,
    PV,
    u8,
) {
    (r.0, r.1, ports, (r.2 + extra) as u8)
}

/// The outcome of an instruction that may use a port and writes no memory,
/// with `extra` T-states added.
pub open spec fn spec_cpu_ports<MV, PV>(r: (Z80, PV, u8), memory: MV, extra: u8) -> (
    Z80,
    MV,
    PV,
    u8,
) {
    (r.0, memory, r.1, (r.2 + extra) as u8)
}

/// `c` after one opcode fetch: the program counter past the byte and the
/// refresh register counted up.
pub open spec fn spec_fetched(c: Z80) -> Z80 {
    Z80 {
        program_counter: c.program_counter.wrapping_add(1),
        r: spec_refreshed(c.r),
        ..c
    }
}

/// The opcodes `0x00` to `0x3F` (`x` = 0).
#[verifier::opaque]
pub open spec fn spec_execute_x0<M: MemoryAccessor, P: PortAccessor>(
    c: Z80,
    memory: M::V,
    ports: P::V,
    opcode: u8,
    idx: IndexMode,
) -> (Z80, M::V, P::V, u8) {
    let y = (opcode / 8) % 8;
    let z = opcode % 8;
    let p = y / 2;
    let q = y % 2;
    let extra = spec_index_cost(idx);
    if z == 0 {
        if y == 0 {
            // NOP
            (c, memory, ports, (4 + extra) as u8)
        } else if y == 1 {
            // EX AF,AF'
            (spec_ex_af_afp(c), memory, ports, (4 + extra) as u8)
        } else if y == 2 {
            spec_cpu_only(spec_djnz::<M>(c, memory), memory, ports, extra)
        } else if y == 3 {
            spec_cpu_only(spec_jr::<M>(c, memory, true), memory, ports, extra)
        } else {
            spec_cpu_only(
                spec_jr::<M>(c, memory, spec_condition(c.f, (y - 4) as u8)),
                memory,
                ports,
                extra,
            )
        }
    } else if z == 1 {
        if q == 0 {
            spec_cpu_only(spec_ld_reg16_nn::<M>(c, memory, p, idx), memory, ports, 0)
        } else {
            spec_cpu_only(spec_add_index(c, p, idx), memory, ports, 0)
        }
    } else if z == 2 {
        if q == 0 {
            if p == 0 {
                // LD (BC),A
                (c, M::poke(memory, c.bc(), c.a), ports, (7 + extra) as u8)
            } else if p == 1 {
                // LD (DE),A
                (c, M::poke(memory, c.de(), c.a), ports, (7 + extra) as u8)
            } else if p == 2 {
                spec_cpu_memory(spec_ld_mem_nn_index::<M>(c, memory, idx), ports, 0)
            } else {
                // LD (nn),A
                (
                    spec_skip(c, 2),
                    M::poke(memory, spec_immediate_word::<M>(c, memory), c.a),
                    ports,
                    (13 + extra) as u8,
                )
            }
        } else {
            if p == 0 {
                // LD A,(BC)
                (Z80 { a: M::peek(memory, c.bc()), ..c }, memory, ports, (7 + extra) as u8)
            } else if p == 1 {
                // LD A,(DE)
                (Z80 { a: M::peek(memory, c.de()), ..c }, memory, ports, (7 + extra) as u8)
            } else if p == 2 {
                spec_cpu_only(spec_ld_index_mem_nn::<M>(c, memory, idx), memory, ports, 0)
            } else {
                // LD A,(nn)
                (
                    Z80 {
                        a: M::peek(memory, spec_immediate_word::<M>(c, memory)),
                        ..spec_skip(c, 2)
                    },
                    memory,
                    ports,
                    (13 + extra) as u8,
                )
            }
        }
    } else if z == 3 {
        spec_cpu_only(spec_step_reg16(c, p, idx, q == 1), memory, ports, 0)
    } else if z == 4 || z == 5 {
        if y == 6 {
            spec_cpu_memory(spec_step_mem::<M>(c, memory, idx, z == 5), ports, 0)
        } else {
            spec_cpu_only(spec_step_reg(c, y, idx, z == 5), memory, ports, 0)
        }
    } else if z == 6 {
        if y == 6 {
            spec_cpu_memory(spec_ld_mem_n::<M>(c, memory, idx), ports, 0)
        } else {
            spec_cpu_only(spec_ld_r_n::<M>(c, memory, y, idx), memory, ports, 0)
        }
    } else {
        (
            if y < 4 {
                spec_rotate_accumulator(c, y)
            } else if y == 4 {
                spec_daa(c)
            } else if y == 5 {
                spec_cpl(c)
            } else if y == 6 {
                spec_scf(c)
            } else {
                spec_ccf(c)
            },
            memory,
            ports,
            (4 + extra) as u8,
        )
    }
}

/// The opcodes `0x40` to `0x7F` (`x` = 1): the 8-bit loads between registers
/// and the memory operand, and `HALT`.
#[verifier::opaque]
pub open spec fn spec_execute_x1<M: MemoryAccessor, P: PortAccessor>(
    c: Z80,
    memory: M::V,
    ports: P::V,
    opcode: u8,
    idx: IndexMode,
) -> (Z80, M::V, P::V, u8) {
    let y = (opcode / 8) % 8;
    let z = opcode % 8;
    if y == 6 && z == 6 {
        (spec_halt(c), memory, ports, (4 + spec_index_cost(idx)) as u8)
    } else if y == 6 {
        spec_cpu_memory(spec_ld_mem_r::<M>(c, memory, z, idx), ports, 0)
    } else if z == 6 {
        spec_cpu_only(spec_ld_r_mem::<M>(c, memory, y, idx), memory, ports, 0)
    } else {
        spec_cpu_only(spec_ld_r_r(c, y, z, idx), memory, ports, 0)
    }
}

/// The opcodes `0x80` to `0xBF` (`x` = 2): the accumulator operations with a
/// register or the memory operand.
#[verifier::opaque]
pub open spec fn spec_execute_x2<M: MemoryAccessor, P: PortAccessor>(
    c: Z80,
    memory: M::V,
    ports: P::V,
    opcode: u8,
    idx: IndexMode,
) -> (Z80, M::V, P::V, u8) {
    let y = (opcode / 8) % 8;
    let z = opcode % 8;
    if z == 6 {
        spec_cpu_only(spec_alu_mem::<M>(c, memory, y, idx), memory, ports, 0)
    } else {
        spec_cpu_only(spec_alu_reg(c, y, z, idx), memory, ports, 0)
    }
}

/// The opcodes `0xC0` to `0xFF` (`x` = 3) but the four prefixes, which
/// by themselves count as `NOP`.
#[verifier::opaque]
pub open spec fn spec_execute_x3<M: MemoryAccessor, P: PortAccessor>(
    c: Z80,
    memory: M::V,
    ports: P::V,
    opcode: u8,
    idx: IndexMode,
) -> (Z80, M::V, P::V, u8) {
    let y = (opcode / 8) % 8;
    let z = opcode % 8;
    let p = y / 2;
    let q = y % 2;
    let extra = spec_index_cost(idx);
    if z == 0 {
        spec_cpu_only(
            spec_ret_cc::<M>(c, memory, spec_condition(c.f, y)),
            memory,
            ports,
            extra,
        )
    } else if z == 1 {
        if q == 0 {
            spec_cpu_only(spec_pop::<M>(c, memory, p, idx), memory, ports, 0)
        } else if p == 0 {
            // RET
            (spec_returned::<M>(c, memory), memory, ports, (10 + extra) as u8)
        } else if p == 1 {
            // EXX
            (spec_exx(c), memory, ports, (4 + extra) as u8)
        } else if p == 2 {
            spec_cpu_only(spec_jp_index(c, idx), memory, ports, 0)
        } else {
            spec_cpu_only(spec_ld_sp_index(c, idx), memory, ports, 0)
        }
    } else if z == 2 {
        spec_cpu_only(spec_jp::<M>(c, memory, spec_condition(c.f, y)), memory, ports, extra)
    } else if z == 3 {
        if y == 0 {
            spec_cpu_only(spec_jp::<M>(c, memory, true), memory, ports, extra)
        } else if y == 1 {
            (c, memory, ports, (4 + extra) as u8)
        } else if y == 2 {
            spec_cpu_ports(spec_out_n_a::<M, P>(c, memory, ports), memory, extra)
        } else if y == 3 {
            spec_cpu_ports(spec_in_a_n::<M, P>(c, memory, ports), memory, extra)
        } else if y == 4 {
            spec_cpu_memory(spec_ex_mem_sp::<M>(c, memory, idx), ports, 0)
        } else if y == 5 {
            // EX DE,HL
            (spec_ex_de_hl(c), memory, ports, (4 + extra) as u8)
        } else {
            (spec_interrupts_enabled(c, y == 7), memory, ports, (4 + extra) as u8)
        }
    } else if z == 4 {
        spec_cpu_memory(spec_call::<M>(c, memory, spec_condition(c.f, y)), ports, extra)
    } else if z == 5 {
        if q == 0 {
            spec_cpu_memory(spec_push::<M>(c, memory, p, idx), ports, 0)
        } else if p == 0 {
            spec_cpu_memory(spec_call::<M>(c, memory, true), ports, extra)
        } else {
            (c, memory, ports, (4 + extra) as u8)
        }
    } else if z == 6 {
        spec_cpu_only(spec_alu_n::<M>(c, memory, y), memory, ports, extra)
    } else {
        // RST y*8
        (
            spec_restart::<M>(c, memory, (y * 8) as u16).0,
            spec_restart::<M>(c, memory, (y * 8) as u16).1,
            ports,
            (11 + extra) as u8,
        )
    }
}

/// An opcode of the main page, with `idx` saying which pair stands for `HL`.
/// Under a `DD` or `FD` prefix an instruction that names neither `HL`, `H`,
/// `L` nor `(HL)` does what it does without the prefix and takes 4 T-states
/// more.
pub open spec fn spec_execute_main<M: MemoryAccessor, P: PortAccessor>(
    c: Z80,
    memory: M::V,
    ports: P::V,
    opcode: u8,
    idx: IndexMode,
) -> (Z80, M::V, P::V, u8) {
    if opcode / 64 == 0 {
        spec_execute_x0::<M, P>(c, memory, ports, opcode, idx)
    } else if opcode / 64 == 1 {
        spec_execute_x1::<M, P>(c, memory, ports, opcode, idx)
    } else if opcode / 64 == 2 {
        spec_execute_x2::<M, P>(c, memory, ports, opcode, idx)
    } else {
        spec_execute_x3::<M, P>(c, memory, ports, opcode, idx)
    }
}

/// What follows a `CB` prefix. Without an index prefix the next byte is
/// fetched as an opcode and works on a register or on `(HL)`. After `DD` or
/// `FD` the displacement byte comes first and the opcode after it, which does
/// not count in the refresh register; it always works on `(IX+d)` or
/// `(IY+d)`.
#[verifier::opaque]
pub open spec fn spec_execute_cb<M: MemoryAccessor, P: PortAccessor>(
    c: Z80,
    memory: M::V,
    ports: P::V,
    idx: IndexMode,
) -> (Z80, M::V, P::V, u8) {
    if idx == IndexMode::HL {
        let opcode = spec_immediate::<M>(c, memory);
        if opcode % 8 == 6 {
            spec_cpu_memory(
                spec_cb_mem::<M>(spec_fetched(c), memory, opcode, c.hl(), idx),
                ports,
                0,
            )
        } else {
            spec_cpu_only(spec_cb_reg(spec_fetched(c), opcode), memory, ports, 0)
        }
    } else {
        spec_cpu_memory(
            spec_cb_mem::<M>(
                spec_skip(c, 2),
                memory,
                spec_immediate::<M>(spec_skip(c, 1), memory),
                spec_displaced(spec_index(c, idx), spec_immediate::<M>(c, memory)),
                idx,
            ),
            ports,
            0,
        )
    }
}

/// An opcode of the `ED` page. Every opcode of the page without an
/// instruction counts as a `NOP` of 8 T-states.
#[verifier::opaque]
pub open spec fn spec_execute_ed<M: MemoryAccessor, P: PortAccessor>(
    c: Z80,
    memory: M::V,
    ports: P::V,
    opcode: u8,
) -> (Z80, M::V, P::V, u8) {
    let x = opcode / 64;
    let y = (opcode / 8) % 8;
    let z = opcode % 8;
    let p = y / 2;
    let q = y % 2;
    if x == 1 {
        if z == 0 {
            spec_cpu_ports(spec_in_r_c::<P>(c, ports, y), memory, 0)
        } else if z == 1 {
            (c, memory, spec_out_c_r::<P>(c, ports, y).0, spec_out_c_r::<P>(c, ports, y).1)
        } else if z == 2 {
            spec_cpu_only(spec_carry_hl(c, p, q == 0), memory, ports, 0)
        } else if z == 3 {
            if q == 0 {
                spec_cpu_memory(spec_ld_mem_nn_reg16::<M>(c, memory, p), ports, 0)
            } else {
                spec_cpu_only(spec_ld_reg16_mem_nn::<M>(c, memory, p), memory, ports, 0)
            }
        } else if z == 4 {
            (spec_neg(c), memory, ports, 8)
        } else if z == 5 {
            if y == 1 {
                // RETI
                (spec_returned::<M>(c, memory), memory, ports, 14)
            } else {
                (spec_retn::<M>(c, memory), memory, ports, 14)
            }
        } else if z == 6 {
            (Z80 { interrupt_mode: spec_interrupt_mode(y), ..c }, memory, ports, 8)
        } else {
            if y == 0 {
                // LD I,A
                (Z80 { i: c.a, ..c }, memory, ports, 9)
            } else if y == 1 {
                // LD R,A
                (Z80 { r: c.a, ..c }, memory, ports, 9)
            } else if y == 2 {
                spec_cpu_only(spec_ld_a_special(c, c.i), memory, ports, 0)
            } else if y == 3 {
                spec_cpu_only(spec_ld_a_special(c, c.r), memory, ports, 0)
            } else if y == 4 {
                spec_cpu_memory(spec_rotate_digit::<M>(c, memory, false), ports, 0)
            } else if y == 5 {
                spec_cpu_memory(spec_rotate_digit::<M>(c, memory, true), ports, 0)
            } else {
                (c, memory, ports, 8)
            }
        }
    } else if x == 2 && y >= 4 && z <= 3 {
        if z == 0 {
            spec_cpu_memory(spec_block_load::<M>(c, memory, y % 2 == 0, y >= 6), ports, 0)
        } else if z == 1 {
            spec_cpu_only(
                spec_block_compare::<M>(c, memory, y % 2 == 0, y >= 6),
                memory,
                ports,
                0,
            )
        } else if z == 2 {
            spec_block_input::<M, P>(c, memory, ports, y % 2 == 0, y >= 6)
        } else {
            spec_cpu_ports(
                spec_block_output::<M, P>(c, memory, ports, y % 2 == 0, y >= 6),
                memory,
                0,
            )
        }
    } else {
        (c, memory, ports, 8)
    }
}

/// Whether `opcode` is one of the prefixes `DD`, `ED`, `FD`.
pub open spec fn spec_is_page_prefix(opcode: u8) -> bool {
    opcode == 0xDD || opcode == 0xED || opcode == 0xFD
}

/// An opcode that is none of `DD`, `ED`, `FD`, on the page that `idx`
/// selects.
pub open spec fn spec_execute_page<M: MemoryAccessor, P: PortAccessor>(
    c: Z80,
    memory: M::V,
    ports: P::V,
    opcode: u8,
    idx: IndexMode,
) -> (Z80, M::V, P::V, u8) {
    if opcode == 0xCB {
        spec_execute_cb::<M, P>(c, memory, ports, idx)
    } else {
        spec_execute_main::<M, P>(c, memory, ports, opcode, idx)
    }
}

/// The instruction that starts with `opcode`, from the state `c` in which
/// that byte has been fetched. After `ED` the next byte is fetched as an
/// opcode of the `ED` page. After `DD` or `FD` the next byte is fetched as an
/// opcode with `IX` or `IY` for `HL`; but where it is one of `DD`, `ED`,
/// `FD`, the first prefix alone counts as an instruction of 4 T-states and
/// the next byte is left for the next instruction.
pub open spec fn spec_execute<M: MemoryAccessor, P: PortAccessor>(
    c: Z80,
    memory: M::V,
    ports: P::V,
    opcode: u8,
) -> (Z80, M::V, P::V, u8) {
    if opcode == 0xED {
        spec_execute_ed::<M, P>(spec_fetched(c), memory, ports, spec_immediate::<M>(c, memory))
    } else if opcode == 0xDD || opcode == 0xFD {
        if spec_is_page_prefix(spec_immediate::<M>(c, memory)) {
            (c, memory, ports, 4)
        } else {
            spec_execute_page::<M, P>(
                spec_fetched(c),
                memory,
                ports,
                spec_immediate::<M>(c, memory),
                if opcode == 0xDD {
                    IndexMode::IX
                } else {
                    IndexMode::IY
                },
            )
        }
    } else {
        spec_execute_page::<M, P>(c, memory, ports, opcode, IndexMode::HL)
    }
}

/// One step of the processor. A halted processor only counts a refresh and
/// takes 4 T-states; otherwise the byte at the program counter is fetched as
/// an opcode and the instruction it starts is executed.
pub open spec fn spec_step<M: MemoryAccessor, P: PortAccessor>(
    c: Z80,
    memory: M::V,
    ports: P::V,
) -> (Z80, M::V, P::V, u8) {
    if c.halted {
        (Z80 { r: spec_refreshed(c.r), ..c }, memory, ports, 4)
    } else {
        spec_execute::<M, P>(spec_fetched(c), memory, ports, spec_immediate::<M>(c, memory))
    }
}

impl Z80 {
    /// Fetches one opcode byte: reads it at the program counter, moves the
    /// program counter past it and counts it in the refresh register.
    pub fn fetch_opcode<M: MemoryAccessor>(&mut self, mem: &M) -> (opcode: u8)
        ensures
            opcode == spec_immediate::<M>(*old(self), mem@),
            *final(self) == spec_fetched(*old(self)),
    {
        let opcode = self.fetch_next_opcode(mem);
        self.refresh();
        opcode
    }

    /// Executes an opcode between `0x00` and `0x3F`.
    #[verifier::rlimit(50)]
    pub fn execute_x0<M: MemoryAccessor, P: PortAccessor>(
        &mut self,
        mem: &mut M,
        ports: &mut P,
        opcode: u8,
        idx: IndexMode,
    ) -> (t_states: u8)
        requires
            opcode / 64 == 0,
        ensures
            (*final(self), final(mem)@, final(ports)@, t_states) == spec_execute_x0::<M, P>(
                *old(self),
                old(mem)@,
                old(ports)@,
                opcode,
                idx,
            ),
    {
        proof {
            reveal(spec_execute_x0);
        }
        let y = (opcode / 8) % 8;
        let z = opcode % 8;
        let p = y / 2;
        let q = y % 2;
        let extra = index_cost(idx);
        if z == 0 {
            if y == 0 {
                Z80::nop() + extra
            } else if y == 1 {
                self.ex_af_afp() + extra
            } else if y == 2 {
                self.djnz(mem) + extra
            } else if y == 3 {
                self.jr(mem, true) + extra
            } else {
                let taken = condition(self.f, y - 4);
                self.jr(mem, taken) + extra
            }
        } else if z == 1 {
            if q == 0 {
                self.ld_reg16_nn(mem, p, idx)
            } else {
                self.add_index(p, idx)
            }
        } else if z == 2 {
            if q == 0 {
                if p == 0 {
                    self.ld_mem_bc_a(mem) + extra
                } else if p == 1 {
                    self.ld_mem_de_a(mem) + extra
                } else if p == 2 {
                    self.ld_mem_nn_index(mem, idx)
                } else {
                    self.ld_mem_nn_a(mem) + extra
                }
            } else {
                if p == 0 {
                    self.ld_a_mem_bc(mem) + extra
                } else if p == 1 {
                    self.ld_a_mem_de(mem) + extra
                } else if p == 2 {
                    self.ld_index_mem_nn(mem, idx)
                } else {
                    self.ld_a_mem_nn(mem) + extra
                }
            }
        } else if z == 3 {
            self.step_reg16(p, idx, q == 1)
        } else if z == 4 || z == 5 {
            if y == 6 {
                self.step_mem(mem, idx, z == 5)
            } else {
                self.step_reg(y, idx, z == 5)
            }
        } else if z == 6 {
            if y == 6 {
                self.load_mem_immediate(mem, idx)
            } else {
                self.load_reg_immediate(mem, y, idx)
            }
        } else {
            if y < 4 {
                self.rotate_accumulator(y) + extra
            } else if y == 4 {
                self.daa() + extra
            } else if y == 5 {
                self.cpl() + extra
            } else if y == 6 {
                self.scf() + extra
            } else {
                self.ccf() + extra
            }
        }
    }

    /// Executes an opcode between `0x40` and `0x7F`.
    #[verifier::rlimit(50)]
    pub fn execute_x1<M: MemoryAccessor, P: PortAccessor>(
        &mut self,
        mem: &mut M,
        ports: &mut P,
        opcode: u8,
        idx: IndexMode,
    ) -> (t_states: u8)
        requires
            opcode / 64 == 1,
        ensures
            (*final(self), final(mem)@, final(ports)@, t_states) == spec_execute_x1::<M, P>(
                *old(self),
                old(mem)@,
                old(ports)@,
                opcode,
                idx,
            ),
    {
        proof {
            reveal(spec_execute_x1);
        }
        let y = (opcode / 8) % 8;
        let z = opcode % 8;
        if y == 6 && z == 6 {
            self.halt() + index_cost(idx)
        } else if y == 6 {
            self.load_mem_reg(mem, z, idx)
        } else if z == 6 {
            self.load_reg_mem(mem, y, idx)
        } else {
            self.load_reg_reg(y, z, idx)
        }
    }

    /// Executes an opcode between `0x80` and `0xBF`.
    #[verifier::rlimit(50)]
    pub fn execute_x2<M: MemoryAccessor, P: PortAccessor>(
        &mut self,
        mem: &mut M,
        ports: &mut P,
        opcode: u8,
        idx: IndexMode,
    ) -> (t_states: u8)
        requires
            opcode / 64 == 2,
        ensures
            (*final(self), final(mem)@, final(ports)@, t_states) == spec_execute_x2::<M, P>(
                *old(self),
                old(mem)@,
                old(ports)@,
                opcode,
                idx,
            ),
    {
        proof {
            reveal(spec_execute_x2);
        }
        let y = (opcode / 8) % 8;
        let z = opcode % 8;
        if z == 6 {
            self.alu_mem(mem, y, idx)
        } else {
            self.alu_reg(y, z, idx)
        }
    }

    /// Executes an opcode between `0xC0` and `0xFF`.
    #[verifier::rlimit(50)]
    pub fn execute_x3<M: MemoryAccessor, P: PortAccessor>(
        &mut self,
        mem: &mut M,
        ports: &mut P,
        opcode: u8,
        idx: IndexMode,
    ) -> (t_states: u8)
        requires
            opcode / 64 == 3,
        ensures
            (*final(self), final(mem)@, final(ports)@, t_states) == spec_execute_x3::<M, P>(
                *old(self),
                old(mem)@,
                old(ports)@,
                opcode,
                idx,
            ),
    {
        proof {
            reveal(spec_execute_x3);
        }
        let y = (opcode / 8) % 8;
        let z = opcode % 8;
        let p = y / 2;
        let q = y % 2;
        let extra = index_cost(idx);
        if z == 0 {
            let taken = condition(self.f, y);
            self.ret_cc(mem, taken) + extra
        } else if z == 1 {
            if q == 0 {
                self.pop(mem, p, idx)
            } else if p == 0 {
                self.ret(mem) + extra
            } else if p == 1 {
                self.exx() + extra
            } else if p == 2 {
                self.jp_index(idx)
            } else {
                self.ld_sp_index(idx)
            }
        } else if z == 2 {
            let taken = condition(self.f, y);
            self.jp(mem, taken) + extra
        } else if z == 3 {
            if y == 0 {
                self.jp(mem, true) + extra
            } else if y == 1 {
                Z80::nop() + extra
            } else if y == 2 {
                self.out_n_a(mem, ports) + extra
            } else if y == 3 {
                self.in_a_n(mem, ports) + extra
            } else if y == 4 {
                self.ex_mem_sp(mem, idx)
            } else if y == 5 {
                self.ex_de_hl() + extra
            } else if y == 6 {
                self.di() + extra
            } else {
                self.ei() + extra
            }
        } else if z == 4 {
            let taken = condition(self.f, y);
            self.call(mem, taken) + extra
        } else if z == 5 {
            if q == 0 {
                self.push(mem, p, idx)
            } else if p == 0 {
                self.call(mem, true) + extra
            } else {
                Z80::nop() + extra
            }
        } else if z == 6 {
            self.alu_n(mem, y) + extra
        } else {
            self.rst(mem, (y * 8) as u16) + extra
        }
    }

    /// Executes an opcode of the main page.
    pub fn execute_main<M: MemoryAccessor, P: PortAccessor>(
        &mut self,
        mem: &mut M,
        ports: &mut P,
        opcode: u8,
        idx: IndexMode,
    ) -> (t_states: u8)
        ensures
            (*final(self), final(mem)@, final(ports)@, t_states) == spec_execute_main::<M, P>(
                *old(self),
                old(mem)@,
                old(ports)@,
                opcode,
                idx,
            ),
    {
        if opcode / 64 == 0 {
            self.execute_x0(mem, ports, opcode, idx)
        } else if opcode / 64 == 1 {
            self.execute_x1(mem, ports, opcode, idx)
        } else if opcode / 64 == 2 {
            self.execute_x2(mem, ports, opcode, idx)
        } else {
            self.execute_x3(mem, ports, opcode, idx)
        }
    }

    /// Executes what follows a `CB` prefix.
    #[verifier::rlimit(50)]
    pub fn execute_cb<M: MemoryAccessor, P: PortAccessor>(
        &mut self,
        mem: &mut M,
        ports: &mut P,
        idx: IndexMode,
    ) -> (t_states: u8)
        ensures
            (*final(self), final(mem)@, final(ports)@, t_states) == spec_execute_cb::<M, P>(
                *old(self),
                old(mem)@,
                old(ports)@,
                idx,
            ),
    {
        proof {
            reveal(spec_execute_cb);
        }
        match idx {
            IndexMode::HL => {
                let address = self.hl();
                let opcode = self.fetch_opcode(mem);
                if opcode % 8 == 6 {
                    self.cb_mem(mem, opcode, address, idx)
                } else {
                    self.cb_reg(opcode)
                }
            },
            _ => {
                let base = self.index(idx);
                let d = self.fetch_next_opcode(mem);
                let opcode = self.fetch_next_opcode(mem);
                self.cb_mem(mem, opcode, displaced(base, d), idx)
            },
        }
    }

    /// Executes an opcode of the `ED` page.
    #[verifier::rlimit(50)]
    pub fn execute_ed<M: MemoryAccessor, P: PortAccessor>(
        &mut self,
        mem: &mut M,
        ports: &mut P,
        opcode: u8,
    ) -> (t_states: u8)
        ensures
            (*final(self), final(mem)@, final(ports)@, t_states) == spec_execute_ed::<M, P>(
                *old(self),
                old(mem)@,
                old(ports)@,
                opcode,
            ),
    {
        proof {
            reveal(spec_execute_ed);
        }
        let x = opcode / 64;
        let y = (opcode / 8) % 8;
        let z = opcode % 8;
        let p = y / 2;
        let q = y % 2;
        if x == 1 {
            if z == 0 {
                self.in_r_c(ports, y)
            } else if z == 1 {
                self.out_c_r(ports, y)
            } else if z == 2 {
                self.carry_hl(p, q == 0)
            } else if z == 3 {
                if q == 0 {
                    self.ld_mem_nn_reg16(mem, p)
                } else {
                    self.ld_reg16_mem_nn(mem, p)
                }
            } else if z == 4 {
                self.neg()
            } else if z == 5 {
                if y == 1 {
                    self.reti(mem)
                } else {
                    self.retn(mem)
                }
            } else if z == 6 {
                self.im(interrupt_mode(y))
            } else {
                if y == 0 {
                    self.ld_i_a()
                } else if y == 1 {
                    self.ld_r_a()
                } else if y == 2 {
                    self.ld_a_i()
                } else if y == 3 {
                    self.ld_a_r()
                } else if y == 4 {
                    self.rotate_digit(mem, false)
                } else if y == 5 {
                    self.rotate_digit(mem, true)
                } else {
                    8
                }
            }
        } else if x == 2 && y >= 4 && z <= 3 {
            if z == 0 {
                self.block_load(mem, y % 2 == 0, y >= 6)
            } else if z == 1 {
                self.block_compare(mem, y % 2 == 0, y >= 6)
            } else if z == 2 {
                self.block_input(mem, ports, y % 2 == 0, y >= 6)
            } else {
                self.block_output(mem, ports, y % 2 == 0, y >= 6)
            }
        } else {
            8
        }
    }

    /// Executes an opcode that is none of `DD`, `ED`, `FD`.
    pub fn execute_page<M: MemoryAccessor, P: PortAccessor>(
        &mut self,
        mem: &mut M,
        ports: &mut P,
        opcode: u8,
        idx: IndexMode,
    ) -> (t_states: u8)
        ensures
            (*final(self), final(mem)@, final(ports)@, t_states) == spec_execute_page::<M, P>(
                *old(self),
                old(mem)@,
                old(ports)@,
                opcode,
                idx,
            ),
    {
        if opcode == 0xCB {
            self.execute_cb(mem, ports, idx)
        } else {
            match idx {
                IndexMode::HL => self.main_functions(mem, ports, opcode),
                IndexMode::IX => self.ix_functions(mem, ports, opcode),
                IndexMode::IY => self.iy_functions(mem, ports, opcode),
            }
        }
    }

    /// Executes the instruction that starts with `opcode`, which has been
    /// fetched: the program counter points behind it.
    pub fn execute<M: MemoryAccessor, P: PortAccessor>(
        &mut self,
        mem: &mut M,
        ports: &mut P,
        opcode: u8,
    ) -> (t_states: u8)
        ensures
            (*final(self), final(mem)@, final(ports)@, t_states) == spec_execute::<M, P>(
                *old(self),
                old(mem)@,
                old(ports)@,
                opcode,
            ),
    {
        if opcode == 0xED {
            let next = self.fetch_opcode(mem);
            self.ed_functions(mem, ports, next)
        } else if opcode == 0xDD || opcode == 0xFD {
            let next = mem.read(self.program_counter);
            if next == 0xDD || next == 0xED || next == 0xFD {
                4
            } else {
                let fetched = self.fetch_opcode(mem);
                let idx = if opcode == 0xDD {
                    IndexMode::IX
                } else {
                    IndexMode::IY
                };
                self.execute_page(mem, ports, fetched, idx)
            }
        } else {
            self.execute_page(mem, ports, opcode, IndexMode::HL)
        }
    }

    /// Executes one instruction and returns the T-states it took. A halted
    /// processor idles for 4 T-states.
    pub fn step<M: MemoryAccessor, P: PortAccessor>(&mut self, mem: &mut M, ports: &mut P) -> (t_states: u8)
        ensures
            (*final(self), final(mem)@, final(ports)@, t_states) == spec_step::<M, P>(
                *old(self),
                old(mem)@,
                old(ports)@,
            ),
    {
        if self.halted {
            self.refresh();
            4
        } else {
            let opcode = self.fetch_opcode(mem);
            self.execute(mem, ports, opcode)
        }
    }
}

} // verus!
