//! The dispatch tables: the handler of each opcode that has one of its own.
//! An opcode without one goes to the decoder's general handlers.

use vstd::prelude::*;
use crate::z80::decoder::{
    spec_execute_ed, spec_execute_main, spec_execute_x0, spec_execute_x1, spec_execute_x3,
};
use crate::z80::{IndexMode, MemoryAccessor, PortAccessor, Z80};

verus! {

impl Z80 {
    /// The handlers of the opcodes `0x00` to `0x3F`, from `0x00` to `0x11`.
    #[verifier::rlimit(60)]
    fn main_functions_x0_00_11<M: MemoryAccessor, P: PortAccessor>(
        &mut self,
        mem: &mut M,
        ports: &mut P,
        opcode: u8,
    ) -> (t_states: u8)
        requires
            opcode / 64 == 0,
            0x00 <= opcode <= 0x11,
        ensures
            (*final(self), final(mem)@, final(ports)@, t_states) == spec_execute_x0::<M, P>(
                *old(self),
                old(mem)@,
                old(ports)@,
                opcode,
                IndexMode::HL,
            ),
    {
        proof {
            reveal(spec_execute_x0);
        }
        match opcode {
            // NOP
            0x00 => Z80::nop(),
            // LD BC,nn
            0x01 => self.ld_bc_nn(mem),
            // LD (BC),A
            0x02 => self.ld_mem_bc_a(mem),
            // LD B,n
            0x06 => self.ld_b_n(mem),
            // EX AF,AF'
            0x08 => self.ex_af_afp(),
            // LD A,(BC)
            0x0A => self.ld_a_mem_bc(mem),
            // LD C,n
            0x0E => self.ld_c_n(mem),
            // LD DE,nn
            0x11 => self.ld_de_nn(mem),
            _ => self.execute_x0(mem, ports, opcode, IndexMode::HL),
        }
    }

    /// The handlers of the opcodes `0x00` to `0x3F`, from `0x12` to `0x27`.
    #[verifier::rlimit(60)]
    fn main_functions_x0_12_27<M: MemoryAccessor, P: PortAccessor>(
        &mut self,
        mem: &mut M,
        ports: &mut P,
        opcode: u8,
    ) -> (t_states: u8)
        requires
            opcode / 64 == 0,
            0x12 <= opcode <= 0x27,
        ensures
            (*final(self), final(mem)@, final(ports)@, t_states) == spec_execute_x0::<M, P>(
                *old(self),
                old(mem)@,
                old(ports)@,
                opcode,
                IndexMode::HL,
            ),
    {
        proof {
            reveal(spec_execute_x0);
        }
        match opcode {
            // LD (DE),A
            0x12 => self.ld_mem_de_a(mem),
            // LD D,n
            0x16 => self.ld_d_n(mem),
            // LD A,(DE)
            0x1A => self.ld_a_mem_de(mem),
            // LD E,n
            0x1E => self.ld_e_n(mem),
            // LD HL,nn
            0x21 => self.ld_hl_nn(mem),
            // LD (nn),HL
            0x22 => self.ld_mem_nn_hl(mem),
            // LD H,n
            0x26 => self.ld_h_n(mem),
            // DAA
            0x27 => self.daa(),
            _ => self.execute_x0(mem, ports, opcode, IndexMode::HL),
        }
    }

    /// The handlers of the opcodes `0x00` to `0x3F`, from `0x2A` to `0x3A`.
    #[verifier::rlimit(60)]
    fn main_functions_x0_2a_3a<M: MemoryAccessor, P: PortAccessor>(
        &mut self,
        mem: &mut M,
        ports: &mut P,
        opcode: u8,
    ) -> (t_states: u8)
        requires
            opcode / 64 == 0,
            0x2A <= opcode <= 0x3A,
        ensures
            (*final(self), final(mem)@, final(ports)@, t_states) == spec_execute_x0::<M, P>(
                *old(self),
                old(mem)@,
                old(ports)@,
                opcode,
                IndexMode::HL,
            ),
    {
        proof {
            reveal(spec_execute_x0);
        }
        match opcode {
            // LD HL,(nn)
            0x2A => self.ld_hl_mem_nn(mem),
            // LD L,n
            0x2E => self.ld_l_n(mem),
            // CPL
            0x2F => self.cpl(),
            // LD SP,nn
            0x31 => self.ld_sp_nn(mem),
            // LD (nn),A
            0x32 => self.ld_mem_nn_a(mem),
            // LD (HL),n
            0x36 => self.ld_mem_hl_n(mem),
            // SCF
            0x37 => self.scf(),
            // LD A,(nn)
            0x3A => self.ld_a_mem_nn(mem),
            _ => self.execute_x0(mem, ports, opcode, IndexMode::HL),
        }
    }

    /// The handlers of the opcodes `0x00` to `0x3F`, from `0x3E` to `0x3F`.
    #[verifier::rlimit(60)]
    fn main_functions_x0_3e_3f<M: MemoryAccessor, P: PortAccessor>(
        &mut self,
        mem: &mut M,
        ports: &mut P,
        opcode: u8,
    ) -> (t_states: u8)
        requires
            opcode / 64 == 0,
            0x3E <= opcode <= 0x3F,
        ensures
            (*final(self), final(mem)@, final(ports)@, t_states) == spec_execute_x0::<M, P>(
                *old(self),
                old(mem)@,
                old(ports)@,
                opcode,
                IndexMode::HL,
            ),
    {
        proof {
            reveal(spec_execute_x0);
        }
        match opcode {
            // LD A,n
            0x3E => self.ld_a_n(mem),
            // CCF
            0x3F => self.ccf(),
            _ => self.execute_x0(mem, ports, opcode, IndexMode::HL),
        }
    }

    /// The handlers of the opcodes `0x00` to `0x3F`.
    pub fn main_functions_x0<M: MemoryAccessor, P: PortAccessor>(
        &mut self,
        mem: &mut M,
        ports: &mut P,
        opcode: u8,
    ) -> (t_states: u8)
        requires
            opcode / 64 == 0,
        ensures
            (*final(self), final(mem)@, final(ports)@, t_states) == spec_execute_x0::<M, P>(
                *old(self),
                old(mem)@,
                old(ports)@,
                opcode,
                IndexMode::HL,
            ),
    {
        if 0x00 <= opcode && opcode <= 0x11 {
            self.main_functions_x0_00_11(mem, ports, opcode)
        } else if 0x12 <= opcode && opcode <= 0x27 {
            self.main_functions_x0_12_27(mem, ports, opcode)
        } else if 0x2A <= opcode && opcode <= 0x3A {
            self.main_functions_x0_2a_3a(mem, ports, opcode)
        } else if 0x3E <= opcode && opcode <= 0x3F {
            self.main_functions_x0_3e_3f(mem, ports, opcode)
        } else {
            self.execute_x0(mem, ports, opcode, IndexMode::HL)
        }
    }

    /// The handlers of the opcodes `0x40` to `0x7F`, from `0x40` to `0x47`.
    #[verifier::rlimit(60)]
    fn main_functions_x1_40_47<M: MemoryAccessor, P: PortAccessor>(
        &mut self,
        mem: &mut M,
        ports: &mut P,
        opcode: u8,
    ) -> (t_states: u8)
        requires
            opcode / 64 == 1,
            0x40 <= opcode <= 0x47,
        ensures
            (*final(self), final(mem)@, final(ports)@, t_states) == spec_execute_x1::<M, P>(
                *old(self),
                old(mem)@,
                old(ports)@,
                opcode,
                IndexMode::HL,
            ),
    {
        proof {
            reveal(spec_execute_x1);
        }
        match opcode {
            // LD B,B
            0x40 => self.ld_b_b(),
            // LD B,C
            0x41 => self.ld_b_c(),
            // LD B,D
            0x42 => self.ld_b_d(),
            // LD B,E
            0x43 => self.ld_b_e(),
            // LD B,H
            0x44 => self.ld_b_h(),
            // LD B,L
            0x45 => self.ld_b_l(),
            // LD B,(HL)
            0x46 => self.ld_b_mem_hl(mem),
            // LD B,A
            0x47 => self.ld_b_a(),
            _ => self.execute_x1(mem, ports, opcode, IndexMode::HL),
        }
    }

    /// The handlers of the opcodes `0x40` to `0x7F`, from `0x48` to `0x4F`.
    #[verifier::rlimit(60)]
    fn main_functions_x1_48_4f<M: MemoryAccessor, P: PortAccessor>(
        &mut self,
        mem: &mut M,
        ports: &mut P,
        opcode: u8,
    ) -> (t_states: u8)
        requires
            opcode / 64 == 1,
            0x48 <= opcode <= 0x4F,
        ensures
            (*final(self), final(mem)@, final(ports)@, t_states) == spec_execute_x1::<M, P>(
                *old(self),
                old(mem)@,
                old(ports)@,
                opcode,
                IndexMode::HL,
            ),
    {
        proof {
            reveal(spec_execute_x1);
        }
        match opcode {
            // LD C,B
            0x48 => self.ld_c_b(),
            // LD C,C
            0x49 => self.ld_c_c(),
            // LD C,D
            0x4A => self.ld_c_d(),
            // LD C,E
            0x4B => self.ld_c_e(),
            // LD C,H
            0x4C => self.ld_c_h(),
            // LD C,L
            0x4D => self.ld_c_l(),
            // LD C,(HL)
            0x4E => self.ld_c_mem_hl(mem),
            // LD C,A
            0x4F => self.ld_c_a(),
            _ => self.execute_x1(mem, ports, opcode, IndexMode::HL),
        }
    }

    /// The handlers of the opcodes `0x40` to `0x7F`, from `0x50` to `0x57`.
    #[verifier::rlimit(60)]
    fn main_functions_x1_50_57<M: MemoryAccessor, P: PortAccessor>(
        &mut self,
        mem: &mut M,
        ports: &mut P,
        opcode: u8,
    ) -> (t_states: u8)
        requires
            opcode / 64 == 1,
            0x50 <= opcode <= 0x57,
        ensures
            (*final(self), final(mem)@, final(ports)@, t_states) == spec_execute_x1::<M, P>(
                *old(self),
                old(mem)@,
                old(ports)@,
                opcode,
                IndexMode::HL,
            ),
    {
        proof {
            reveal(spec_execute_x1);
        }
        match opcode {
            // LD D,B
            0x50 => self.ld_d_b(),
            // LD D,C
            0x51 => self.ld_d_c(),
            // LD D,D
            0x52 => self.ld_d_d(),
            // LD D,E
            0x53 => self.ld_d_e(),
            // LD D,H
            0x54 => self.ld_d_h(),
            // LD D,L
            0x55 => self.ld_d_l(),
            // LD D,(HL)
            0x56 => self.ld_d_mem_hl(mem),
            // LD D,A
            0x57 => self.ld_d_a(),
            _ => self.execute_x1(mem, ports, opcode, IndexMode::HL),
        }
    }

    /// The handlers of the opcodes `0x40` to `0x7F`, from `0x58` to `0x5F`.
    #[verifier::rlimit(60)]
    fn main_functions_x1_58_5f<M: MemoryAccessor, P: PortAccessor>(
        &mut self,
        mem: &mut M,
        ports: &mut P,
        opcode: u8,
    ) -> (t_states: u8)
        requires
            opcode / 64 == 1,
            0x58 <= opcode <= 0x5F,
        ensures
            (*final(self), final(mem)@, final(ports)@, t_states) == spec_execute_x1::<M, P>(
                *old(self),
                old(mem)@,
                old(ports)@,
                opcode,
                IndexMode::HL,
            ),
    {
        proof {
            reveal(spec_execute_x1);
        }
        match opcode {
            // LD E,B
            0x58 => self.ld_e_b(),
            // LD E,C
            0x59 => self.ld_e_c(),
            // LD E,D
            0x5A => self.ld_e_d(),
            // LD E,E
            0x5B => self.ld_e_e(),
            // LD E,H
            0x5C => self.ld_e_h(),
            // LD E,L
            0x5D => self.ld_e_l(),
            // LD E,(HL)
            0x5E => self.ld_e_mem_hl(mem),
            // LD E,A
            0x5F => self.ld_e_a(),
            _ => self.execute_x1(mem, ports, opcode, IndexMode::HL),
        }
    }

    /// The handlers of the opcodes `0x40` to `0x7F`, from `0x60` to `0x67`.
    #[verifier::rlimit(60)]
    fn main_functions_x1_60_67<M: MemoryAccessor, P: PortAccessor>(
        &mut self,
        mem: &mut M,
        ports: &mut P,
        opcode: u8,
    ) -> (t_states: u8)
        requires
            opcode / 64 == 1,
            0x60 <= opcode <= 0x67,
        ensures
            (*final(self), final(mem)@, final(ports)@, t_states) == spec_execute_x1::<M, P>(
                *old(self),
                old(mem)@,
                old(ports)@,
                opcode,
                IndexMode::HL,
            ),
    {
        proof {
            reveal(spec_execute_x1);
        }
        match opcode {
            // LD H,B
            0x60 => self.ld_h_b(),
            // LD H,C
            0x61 => self.ld_h_c(),
            // LD H,D
            0x62 => self.ld_h_d(),
            // LD H,E
            0x63 => self.ld_h_e(),
            // LD H,H
            0x64 => self.ld_h_h(),
            // LD H,L
            0x65 => self.ld_h_l(),
            // LD H,(HL)
            0x66 => self.ld_h_mem_hl(mem),
            // LD H,A
            0x67 => self.ld_h_a(),
            _ => self.execute_x1(mem, ports, opcode, IndexMode::HL),
        }
    }

    /// The handlers of the opcodes `0x40` to `0x7F`, from `0x68` to `0x6F`.
    #[verifier::rlimit(60)]
    fn main_functions_x1_68_6f<M: MemoryAccessor, P: PortAccessor>(
        &mut self,
        mem: &mut M,
        ports: &mut P,
        opcode: u8,
    ) -> (t_states: u8)
        requires
            opcode / 64 == 1,
            0x68 <= opcode <= 0x6F,
        ensures
            (*final(self), final(mem)@, final(ports)@, t_states) == spec_execute_x1::<M, P>(
                *old(self),
                old(mem)@,
                old(ports)@,
                opcode,
                IndexMode::HL,
            ),
    {
        proof {
            reveal(spec_execute_x1);
        }
        match opcode {
            // LD L,B
            0x68 => self.ld_l_b(),
            // LD L,C
            0x69 => self.ld_l_c(),
            // LD L,D
            0x6A => self.ld_l_d(),
            // LD L,E
            0x6B => self.ld_l_e(),
            // LD L,H
            0x6C => self.ld_l_h(),
            // LD L,L
            0x6D => self.ld_l_l(),
            // LD L,(HL)
            0x6E => self.ld_l_mem_hl(mem),
            // LD L,A
            0x6F => self.ld_l_a(),
            _ => self.execute_x1(mem, ports, opcode, IndexMode::HL),
        }
    }

    /// The handlers of the opcodes `0x40` to `0x7F`, from `0x70` to `0x77`.
    #[verifier::rlimit(60)]
    fn main_functions_x1_70_77<M: MemoryAccessor, P: PortAccessor>(
        &mut self,
        mem: &mut M,
        ports: &mut P,
        opcode: u8,
    ) -> (t_states: u8)
        requires
            opcode / 64 == 1,
            0x70 <= opcode <= 0x77,
        ensures
            (*final(self), final(mem)@, final(ports)@, t_states) == spec_execute_x1::<M, P>(
                *old(self),
                old(mem)@,
                old(ports)@,
                opcode,
                IndexMode::HL,
            ),
    {
        proof {
            reveal(spec_execute_x1);
        }
        match opcode {
            // LD (HL),B
            0x70 => self.ld_mem_hl_b(mem),
            // LD (HL),C
            0x71 => self.ld_mem_hl_c(mem),
            // LD (HL),D
            0x72 => self.ld_mem_hl_d(mem),
            // LD (HL),E
            0x73 => self.ld_mem_hl_e(mem),
            // LD (HL),H
            0x74 => self.ld_mem_hl_h(mem),
            // LD (HL),L
            0x75 => self.ld_mem_hl_l(mem),
            // HALT
            0x76 => self.halt(),
            // LD (HL),A
            0x77 => self.ld_mem_hl_a(mem),
            _ => self.execute_x1(mem, ports, opcode, IndexMode::HL),
        }
    }

    /// The handlers of the opcodes `0x40` to `0x7F`, from `0x78` to `0x7F`.
    #[verifier::rlimit(60)]
    fn main_functions_x1_78_7f<M: MemoryAccessor, P: PortAccessor>(
        &mut self,
        mem: &mut M,
        ports: &mut P,
        opcode: u8,
    ) -> (t_states: u8)
        requires
            opcode / 64 == 1,
            0x78 <= opcode <= 0x7F,
        ensures
            (*final(self), final(mem)@, final(ports)@, t_states) == spec_execute_x1::<M, P>(
                *old(self),
                old(mem)@,
                old(ports)@,
                opcode,
                IndexMode::HL,
            ),
    {
        proof {
            reveal(spec_execute_x1);
        }
        match opcode {
            // LD A,B
            0x78 => self.ld_a_b(),
            // LD A,C
            0x79 => self.ld_a_c(),
            // LD A,D
            0x7A => self.ld_a_d(),
            // LD A,E
            0x7B => self.ld_a_e(),
            // LD A,H
            0x7C => self.ld_a_h(),
            // LD A,L
            0x7D => self.ld_a_l(),
            // LD A,(HL)
            0x7E => self.ld_a_mem_hl(mem),
            // LD A,A
            0x7F => self.ld_a_a(),
            _ => self.execute_x1(mem, ports, opcode, IndexMode::HL),
        }
    }

    /// The handlers of the opcodes `0x40` to `0x7F`.
    pub fn main_functions_x1<M: MemoryAccessor, P: PortAccessor>(
        &mut self,
        mem: &mut M,
        ports: &mut P,
        opcode: u8,
    ) -> (t_states: u8)
        requires
            opcode / 64 == 1,
        ensures
            (*final(self), final(mem)@, final(ports)@, t_states) == spec_execute_x1::<M, P>(
                *old(self),
                old(mem)@,
                old(ports)@,
                opcode,
                IndexMode::HL,
            ),
    {
        if 0x40 <= opcode && opcode <= 0x47 {
            self.main_functions_x1_40_47(mem, ports, opcode)
        } else if 0x48 <= opcode && opcode <= 0x4F {
            self.main_functions_x1_48_4f(mem, ports, opcode)
        } else if 0x50 <= opcode && opcode <= 0x57 {
            self.main_functions_x1_50_57(mem, ports, opcode)
        } else if 0x58 <= opcode && opcode <= 0x5F {
            self.main_functions_x1_58_5f(mem, ports, opcode)
        } else if 0x60 <= opcode && opcode <= 0x67 {
            self.main_functions_x1_60_67(mem, ports, opcode)
        } else if 0x68 <= opcode && opcode <= 0x6F {
            self.main_functions_x1_68_6f(mem, ports, opcode)
        } else if 0x70 <= opcode && opcode <= 0x77 {
            self.main_functions_x1_70_77(mem, ports, opcode)
        } else if 0x78 <= opcode && opcode <= 0x7F {
            self.main_functions_x1_78_7f(mem, ports, opcode)
        } else {
            self.execute_x1(mem, ports, opcode, IndexMode::HL)
        }
    }

    /// The handlers of the opcodes `0xC0` to `0xFF`, from `0xC1` to `0xE3`.
    #[verifier::rlimit(60)]
    fn main_functions_x3_c1_e3<M: MemoryAccessor, P: PortAccessor>(
        &mut self,
        mem: &mut M,
        ports: &mut P,
        opcode: u8,
    ) -> (t_states: u8)
        requires
            opcode / 64 == 3,
            0xC1 <= opcode <= 0xE3,
        ensures
            (*final(self), final(mem)@, final(ports)@, t_states) == spec_execute_x3::<M, P>(
                *old(self),
                old(mem)@,
                old(ports)@,
                opcode,
                IndexMode::HL,
            ),
    {
        proof {
            reveal(spec_execute_x3);
        }
        match opcode {
            // POP BC
            0xC1 => self.pop_qqbc(mem),
            // PUSH BC
            0xC5 => self.push_qqbc(mem),
            // RET
            0xC9 => self.ret(mem),
            // POP DE
            0xD1 => self.pop_qqde(mem),
            // PUSH DE
            0xD5 => self.push_qqde(mem),
            // EXX
            0xD9 => self.exx(),
            // POP HL
            0xE1 => self.pop_qqhl(mem),
            // EX (SP),HL
            0xE3 => self.ex_mem_sp_hl(mem),
            _ => self.execute_x3(mem, ports, opcode, IndexMode::HL),
        }
    }

    /// The handlers of the opcodes `0xC0` to `0xFF`, from `0xE5` to `0xFB`.
    #[verifier::rlimit(60)]
    fn main_functions_x3_e5_fb<M: MemoryAccessor, P: PortAccessor>(
        &mut self,
        mem: &mut M,
        ports: &mut P,
        opcode: u8,
    ) -> (t_states: u8)
        requires
            opcode / 64 == 3,
            0xE5 <= opcode <= 0xFB,
        ensures
            (*final(self), final(mem)@, final(ports)@, t_states) == spec_execute_x3::<M, P>(
                *old(self),
                old(mem)@,
                old(ports)@,
                opcode,
                IndexMode::HL,
            ),
    {
        proof {
            reveal(spec_execute_x3);
        }
        match opcode {
            // PUSH HL
            0xE5 => self.push_qqhl(mem),
            // EX DE,HL
            0xEB => self.ex_de_hl(),
            // POP AF
            0xF1 => self.pop_qqaf(mem),
            // DI
            0xF3 => self.di(),
            // PUSH AF
            0xF5 => self.push_qqaf(mem),
            // LD SP,HL
            0xF9 => self.ld_sp_hl(),
            // EI
            0xFB => self.ei(),
            _ => self.execute_x3(mem, ports, opcode, IndexMode::HL),
        }
    }

    /// The handlers of the opcodes `0xC0` to `0xFF`.
    pub fn main_functions_x3<M: MemoryAccessor, P: PortAccessor>(
        &mut self,
        mem: &mut M,
        ports: &mut P,
        opcode: u8,
    ) -> (t_states: u8)
        requires
            opcode / 64 == 3,
        ensures
            (*final(self), final(mem)@, final(ports)@, t_states) == spec_execute_x3::<M, P>(
                *old(self),
                old(mem)@,
                old(ports)@,
                opcode,
                IndexMode::HL,
            ),
    {
        if 0xC1 <= opcode && opcode <= 0xE3 {
            self.main_functions_x3_c1_e3(mem, ports, opcode)
        } else if 0xE5 <= opcode && opcode <= 0xFB {
            self.main_functions_x3_e5_fb(mem, ports, opcode)
        } else {
            self.execute_x3(mem, ports, opcode, IndexMode::HL)
        }
    }

    /// The handlers of the main page.
    pub fn main_functions<M: MemoryAccessor, P: PortAccessor>(
        &mut self,
        mem: &mut M,
        ports: &mut P,
        opcode: u8,
    ) -> (t_states: u8)
        ensures
            (*final(self), final(mem)@, final(ports)@, t_states) == spec_execute_main::<M, P>(
                *old(self),
                old(mem)@,
                old(ports)@,
                opcode,
                IndexMode::HL,
            ),
    {
        if opcode / 64 == 0 {
            self.main_functions_x0(mem, ports, opcode)
        } else if opcode / 64 == 1 {
            self.main_functions_x1(mem, ports, opcode)
        } else if opcode / 64 == 2 {
            self.execute_x2(mem, ports, opcode, IndexMode::HL)
        } else {
            self.main_functions_x3(mem, ports, opcode)
        }
    }

    /// The handlers of the main page after the `DD` prefix, from `0x21` to `0x5E`.
    #[verifier::rlimit(60)]
    fn ix_functions_21_5e<M: MemoryAccessor, P: PortAccessor>(
        &mut self,
        mem: &mut M,
        ports: &mut P,
        opcode: u8,
    ) -> (t_states: u8)
        requires
            0x21 <= opcode <= 0x5E,
        ensures
            (*final(self), final(mem)@, final(ports)@, t_states) == spec_execute_main::<M, P>(
                *old(self),
                old(mem)@,
                old(ports)@,
                opcode,
                IndexMode::IX,
            ),
    {
        proof {
            reveal(spec_execute_x0);
            reveal(spec_execute_x1);
            reveal(spec_execute_x3);
        }
        match opcode {
            // LD IX,nn
            0x21 => self.ld_ix_nn(mem),
            // LD (nn),IX
            0x22 => self.ld_mem_nn_ix(mem),
            // LD IX,(nn)
            0x2A => self.ld_ix_mem_nn(mem),
            // LD (IX+d),n
            0x36 => self.ld_mem_ixd_n(mem),
            // LD B,(IX+d)
            0x46 => self.ld_b_mem_ixd(mem),
            // LD C,(IX+d)
            0x4E => self.ld_c_ixd(mem),
            // LD D,(IX+d)
            0x56 => self.ld_d_mem_ixd(mem),
            // LD E,(IX+d)
            0x5E => self.ld_e_mem_ixd(mem),
            _ => self.execute_main(mem, ports, opcode, IndexMode::IX),
        }
    }

    /// The handlers of the main page after the `DD` prefix, from `0x66` to `0x75`.
    #[verifier::rlimit(60)]
    fn ix_functions_66_75<M: MemoryAccessor, P: PortAccessor>(
        &mut self,
        mem: &mut M,
        ports: &mut P,
        opcode: u8,
    ) -> (t_states: u8)
        requires
            0x66 <= opcode <= 0x75,
        ensures
            (*final(self), final(mem)@, final(ports)@, t_states) == spec_execute_main::<M, P>(
                *old(self),
                old(mem)@,
                old(ports)@,
                opcode,
                IndexMode::IX,
            ),
    {
        proof {
            reveal(spec_execute_x0);
            reveal(spec_execute_x1);
            reveal(spec_execute_x3);
        }
        match opcode {
            // LD H,(IX+d)
            0x66 => self.ld_h_mem_ixd(mem),
            // LD L,(IX+d)
            0x6E => self.ld_l_mem_ixd(mem),
            // LD (IX+d),B
            0x70 => self.ld_mem_ixd_b(mem),
            // LD (IX+d),C
            0x71 => self.ld_mem_ixd_c(mem),
            // LD (IX+d),D
            0x72 => self.ld_mem_ixd_d(mem),
            // LD (IX+d),E
            0x73 => self.ld_mem_ixd_e(mem),
            // LD (IX+d),H
            0x74 => self.ld_mem_ixd_h(mem),
            // LD (IX+d),L
            0x75 => self.ld_mem_ixd_l(mem),
            _ => self.execute_main(mem, ports, opcode, IndexMode::IX),
        }
    }

    /// The handlers of the main page after the `DD` prefix, from `0x77` to `0xF9`.
    #[verifier::rlimit(60)]
    fn ix_functions_77_f9<M: MemoryAccessor, P: PortAccessor>(
        &mut self,
        mem: &mut M,
        ports: &mut P,
        opcode: u8,
    ) -> (t_states: u8)
        requires
            0x77 <= opcode <= 0xF9,
        ensures
            (*final(self), final(mem)@, final(ports)@, t_states) == spec_execute_main::<M, P>(
                *old(self),
                old(mem)@,
                old(ports)@,
                opcode,
                IndexMode::IX,
            ),
    {
        proof {
            reveal(spec_execute_x0);
            reveal(spec_execute_x1);
            reveal(spec_execute_x3);
        }
        match opcode {
            // LD (IX+d),A
            0x77 => self.ld_mem_ixd_a(mem),
            // LD A,(IX+d)
            0x7E => self.ld_a_mem_ixd(mem),
            // POP IX
            0xE1 => self.pop_ix(mem),
            // EX (SP),IX
            0xE3 => self.ex_mem_sp_ix(mem),
            // PUSH IX
            0xE5 => self.push_ix(mem),
            // LD SP,IX
            0xF9 => self.ld_sp_ix(),
            _ => self.execute_main(mem, ports, opcode, IndexMode::IX),
        }
    }

    /// The handlers of the main page after the `DD` prefix.
    pub fn ix_functions<M: MemoryAccessor, P: PortAccessor>(
        &mut self,
        mem: &mut M,
        ports: &mut P,
        opcode: u8,
    ) -> (t_states: u8)
        ensures
            (*final(self), final(mem)@, final(ports)@, t_states) == spec_execute_main::<M, P>(
                *old(self),
                old(mem)@,
                old(ports)@,
                opcode,
                IndexMode::IX,
            ),
    {
        if 0x21 <= opcode && opcode <= 0x5E {
            self.ix_functions_21_5e(mem, ports, opcode)
        } else if 0x66 <= opcode && opcode <= 0x75 {
            self.ix_functions_66_75(mem, ports, opcode)
        } else if 0x77 <= opcode && opcode <= 0xF9 {
            self.ix_functions_77_f9(mem, ports, opcode)
        } else {
            self.execute_main(mem, ports, opcode, IndexMode::IX)
        }
    }

    /// The handlers of the main page after the `FD` prefix, from `0x21` to `0x5E`.
    #[verifier::rlimit(60)]
    fn iy_functions_21_5e<M: MemoryAccessor, P: PortAccessor>(
        &mut self,
        mem: &mut M,
        ports: &mut P,
        opcode: u8,
    ) -> (t_states: u8)
        requires
            0x21 <= opcode <= 0x5E,
        ensures
            (*final(self), final(mem)@, final(ports)@, t_states) == spec_execute_main::<M, P>(
                *old(self),
                old(mem)@,
                old(ports)@,
                opcode,
                IndexMode::IY,
            ),
    {
        proof {
            reveal(spec_execute_x0);
            reveal(spec_execute_x1);
            reveal(spec_execute_x3);
        }
        match opcode {
            // LD IY,nn
            0x21 => self.ld_iy_nn(mem),
            // LD (nn),IY
            0x22 => self.ld_mem_nn_iy(mem),
            // LD IY,(nn)
            0x2A => self.ld_iy_mem_nn(mem),
            // LD (IY+d),n
            0x36 => self.ld_mem_iyd_n(mem),
            // LD B,(IY+d)
            0x46 => self.ld_b_mem_iyd(mem),
            // LD C,(IY+d)
            0x4E => self.ld_c_mem_iyd(mem),
            // LD D,(IY+d)
            0x56 => self.ld_d_mem_iyd(mem),
            // LD E,(IY+d)
            0x5E => self.ld_e_mem_iyd(mem),
            _ => self.execute_main(mem, ports, opcode, IndexMode::IY),
        }
    }

    /// The handlers of the main page after the `FD` prefix, from `0x66` to `0x75`.
    #[verifier::rlimit(60)]
    fn iy_functions_66_75<M: MemoryAccessor, P: PortAccessor>(
        &mut self,
        mem: &mut M,
        ports: &mut P,
        opcode: u8,
    ) -> (t_states: u8)
        requires
            0x66 <= opcode <= 0x75,
        ensures
            (*final(self), final(mem)@, final(ports)@, t_states) == spec_execute_main::<M, P>(
                *old(self),
                old(mem)@,
                old(ports)@,
                opcode,
                IndexMode::IY,
            ),
    {
        proof {
            reveal(spec_execute_x0);
            reveal(spec_execute_x1);
            reveal(spec_execute_x3);
        }
        match opcode {
            // LD H,(IY+d)
            0x66 => self.ld_h_mem_iyd(mem),
            // LD L,(IY+d)
            0x6E => self.ld_l_mem_iyd(mem),
            // LD (IY+d),B
            0x70 => self.ld_mem_iyd_b(mem),
            // LD (IY+d),C
            0x71 => self.ld_mem_iyd_c(mem),
            // LD (IY+d),D
            0x72 => self.ld_mem_iyd_d(mem),
            // LD (IY+d),E
            0x73 => self.ld_mem_iyd_e(mem),
            // LD (IY+d),H
            0x74 => self.ld_mem_iyd_h(mem),
            // LD (IY+d),L
            0x75 => self.ld_mem_iyd_l(mem),
            _ => self.execute_main(mem, ports, opcode, IndexMode::IY),
        }
    }

    /// The handlers of the main page after the `FD` prefix, from `0x77` to `0xF9`.
    #[verifier::rlimit(60)]
    fn iy_functions_77_f9<M: MemoryAccessor, P: PortAccessor>(
        &mut self,
        mem: &mut M,
        ports: &mut P,
        opcode: u8,
    ) -> (t_states: u8)
        requires
            0x77 <= opcode <= 0xF9,
        ensures
            (*final(self), final(mem)@, final(ports)@, t_states) == spec_execute_main::<M, P>(
                *old(self),
                old(mem)@,
                old(ports)@,
                opcode,
                IndexMode::IY,
            ),
    {
        proof {
            reveal(spec_execute_x0);
            reveal(spec_execute_x1);
            reveal(spec_execute_x3);
        }
        match opcode {
            // LD (IY+d),A
            0x77 => self.ld_mem_iyd_a(mem),
            // LD A,(IY+d)
            0x7E => self.ld_a_mem_iyd(mem),
            // POP IY
            0xE1 => self.pop_iy(mem),
            // EX (SP),IY
            0xE3 => self.ex_mem_sp_iy(mem),
            // PUSH IY
            0xE5 => self.push_iy(mem),
            // LD SP,IY
            0xF9 => self.ld_sp_iy(),
            _ => self.execute_main(mem, ports, opcode, IndexMode::IY),
        }
    }

    /// The handlers of the main page after the `FD` prefix.
    pub fn iy_functions<M: MemoryAccessor, P: PortAccessor>(
        &mut self,
        mem: &mut M,
        ports: &mut P,
        opcode: u8,
    ) -> (t_states: u8)
        ensures
            (*final(self), final(mem)@, final(ports)@, t_states) == spec_execute_main::<M, P>(
                *old(self),
                old(mem)@,
                old(ports)@,
                opcode,
                IndexMode::IY,
            ),
    {
        if 0x21 <= opcode && opcode <= 0x5E {
            self.iy_functions_21_5e(mem, ports, opcode)
        } else if 0x66 <= opcode && opcode <= 0x75 {
            self.iy_functions_66_75(mem, ports, opcode)
        } else if 0x77 <= opcode && opcode <= 0xF9 {
            self.iy_functions_77_f9(mem, ports, opcode)
        } else {
            self.execute_main(mem, ports, opcode, IndexMode::IY)
        }
    }

    /// The handlers of the `ED` page, from `0x43` to `0x47`.
    #[verifier::rlimit(60)]
    fn ed_functions_43_47<M: MemoryAccessor, P: PortAccessor>(
        &mut self,
        mem: &mut M,
        ports: &mut P,
        opcode: u8,
    ) -> (t_states: u8)
        requires
            0x43 <= opcode <= 0x47,
        ensures
            (*final(self), final(mem)@, final(ports)@, t_states) == spec_execute_ed::<M, P>(
                *old(self),
                old(mem)@,
                old(ports)@,
                opcode,
            ),
    {
        proof {
            reveal(spec_execute_ed);
        }
        match opcode {
            // LD (nn),BC
            0x43 => self.ld_mem_nn_ddbc(mem),
            // NEG
            0x44 => self.neg(),
            // RETN
            0x45 => self.retn(mem),
            // LD I,A
            0x47 => self.ld_i_a(),
            _ => self.execute_ed(mem, ports, opcode),
        }
    }

    /// The handlers of the `ED` page, from `0x4B` to `0x53`.
    #[verifier::rlimit(60)]
    fn ed_functions_4b_53<M: MemoryAccessor, P: PortAccessor>(
        &mut self,
        mem: &mut M,
        ports: &mut P,
        opcode: u8,
    ) -> (t_states: u8)
        requires
            0x4B <= opcode <= 0x53,
        ensures
            (*final(self), final(mem)@, final(ports)@, t_states) == spec_execute_ed::<M, P>(
                *old(self),
                old(mem)@,
                old(ports)@,
                opcode,
            ),
    {
        proof {
            reveal(spec_execute_ed);
        }
        match opcode {
            // LD BC,(nn)
            0x4B => self.ld_ddbc_mem_nn(mem),
            // RETI
            0x4D => self.reti(mem),
            // LD R,A
            0x4F => self.ld_r_a(),
            // LD (nn),DE
            0x53 => self.ld_mem_nn_ddde(mem),
            _ => self.execute_ed(mem, ports, opcode),
        }
    }

    /// The handlers of the `ED` page, from `0x57` to `0x63`.
    #[verifier::rlimit(60)]
    fn ed_functions_57_63<M: MemoryAccessor, P: PortAccessor>(
        &mut self,
        mem: &mut M,
        ports: &mut P,
        opcode: u8,
    ) -> (t_states: u8)
        requires
            0x57 <= opcode <= 0x63,
        ensures
            (*final(self), final(mem)@, final(ports)@, t_states) == spec_execute_ed::<M, P>(
                *old(self),
                old(mem)@,
                old(ports)@,
                opcode,
            ),
    {
        proof {
            reveal(spec_execute_ed);
        }
        match opcode {
            // LD A,I
            0x57 => self.ld_a_i(),
            // LD DE,(nn)
            0x5B => self.ld_ddde_mem_nn(mem),
            // LD A,R
            0x5F => self.ld_a_r(),
            // LD (nn),HL
            0x63 => self.ld_mem_nn_ddhl(mem),
            _ => self.execute_ed(mem, ports, opcode),
        }
    }

    /// The handlers of the `ED` page, from `0x6B` to `0xA0`.
    #[verifier::rlimit(60)]
    fn ed_functions_6b_a0<M: MemoryAccessor, P: PortAccessor>(
        &mut self,
        mem: &mut M,
        ports: &mut P,
        opcode: u8,
    ) -> (t_states: u8)
        requires
            0x6B <= opcode <= 0xA0,
        ensures
            (*final(self), final(mem)@, final(ports)@, t_states) == spec_execute_ed::<M, P>(
                *old(self),
                old(mem)@,
                old(ports)@,
                opcode,
            ),
    {
        proof {
            reveal(spec_execute_ed);
        }
        match opcode {
            // LD HL,(nn)
            0x6B => self.ld_ddhl_mem_nn(mem),
            // LD (nn),SP
            0x73 => self.ld_mem_nn_ddsp(mem),
            // LD SP,(nn)
            0x7B => self.ld_ddsp_mem_nn(mem),
            // LDI
            0xA0 => self.ldi(mem),
            _ => self.execute_ed(mem, ports, opcode),
        }
    }

    /// The handlers of the `ED` page, from `0xA1` to `0xB0`.
    #[verifier::rlimit(60)]
    fn ed_functions_a1_b0<M: MemoryAccessor, P: PortAccessor>(
        &mut self,
        mem: &mut M,
        ports: &mut P,
        opcode: u8,
    ) -> (t_states: u8)
        requires
            0xA1 <= opcode <= 0xB0,
        ensures
            (*final(self), final(mem)@, final(ports)@, t_states) == spec_execute_ed::<M, P>(
                *old(self),
                old(mem)@,
                old(ports)@,
                opcode,
            ),
    {
        proof {
            reveal(spec_execute_ed);
        }
        match opcode {
            // CPI
            0xA1 => self.cpi(mem),
            // LDD
            0xA8 => self.ldd(mem),
            // CPD
            0xA9 => self.cpd(mem),
            // LDIR
            0xB0 => self.ldir(mem),
            _ => self.execute_ed(mem, ports, opcode),
        }
    }

    /// The handlers of the `ED` page, from `0xB1` to `0xB9`.
    #[verifier::rlimit(60)]
    fn ed_functions_b1_b9<M: MemoryAccessor, P: PortAccessor>(
        &mut self,
        mem: &mut M,
        ports: &mut P,
        opcode: u8,
    ) -> (t_states: u8)
        requires
            0xB1 <= opcode <= 0xB9,
        ensures
            (*final(self), final(mem)@, final(ports)@, t_states) == spec_execute_ed::<M, P>(
                *old(self),
                old(mem)@,
                old(ports)@,
                opcode,
            ),
    {
        proof {
            reveal(spec_execute_ed);
        }
        match opcode {
            // CPIR
            0xB1 => self.cpir(mem),
            // LDDR
            0xB8 => self.lddr(mem),
            // CPDR
            0xB9 => self.cpdr(mem),
            _ => self.execute_ed(mem, ports, opcode),
        }
    }

    /// The handlers of the `ED` page.
    pub fn ed_functions<M: MemoryAccessor, P: PortAccessor>(
        &mut self,
        mem: &mut M,
        ports: &mut P,
        opcode: u8,
    ) -> (t_states: u8)
        ensures
            (*final(self), final(mem)@, final(ports)@, t_states) == spec_execute_ed::<M, P>(
                *old(self),
                old(mem)@,
                old(ports)@,
                opcode,
            ),
    {
        if 0x43 <= opcode && opcode <= 0x47 {
            self.ed_functions_43_47(mem, ports, opcode)
        } else if 0x4B <= opcode && opcode <= 0x53 {
            self.ed_functions_4b_53(mem, ports, opcode)
        } else if 0x57 <= opcode && opcode <= 0x63 {
            self.ed_functions_57_63(mem, ports, opcode)
        } else if 0x6B <= opcode && opcode <= 0xA0 {
            self.ed_functions_6b_a0(mem, ports, opcode)
        } else if 0xA1 <= opcode && opcode <= 0xB0 {
            self.ed_functions_a1_b0(mem, ports, opcode)
        } else if 0xB1 <= opcode && opcode <= 0xB9 {
            self.ed_functions_b1_b9(mem, ports, opcode)
        } else {
            self.execute_ed(mem, ports, opcode)
        }
    }

}

} // verus!
