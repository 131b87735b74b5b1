//! Interrupts, and stepping a processor that has no ports attached.

use vstd::prelude::*;
use crate::z80::decoder::{
    spec_execute, spec_execute_cb, spec_execute_ed, spec_execute_page, spec_execute_x0,
    spec_execute_x1, spec_execute_x2, spec_execute_x3, spec_fetched, spec_step,
};
use crate::z80::operands::spec_immediate;
use crate::z80::jump_call_return::spec_restart;
use crate::z80::{
    pair, peek_word, read_word, spec_pair, spec_refreshed, IndexMode, InterruptMode,
    MemoryAccessor, PortAccessor, Z80,
};

verus! {

/// A port space with no device in it: every input reads `0xFF`, every output
/// is lost.
pub struct FloatingBus {}

impl View for FloatingBus {
    type V = ();

    open spec fn view(&self) -> () {
        ()
    }
}

impl PortAccessor for FloatingBus {
    open spec fn port_in(ports: (), port: u16) -> (u8, ()) {
        (0xFF, ())
    }

    open spec fn port_out(ports: (), port: u16, data: u8) -> () {
        ()
    }

    fn input(&mut self, port: u16) -> (data: u8) {
        0xFF
    }

    fn output(&mut self, port: u16, data: u8) {
    }
}

/// `c` as an interrupt finds it: a halted processor leaves the halt state
/// with its program counter past the `HALT` opcode.
pub open spec fn spec_woken(c: Z80) -> Z80 {
    if c.halted {
        Z80 { halted: false, program_counter: c.program_counter.wrapping_add(1), ..c }
    } else {
        c
    }
}

/// A non-maskable interrupt: `IFF2` takes `IFF1`, `IFF1` is cleared, the
/// program counter is pushed and execution continues at `0x0066`, in 11
/// T-states.
pub open spec fn spec_nmi<M: MemoryAccessor>(c: Z80, memory: M::V) -> (Z80, M::V, u8) {
    (
        spec_restart::<M>(Z80 { iff2: c.iff1, iff1: false, ..spec_woken(c) }, memory, 0x0066).0,
        spec_restart::<M>(Z80 { iff2: c.iff1, iff1: false, ..spec_woken(c) }, memory, 0x0066).1,
        11,
    )
}

/// The address of the interrupt vector in mode 2: `I` in the high byte, the
/// bus byte with its lowest bit cleared in the low byte.
pub open spec fn spec_vector_address(i: u8, bus_data: u8) -> u16 {
    spec_pair(i, (bus_data - bus_data % 2) as u8)
}

/// A maskable interrupt with `bus_data` on the bus. With `IFF1` clear it is
/// ignored and takes no time. Otherwise both latches are cleared, a halted
/// processor wakes, and then: in mode 0 the bus byte is executed as if it had
/// been fetched as an opcode, in 2 T-states more than that instruction
/// takes; in mode 1 the program counter is pushed and execution continues at
/// `0x0038`, in 13 T-states; in mode 2 the program counter is pushed and
/// execution continues at the address stored at the vector address, in 19
/// T-states.
pub open spec fn spec_irq<M: MemoryAccessor, P: PortAccessor>(
    c: Z80,
    memory: M::V,
    ports: P::V,
    bus_data: u8,
) -> (Z80, M::V, P::V, u8) {
    let accepted = Z80 { iff1: false, iff2: false, ..spec_woken(c) };
    if !c.iff1 {
        (c, memory, ports, 0)
    } else {
        match c.interrupt_mode {
            InterruptMode::Mode0 => {
                let done = spec_execute::<M, P>(
                    Z80 { r: spec_refreshed(accepted.r), ..accepted },
                    memory,
                    ports,
                    bus_data,
                );
                (done.0, done.1, done.2, (done.3 + 2) as u8)
            },
            InterruptMode::Mode1 => (
                spec_restart::<M>(accepted, memory, 0x0038).0,
                spec_restart::<M>(accepted, memory, 0x0038).1,
                ports,
                13,
            ),
            InterruptMode::Mode2 => (
                spec_restart::<M>(
                    accepted,
                    memory,
                    peek_word::<M>(memory, spec_vector_address(c.i, bus_data)),
                ).0,
                spec_restart::<M>(
                    accepted,
                    memory,
                    peek_word::<M>(memory, spec_vector_address(c.i, bus_data)),
                ).1,
                ports,
                19,
            ),
        }
    }
}

impl Z80 {
    /// Leaves the halt state, if the processor is in it.
    pub fn wake(&mut self)
        ensures
            *final(self) == spec_woken(*old(self)),
    {
        if self.halted {
            self.halted = false;
            self.program_counter = self.program_counter.wrapping_add(1);
        }
    }

    /// Takes a non-maskable interrupt.
    pub fn nmi<M: MemoryAccessor>(&mut self, mem: &mut M) -> (t_states: u8)
        ensures
            (*final(self), final(mem)@, t_states) == spec_nmi::<M>(*old(self), old(mem)@),
    {
        self.wake();
        self.iff2 = self.iff1;
        self.iff1 = false;
        self.restart(mem, 0x0066);

        // T states
        11
    }

    /// Offers a maskable interrupt with `bus_data` on the bus; it is taken
    /// iff `IFF1` is set.
    #[verifier::rlimit(50)]
    pub fn irq<M: MemoryAccessor, P: PortAccessor>(
        &mut self,
        bus_data: u8,
        mem: &mut M,
        ports: &mut P,
    ) -> (t_states: u8)
        ensures
            (*final(self), final(mem)@, final(ports)@, t_states) == spec_irq::<M, P>(
                *old(self),
                old(mem)@,
                old(ports)@,
                bus_data,
            ),
    {
        if !self.iff1 {
            return 0;
        }
        let vector = pair(self.i, bus_data - bus_data % 2);
        let mode = self.interrupt_mode;
        self.wake();
        self.iff1 = false;
        self.iff2 = false;
        match mode {
            InterruptMode::Mode0 => {
                self.refresh();
                let t_states = self.execute(mem, ports, bus_data);
                proof {
                    lemma_t_states_bound::<M, P>(
                        Z80 { r: spec_refreshed(spec_woken(*old(self)).r), iff1: false, iff2: false, ..spec_woken(*old(self)) },
                        old(mem)@,
                        old(ports)@,
                        bus_data,
                    );
                }
                t_states + 2
            },
            InterruptMode::Mode1 => {
                self.restart(mem, 0x0038);
                13
            },
            InterruptMode::Mode2 => {
                let target = read_word(mem, vector);
                self.restart(mem, target);
                19
            },
        }
    }

    /// Executes one instruction of a processor with no ports attached and
    /// returns the T-states it took: a `step` against a floating bus.
    pub fn process_next_instruction<M: MemoryAccessor>(&mut self, memory_accessor: &mut M) -> (t_states: u8)
        ensures
            (*final(self), final(memory_accessor)@, (), t_states) == spec_step::<M, FloatingBus>(
                *old(self),
                old(memory_accessor)@,
                (),
            ),
    {
        let mut ports = FloatingBus {  };
        self.step(memory_accessor, &mut ports)
    }
}

/// Every instruction takes at least 4 and at most 27 T-states.
#[verifier::rlimit(50)]
pub proof fn lemma_t_states_bound<M: MemoryAccessor, P: PortAccessor>(
    c: Z80,
    memory: M::V,
    ports: P::V,
    opcode: u8,
)
    ensures
        4 <= spec_execute::<M, P>(c, memory, ports, opcode).3 <= 27,
{
    let next = spec_immediate::<M>(c, memory);
    lemma_ed_t_states::<M, P>(spec_fetched(c), memory, ports, next);
    lemma_page_t_states::<M, P>(spec_fetched(c), memory, ports, next, IndexMode::IX);
    lemma_page_t_states::<M, P>(spec_fetched(c), memory, ports, next, IndexMode::IY);
    lemma_page_t_states::<M, P>(c, memory, ports, opcode, IndexMode::HL);
}

/// The bounds for an opcode of the `ED` page.
#[verifier::rlimit(50)]
pub proof fn lemma_ed_t_states<M: MemoryAccessor, P: PortAccessor>(
    c: Z80,
    memory: M::V,
    ports: P::V,
    opcode: u8,
)
    ensures
        8 <= spec_execute_ed::<M, P>(c, memory, ports, opcode).3 <= 21,
{
    reveal(spec_execute_ed);
}

/// The bounds for an opcode that is no page prefix.
#[verifier::rlimit(50)]
pub proof fn lemma_page_t_states<M: MemoryAccessor, P: PortAccessor>(
    c: Z80,
    memory: M::V,
    ports: P::V,
    opcode: u8,
    idx: IndexMode,
)
    ensures
        4 <= spec_execute_page::<M, P>(c, memory, ports, opcode, idx).3 <= 27,
{
    reveal(spec_execute_cb);
    reveal(spec_execute_x1);
    reveal(spec_execute_x2);
    if opcode == 0xCB {
    } else if opcode / 64 == 0 {
        lemma_x0_t_states::<M, P>(c, memory, ports, opcode, idx);
    } else if opcode / 64 == 1 {
    } else if opcode / 64 == 2 {
    } else {
        lemma_x3_t_states::<M, P>(c, memory, ports, opcode, idx);
    }
}

/// The bounds for the opcodes `0x00` to `0x3F`.
#[verifier::rlimit(50)]
pub proof fn lemma_x0_t_states<M: MemoryAccessor, P: PortAccessor>(
    c: Z80,
    memory: M::V,
    ports: P::V,
    opcode: u8,
    idx: IndexMode,
)
    ensures
        4 <= spec_execute_x0::<M, P>(c, memory, ports, opcode, idx).3 <= 27,
{
    reveal(spec_execute_x0);
}

/// The bounds for the opcodes `0xC0` to `0xFF`.
#[verifier::rlimit(50)]
pub proof fn lemma_x3_t_states<M: MemoryAccessor, P: PortAccessor>(
    c: Z80,
    memory: M::V,
    ports: P::V,
    opcode: u8,
    idx: IndexMode,
)
    ensures
        4 <= spec_execute_x3::<M, P>(c, memory, ports, opcode, idx).3 <= 27,
{
    reveal(spec_execute_x3);
}

} // verus!
