//! The processor: its state, the memory and port interfaces it works
//! against, and the instruction groups.

pub mod arithmetic;
pub mod arithmetic_group;
pub mod decoder;
pub mod eight_bit_load_group;
pub mod exchange_block_transfer;
pub mod input_output;
pub mod interrupts;
pub mod jump_call_return;
pub mod laws;
pub mod operands;
pub mod rotate_shift_bit;
pub mod sixteen_bit_load_group;
pub mod tables;

use vstd::prelude::*;

verus! {

/// Byte-addressed memory as the processor sees it. Every 16-bit address can
/// be read and written; what a write does (store, drop, switch a bank) is the
/// host's business and is described by `poke`.
pub trait MemoryAccessor: View {
    /// The byte that a read of `address` returns when the memory is in state
    /// `memory`.
    spec fn peek(memory: Self::V, address: u16) -> u8;

    /// The state in which a write of `data` to `address` leaves the memory.
    spec fn poke(memory: Self::V, address: u16, data: u8) -> Self::V;

    /// Reads one byte. A read does not change the memory.
    fn read(&self, address: u16) -> (data: u8)
        ensures
            data == Self::peek(self@, address),
    ;

    /// Writes one byte.
    fn write(&mut self, address: u16, data: u8)
        ensures
            final(self)@ == Self::poke(old(self)@, address, data),
    ;
}

/// The I/O port space as the processor sees it, addressed by the full 16
/// bits. Reading a port may change the device behind it.
pub trait PortAccessor: View {
    /// The byte that an input from `port` returns in state `ports`, and the
    /// state it leaves.
    spec fn port_in(ports: Self::V, port: u16) -> (u8, Self::V);

    /// The state in which an output of `data` to `port` leaves the ports.
    spec fn port_out(ports: Self::V, port: u16, data: u8) -> Self::V;

    /// Reads one byte from a port.
    fn input(&mut self, port: u16) -> (data: u8)
        ensures
            (data, final(self)@) == Self::port_in(old(self)@, port),
    ;

    /// Writes one byte to a port.
    fn output(&mut self, port: u16, data: u8)
        ensures
            final(self)@ == Self::port_out(old(self)@, port, data),
    ;
}

/// A plain block of read-write bytes that starts at address 0. Addresses past
/// its end read as `0xFF` and ignore writes. It also serves as a port space of
/// latches: a port reads back the last byte written to it.
pub struct Ram {
    pub bytes: Vec<u8>,
}

impl View for Ram {
    type V = Seq<u8>;

    open spec fn view(&self) -> Seq<u8> {
        self.bytes@
    }
}

/// The byte at `address` in `bytes`, or `0xFF` past the end.
pub open spec fn byte_at(bytes: Seq<u8>, address: u16) -> u8 {
    if (address as int) < bytes.len() {
        bytes[address as int]
    } else {
        0xFF
    }
}

/// `bytes` with `data` stored at `address`, or unchanged past the end.
pub open spec fn store_at(bytes: Seq<u8>, address: u16, data: u8) -> Seq<u8> {
    if (address as int) < bytes.len() {
        bytes.update(address as int, data)
    } else {
        bytes
    }
}

impl Ram {
    /// Memory that holds `bytes` from address 0 on.
    pub fn new(bytes: Vec<u8>) -> (ram: Ram)
        ensures
            ram@ == bytes@,
    {
        Ram { bytes }
    }
}

impl MemoryAccessor for Ram {
    open spec fn peek(memory: Seq<u8>, address: u16) -> u8 {
        byte_at(memory, address)
    }

    open spec fn poke(memory: Seq<u8>, address: u16, data: u8) -> Seq<u8> {
        store_at(memory, address, data)
    }

    fn read(&self, address: u16) -> (data: u8) {
        let index: usize = address as usize;
        if index < self.bytes.len() {
            self.bytes[index]
        } else {
            0xFF
        }
    }

    fn write(&mut self, address: u16, data: u8) {
        let index: usize = address as usize;
        if index < self.bytes.len() {
            self.bytes.set(index, data);
        }
    }
}

impl PortAccessor for Ram {
    open spec fn port_in(ports: Seq<u8>, port: u16) -> (u8, Seq<u8>) {
        (byte_at(ports, port), ports)
    }

    open spec fn port_out(ports: Seq<u8>, port: u16, data: u8) -> Seq<u8> {
        store_at(ports, port, data)
    }

    fn input(&mut self, port: u16) -> (data: u8) {
        let index: usize = port as usize;
        if index < self.bytes.len() {
            self.bytes[index]
        } else {
            0xFF
        }
    }

    fn output(&mut self, port: u16, data: u8) {
        let index: usize = port as usize;
        if index < self.bytes.len() {
            self.bytes.set(index, data);
        }
    }
}

/// How a maskable interrupt is answered.
#[derive(Clone, Copy, Debug, PartialEq, Eq, Structural)]
pub enum InterruptMode {
    /// The interrupting device puts an instruction on the bus.
    Mode0,
    /// Restart at `0x0038`.
    Mode1,
    /// Jump through a vector table addressed by `I` and the bus byte.
    Mode2,
}

/// Which register pair an instruction takes for `HL`: itself, or `IX` or `IY`
/// after a `DD` or `FD` prefix.
#[derive(Clone, Copy, Debug, PartialEq, Eq, Structural)]
pub enum IndexMode {
    HL,
    IX,
    IY,
}

/// The architectural state of the processor, a flat record. The register
/// pairs `BC`, `DE`, `HL` and `AF` are views of their two halves.
#[derive(Clone, Copy, Debug, PartialEq, Eq, Structural)]
pub struct Z80 {
    /// Address of the next byte to fetch.
    pub program_counter: u16,
    pub stack_pointer: u16,
    // Index registers
    pub ix: u16,
    pub iy: u16,
    /// Interrupt vector
    pub i: u8,
    /// Memory refresh
    pub r: u8,
    /// Main accumulator and flag register
    pub a: u8,
    pub f: u8,
    /// Alternate accumulator and flag register
    pub a_prime: u8,
    pub f_prime: u8,
    // General purpose registers
    pub b: u8,
    pub c: u8,
    pub d: u8,
    pub e: u8,
    pub h: u8,
    pub l: u8,
    // Alternate general purpose registers
    pub b_prime: u8,
    pub c_prime: u8,
    pub d_prime: u8,
    pub e_prime: u8,
    pub h_prime: u8,
    pub l_prime: u8,
    /// Interrupt-enable latches
    pub iff1: bool,
    pub iff2: bool,
    pub interrupt_mode: InterruptMode,
    /// Set by `HALT`, cleared when an interrupt is taken or by a reset.
    pub halted: bool,
}

/// A copy of the whole architectural state.
pub type CpuSnapshot = Z80;

/// The 16-bit value whose high byte is `high` and whose low byte is `low`.
pub open spec fn spec_pair(high: u8, low: u8) -> u16 {
    (high as int * 256 + low as int) as u16
}

/// The high byte of `value`.
pub open spec fn spec_high(value: u16) -> u8 {
    (value / 256) as u8
}

/// The low byte of `value`.
pub open spec fn spec_low(value: u16) -> u8 {
    (value % 256) as u8
}

/// `base` moved by the displacement byte `d` read as a signed number, modulo
/// 2^16.
pub open spec fn spec_displaced(base: u16, d: u8) -> u16 {
    if d < 128 {
        base.wrapping_add(d as u16)
    } else {
        base.wrapping_sub((256 - d) as u16)
    }
}

/// The refresh register after one opcode fetch: the low seven bits count up,
/// bit 7 stays.
pub open spec fn spec_refreshed(r: u8) -> u8 {
    if r % 128 == 127 {
        (r - 127) as u8
    } else {
        (r + 1) as u8
    }
}

/// The 16-bit value stored at `address`, low byte first.
pub open spec fn peek_word<M: MemoryAccessor>(memory: M::V, address: u16) -> u16 {
    spec_pair(M::peek(memory, address.wrapping_add(1)), M::peek(memory, address))
}

/// The memory after `value` is stored at `address`: the low byte at
/// `address`, then the high byte at `address + 1`.
pub open spec fn poke_word<M: MemoryAccessor>(memory: M::V, address: u16, value: u16) -> M::V {
    M::poke(M::poke(memory, address, spec_low(value)), address.wrapping_add(1), spec_high(value))
}

/// The memory after `value` is pushed below `stack_pointer`: the high byte
/// at `stack_pointer - 1`, then the low byte at `stack_pointer - 2`.
pub open spec fn push_word<M: MemoryAccessor>(memory: M::V, stack_pointer: u16, value: u16) -> M::V {
    M::poke(
        M::poke(memory, stack_pointer.wrapping_sub(1), spec_high(value)),
        stack_pointer.wrapping_sub(2),
        spec_low(value),
    )
}

/// The state after a reset.
pub open spec fn reset_state() -> Z80 {
    Z80 {
        program_counter: 0,
        stack_pointer: 0xFFFF,
        ix: 0,
        iy: 0,
        i: 0,
        r: 0,
        a: 0,
        f: 0,
        a_prime: 0,
        f_prime: 0,
        b: 0,
        c: 0,
        d: 0,
        e: 0,
        h: 0,
        l: 0,
        b_prime: 0,
        c_prime: 0,
        d_prime: 0,
        e_prime: 0,
        h_prime: 0,
        l_prime: 0,
        iff1: false,
        iff2: false,
        interrupt_mode: InterruptMode::Mode0,
        halted: false,
    }
}

/// Joins two bytes into a 16-bit value.
#[verifier::when_used_as_spec(spec_pair)]
pub fn pair(high: u8, low: u8) -> (value: u16)
    ensures
        value == spec_pair(high, low),
{
    (high as u16) * 256 + (low as u16)
}

/// The high byte of a 16-bit value.
#[verifier::when_used_as_spec(spec_high)]
pub fn high(value: u16) -> (byte: u8)
    ensures
        byte == spec_high(value),
{
    (value / 256) as u8
}

/// The low byte of a 16-bit value.
#[verifier::when_used_as_spec(spec_low)]
pub fn low(value: u16) -> (byte: u8)
    ensures
        byte == spec_low(value),
{
    (value % 256) as u8
}

/// Adds a signed displacement byte to an address, modulo 2^16.
#[verifier::when_used_as_spec(spec_displaced)]
pub fn displaced(base: u16, d: u8) -> (address: u16)
    ensures
        address == spec_displaced(base, d),
{
    if d < 128 {
        base.wrapping_add(d as u16)
    } else {
        base.wrapping_sub(256 - d as u16)
    }
}

/// Reads the 16-bit value at `address`, low byte first; `address + 1` wraps.
pub fn read_word<M: MemoryAccessor>(mem: &M, address: u16) -> (value: u16)
    ensures
        value == peek_word::<M>(mem@, address),
{
    let low_byte = mem.read(address);
    let high_byte = mem.read(address.wrapping_add(1));
    pair(high_byte, low_byte)
}

/// Writes a 16-bit value at `address`, low byte first; `address + 1` wraps.
pub fn write_word<M: MemoryAccessor>(mem: &mut M, address: u16, value: u16)
    ensures
        final(mem)@ == poke_word::<M>(old(mem)@, address, value),
{
    mem.write(address, low(value));
    mem.write(address.wrapping_add(1), high(value));
}

impl Z80 {
    /// A processor in its reset state.
    pub fn new() -> (z80: Z80)
        ensures
            z80 == reset_state(),
    {
        Z80 {
            program_counter: 0,
            stack_pointer: 0xFFFF,
            ix: 0,
            iy: 0,
            i: 0,
            r: 0,
            a: 0,
            f: 0,
            a_prime: 0,
            f_prime: 0,
            b: 0,
            c: 0,
            d: 0,
            e: 0,
            h: 0,
            l: 0,
            b_prime: 0,
            c_prime: 0,
            d_prime: 0,
            e_prime: 0,
            h_prime: 0,
            l_prime: 0,
            iff1: false,
            iff2: false,
            interrupt_mode: InterruptMode::Mode0,
            halted: false,
        }
    }

    /// Puts the processor back into its reset state.
    pub fn reset(&mut self)
        ensures
            *final(self) == reset_state(),
    {
        *self = Z80::new();
    }

    /// A copy of the whole architectural state.
    pub fn state(&self) -> (snapshot: CpuSnapshot)
        ensures
            snapshot == *self,
    {
        *self
    }

    /// Replaces the whole architectural state with `snapshot`.
    pub fn restore(&mut self, snapshot: CpuSnapshot)
        ensures
            *final(self) == snapshot,
    {
        *self = snapshot;
    }

    pub open spec fn spec_bc(&self) -> u16 {
        spec_pair(self.b, self.c)
    }

    pub open spec fn spec_de(&self) -> u16 {
        spec_pair(self.d, self.e)
    }

    pub open spec fn spec_hl(&self) -> u16 {
        spec_pair(self.h, self.l)
    }

    pub open spec fn spec_af(&self) -> u16 {
        spec_pair(self.a, self.f)
    }

    /// The register pair `BC`.
    #[verifier::when_used_as_spec(spec_bc)]
    pub fn bc(&self) -> (value: u16)
        ensures
            value == self.spec_bc(),
    {
        pair(self.b, self.c)
    }

    /// The register pair `DE`.
    #[verifier::when_used_as_spec(spec_de)]
    pub fn de(&self) -> (value: u16)
        ensures
            value == self.spec_de(),
    {
        pair(self.d, self.e)
    }

    /// The register pair `HL`.
    #[verifier::when_used_as_spec(spec_hl)]
    pub fn hl(&self) -> (value: u16)
        ensures
            value == self.spec_hl(),
    {
        pair(self.h, self.l)
    }

    /// The register pair `AF`.
    #[verifier::when_used_as_spec(spec_af)]
    pub fn af(&self) -> (value: u16)
        ensures
            value == self.spec_af(),
    {
        pair(self.a, self.f)
    }

    /// Loads the accumulator.
    pub fn set_a(&mut self, value: u8)
        ensures
            *final(self) == (Z80 { a: value, ..*old(self) }),
    {
        self.a = value;
    }

    /// Loads `BC`: `B` takes the high byte, `C` the low byte.
    pub fn set_bc(&mut self, value: u16)
        ensures
            *final(self) == (Z80 { b: spec_high(value), c: spec_low(value), ..*old(self) }),
            final(self).bc() == value,
    {
        self.b = high(value);
        self.c = low(value);
    }

    /// Loads `DE`: `D` takes the high byte, `E` the low byte.
    pub fn set_de(&mut self, value: u16)
        ensures
            *final(self) == (Z80 { d: spec_high(value), e: spec_low(value), ..*old(self) }),
            final(self).de() == value,
    {
        self.d = high(value);
        self.e = low(value);
    }

    /// Loads `HL`: `H` takes the high byte, `L` the low byte.
    pub fn set_hl(&mut self, value: u16)
        ensures
            *final(self) == (Z80 { h: spec_high(value), l: spec_low(value), ..*old(self) }),
            final(self).hl() == value,
    {
        self.h = high(value);
        self.l = low(value);
    }

    /// Loads `AF`: `A` takes the high byte, `F` the low byte.
    pub fn set_af(&mut self, value: u16)
        ensures
            *final(self) == (Z80 { a: spec_high(value), f: spec_low(value), ..*old(self) }),
            final(self).af() == value,
    {
        self.a = high(value);
        self.f = low(value);
    }

    /// Reads the byte at the program counter and moves the program counter
    /// past it, modulo 2^16. Nothing else changes.
    pub fn fetch_next_opcode<M: MemoryAccessor>(&mut self, memory_accessor: &M) -> (opcode: u8)
        ensures
            opcode == M::peek(memory_accessor@, old(self).program_counter),
            *final(self) == (Z80 {
                program_counter: old(self).program_counter.wrapping_add(1),
                ..*old(self)
            }),
    {
        let opcode = memory_accessor.read(self.program_counter);
        self.program_counter = self.program_counter.wrapping_add(1);
        opcode
    }

    /// Reads the 16-bit operand at the program counter, low byte first, and
    /// moves the program counter past it.
    pub fn fetch_word<M: MemoryAccessor>(&mut self, memory_accessor: &M) -> (value: u16)
        ensures
            value == peek_word::<M>(memory_accessor@, old(self).program_counter),
            *final(self) == (Z80 {
                program_counter: old(self).program_counter.wrapping_add(2),
                ..*old(self)
            }),
    {
        let low_byte = self.fetch_next_opcode(memory_accessor);
        let high_byte = self.fetch_next_opcode(memory_accessor);
        pair(high_byte, low_byte)
    }

    /// Counts one opcode fetch in the refresh register: its low seven bits go
    /// up by one, bit 7 stays.
    pub fn refresh(&mut self)
        ensures
            *final(self) == (Z80 { r: spec_refreshed(old(self).r), ..*old(self) }),
    {
        if self.r % 128 == 127 {
            self.r = self.r - 127;
        } else {
            self.r = self.r + 1;
        }
    }

    /// `NOP`: does nothing.
    pub fn nop() -> (t_states: u8)
        ensures
            t_states == 4,
    {
        4
    }
}

} // verus!
