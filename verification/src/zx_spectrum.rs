//! The memory map of a 48K ZX Spectrum around the processor: a ROM at the
//! bottom of the address space and RAM above it.

use vstd::prelude::*;
use crate::z80::{reset_state, MemoryAccessor, Z80};

verus! {

/// The size of the RAM above the ROM, in bytes.
pub const RAM_SIZE: usize = 0x8000;

/// A ROM that starts at address 0 and RAM that follows it. Writes to the ROM
/// are dropped; addresses past the end of the RAM read as `0xFF` and ignore
/// writes.
pub struct ZxSpectrumMemory {
    pub rom: Vec<u8>,
    pub ram: Vec<u8>,
}

impl View for ZxSpectrumMemory {
    type V = (Seq<u8>, Seq<u8>);

    open spec fn view(&self) -> (Seq<u8>, Seq<u8>) {
        (self.rom@, self.ram@)
    }
}

impl ZxSpectrumMemory {
    /// A memory with the given ROM and RAM contents.
    pub fn new(rom: Vec<u8>, ram: Vec<u8>) -> (memory: ZxSpectrumMemory)
        ensures
            memory@ == (rom@, ram@),
    {
        ZxSpectrumMemory { rom, ram }
    }
}

impl MemoryAccessor for ZxSpectrumMemory {
    open spec fn peek(memory: (Seq<u8>, Seq<u8>), address: u16) -> u8 {
        if address < memory.0.len() {
            memory.0[address as int]
        } else if address - memory.0.len() < memory.1.len() {
            memory.1[address - memory.0.len()]
        } else {
            0xFF
        }
    }

    open spec fn poke(memory: (Seq<u8>, Seq<u8>), address: u16, data: u8) -> (Seq<u8>, Seq<u8>) {
        if address >= memory.0.len() && address - memory.0.len() < memory.1.len() {
            (memory.0, memory.1.update(address - memory.0.len(), data))
        } else {
            memory
        }
    }

    fn read(&self, address: u16) -> (data: u8) {
        let index: usize = address as usize;
        if index < self.rom.len() {
            self.rom[index]
        } else if index - self.rom.len() < self.ram.len() {
            self.ram[index - self.rom.len()]
        } else {
            0xFF
        }
    }

    fn write(&mut self, address: u16, data: u8) {
        let index: usize = address as usize;
        if index >= self.rom.len() && index - self.rom.len() < self.ram.len() {
            let offset = index - self.rom.len();
            self.ram.set(offset, data);
        }
    }
}

/// A 48K ZX Spectrum: its memory and its processor.
pub struct ZxSpectrum {
    pub memory: ZxSpectrumMemory,
    pub processor: Z80,
}

impl ZxSpectrum {
    /// A machine with the given ROM image, its RAM cleared and its processor
    /// reset.
    pub fn new(rom: Vec<u8>) -> (computer: ZxSpectrum)
        ensures
            computer.memory@ == (rom@, Seq::new(RAM_SIZE as nat, |i: int| 0u8)),
            computer.processor == reset_state(),
    {
        let mut ram: Vec<u8> = Vec::new();
        while ram.len() < RAM_SIZE
            invariant
                ram.len() <= RAM_SIZE,
                forall|i: int| 0 <= i < ram.len() ==> ram[i] == 0,
            decreases RAM_SIZE - ram.len(),
        {
            ram.push(0);
        }
        assert(ram@ =~= Seq::new(RAM_SIZE as nat, |i: int| 0u8));
        ZxSpectrum { memory: ZxSpectrumMemory::new(rom, ram), processor: Z80::new() }
    }
}

} // verus!
