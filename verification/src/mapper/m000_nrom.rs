//! Mapper 0: no banking. 8 KiB of program RAM at 0x6000, the program ROM
//! from 0x8000 (a 16 KiB ROM shows twice), the character memory at 0x0000.

use vstd::prelude::*;
use crate::cartridge::Cartridge;
use crate::mapper::{Mapper, MirroringType};
use crate::memory::{zeros, MemRead, MemWrite, Memory, MemoryView};

verus! {

pub const PRG_RAM_SIZE: usize = 8 * 1024;

pub const CHR_SIZE: usize = 8 * 1024;

#[derive(Debug)]
pub struct Nrom {
    pub prg_ram: Memory,
    pub prg_rom: Memory,
    pub chr_rom: Memory,
    pub mirroring: MirroringType,
}

/// What a mapper 0 holds.
pub struct NromView {
    pub prg_ram: MemoryView,
    pub prg_rom: MemoryView,
    pub chr_rom: MemoryView,
    pub mirroring: MirroringType,
}

impl NromView {
    /// The mapper of a cartridge as loaded: zeroed program RAM, the
    /// program ROM, and the character ROM or, where the cartridge has none,
    /// 8 KiB of character RAM.
    pub open spec fn loaded(cart: &Cartridge) -> NromView {
        NromView {
            prg_ram: MemoryView { data: zeros(PRG_RAM_SIZE as nat), writable: true },
            prg_rom: MemoryView { data: cart.prg_rom@, writable: false },
            chr_rom: match cart.chr_rom {
                Some(chr) => MemoryView { data: chr@, writable: false },
                None => MemoryView { data: zeros(CHR_SIZE as nat), writable: true },
            },
            mirroring: cart.header.mirroring_type,
        }
    }

    pub open spec fn read(self, addr: int) -> u8 {
        if 0x0000 <= addr <= 0x1FFF {
            self.chr_rom.read(addr)
        } else if 0x6000 <= addr <= 0x7FFF {
            self.prg_ram.read(addr)
        } else if 0x8000 <= addr <= 0xFFFF {
            self.prg_rom.read(addr)
        } else {
            0
        }
    }

    pub open spec fn write(self, addr: int, value: u8) -> NromView {
        if 0x0000 <= addr <= 0x1FFF {
            NromView { chr_rom: self.chr_rom.write(addr, value), ..self }
        } else if 0x6000 <= addr <= 0x7FFF {
            NromView { prg_ram: self.prg_ram.write(addr, value), ..self }
        } else if 0x8000 <= addr <= 0xFFFF {
            NromView { prg_rom: self.prg_rom.write(addr, value), ..self }
        } else {
            self
        }
    }
}

impl View for Nrom {
    type V = NromView;

    open spec fn view(&self) -> NromView {
        NromView {
            prg_ram: self.prg_ram@,
            prg_rom: self.prg_rom@,
            chr_rom: self.chr_rom@,
            mirroring: self.mirroring,
        }
    }
}

impl Clone for Nrom {
    fn clone(&self) -> (r: Self)
        ensures
            r@ == self@,
    {
        Nrom {
            prg_ram: self.prg_ram.clone(),
            prg_rom: self.prg_rom.clone(),
            chr_rom: self.chr_rom.clone(),
            mirroring: self.mirroring,
        }
    }
}

impl Nrom {
    pub fn load(cartridge: &Cartridge) -> (r: Self)
        ensures
            r@ == NromView::loaded(cartridge),
    {
        Self {
            prg_ram: Memory::ram(PRG_RAM_SIZE),
            prg_rom: Memory::rom_from_bytes(cartridge.prg_rom.as_slice()),
            chr_rom: match &cartridge.chr_rom {
                Some(chr_rom) => Memory::rom_from_bytes(chr_rom.as_slice()),
                None => Memory::ram(CHR_SIZE),
            },
            mirroring: cartridge.header.mirroring_type,
        }
    }

    /// The byte at a cartridge address, without the `&mut` that the bus
    /// trait asks for.
    pub fn peek(&self, addr: usize) -> (value: u8)
        ensures
            value == self@.read(addr as int),
    {
        if addr <= 0x1FFF {
            self.chr_rom.peek(addr)
        } else if 0x6000 <= addr && addr <= 0x7FFF {
            self.prg_ram.peek(addr)
        } else if 0x8000 <= addr && addr <= 0xFFFF {
            self.prg_rom.peek(addr)
        } else {
            0
        }
    }
}

impl MemRead for Nrom {
    fn read(&mut self, addr: usize) -> (value: u8)
        ensures
            value == old(self)@.read(addr as int),
            *final(self) == *old(self),
    {
        self.peek(addr)
    }
}

impl MemWrite for Nrom {
    fn write(&mut self, addr: usize, value: u8)
        ensures
            final(self)@ == old(self)@.write(addr as int, value),
    {
        if addr <= 0x1FFF {
            self.chr_rom.write(addr, value);
        } else if 0x6000 <= addr && addr <= 0x7FFF {
            self.prg_ram.write(addr, value);
        } else if 0x8000 <= addr && addr <= 0xFFFF {
            self.prg_rom.write(addr, value);
        }
    }
}

impl Mapper for Nrom {
    fn irq_pending(&mut self) -> (pending: bool)
        ensures
            !pending,
            *final(self) == *old(self),
    {
        false
    }

    fn mirroring(&self) -> (m: MirroringType)
        ensures
            m == self@.mirroring,
    {
        self.mirroring
    }

    fn battery_backed(&self) -> (b: bool)
        ensures
            !b,
    {
        false
    }

    fn use_ciram(&self, addr: usize) -> (b: bool)
        ensures
            b,
    {
        true
    }

    fn nametable_page(&self, addr: usize) -> (page: usize)
        ensures
            page == 0,
    {
        0
    }
}

} // verus!
