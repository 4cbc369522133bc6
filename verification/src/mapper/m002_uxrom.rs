//! Mappers 2 and 71: a write anywhere in 0x8000-0xFFFF selects the 16 KiB
//! program bank shown at 0x8000; 0xC000 always shows the last bank.

use vstd::prelude::*;
use crate::cartridge::Cartridge;
use crate::mapper::{Mapper, MapperType, MirroringType};
use crate::memory::{BankableMemory, BankableMemoryView, MemRead, MemWrite};

verus! {

pub const PRG_ROM_WINDOW: usize = 16 * 1024;

pub const CHR_WINDOW: usize = 8 * 1024;

pub const CHR_SIZE: usize = 8 * 1024;

#[derive(Debug)]
pub struct Uxrom {
    pub prg_rom: BankableMemory,
    pub chr: BankableMemory,
    pub mirroring: MirroringType,
}

/// What a mapper 2 holds.
pub struct UxromView {
    pub prg_rom: BankableMemoryView,
    pub chr: BankableMemoryView,
    pub mirroring: MirroringType,
}

impl UxromView {
    /// The mapper of a cartridge as loaded: the program ROM under two
    /// windows, the first on bank 0 and the second on the last bank, and
    /// the character memory (RAM of 8 KiB where the cartridge has none)
    /// under one window.
    pub open spec fn loaded(cart: &Cartridge) -> UxromView {
        let prg = BankableMemoryView::over(
            cart.prg_rom@,
            PRG_ROM_WINDOW as nat,
            false,
        ).add_bank_range(0x8000, 0xFFFF);
        let chr = match cart.chr_rom {
            Some(bytes) => BankableMemoryView::over(bytes@, CHR_WINDOW as nat, true),
            None => BankableMemoryView::fresh(CHR_SIZE as nat, CHR_WINDOW as nat, true),
        };
        UxromView {
            prg_rom: prg.set_bank(0xC000, prg.last_bank() as int),
            chr: chr.add_bank_range(0x0000, 0x1FFF),
            mirroring: cart.header.mirroring_type,
        }
    }

    pub open spec fn read(self, addr: int) -> u8 {
        if 0x0000 <= addr <= 0x1FFF {
            self.chr.read(addr)
        } else if 0x8000 <= addr <= 0xFFFF {
            self.prg_rom.read(addr)
        } else {
            0
        }
    }

    pub open spec fn write(self, addr: int, value: u8) -> UxromView {
        if 0x0000 <= addr <= 0x1FFF {
            UxromView { chr: self.chr.write(addr, value), ..self }
        } else if 0x8000 <= addr <= 0xFFFF {
            UxromView { prg_rom: self.prg_rom.set_bank(0x8000, (value & 0b0000_1111) as int), ..self }
        } else {
            self
        }
    }
}

impl View for Uxrom {
    type V = UxromView;

    open spec fn view(&self) -> UxromView {
        UxromView { prg_rom: self.prg_rom@, chr: self.chr@, mirroring: self.mirroring }
    }
}

impl Clone for Uxrom {
    fn clone(&self) -> (r: Self)
        ensures
            r@ == self@,
    {
        Uxrom { prg_rom: self.prg_rom.clone(), chr: self.chr.clone(), mirroring: self.mirroring }
    }
}

impl Uxrom {
    pub fn load(cartridge: &Cartridge) -> (r: MapperType)
        ensures
            r@ == crate::mapper::MapperView::Uxrom(UxromView::loaded(cartridge)),
    {
        let mut uxrom = Self {
            prg_rom: BankableMemory::rom_from_bytes(cartridge.prg_rom.as_slice(), PRG_ROM_WINDOW),
            chr: match &cartridge.chr_rom {
                Some(chr_rom) => BankableMemory::ram_from_bytes(chr_rom.as_slice(), CHR_WINDOW),
                None => BankableMemory::ram(CHR_SIZE, CHR_WINDOW),
            },
            mirroring: cartridge.header.mirroring_type,
        };
        uxrom.prg_rom.add_bank_range(0x8000, 0xFFFF);
        let last = uxrom.prg_rom.last_bank();
        uxrom.prg_rom.set_bank(0xC000, last);
        uxrom.chr.add_bank_range(0x0000, 0x1FFF);
        MapperType::Uxrom(uxrom)
    }

    /// The byte at a cartridge address, without the `&mut` that the bus
    /// trait asks for.
    pub fn peek(&self, addr: usize) -> (value: u8)
        ensures
            value == self@.read(addr as int),
    {
        if addr <= 0x1FFF {
            self.chr.peek(addr)
        } else if 0x8000 <= addr && addr <= 0xFFFF {
            self.prg_rom.peek(addr)
        } else {
            0
        }
    }
}

impl MemRead for Uxrom {
    fn read(&mut self, addr: usize) -> (value: u8)
        ensures
            value == old(self)@.read(addr as int),
            *final(self) == *old(self),
    {
        self.peek(addr)
    }
}

impl MemWrite for Uxrom {
    fn write(&mut self, addr: usize, value: u8)
        ensures
            final(self)@ == old(self)@.write(addr as int, value),
    {
        if addr <= 0x1FFF {
            self.chr.write(addr, value);
        } else if 0x8000 <= addr && addr <= 0xFFFF {
            let v: u8 = value & 0b0000_1111;
            self.prg_rom.set_bank(0x8000, v as usize);
        }
    }
}

impl Mapper for Uxrom {
    fn irq_pending(&mut self) -> (pending: bool)
        ensures
            !pending,
            *final(self) == *old(self),
    {
        false
    }

    fn mirroring(&self) -> (m: MirroringType)
        ensures
            m == self@.mirroring,
    {
        self.mirroring
    }

    fn battery_backed(&self) -> (b: bool)
        ensures
            !b,
    {
        false
    }

    fn use_ciram(&self, addr: usize) -> (b: bool)
        ensures
            b,
    {
        true
    }

    fn nametable_page(&self, addr: usize) -> (page: usize)
        ensures
            page == 0,
    {
        0
    }
}

} // verus!
