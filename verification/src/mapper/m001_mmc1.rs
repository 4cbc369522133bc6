//! Mapper 1: a five-bit serial shift register, fed one bit per write to
//! 0x8000-0xFFFF, loads one of four registers (control, two character
//! banks, program bank), selected by bits 13 and 14 of the address.

use vstd::prelude::*;
use crate::cartridge::Cartridge;
use crate::mapper::{Mapper, MapperType, MapperView, MirroringType};
use crate::memory::{BankableMemory, BankableMemoryView, MemRead, MemWrite};

verus! {

pub const PRG_RAM_WINDOW: usize = 8 * 1024;

pub const PRG_RAM_SIZE: usize = 8 * 1024;

pub const PRG_ROM_WINDOW: usize = 16 * 1024;

pub const CHR_WINDOW: usize = 4 * 1024;

pub const CHR_SIZE: usize = 8 * 1024;

/// The shift register when empty: the marker bit alone, which reaches bit 0
/// with the fifth bit shifted in.
pub const SHIFT_EMPTY: u8 = 0b0001_0000;

#[derive(Debug)]
pub struct MMC1 {
    pub prg_ram: BankableMemory,
    pub prg_rom: BankableMemory,
    pub chr: BankableMemory,
    pub mirroring: MirroringType,
    pub shift_reg: u8,
    pub control: u8,
    pub chr_bank0: u8,
    pub chr_bank1: u8,
    pub prg_bank: u8,
}

/// What a mapper 1 holds.
pub struct MMC1View {
    pub prg_ram: BankableMemoryView,
    pub prg_rom: BankableMemoryView,
    pub chr: BankableMemoryView,
    pub mirroring: MirroringType,
    pub shift_reg: u8,
    pub control: u8,
    pub chr_bank0: u8,
    pub chr_bank1: u8,
    pub prg_bank: u8,
}

/// The mirroring that the low two bits of the control register select.
pub open spec fn control_mirroring(control: u8) -> MirroringType {
    let k = control & 3;
    if k == 0 {
        MirroringType::SingleScreenA
    } else if k == 1 {
        MirroringType::SingleScreenB
    } else if k == 2 {
        MirroringType::Vertical
    } else {
        MirroringType::Horizontal
    }
}

/// The program windows under a control and a program bank register.
/// Modes 0 and 1 switch 32 KiB at once; mode 2 fixes bank 0 at 0x8000 and
/// switches 0xC000; mode 3 switches 0x8000 and fixes the last bank at
/// 0xC000.
pub open spec fn prg_windows(prg_rom: BankableMemoryView, control: u8, prg_bank: u8) -> BankableMemoryView {
    let mode = control & 0xC;
    if mode == 0 || mode == 4 {
        let bank_n = prg_bank & 0b0001_1110;
        prg_rom.set_bank(0x8000, bank_n as int).set_bank(0xC000, (bank_n | 1) as int)
    } else if mode == 8 {
        let bank_n = prg_bank & 0b0001_1111;
        prg_rom.set_bank(0x8000, 0).set_bank(0xC000, bank_n as int)
    } else {
        let bank_n = prg_bank & 0b0001_1111;
        prg_rom.set_bank(0x8000, bank_n as int).set_bank(0xC000, prg_rom.last_bank() as int)
    }
}

/// The character windows under a control and the two character bank
/// registers: 8 KiB switched at once where bit 4 of the control register
/// is clear, two windows of 4 KiB each where it is set.
pub open spec fn chr_windows(chr: BankableMemoryView, control: u8, chr_bank0: u8, chr_bank1: u8) -> BankableMemoryView {
    if control & 0x10 == 0 {
        let bank_n = chr_bank0 & 0b0001_1110;
        chr.set_bank(0x0000, bank_n as int).set_bank(0x1000, (bank_n | 1) as int)
    } else {
        chr.set_bank(0x0000, (chr_bank0 & 0b0001_1111) as int).set_bank(
            0x1000,
            (chr_bank1 & 0b0001_1111) as int,
        )
    }
}

impl MMC1View {
    /// The mapper of a cartridge as loaded: program RAM of the size the
    /// header declares (8 KiB where it declares none), the program ROM in
    /// 16 KiB windows, the character memory in 4 KiB windows (8 KiB of RAM
    /// where the cartridge has none), and the control register written
    /// with 0b11110.
    pub open spec fn loaded(cart: &Cartridge) -> MMC1View {
        let prg = BankableMemoryView::over(cart.prg_rom@, PRG_ROM_WINDOW as nat, false).add_bank_range(
            0x8000,
            0xFFFF,
        );
        MMC1View {
            prg_ram: BankableMemoryView::fresh(
                if cart.header.prg_ram_size == 0 {
                    PRG_RAM_SIZE as nat
                } else {
                    cart.header.prg_ram_size as nat
                },
                PRG_RAM_WINDOW as nat,
                true,
            ).add_bank_range(0x6000, 0x7FFF),
            prg_rom: prg.set_bank(0xC000, prg.last_bank() as int),
            chr: match cart.chr_rom {
                Some(bytes) => BankableMemoryView::over(bytes@, CHR_WINDOW as nat, true),
                None => BankableMemoryView::fresh(CHR_SIZE as nat, CHR_WINDOW as nat, true),
            }.add_bank_range(0x0000, 0x1FFF),
            mirroring: cart.header.mirroring_type,
            shift_reg: SHIFT_EMPTY,
            control: 0,
            chr_bank0: 0,
            chr_bank1: 0,
            prg_bank: 0,
        }.control_write(0b11110)
    }

    /// The mapper after `v` is loaded into the control register.
    pub open spec fn control_write(self, v: u8) -> MMC1View {
        let control = v & 0b0001_1111;
        MMC1View {
            control,
            mirroring: control_mirroring(control),
            prg_rom: prg_windows(self.prg_rom, control, self.prg_bank),
            chr: chr_windows(self.chr, control, self.chr_bank0, self.chr_bank1),
            ..self
        }
    }

    /// The mapper after `v` is loaded into a character bank register.
    pub open spec fn chr_bank_write(self, v: u8, bank1: bool) -> MMC1View {
        let b = v & 0b0001_1111;
        if !bank1 {
            MMC1View {
                chr_bank0: b,
                chr: if self.control & 0x10 == 0 {
                    self.chr.set_bank(0x0000, (b & 0b0001_1110) as int).set_bank(
                        0x1000,
                        ((b & 0b0001_1110) | 1) as int,
                    )
                } else {
                    self.chr.set_bank(0x0000, b as int)
                },
                ..self
            }
        } else {
            MMC1View {
                chr_bank1: b,
                chr: if self.control & 0x10 == 0 {
                    self.chr
                } else {
                    self.chr.set_bank(0x1000, b as int)
                },
                ..self
            }
        }
    }

    /// The mapper after `v` is loaded into the program bank register.
    pub open spec fn prg_bank_write(self, v: u8) -> MMC1View {
        let b = v & 0b0001_1111;
        let mode = self.control & 0xC;
        MMC1View {
            prg_bank: b,
            prg_rom: if mode == 0 || mode == 4 {
                self.prg_rom.set_bank(0x8000, (b & 0b0001_1110) as int).set_bank(
                    0xC000,
                    ((b & 0b0001_1110) | 1) as int,
                )
            } else if mode == 8 {
                self.prg_rom.set_bank(0xC000, b as int)
            } else {
                self.prg_rom.set_bank(0x8000, b as int)
            },
            ..self
        }
    }

    /// The mapper after a write to the serial port. A value with bit 7 set
    /// empties the shift register and sets both program mode bits of the
    /// control register. Else bit 0 of the value is shifted in; the fifth
    /// bit completes a value, which is loaded into the register that bits
    /// 13 and 14 of the address select, and the shift register is emptied.
    pub open spec fn serial_write(self, addr: int, value: u8) -> MMC1View {
        if value & 0b1000_0000 != 0 {
            (MMC1View { shift_reg: SHIFT_EMPTY, ..self }).control_write(self.control | 0xC)
        } else if self.shift_reg & 1 == 1 {
            let v: u8 = (self.shift_reg >> 1) | ((value & 1) << 4);
            let sel = (addr as usize) & 0xE000;
            let loaded = if sel == 0x8000 {
                self.control_write(v)
            } else if sel == 0xA000 {
                self.chr_bank_write(v, false)
            } else if sel == 0xC000 {
                self.chr_bank_write(v, true)
            } else {
                self.prg_bank_write(v)
            };
            MMC1View { shift_reg: SHIFT_EMPTY, ..loaded }
        } else {
            MMC1View { shift_reg: (self.shift_reg >> 1) | ((value & 1) << 4), ..self }
        }
    }

    /// Whether the program RAM is enabled: bit 4 of the program bank
    /// register is clear.
    pub open spec fn prg_ram_enabled(self) -> bool {
        self.prg_bank & 0b10000 == 0
    }

    pub open spec fn read(self, addr: int) -> u8 {
        if 0x0000 <= addr <= 0x1FFF {
            self.chr.read(addr)
        } else if 0x6000 <= addr <= 0x7FFF {
            if self.prg_ram_enabled() {
                self.prg_ram.read(addr)
            } else {
                0
            }
        } else if 0x8000 <= addr <= 0xFFFF {
            self.prg_rom.read(addr)
        } else {
            0
        }
    }

    pub open spec fn write(self, addr: int, value: u8) -> MMC1View {
        if 0x0000 <= addr <= 0x1FFF {
            MMC1View { chr: self.chr.write(addr, value), ..self }
        } else if 0x6000 <= addr <= 0x7FFF {
            if self.prg_ram_enabled() {
                MMC1View { prg_ram: self.prg_ram.write(addr, value), ..self }
            } else {
                self
            }
        } else if 0x8000 <= addr <= 0xFFFF {
            self.serial_write(addr, value)
        } else {
            self
        }
    }
}

impl View for MMC1 {
    type V = MMC1View;

    open spec fn view(&self) -> MMC1View {
        MMC1View {
            prg_ram: self.prg_ram@,
            prg_rom: self.prg_rom@,
            chr: self.chr@,
            mirroring: self.mirroring,
            shift_reg: self.shift_reg,
            control: self.control,
            chr_bank0: self.chr_bank0,
            chr_bank1: self.chr_bank1,
            prg_bank: self.prg_bank,
        }
    }
}

impl Clone for MMC1 {
    fn clone(&self) -> (r: Self)
        ensures
            r@ == self@,
    {
        MMC1 {
            prg_ram: self.prg_ram.clone(),
            prg_rom: self.prg_rom.clone(),
            chr: self.chr.clone(),
            mirroring: self.mirroring,
            shift_reg: self.shift_reg,
            control: self.control,
            chr_bank0: self.chr_bank0,
            chr_bank1: self.chr_bank1,
            prg_bank: self.prg_bank,
        }
    }
}

impl MMC1 {
    pub fn load(cartridge: &Cartridge) -> (r: MapperType)
        ensures
            r@ == MapperView::MMC1(MMC1View::loaded(cartridge)),
    {
        let mut mmc1 = Self {
            prg_ram: if cartridge.header.prg_ram_size == 0 {
                BankableMemory::ram(PRG_RAM_SIZE, PRG_RAM_WINDOW)
            } else {
                BankableMemory::ram(cartridge.header.prg_ram_size, PRG_RAM_WINDOW)
            },
            prg_rom: BankableMemory::rom_from_bytes(cartridge.prg_rom.as_slice(), PRG_ROM_WINDOW),
            chr: match &cartridge.chr_rom {
                Some(chr_rom) => BankableMemory::ram_from_bytes(chr_rom.as_slice(), CHR_WINDOW),
                None => BankableMemory::ram(CHR_SIZE, CHR_WINDOW),
            },
            mirroring: cartridge.header.mirroring_type,
            shift_reg: SHIFT_EMPTY,
            control: 0,
            chr_bank0: 0,
            chr_bank1: 0,
            prg_bank: 0,
        };
        mmc1.prg_ram.add_bank_range(0x6000, 0x7FFF);
        mmc1.prg_rom.add_bank_range(0x8000, 0xFFFF);
        let last = mmc1.prg_rom.last_bank();
        mmc1.prg_rom.set_bank(0xC000, last);
        mmc1.chr.add_bank_range(0x0000, 0x1FFF);
        mmc1.control_write(0b11110);
        MapperType::MMC1(mmc1)
    }

    /// Loads `v` into the control register and lays the windows anew.
    pub fn control_write(&mut self, v: u8)
        ensures
            final(self)@ == old(self)@.control_write(v),
    {
        self.control = v & 0b0001_1111;
        let k: u8 = self.control & 3;
        self.mirroring = if k == 0 {
            MirroringType::SingleScreenA
        } else if k == 1 {
            MirroringType::SingleScreenB
        } else if k == 2 {
            MirroringType::Vertical
        } else {
            MirroringType::Horizontal
        };
        let mode: u8 = self.control & 0xC;
        if mode == 0 || mode == 4 {
            let bank_n: u8 = self.prg_bank & 0b0001_1110;
            self.prg_rom.set_bank(0x8000, bank_n as usize);
            self.prg_rom.set_bank(0xC000, (bank_n | 1) as usize);
        } else if mode == 8 {
            let bank_n: u8 = self.prg_bank & 0b0001_1111;
            self.prg_rom.set_bank(0x8000, 0);
            self.prg_rom.set_bank(0xC000, bank_n as usize);
        } else {
            let bank_n: u8 = self.prg_bank & 0b0001_1111;
            let last = self.prg_rom.last_bank();
            self.prg_rom.set_bank(0x8000, bank_n as usize);
            self.prg_rom.set_bank(0xC000, last);
        }
        if self.control & 0x10 == 0 {
            let bank_n: u8 = self.chr_bank0 & 0b0001_1110;
            self.chr.set_bank(0x0000, bank_n as usize);
            self.chr.set_bank(0x1000, (bank_n | 1) as usize);
        } else {
            let bank_n: u8 = self.chr_bank0 & 0b0001_1111;
            self.chr.set_bank(0x0000, bank_n as usize);
            let bank_n: u8 = self.chr_bank1 & 0b0001_1111;
            self.chr.set_bank(0x1000, bank_n as usize);
        }
    }

    /// Loads `v` into a character bank register and moves its window.
    pub fn chr_bank_write(&mut self, v: u8, bank1: bool)
        ensures
            final(self)@ == old(self)@.chr_bank_write(v, bank1),
    {
        if !bank1 {
            self.chr_bank0 = v & 0b0001_1111;
            if self.control & 0x10 == 0 {
                let bank_n: u8 = self.chr_bank0 & 0b0001_1110;
                self.chr.set_bank(0x0000, bank_n as usize);
                self.chr.set_bank(0x1000, (bank_n | 1) as usize);
            } else {
                self.chr.set_bank(0x0000, self.chr_bank0 as usize);
            }
        } else {
            self.chr_bank1 = v & 0b0001_1111;
            if self.control & 0x10 != 0 {
                self.chr.set_bank(0x1000, self.chr_bank1 as usize);
            }
        }
    }

    /// Loads `v` into the program bank register and moves its window.
    pub fn prg_bank_write(&mut self, v: u8)
        ensures
            final(self)@ == old(self)@.prg_bank_write(v),
    {
        self.prg_bank = v & 0b0001_1111;
        let mode: u8 = self.control & 0xC;
        if mode == 0 || mode == 4 {
            let bank_n: u8 = self.prg_bank & 0b0001_1110;
            self.prg_rom.set_bank(0x8000, bank_n as usize);
            self.prg_rom.set_bank(0xC000, (bank_n | 1) as usize);
        } else if mode == 8 {
            self.prg_rom.set_bank(0xC000, self.prg_bank as usize);
        } else {
            self.prg_rom.set_bank(0x8000, self.prg_bank as usize);
        }
    }

    /// The byte at a cartridge address, without the `&mut` that the bus
    /// trait asks for.
    pub fn peek(&self, addr: usize) -> (value: u8)
        ensures
            value == self@.read(addr as int),
    {
        if addr <= 0x1FFF {
            self.chr.peek(addr)
        } else if 0x6000 <= addr && addr <= 0x7FFF {
            if self.prg_bank & 0b10000 == 0 {
                self.prg_ram.peek(addr)
            } else {
                0
            }
        } else if 0x8000 <= addr && addr <= 0xFFFF {
            self.prg_rom.peek(addr)
        } else {
            0
        }
    }
}

impl MemRead for MMC1 {
    fn read(&mut self, addr: usize) -> (value: u8)
        ensures
            value == old(self)@.read(addr as int),
            *final(self) == *old(self),
    {
        self.peek(addr)
    }
}

impl MemWrite for MMC1 {
    fn write(&mut self, addr: usize, value: u8)
        ensures
            final(self)@ == old(self)@.write(addr as int, value),
    {
        if addr <= 0x1FFF {
            self.chr.write(addr, value);
        } else if 0x6000 <= addr && addr <= 0x7FFF {
            if self.prg_bank & 0b10000 == 0 {
                self.prg_ram.write(addr, value);
            }
        } else if 0x8000 <= addr && addr <= 0xFFFF {
            if value & 0b1000_0000 != 0 {
                self.shift_reg = SHIFT_EMPTY;
                self.control_write(self.control | 0xC);
            } else if self.shift_reg & 1 == 1 {
                let v: u8 = (self.shift_reg >> 1) | ((value & 1) << 4);
                let sel: usize = addr & 0xE000;
                if sel == 0x8000 {
                    self.control_write(v);
                } else if sel == 0xA000 {
                    self.chr_bank_write(v, false);
                } else if sel == 0xC000 {
                    self.chr_bank_write(v, true);
                } else {
                    self.prg_bank_write(v);
                }
                self.shift_reg = SHIFT_EMPTY;
            } else {
                self.shift_reg = (self.shift_reg >> 1) | ((value & 1) << 4);
            }
        }
    }
}

impl Mapper for MMC1 {
    fn irq_pending(&mut self) -> (pending: bool)
        ensures
            !pending,
            *final(self) == *old(self),
    {
        false
    }

    fn mirroring(&self) -> (m: MirroringType)
        ensures
            m == self@.mirroring,
    {
        self.mirroring
    }

    fn battery_backed(&self) -> (b: bool)
        ensures
            !b,
    {
        false
    }

    fn use_ciram(&self, addr: usize) -> (b: bool)
        ensures
            b,
    {
        true
    }

    fn nametable_page(&self, addr: usize) -> (page: usize)
        ensures
            page == 0,
    {
        0
    }
}

} // verus!
