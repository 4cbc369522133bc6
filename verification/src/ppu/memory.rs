//! The picture unit's memories and the registers that the CPU reaches
//! them through: control, mask and status, the scroll latches `v`, `t`,
//! `x` and `w`, the sprite memory, the nametable memory and the palette.

use vstd::prelude::*;
use crate::mapper::{MapperType, MapperView, MirroringType};
use crate::memory::{zeros, MemRead, MemWrite, Memory, MemoryView};

verus! {

pub const NAMETABLE_ADDR: u16 = 0x2000;

pub const PPUCTRL_CPU_ADDR: u16 = 0x2000;

pub const PPUMASK_CPU_ADDR: u16 = 0x2001;

pub const PPUSTATUS_CPU_ADDR: u16 = 0x2002;

pub const OAMADDR_CPU_ADDR: u16 = 0x2003;

pub const OAMDATA_CPU_ADDR: u16 = 0x2004;

pub const PPUSCROLL_CPU_ADDR: u16 = 0x2005;

pub const PPUADDR_CPU_ADDR: u16 = 0x2006;

pub const PPUDATA_CPU_ADDR: u16 = 0x2007;

pub const OAMDMA_CPU_ADDR: u16 = 0x4014;

/// The size of the nametable memory: room for four nametables.
pub const VRAM_SIZE: usize = 0x1000;

/// The size of the sprite memory: 64 sprites of 4 bytes.
pub const OAM_SIZE: usize = 256;

/// The size of the palette memory.
pub const PALETTE_SIZE: usize = 0x20;

/// One sprite as the sprite memory describes it.
#[derive(Debug, Copy, Clone)]
pub struct Oam {
    pub y: u8,
    pub tile: u8,
    pub attr: u8,
    pub x: u8,
    pub is_sprite0: bool,
}

impl Oam {
    /// A free slot: every byte 0xFF.
    pub open spec fn free() -> Oam {
        Oam { y: 0xFF, tile: 0xFF, attr: 0xFF, x: 0xFF, is_sprite0: false }
    }

    pub fn new() -> (r: Self)
        ensures
            r == Self::free(),
    {
        Self { y: 0xFF, tile: 0xFF, attr: 0xFF, x: 0xFF, is_sprite0: false }
    }
}

#[derive(Debug)]
pub struct PPUMemory {
    pub ctrl: u8,
    pub mask: u8,
    pub status: u8,
    pub v: u16,
    pub t: u16,
    pub x: u8,
    pub w: bool,
    pub open_bus: u8,
    pub oam_addr: u8,
    pub oam_dma: u8,
    pub vram: Memory,
    pub oam: Memory,
    pub palette: Memory,
    /// Whether the control register lets the vertical blank raise an
    /// interrupt.
    pub nmi_output: bool,
    /// Whether a vertical blank has begun that the CPU has not yet
    /// answered.
    pub nmi_pending: bool,
    pub mirroring_type: MirroringType,
}

/// What the picture unit's memories and registers hold.
pub struct PPUMemoryView {
    pub ctrl: u8,
    pub mask: u8,
    pub status: u8,
    pub v: u16,
    pub t: u16,
    pub x: u8,
    pub w: bool,
    pub open_bus: u8,
    pub oam_addr: u8,
    pub oam_dma: u8,
    pub vram: MemoryView,
    pub oam: MemoryView,
    pub palette: MemoryView,
    pub nmi_output: bool,
    pub nmi_pending: bool,
    pub mirroring_type: MirroringType,
}

impl View for PPUMemory {
    type V = PPUMemoryView;

    open spec fn view(&self) -> PPUMemoryView {
        PPUMemoryView {
            ctrl: self.ctrl,
            mask: self.mask,
            status: self.status,
            v: self.v,
            t: self.t,
            x: self.x,
            w: self.w,
            open_bus: self.open_bus,
            oam_addr: self.oam_addr,
            oam_dma: self.oam_dma,
            vram: self.vram@,
            oam: self.oam@,
            palette: self.palette@,
            nmi_output: self.nmi_output,
            nmi_pending: self.nmi_pending,
            mirroring_type: self.mirroring_type,
        }
    }
}

impl Clone for PPUMemory {
    fn clone(&self) -> (r: Self)
        ensures
            r@ == self@,
    {
        PPUMemory {
            ctrl: self.ctrl,
            mask: self.mask,
            status: self.status,
            v: self.v,
            t: self.t,
            x: self.x,
            w: self.w,
            open_bus: self.open_bus,
            oam_addr: self.oam_addr,
            oam_dma: self.oam_dma,
            vram: self.vram.clone(),
            oam: self.oam.clone(),
            palette: self.palette.clone(),
            nmi_output: self.nmi_output,
            nmi_pending: self.nmi_pending,
            mirroring_type: self.mirroring_type,
        }
    }
}

/// A status byte with one of its bits set or cleared.
pub open spec fn with_bit(status: u8, bit_mask: u8, on: bool) -> u8 {
    if on {
        status | bit_mask
    } else {
        status & !bit_mask
    }
}

/// The place in the nametable memory that a nametable address folds to
/// under a mirroring. An address outside the nametables and their mirror
/// (0x2000-0x3EFF) is given back as it is.
pub open spec fn fold_nametable(mirroring: MirroringType, addr: usize) -> usize {
    if 0x2000 <= addr <= 0x3EFF {
        let a: usize = if addr <= 0x2FFF {
            (addr - 0x2000) as usize
        } else {
            (addr - 0x3000) as usize
        };
        match mirroring {
            MirroringType::Vertical => a % 0x800,
            MirroringType::Horizontal => if (a >= 0x400 && a < 0x800) || a >= 0xC00 {
                (a - 0x400) as usize
            } else {
                a
            },
            MirroringType::FourScreen => a,
            MirroringType::SingleScreenA => a % 0x400,
            MirroringType::SingleScreenB => ((a % 0x400) + 0x400) as usize,
        }
    } else {
        addr
    }
}

/// The palette cell that a palette address (0x3F00-0x3FFF) names: the low
/// five bits of the address, with cells 0x10, 0x14, 0x18 and 0x1C standing
/// for cells 0x00, 0x04, 0x08 and 0x0C.
pub open spec fn palette_cell(addr: usize) -> usize {
    let i = addr & 0x1F;
    if i == 0x10 || i == 0x14 || i == 0x18 || i == 0x1C {
        (i - 0x10) as usize
    } else {
        i
    }
}

/// The step of the video address after an access through the data
/// register: 32 where bit 2 of the control register is set, else 1.
pub open spec fn vram_step(ctrl: u8) -> u16 {
    if ctrl & 0b0000_0100 != 0 {
        32
    } else {
        1
    }
}

impl PPUMemoryView {
    /// The registers and memories at power-on.
    pub open spec fn power_on() -> PPUMemoryView {
        PPUMemoryView {
            ctrl: 0,
            mask: 0,
            status: 0,
            v: 0,
            t: 0,
            x: 0,
            w: false,
            open_bus: 0,
            oam_addr: 0,
            oam_dma: 0,
            vram: MemoryView { data: zeros(VRAM_SIZE as nat), writable: true },
            oam: MemoryView { data: zeros(OAM_SIZE as nat), writable: true },
            palette: MemoryView { data: zeros(PALETTE_SIZE as nat), writable: true },
            nmi_output: false,
            nmi_pending: false,
            mirroring_type: MirroringType::Horizontal,
        }
    }

    /// The state after the vertical-blank flag (bit 7 of the status) is set
    /// or cleared. Setting it leaves an interrupt request for the CPU;
    /// clearing it withdraws the request.
    pub open spec fn set_interupt(self, bit: bool) -> PPUMemoryView {
        PPUMemoryView {
            status: with_bit(self.status, 0b1000_0000, bit),
            nmi_pending: bit,
            ..self
        }
    }

    /// The state after the sprite-overflow flag (bit 5 of the status) is
    /// set or cleared.
    pub open spec fn set_sprite_overflow(self, bit: bool) -> PPUMemoryView {
        PPUMemoryView { status: with_bit(self.status, 0b0010_0000, bit), ..self }
    }

    /// The state after the sprite-0-hit flag (bit 6 of the status) is set
    /// or cleared.
    pub open spec fn set_sprite_0hit(self, bit: bool) -> PPUMemoryView {
        PPUMemoryView { status: with_bit(self.status, 0b0100_0000, bit), ..self }
    }

    /// The state after the CPU has answered the interrupt request.
    pub open spec fn nmi(self) -> PPUMemoryView {
        PPUMemoryView { nmi_pending: false, ..self }
    }

    /// The state after one byte of a sprite DMA: the byte goes to the sprite
    /// memory at the sprite address, which then steps by one.
    pub open spec fn oam_dma_write(self, value: u8) -> PPUMemoryView {
        PPUMemoryView {
            oam: self.oam.write(self.oam_addr as int, value),
            oam_addr: self.oam_addr.wrapping_add(1),
            ..self
        }
    }

    /// Byte `offset` of sprite `n` modulo 64.
    pub open spec fn oam_read(self, n: int, offset: int) -> u8 {
        self.oam.read((n % 64) * 4 + offset)
    }

    /// The byte at an address of the picture unit's address space: pattern
    /// tables from the cartridge, nametables folded by the mirroring, the
    /// palette; 0 beyond 0x3FFF.
    pub open spec fn ppu_read(self, mapper: MapperView, addr: usize) -> u8 {
        if addr <= 0x1FFF {
            mapper.read(addr as int)
        } else if addr <= 0x3EFF {
            self.vram.read(fold_nametable(self.mirroring_type, addr) as int)
        } else if addr <= 0x3FFF {
            self.palette.read(palette_cell(addr) as int)
        } else {
            0
        }
    }

    /// The state and the mapper after a write at an address of the picture
    /// unit's address space; a write beyond 0x3FFF is dropped.
    pub open spec fn ppu_write(self, mapper: MapperView, addr: usize, value: u8) -> (
        PPUMemoryView,
        MapperView,
    ) {
        if addr <= 0x1FFF {
            (self, mapper.write(addr as int, value))
        } else if addr <= 0x3EFF {
            (
                PPUMemoryView {
                    vram: self.vram.write(fold_nametable(self.mirroring_type, addr) as int, value),
                    ..self
                },
                mapper,
            )
        } else if addr <= 0x3FFF {
            (
                PPUMemoryView {
                    palette: self.palette.write(palette_cell(addr) as int, value),
                    ..self
                },
                mapper,
            )
        } else {
            (self, mapper)
        }
    }

    /// What the CPU reads from a register, and the state after the read.
    /// Reading the status gives it as it stands, then clears the
    /// vertical-blank flag and the write toggle. Reading the sprite data
    /// gives the sprite byte at the sprite address. Reading the data
    /// register gives the byte at the video address, which then steps.
    /// Any other address reads 0.
    pub open spec fn read(self, mapper: MapperView, addr: usize) -> (u8, PPUMemoryView) {
        if addr == 0x2002 {
            (
                self.status,
                PPUMemoryView { w: false, status: self.status & 0b0111_1111, ..self },
            )
        } else if addr == 0x2004 {
            (self.oam.read(self.oam_addr as int), self)
        } else if addr == 0x2007 {
            (
                self.ppu_read(mapper, (self.v & 0x3FFF) as usize),
                PPUMemoryView {
                    v: self.v.wrapping_add(vram_step(self.ctrl)) & 0x7FFF,
                    ..self
                },
            )
        } else {
            (0u8, self)
        }
    }

    /// The state after a write to the scroll register: the first write of a
    /// pair sets fine X and the coarse X of `t`, the second the fine and
    /// coarse Y of `t`.
    pub open spec fn write_scroll(self, value: u8) -> PPUMemoryView {
        if self.w {
            PPUMemoryView {
                t: (self.t & 0b0000_1100_0001_1111) | (((value & 0b0000_0111) as u16) << 12) | (((
                value & 0b0011_1000) as u16) << 2) | (((value & 0b1100_0000) as u16) << 2),
                w: false,
                ..self
            }
        } else {
            PPUMemoryView {
                x: value & 0b0000_0111,
                t: (self.t & 0b0111_1111_1110_0000) | (((value & 0b1111_1000) >> 3) as u16),
                w: true,
                ..self
            }
        }
    }

    /// The state after a write to the address register: the first write of
    /// a pair sets the upper six bits of `t` and clears its bit 14, the
    /// second sets the lower byte and copies `t` to `v`.
    pub open spec fn write_addr(self, value: u8) -> PPUMemoryView {
        if !self.w {
            PPUMemoryView {
                t: (self.t & 0b0000_0000_1111_1111) | (((value & 0b0011_1111) as u16) << 8),
                w: true,
                ..self
            }
        } else {
            let t = (self.t & 0b0111_1111_0000_0000) | (value as u16);
            PPUMemoryView { t, v: t, w: false, ..self }
        }
    }

    /// The state and the mapper after the CPU writes a register, before the
    /// written value's low bits are left in the status.
    pub open spec fn write_register(self, mapper: MapperView, addr: usize, value: u8) -> (
        PPUMemoryView,
        MapperView,
    ) {
        if addr == 0x2000 {
            (
                PPUMemoryView {
                    ctrl: value & 0b1111_1100,
                    nmi_output: value & 0b1000_0000 != 0,
                    t: (self.t & 0b1111_0011_1111_1111) | (((value & 0b0000_0011) as u16) << 10),
                    ..self
                },
                mapper,
            )
        } else if addr == 0x2001 {
            (PPUMemoryView { mask: value, ..self }, mapper)
        } else if addr == 0x2003 {
            (PPUMemoryView { oam_addr: value, ..self }, mapper)
        } else if addr == 0x2004 {
            (self.oam_dma_write(value), mapper)
        } else if addr == 0x2005 {
            (self.write_scroll(value), mapper)
        } else if addr == 0x2006 {
            (self.write_addr(value), mapper)
        } else if addr == 0x2007 {
            let (m, mp) = self.ppu_write(mapper, (self.v & 0x3FFF) as usize, value);
            (PPUMemoryView { v: self.v.wrapping_add(vram_step(self.ctrl)) & 0x7FFF, ..m }, mp)
        } else {
            (self, mapper)
        }
    }

    /// The state and the mapper after the CPU writes a register. Whatever
    /// the address, the low five bits of the value are left in the status.
    pub open spec fn write(self, mapper: MapperView, addr: usize, value: u8) -> (
        PPUMemoryView,
        MapperView,
    ) {
        let (m, mp) = self.write_register(mapper, addr, value);
        (PPUMemoryView { status: m.status | (value & 0b0001_1111), ..m }, mp)
    }
}

impl PPUMemory {
    pub fn new() -> (r: Self)
        ensures
            r@ == PPUMemoryView::power_on(),
    {
        Self {
            ctrl: 0x00,
            mask: 0x00,
            status: 0x00,
            v: 0,
            t: 0,
            x: 0x00,
            w: false,
            open_bus: 0,
            oam_addr: 0,
            oam_dma: 0,
            vram: Memory::ram(VRAM_SIZE),
            oam: Memory::ram(OAM_SIZE),
            palette: Memory::ram(PALETTE_SIZE),
            nmi_output: false,
            nmi_pending: false,
            mirroring_type: MirroringType::Horizontal,
        }
    }

    pub fn read_ctrl(&self) -> (r: u8)
        ensures
            r == self@.ctrl,
    {
        self.ctrl
    }

    pub fn read_mask(&self) -> (r: u8)
        ensures
            r == self@.mask,
    {
        self.mask
    }

    /// The status as it stands; nothing is cleared.
    pub fn read_status(&self) -> (r: u8)
        ensures
            r == self@.status,
    {
        self.status
    }

    /// Answers the interrupt request.
    pub fn nmi(&mut self)
        ensures
            final(self)@ == old(self)@.nmi(),
    {
        self.nmi_pending = false;
    }

    pub fn set_interupt(&mut self, bit: bool)
        ensures
            final(self)@ == old(self)@.set_interupt(bit),
    {
        if bit {
            self.status = self.status | 0b1000_0000;
        } else {
            self.status = self.status & !0b1000_0000u8;
        }
        self.nmi_pending = bit;
    }

    pub fn set_sprite_overflow(&mut self, bit: bool)
        ensures
            final(self)@ == old(self)@.set_sprite_overflow(bit),
    {
        if bit {
            self.status = self.status | 0b0010_0000;
        } else {
            self.status = self.status & !0b0010_0000u8;
        }
    }

    pub fn set_sprite_0hit(&mut self, bit: bool)
        ensures
            final(self)@ == old(self)@.set_sprite_0hit(bit),
    {
        if bit {
            self.status = self.status | 0b0100_0000;
        } else {
            self.status = self.status & !0b0100_0000u8;
        }
    }

    pub fn get_nmi_output(&self) -> (r: bool)
        ensures
            r == self@.nmi_output,
    {
        self.nmi_output
    }

    /// Whether an interrupt request waits for the CPU.
    pub fn get_nmi_pending(&self) -> (r: bool)
        ensures
            r == self@.nmi_pending,
    {
        self.nmi_pending
    }

    pub fn oam_dma_write(&mut self, value: u8)
        ensures
            final(self)@ == old(self)@.oam_dma_write(value),
    {
        self.oam.write(self.oam_addr as usize, value);
        self.oam_addr = self.oam_addr.wrapping_add(1);
    }

    /// Takes the nametable mirroring that the mapper selects.
    pub fn set_mirroring(&mut self, mirroring_type: MirroringType)
        ensures
            final(self)@ == (PPUMemoryView { mirroring_type, ..old(self)@ }),
    {
        self.mirroring_type = mirroring_type;
    }

    pub fn mirroring(&self, addr: usize) -> (r: usize)
        ensures
            r == fold_nametable(self@.mirroring_type, addr),
    {
        if 0x2000 <= addr && addr <= 0x3EFF {
            let a: usize = if addr <= 0x2FFF {
                addr - 0x2000
            } else {
                addr - 0x3000
            };
            match self.mirroring_type {
                MirroringType::Vertical => a % 0x800,
                MirroringType::Horizontal => if (a >= 0x400 && a < 0x800) || a >= 0xC00 {
                    a - 0x400
                } else {
                    a
                },
                MirroringType::FourScreen => a,
                MirroringType::SingleScreenA => a % 0x400,
                MirroringType::SingleScreenB => (a % 0x400) + 0x400,
            }
        } else {
            addr
        }
    }

    /// The palette cell that a palette address names.
    pub fn palette_index(addr: usize) -> (r: usize)
        ensures
            r == palette_cell(addr),
    {
        let i: usize = addr & 0x1F;
        if i == 0x10 || i == 0x14 || i == 0x18 || i == 0x1C {
            i - 0x10
        } else {
            i
        }
    }

    /// What the CPU reads from a register.
    pub fn read(&mut self, mapper: &mut MapperType, addr: usize) -> (value: u8)
        ensures
            (value, final(self)@) == old(self)@.read(old(mapper)@, addr),
            *final(mapper) == *old(mapper),
    {
        if addr == 0x2002 {
            self.w = false;
            let v: u8 = self.status;
            self.status = self.status & 0b0111_1111;
            v
        } else if addr == 0x2004 {
            self.oam.peek(self.oam_addr as usize)
        } else if addr == 0x2007 {
            let value: u8 = self.ppu_read(mapper, (self.v & 0x3FFF) as usize);
            let step: u16 = if self.ctrl & 0b0000_0100 != 0 {
                32
            } else {
                1
            };
            self.v = self.v.wrapping_add(step) & 0x7FFF;
            value
        } else {
            0
        }
    }

    /// Takes a write of the CPU to a register.
    pub fn write(&mut self, mapper: &mut MapperType, addr: usize, value: u8)
        ensures
            (final(self)@, final(mapper)@) == old(self)@.write(old(mapper)@, addr, value),
    {
        if addr == 0x2000 {
            self.ctrl = value & 0b1111_1100;
            self.nmi_output = value & 0b1000_0000 != 0;
            self.t = (self.t & 0b1111_0011_1111_1111) | (((value & 0b0000_0011) as u16) << 10);
        } else if addr == 0x2001 {
            self.mask = value;
        } else if addr == 0x2003 {
            self.oam_addr = value;
        } else if addr == 0x2004 {
            self.oam_dma_write(value);
        } else if addr == 0x2005 {
            if self.w {
                self.t = (self.t & 0b0000_1100_0001_1111) | (((value & 0b0000_0111) as u16) << 12)
                    | (((value & 0b0011_1000) as u16) << 2) | (((value & 0b1100_0000) as u16) << 2);
            } else {
                self.x = value & 0b0000_0111;
                self.t = (self.t & 0b0111_1111_1110_0000) | (((value & 0b1111_1000) >> 3) as u16);
            }
            self.w = !self.w;
        } else if addr == 0x2006 {
            if !self.w {
                self.t = (self.t & 0b0000_0000_1111_1111) | (((value & 0b0011_1111) as u16) << 8);
            } else {
                self.t = (self.t & 0b0111_1111_0000_0000) | (value as u16);
                self.v = self.t;
            }
            self.w = !self.w;
        } else if addr == 0x2007 {
            let step: u16 = if self.ctrl & 0b0000_0100 != 0 {
                32
            } else {
                1
            };
            self.ppu_write(mapper, (self.v & 0x3FFF) as usize, value);
            self.v = self.v.wrapping_add(step) & 0x7FFF;
        }
        self.status = self.status | (value & 0b0001_1111);
    }

    /// Byte `offset` of sprite `n` modulo 64.
    pub fn oam_read(&self, n: usize, offset: usize) -> (value: u8)
        requires
            offset <= usize::MAX - 252,
        ensures
            value == self@.oam_read(n as int, offset as int),
    {
        let addr: usize = (n % 64) * 4 + offset;
        self.oam.peek(addr)
    }

    /// The byte at an address of the picture unit's address space.
    pub fn ppu_read(&self, mapper: &MapperType, addr: usize) -> (value: u8)
        ensures
            value == self@.ppu_read(mapper@, addr),
    {
        if addr <= 0x1FFF {
            mapper.peek(addr)
        } else if addr <= 0x3EFF {
            self.vram.peek(self.mirroring(addr))
        } else if addr <= 0x3FFF {
            self.palette.peek(Self::palette_index(addr))
        } else {
            0
        }
    }

    /// Takes a write at an address of the picture unit's address space.
    pub fn ppu_write(&mut self, mapper: &mut MapperType, addr: usize, value: u8)
        ensures
            (final(self)@, final(mapper)@) == old(self)@.ppu_write(old(mapper)@, addr, value),
    {
        if addr <= 0x1FFF {
            mapper.write(addr, value);
        } else if addr <= 0x3EFF {
            let a: usize = self.mirroring(addr);
            self.vram.write(a, value);
        } else if addr <= 0x3FFF {
            self.palette.write(Self::palette_index(addr), value);
        }
    }
}

} // verus!

verus! {

/// The palette cells of the four mirrored addresses: 0x3F10, 0x3F14,
/// 0x3F18 and 0x3F1C name the cells of 0x3F00, 0x3F04, 0x3F08 and 0x3F0C.
pub proof fn lemma_palette_cells()
    ensures
        palette_cell(0x3F10) == palette_cell(0x3F00) == 0x00,
        palette_cell(0x3F14) == palette_cell(0x3F04) == 0x04,
        palette_cell(0x3F18) == palette_cell(0x3F08) == 0x08,
        palette_cell(0x3F1C) == palette_cell(0x3F0C) == 0x0C,
{
    assert(0x3F10usize & 0x1F == 0x10 && 0x3F00usize & 0x1F == 0x00 && 0x3F14usize & 0x1F == 0x14
        && 0x3F04usize & 0x1F == 0x04 && 0x3F18usize & 0x1F == 0x18 && 0x3F08usize & 0x1F == 0x08
        && 0x3F1Cusize & 0x1F == 0x1C && 0x3F0Cusize & 0x1F == 0x0C) by (bit_vector);
}

/// A palette address names one of the 32 cells.
pub proof fn lemma_palette_cell_bound(addr: usize)
    ensures
        palette_cell(addr) < 32,
{
    assert(addr & 0x1F < 32) by (bit_vector);
}

/// The palette is written through its aliases: a byte written at a palette
/// address is read back at every palette address that names the same cell.
pub proof fn lemma_palette_alias(
    m: PPUMemoryView,
    mapper: MapperView,
    written: usize,
    read: usize,
    value: u8,
)
    requires
        m.palette.data.len() == PALETTE_SIZE,
        m.palette.writable,
        0x3F00 <= written <= 0x3FFF,
        0x3F00 <= read <= 0x3FFF,
        palette_cell(written) == palette_cell(read),
    ensures
        ({
            let (m1, mapper1) = m.ppu_write(mapper, written, value);
            m1.ppu_read(mapper1, read) == value
        }),
{
    lemma_palette_cell_bound(written);
}

/// A write at 0x3F10, 0x3F14, 0x3F18 or 0x3F1C is seen 0x10 below, and a
/// write there is seen at the mirror.
pub proof fn lemma_palette_mirrors(m: PPUMemoryView, mapper: MapperView, mirror: usize, value: u8)
    requires
        m.palette.data.len() == PALETTE_SIZE,
        m.palette.writable,
        mirror == 0x3F10 || mirror == 0x3F14 || mirror == 0x3F18 || mirror == 0x3F1C,
    ensures
        m.ppu_write(mapper, mirror, value).0.ppu_read(mapper, (mirror - 0x10) as usize) == value,
        m.ppu_write(mapper, (mirror - 0x10) as usize, value).0.ppu_read(mapper, mirror) == value,
{
    lemma_palette_cells();
    lemma_palette_alias(m, mapper, mirror, (mirror - 0x10) as usize, value);
    lemma_palette_alias(m, mapper, (mirror - 0x10) as usize, mirror, value);
}

/// Reading the status gives it as it stood and leaves the vertical-blank
/// flag and the write toggle cleared, from whatever state: at power-on,
/// after a reset, or later. The other bits of the status and the other
/// registers stay.
pub proof fn lemma_status_read(m: PPUMemoryView, mapper: MapperView)
    ensures
        ({
            let (value, m1) = m.read(mapper, 0x2002);
            &&& value == m.status
            &&& m1.status & 0b1000_0000 == 0
            &&& m1.status & 0b0111_1111 == m.status & 0b0111_1111
            &&& !m1.w
            &&& m1 == (PPUMemoryView { status: m1.status, w: false, ..m })
        }),
{
    let s = m.status;
    assert((s & 0b0111_1111) & 0b1000_0000 == 0 && (s & 0b0111_1111) & 0b0111_1111 == s
        & 0b0111_1111) by (bit_vector);
}

} // verus!
