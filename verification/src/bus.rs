//! The bus: it owns the work RAM, the cartridge mapper, the registers of
//! the picture and sound units and the controller, and routes every read
//! and write of the CPU by its address.

use vstd::prelude::*;
use crate::apu::memory::APUMemory;
use crate::apu::mixer::{Mixer, MixerView};
use crate::controller::basic::NesController;
use crate::controller::Controller;
use crate::mapper::{Mapper, MapperType, MapperView};
use crate::memory::{zeros, MemRead, MemWrite, Memory, MemoryView};
use crate::ppu::memory::{PPUMemory, PPUMemoryView};
use crate::save_state::{SaveState, SaveStateView};

verus! {

/// The size of the work RAM.
pub const WRAM_SIZE: usize = 0x0800;

pub struct Bus {
    pub wram: Memory,
    pub mapper: MapperType,
    pub ppu_mem: PPUMemory,
    pub apu_mem: APUMemory,
    /// The sprite DMA: whether one is under way, the page it copies, and
    /// the index of the next byte.
    pub oam_dma: (bool, u8, u8),
    pub input: NesController,
    pub mixer: Mixer,
}

/// What stands on the bus.
pub struct BusView {
    pub wram: MemoryView,
    pub mapper: MapperView,
    pub ppu_mem: PPUMemoryView,
    pub apu_mem: APUMemory,
    pub oam_dma: (bool, u8, u8),
    pub input: NesController,
    pub mixer: MixerView,
}

impl View for Bus {
    type V = BusView;

    open spec fn view(&self) -> BusView {
        BusView {
            wram: self.wram@,
            mapper: self.mapper@,
            ppu_mem: self.ppu_mem@,
            apu_mem: self.apu_mem,
            oam_dma: self.oam_dma,
            input: self.input,
            mixer: self.mixer@,
        }
    }
}

impl BusView {
    /// A bus as built: zeroed work RAM, an empty cartridge slot, registers
    /// at power-on, no DMA under way.
    pub open spec fn power_on(input: NesController, mixer: MixerView) -> BusView {
        BusView {
            wram: MemoryView { data: zeros(WRAM_SIZE as nat), writable: true },
            mapper: MapperView::NullMapper,
            ppu_mem: PPUMemoryView::power_on(),
            apu_mem: APUMemory::power_on(),
            oam_dma: (false, 0, 0),
            input,
            mixer,
        }
    }

    /// The work RAM has its 2 KiB and takes writes.
    pub open spec fn wf(self) -> bool {
        self.wram.data.len() == WRAM_SIZE && self.wram.writable
    }

    /// The bus after a cartridge is put in: its mapper is on the bus and
    /// the picture unit has the mapper's mirroring.
    pub open spec fn load_mapper(self, mapper: MapperView) -> BusView {
        BusView {
            mapper,
            ppu_mem: PPUMemoryView { mirroring_type: mapper.mirroring(), ..self.ppu_mem },
            ..self
        }
    }

    /// What the CPU reads at `addr`, and the bus after the read.
    ///
    /// | addresses       | answered by                                   |
    /// |-----------------|-----------------------------------------------|
    /// | 0x0000-0x1FFF   | work RAM, mirrored every 2 KiB                |
    /// | 0x2000-0x3FFF   | picture unit registers, mirrored every 8      |
    /// | 0x4014          | nothing: 0                                    |
    /// | 0x4016, 0x4017  | controller                                    |
    /// | 0x4000-0x4015   | sound unit                                    |
    /// | 0x4020-0xFFFF   | cartridge                                     |
    /// | any other       | nothing: 0                                    |
    #[verifier::opaque]
    pub open spec fn read(self, addr: usize) -> (u8, BusView) {
        if addr <= 0x1FFF {
            (self.wram.read(addr as int), self)
        } else if addr <= 0x3FFF {
            let (value, ppu_mem) = self.ppu_mem.read(self.mapper, addr & 0x2007);
            (value, BusView { ppu_mem, ..self })
        } else if addr == 0x4014 {
            (0u8, self)
        } else if addr == 0x4016 || addr == 0x4017 {
            let (value, input) = self.input.spec_read(addr as int);
            (value, BusView { input, ..self })
        } else if addr <= 0x4015 {
            (self.apu_mem.spec_read(addr), self)
        } else if 0x4020 <= addr <= 0xFFFF {
            (self.mapper.read(addr as int), self)
        } else {
            (0u8, self)
        }
    }

    /// The bus after the CPU writes `value` at `addr`. A write at 0x4014
    /// starts a sprite DMA from page `value`; 0x4016 goes to the
    /// controller, 0x4017 to the sound unit; the other addresses go where
    /// reads go, and a write that no device answers is dropped.
    #[verifier::opaque]
    pub open spec fn write(self, addr: usize, value: u8) -> BusView {
        if addr <= 0x1FFF {
            BusView { wram: self.wram.write(addr as int, value), ..self }
        } else if addr <= 0x3FFF {
            let (ppu_mem, mapper) = self.ppu_mem.write(self.mapper, addr & 0x2007, value);
            BusView { ppu_mem, mapper, ..self }
        } else if addr == 0x4014 {
            BusView { oam_dma: (true, value, 0u8), ..self }
        } else if addr == 0x4016 {
            BusView { input: self.input.spec_write(addr as int, value), ..self }
        } else if addr <= 0x4017 {
            BusView { apu_mem: self.apu_mem.spec_write(addr, value), ..self }
        } else if 0x4020 <= addr <= 0xFFFF {
            BusView { mapper: self.mapper.write(addr as int, value), ..self }
        } else {
            self
        }
    }

    /// The snapshot of the bus: its work RAM, its mapper and the picture
    /// unit's memories and registers. The CPU registers are left as at
    /// power-on, for the CPU's owner to fill in.
    pub open spec fn save_state(self) -> SaveStateView {
        SaveStateView { wram: self.wram, mapper: self.mapper, ppu_mem: self.ppu_mem, ..SaveStateView::empty() }
    }

    /// The bus after the parts that a snapshot holds are put back.
    pub open spec fn load_state(self, state: SaveStateView) -> BusView {
        BusView { wram: state.wram, mapper: state.mapper, ppu_mem: state.ppu_mem, ..self }
    }

    /// What the picture unit reads at an address of its own address space.
    pub open spec fn ppu_read(self, addr: usize) -> u8 {
        self.ppu_mem.ppu_read(self.mapper, addr)
    }

    /// The bus after the picture unit writes at an address of its own
    /// address space.
    pub open spec fn ppu_write(self, addr: usize, value: u8) -> BusView {
        let (ppu_mem, mapper) = self.ppu_mem.ppu_write(self.mapper, addr, value);
        BusView { ppu_mem, mapper, ..self }
    }

    /// The CPU address that the next byte of the sprite DMA comes from.
    pub open spec fn oam_dma_addr(self) -> usize {
        (((self.oam_dma.1 as u16) << 8) | (self.oam_dma.2 as u16)) as usize
    }

    /// Whether the DMA goes on, and the bus after one byte of it: the byte
    /// is read over the bus and put into the sprite memory; behind the
    /// 256th byte the DMA ends.
    #[verifier::opaque]
    pub open spec fn oam_dma_tick(self) -> (bool, BusView) {
        let (value, b) = self.read(self.oam_dma_addr());
        let ppu_mem = b.ppu_mem.oam_dma_write(value);
        if self.oam_dma.2 == 0xFF {
            (false, BusView { ppu_mem, oam_dma: (false, self.oam_dma.1, self.oam_dma.2), ..b })
        } else {
            (
                self.oam_dma.0,
                BusView {
                    ppu_mem,
                    oam_dma: (self.oam_dma.0, self.oam_dma.1, (self.oam_dma.2 + 1) as u8),
                    ..b
                },
            )
        }
    }
}

impl Bus {
    pub fn new(input: NesController, mixer: Mixer) -> (r: Self)
        ensures
            r@ == BusView::power_on(input, mixer@),
            r@.wf(),
    {
        Self {
            wram: Memory::ram(WRAM_SIZE),
            ppu_mem: PPUMemory::new(),
            apu_mem: APUMemory::new(),
            mapper: crate::mapper::null(),
            oam_dma: (false, 0, 0),
            input,
            mixer,
        }
    }

    pub fn load_mapper(&mut self, mapper: MapperType)
        ensures
            final(self)@ == old(self)@.load_mapper(mapper@),
    {
        self.mapper = mapper;
        let m = self.mapper.mirroring();
        self.ppu_mem.set_mirroring(m);
    }

    /// Whether a sprite DMA is under way.
    pub fn get_oam_dma_state(&self) -> (active: bool)
        ensures
            active == self@.oam_dma.0,
    {
        self.oam_dma.0
    }

    pub fn save_state(&self) -> (state: SaveState)
        ensures
            state@ == self@.save_state(),
    {
        let mut state = SaveState::new();
        state.wram = self.wram.clone();
        state.ppu_mem = self.ppu_mem.clone();
        state.mapper = self.mapper.clone();
        state
    }

    pub fn load_state(&mut self, state: &SaveState)
        ensures
            final(self)@ == old(self)@.load_state(state@),
    {
        self.wram = state.wram.clone();
        self.ppu_mem = state.ppu_mem.clone();
        self.mapper = state.mapper.clone();
    }

    /// Copies one byte of the sprite DMA.
    pub fn oam_dma_tick(&mut self) -> (active: bool)
        ensures
            (active, final(self)@) == old(self)@.oam_dma_tick(),
    {
        proof {
            reveal(BusView::oam_dma_tick);
            reveal(BusView::read);
        }
        let addr: u16 = ((self.oam_dma.1 as u16) << 8) | (self.oam_dma.2 as u16);
        let value: u8 = self.read(addr as usize);
        self.ppu_mem.oam_dma_write(value);
        if self.oam_dma.2 == 0xFF {
            self.oam_dma.0 = false;
        } else {
            self.oam_dma.2 += 1;
        }
        self.oam_dma.0
    }

    pub fn ppu_read(&self, addr: usize) -> (value: u8)
        ensures
            value == self@.ppu_read(addr),
    {
        self.ppu_mem.ppu_read(&self.mapper, addr)
    }

    pub fn ppu_write(&mut self, addr: usize, value: u8)
        ensures
            final(self)@ == old(self)@.ppu_write(addr, value),
    {
        self.ppu_mem.ppu_write(&mut self.mapper, addr, value);
    }
}

impl MemRead for Bus {
    fn read(&mut self, addr: usize) -> (value: u8)
        ensures
            (value, final(self)@) == old(self)@.read(addr),
    {
        proof {
            reveal(BusView::read);
        }
        if addr <= 0x1FFF {
            self.wram.read(addr)
        } else if addr <= 0x3FFF {
            self.ppu_mem.read(&mut self.mapper, addr & 0x2007)
        } else if addr == 0x4014 {
            0
        } else if addr == 0x4016 || addr == 0x4017 {
            self.input.read(addr)
        } else if addr <= 0x4015 {
            self.apu_mem.read(addr)
        } else if 0x4020 <= addr && addr <= 0xFFFF {
            self.mapper.read(addr)
        } else {
            0
        }
    }
}

impl MemWrite for Bus {
    fn write(&mut self, addr: usize, value: u8)
        ensures
            final(self)@ == old(self)@.write(addr, value),
    {
        proof {
            reveal(BusView::write);
        }
        if addr <= 0x1FFF {
            self.wram.write(addr, value);
        } else if addr <= 0x3FFF {
            self.ppu_mem.write(&mut self.mapper, addr & 0x2007, value);
        } else if addr == 0x4014 {
            self.oam_dma = (true, value, 0x00);
        } else if addr == 0x4016 {
            self.input.write(addr, value);
        } else if addr <= 0x4017 {
            self.apu_mem.write(addr, value);
        } else if 0x4020 <= addr && addr <= 0xFFFF {
            self.mapper.write(addr, value);
        }
    }
}

} // verus!

verus! {

/// The four addresses that show one cell of the work RAM: a write at any
/// address of the work RAM's range is read back at every address of the
/// range that has the same low eleven bits, once in each 2 KiB.
pub proof fn lemma_wram_mirrors(bus: BusView, addr: usize, value: u8, mirror: usize)
    requires
        bus.wf(),
        addr <= 0x1FFF,
        mirror <= 0x1FFF,
        mirror % 0x800 == addr % 0x800,
    ensures
        bus.write(addr, value).read(mirror) == (value, bus.write(addr, value)),
        bus.write(addr, value).wf(),
{
    reveal(BusView::read);
    reveal(BusView::write);
}

/// A cell of the work RAM keeps its byte under a write to another cell.
pub proof fn lemma_wram_other_cell(bus: BusView, addr: usize, value: u8, other: usize)
    requires
        bus.wf(),
        addr <= 0x1FFF,
        other <= 0x1FFF,
        other % 0x800 != addr % 0x800,
    ensures
        bus.write(addr, value).read(other).0 == bus.read(other).0,
{
    reveal(BusView::read);
    reveal(BusView::write);
}

/// A register address of the picture unit keeps only its bits 0 to 2 and
/// 13: between 0x2000 and 0x3FFF an address names one of eight registers.
pub proof fn lemma_register_fold(addr: usize)
    requires
        0x2000 <= addr <= 0x3FFF,
    ensures
        0x2000 <= addr & 0x2007 <= 0x2007,
        (addr & 0x2007) & 0x2007 == addr & 0x2007,
        addr & 0x2007 == 0x2000 + addr % 8,
{
    assert(0x2000 <= addr & 0x2007 <= 0x2007 && (addr & 0x2007) & 0x2007 == addr & 0x2007 && addr
        & 0x2007 == 0x2000 + addr % 8) by (bit_vector)
        requires
            0x2000 <= addr <= 0x3FFF,
    ;
}

/// A write anywhere in the register window of the picture unit reaches the
/// register that the write to the folded address reaches.
pub proof fn lemma_ppu_write_mirrors(bus: BusView, addr: usize, value: u8)
    requires
        0x2000 <= addr <= 0x3FFF,
    ensures
        bus.write(addr, value) == bus.write(addr & 0x2007, value),
{
    reveal(BusView::write);
    lemma_register_fold(addr);
}

/// A read anywhere in the register window of the picture unit is the read
/// of the folded address.
pub proof fn lemma_ppu_read_mirrors(bus: BusView, addr: usize)
    requires
        0x2000 <= addr <= 0x3FFF,
    ensures
        bus.read(addr) == bus.read(addr & 0x2007),
{
    reveal(BusView::read);
    lemma_register_fold(addr);
}

/// Reading the status of the picture unit over the bus, at any of its
/// mirrors, gives the status as it stood and leaves the vertical-blank
/// flag and the write toggle cleared, whatever state the picture unit was
/// in.
pub proof fn lemma_status_read_clears(bus: BusView, addr: usize)
    requires
        0x2000 <= addr <= 0x3FFF,
        addr % 8 == 2,
    ensures
        ({
            let (value, b) = bus.read(addr);
            &&& value == bus.ppu_mem.status
            &&& b.ppu_mem.status & 0b1000_0000 == 0
            &&& b.ppu_mem.status & 0b0111_1111 == bus.ppu_mem.status & 0b0111_1111
            &&& !b.ppu_mem.w
        }),
{
    reveal(BusView::read);
    lemma_register_fold(addr);
    let s = bus.ppu_mem.status;
    assert((s & 0b0111_1111) & 0b1000_0000 == 0 && (s & 0b0111_1111) & 0b0111_1111 == s
        & 0b0111_1111) by (bit_vector);
}

impl BusView {
    /// The bus after `n` bytes of a sprite DMA.
    pub open spec fn dma_ticks(self, n: nat) -> BusView
        decreases n,
    {
        if n == 0 {
            self
        } else {
            self.dma_ticks((n - 1) as nat).oam_dma_tick().1
        }
    }

    /// Whether a DMA from `page` stands ready, and the page is one of
    /// memory: of the work RAM or of the cartridge. The pages between
    /// them hold registers, whose reads change what later reads give.
    pub open spec fn dma_ready(self, page: u8) -> bool {
        &&& self.wf()
        &&& (page < 0x20 || page >= 0x41)
        &&& self.oam_dma == (true, page, 0u8)
        &&& self.ppu_mem.oam.data.len() == 256
        &&& self.ppu_mem.oam.writable
    }
}

/// The source address of byte `i` of a DMA from `page`.
pub open spec fn dma_source(page: u8, i: int) -> usize {
    (page * 256 + i) as usize
}

/// Byte `i` of the page that a DMA copies: what a read at its source
/// address gives.
#[verifier::opaque]
pub open spec fn dma_byte(bus: BusView, page: u8, i: int) -> u8 {
    bus.read(dma_source(page, i)).0
}

/// Whether `later` is `bus` after some bytes of a DMA: at most the sprite
/// memory, the sprite address and the state of the DMA differ.
pub open spec fn dma_under_way(bus: BusView, later: BusView) -> bool {
    later == (BusView {
        ppu_mem: crate::ppu::memory::PPUMemoryView {
            oam: later.ppu_mem.oam,
            oam_addr: later.ppu_mem.oam_addr,
            ..bus.ppu_mem
        },
        oam_dma: later.oam_dma,
        ..bus
    })
}

/// One byte of a DMA from a page of memory: the byte of the page at the
/// DMA's index goes to the sprite memory at the sprite address, both step
/// by one, and behind index 255 the DMA is over. What the page holds does
/// not depend on the bytes copied before.
pub proof fn lemma_dma_step(bus: BusView, later: BusView, page: u8, index: u8)
    requires
        dma_under_way(bus, later),
        page < 0x20 || page >= 0x41,
        later.oam_dma == (true, page, index),
    ensures
        later.oam_dma_tick().1 == (BusView {
            ppu_mem: later.ppu_mem.oam_dma_write(dma_byte(bus, page, index as int)),
            oam_dma: if index == 255 {
                (false, page, index)
            } else {
                (true, page, (index + 1) as u8)
            },
            ..later
        }),
        later.oam_dma_tick().0 == (index != 255),
{
    reveal(BusView::read);
    reveal(dma_byte);
    reveal(BusView::oam_dma_tick);
    let src: u16 = ((page as u16) << 8) | (index as u16);
    assert(src == page * 256 + index && (page < 0x20 ==> src <= 0x1FFF) && (page >= 0x41 ==> src
        >= 0x4100)) by (bit_vector)
        requires
            src == ((page as u16) << 8) | (index as u16),
    ;
    assert(later.oam_dma_addr() == dma_source(page, index as int));
}

/// The state of a DMA from a page of memory after its first `n` bytes:
/// they stand in the sprite memory, in order from the sprite address on;
/// the other sprite bytes, the work RAM, the cartridge and the rest of the
/// bus are untouched; and the DMA is under way until the 256th byte.
pub proof fn lemma_dma_progress(bus: BusView, page: u8, n: nat)
    requires
        bus.dma_ready(page),
        n <= 256,
    ensures
        ({
            let b = bus.dma_ticks(n);
            &&& dma_under_way(bus, b)
            &&& b.ppu_mem.oam.writable
            &&& b.ppu_mem.oam.data.len() == 256
            &&& b.ppu_mem.oam_addr == (bus.ppu_mem.oam_addr + n) % 256
            &&& b.oam_dma == if n == 256 {
                (false, page, 255u8)
            } else {
                (true, page, n as u8)
            }
            &&& forall|i: int|
                0 <= i < n ==> #[trigger] b.ppu_mem.oam.data[(bus.ppu_mem.oam_addr + i) % 256]
                    == dma_byte(bus, page, i)
            &&& forall|j: int|
                0 <= j < 256 && (j - bus.ppu_mem.oam_addr) % 256 >= n ==> #[trigger] b.ppu_mem.oam.data[j]
                    == bus.ppu_mem.oam.data[j]
        }),
    decreases n,
{
    if n > 0 {
        let m = (n - 1) as nat;
        lemma_dma_progress(bus, page, m);
        let a = bus.dma_ticks(m);
        let b = bus.dma_ticks(n);
        assert(b == a.oam_dma_tick().1);
        let index: u8 = m as u8;
        lemma_dma_step(bus, a, page, index);
        let value = dma_byte(bus, page, m as int);
        let at = (bus.ppu_mem.oam_addr + m) % 256;
        assert(a.ppu_mem.oam_addr == at);
        assert(b.ppu_mem.oam.data == a.ppu_mem.oam.data.update(at, value));
        assert forall|i: int| 0 <= i < n implies #[trigger] b.ppu_mem.oam.data[(
        bus.ppu_mem.oam_addr + i) % 256] == dma_byte(bus, page, i) by {
            if i < m {
                assert((bus.ppu_mem.oam_addr + i) % 256 != at);
                assert(a.ppu_mem.oam.data[(bus.ppu_mem.oam_addr + i) % 256] == dma_byte(bus, page, i));
            }
        }
        assert forall|j: int|
            0 <= j < 256 && (j - bus.ppu_mem.oam_addr) % 256 >= n implies #[trigger] b.ppu_mem.oam.data[j]
            == bus.ppu_mem.oam.data[j] by {
            assert(j != at);
        }
    }
}

/// A whole sprite DMA from a page of memory: the 256 bytes of the page
/// stand in the sprite memory, in order from the sprite address on, which
/// is back where it was; the DMA is over; and nothing else on the bus has
/// changed.
pub proof fn lemma_dma_copies_page(bus: BusView, page: u8)
    requires
        bus.dma_ready(page),
    ensures
        ({
            let b = bus.dma_ticks(256);
            &&& !b.oam_dma.0
            &&& b.ppu_mem.oam_addr == bus.ppu_mem.oam_addr
            &&& forall|i: int|
                0 <= i < 256 ==> #[trigger] b.ppu_mem.oam.data[(bus.ppu_mem.oam_addr + i) % 256]
                    == bus.read(dma_source(page, i)).0
            &&& b == (BusView {
                ppu_mem: crate::ppu::memory::PPUMemoryView { oam: b.ppu_mem.oam, ..bus.ppu_mem },
                oam_dma: (false, page, 255u8),
                ..bus
            })
        }),
{
    lemma_dma_progress(bus, page, 256);
    let b = bus.dma_ticks(256);
    assert forall|i: int| 0 <= i < 256 implies #[trigger] b.ppu_mem.oam.data[(
    bus.ppu_mem.oam_addr + i) % 256] == bus.read(dma_source(page, i)).0 by {
        reveal(dma_byte);
        assert(b.ppu_mem.oam.data[(bus.ppu_mem.oam_addr + i) % 256] == dma_byte(bus, page, i));
    }
}

/// After the CPU writes a page of memory to the DMA trigger, a DMA from
/// that page stands ready.
pub proof fn lemma_dma_trigger(bus: BusView, page: u8)
    requires
        bus.wf(),
        page < 0x20 || page >= 0x41,
        bus.ppu_mem.oam.data.len() == 256,
        bus.ppu_mem.oam.writable,
    ensures
        bus.write(0x4014, page).dma_ready(page),
        bus.write(0x4014, page) == (BusView { oam_dma: (true, page, 0u8), ..bus }),
{
    reveal(BusView::write);
}

} // verus!

verus! {

/// Whether two buses are alike to the CPU and the picture unit: they agree
/// in everything but the sound queue and those registers of the sound
/// unit that no read shows.
pub open spec fn alike(a: BusView, b: BusView) -> bool {
    &&& a.wram == b.wram
    &&& a.mapper == b.mapper
    &&& a.ppu_mem == b.ppu_mem
    &&& a.oam_dma == b.oam_dma
    &&& a.input == b.input
    &&& a.apu_mem.status == b.apu_mem.status
}

/// Reads on buses that are alike give the same byte and leave buses that
/// are alike.
pub proof fn lemma_read_alike()
    ensures
        forall|a: BusView, b: BusView, addr: usize|
            #![trigger a.read(addr), b.read(addr)]
            alike(a, b) ==> a.read(addr).0 == b.read(addr).0 && alike(a.read(addr).1, b.read(addr).1),
{
    assert forall|a: BusView, b: BusView, addr: usize|
        #![trigger a.read(addr), b.read(addr)]
        alike(a, b) implies a.read(addr).0 == b.read(addr).0 && alike(
        a.read(addr).1,
        b.read(addr).1,
    ) by {
        reveal(BusView::read);
    }
}

/// Writes on buses that are alike leave buses that are alike.
pub proof fn lemma_write_alike()
    ensures
        forall|a: BusView, b: BusView, addr: usize, value: u8|
            #![trigger a.write(addr, value), b.write(addr, value)]
            alike(a, b) ==> alike(a.write(addr, value), b.write(addr, value)),
{
    assert forall|a: BusView, b: BusView, addr: usize, value: u8|
        #![trigger a.write(addr, value), b.write(addr, value)]
        alike(a, b) implies alike(a.write(addr, value), b.write(addr, value)) by {
        reveal(BusView::write);
    }
}

/// A byte of a sprite DMA on buses that are alike leaves buses that are
/// alike, and the DMA goes on on both or on neither.
pub proof fn lemma_dma_tick_alike(a: BusView, b: BusView)
    requires
        alike(a, b),
    ensures
        a.oam_dma_tick().0 == b.oam_dma_tick().0,
        alike(a.oam_dma_tick().1, b.oam_dma_tick().1),
{
    reveal(BusView::oam_dma_tick);
    lemma_read_alike();
}

} // verus!
