//! Cartridge mappers: the hardware on a cartridge that places its memories
//! in the address spaces of the CPU and the picture unit.

pub mod m000_nrom;
pub mod m001_mmc1;
pub mod m002_uxrom;

use vstd::prelude::*;
use crate::cartridge::Cartridge;
use crate::memory::{MemRead, MemWrite};
use m000_nrom::{Nrom, NromView};
use m001_mmc1::{MMC1View, MMC1};
use m002_uxrom::{Uxrom, UxromView};

verus! {

/// The error of loading a cartridge whose mapper is not supported.
#[derive(Debug, Clone, Copy, PartialEq, Eq)]
pub struct ErrorMissingMapper {
    pub mapper_num: u16,
}

impl ErrorMissingMapper {
    pub fn new(mapper_num: u16) -> (r: Self)
        ensures
            r.mapper_num == mapper_num,
    {
        Self { mapper_num }
    }
}

/// How the four logical nametables fold onto the video memory.
#[derive(Debug, Copy, Clone)]
pub enum MirroringType {
    Horizontal,
    Vertical,
    FourScreen,
    SingleScreenA,
    SingleScreenB,
}

impl Default for MirroringType {
    fn default() -> (r: Self)
        ensures
            r == MirroringType::Horizontal,
    {
        MirroringType::Horizontal
    }
}

/// The mapper of an empty cartridge slot: every read gives 0, every write
/// is dropped.
#[derive(Debug, Clone, Copy)]
pub struct NullMapper {}

/// The supported mappers.
#[allow(clippy::large_enum_variant)]
#[derive(Debug)]
pub enum MapperType {
    NullMapper(NullMapper),
    Nrom(Nrom),
    MMC1(MMC1),
    Uxrom(Uxrom),
}

/// What a mapper holds.
pub enum MapperView {
    NullMapper,
    Nrom(NromView),
    MMC1(MMC1View),
    Uxrom(UxromView),
}

impl MapperView {
    /// The byte at a cartridge address. No mapper here changes on a read.
    pub open spec fn read(self, addr: int) -> u8 {
        match self {
            MapperView::NullMapper => 0,
            MapperView::Nrom(m) => m.read(addr),
            MapperView::MMC1(m) => m.read(addr),
            MapperView::Uxrom(m) => m.read(addr),
        }
    }

    /// The mapper after a write at a cartridge address.
    pub open spec fn write(self, addr: int, value: u8) -> MapperView {
        match self {
            MapperView::NullMapper => self,
            MapperView::Nrom(m) => MapperView::Nrom(m.write(addr, value)),
            MapperView::MMC1(m) => MapperView::MMC1(m.write(addr, value)),
            MapperView::Uxrom(m) => MapperView::Uxrom(m.write(addr, value)),
        }
    }

    /// Whether the mapper asks for an interrupt. No mapper here does.
    pub open spec fn irq_pending(self) -> bool {
        false
    }

    /// The nametable mirroring that the mapper selects.
    pub open spec fn mirroring(self) -> MirroringType {
        match self {
            MapperView::NullMapper => MirroringType::Horizontal,
            MapperView::Nrom(m) => m.mirroring,
            MapperView::MMC1(m) => m.mirroring,
            MapperView::Uxrom(m) => m.mirroring,
        }
    }
}

impl View for MapperType {
    type V = MapperView;

    open spec fn view(&self) -> MapperView {
        match self {
            MapperType::NullMapper(_) => MapperView::NullMapper,
            MapperType::Nrom(m) => MapperView::Nrom(m@),
            MapperType::MMC1(m) => MapperView::MMC1(m@),
            MapperType::Uxrom(m) => MapperView::Uxrom(m@),
        }
    }
}

impl Clone for MapperType {
    fn clone(&self) -> (r: Self)
        ensures
            r@ == self@,
    {
        match self {
            MapperType::NullMapper(_) => MapperType::NullMapper(NullMapper {  }),
            MapperType::Nrom(m) => MapperType::Nrom(m.clone()),
            MapperType::MMC1(m) => MapperType::MMC1(m.clone()),
            MapperType::Uxrom(m) => MapperType::Uxrom(m.clone()),
        }
    }
}

/// What every mapper offers beside reads and writes.
pub trait Mapper: MemRead + MemWrite {
    /// Whether the mapper asks for an interrupt.
    fn irq_pending(&mut self) -> (pending: bool);

    /// The nametable mirroring that the mapper selects.
    fn mirroring(&self) -> (m: MirroringType);

    /// Whether the cartridge keeps its RAM on a battery.
    fn battery_backed(&self) -> (b: bool);

    /// Whether a nametable address is served by the console's own video
    /// memory, not by memory on the cartridge.
    fn use_ciram(&self, addr: usize) -> (b: bool);

    /// The page of cartridge nametable memory that serves an address.
    fn nametable_page(&self, addr: usize) -> (page: usize);
}

impl MemRead for NullMapper {
    fn read(&mut self, addr: usize) -> (value: u8)
        ensures
            value == 0,
            *final(self) == *old(self),
    {
        0
    }
}

impl MemWrite for NullMapper {
    fn write(&mut self, addr: usize, value: u8)
        ensures
            *final(self) == *old(self),
    {
    }
}

impl Mapper for NullMapper {
    fn irq_pending(&mut self) -> (pending: bool)
        ensures
            !pending,
            *final(self) == *old(self),
    {
        false
    }

    fn mirroring(&self) -> (m: MirroringType)
        ensures
            m == MirroringType::Horizontal,
    {
        MirroringType::Horizontal
    }

    fn battery_backed(&self) -> (b: bool)
        ensures
            !b,
    {
        false
    }

    fn use_ciram(&self, addr: usize) -> (b: bool)
        ensures
            b,
    {
        true
    }

    fn nametable_page(&self, addr: usize) -> (page: usize)
        ensures
            page == 0,
    {
        0
    }
}

impl MapperType {
    /// The byte at a cartridge address, without the `&mut` that the bus
    /// trait asks for.
    pub fn peek(&self, addr: usize) -> (value: u8)
        ensures
            value == self@.read(addr as int),
    {
        match self {
            MapperType::NullMapper(_) => 0,
            MapperType::Nrom(m) => m.peek(addr),
            MapperType::MMC1(m) => m.peek(addr),
            MapperType::Uxrom(m) => m.peek(addr),
        }
    }
}

impl MemRead for MapperType {
    fn read(&mut self, addr: usize) -> (value: u8)
        ensures
            value == old(self)@.read(addr as int),
            *final(self) == *old(self),
    {
        self.peek(addr)
    }
}

impl MemWrite for MapperType {
    fn write(&mut self, addr: usize, value: u8)
        ensures
            final(self)@ == old(self)@.write(addr as int, value),
    {
        match self {
            MapperType::NullMapper(_) => {},
            MapperType::Nrom(m) => m.write(addr, value),
            MapperType::MMC1(m) => m.write(addr, value),
            MapperType::Uxrom(m) => m.write(addr, value),
        }
    }
}

impl Mapper for MapperType {
    fn irq_pending(&mut self) -> (pending: bool)
        ensures
            pending == old(self)@.irq_pending(),
            *final(self) == *old(self),
    {
        false
    }

    fn mirroring(&self) -> (m: MirroringType)
        ensures
            m == self@.mirroring(),
    {
        match self {
            MapperType::NullMapper(m) => m.mirroring(),
            MapperType::Nrom(m) => m.mirroring(),
            MapperType::MMC1(m) => m.mirroring(),
            MapperType::Uxrom(m) => m.mirroring(),
        }
    }

    fn battery_backed(&self) -> (b: bool)
        ensures
            !b,
    {
        false
    }

    fn use_ciram(&self, addr: usize) -> (b: bool)
        ensures
            b,
    {
        true
    }

    fn nametable_page(&self, addr: usize) -> (page: usize)
        ensures
            page == 0,
    {
        0
    }
}

/// The mapper that a cartridge of number `mapper_num` gets, if any:
/// 0, 1, 2 and 71 are supported.
pub open spec fn supported(mapper_num: u16) -> bool {
    mapper_num == 0 || mapper_num == 1 || mapper_num == 2 || mapper_num == 71
}

/// The mapper of a cartridge with a supported mapper number, loaded with
/// the cartridge's memories: mapper 0 for number 0, mapper 1 for number 1,
/// and mapper 2 for the numbers 2 and 71.
pub open spec fn loaded_mapper(cart: &Cartridge) -> MapperView {
    if cart.header.mapper_num == 0 {
        MapperView::Nrom(NromView::loaded(cart))
    } else if cart.header.mapper_num == 1 {
        MapperView::MMC1(MMC1View::loaded(cart))
    } else {
        MapperView::Uxrom(UxromView::loaded(cart))
    }
}

/// The mapper of a cartridge, loaded with its memories.
///
/// Fails exactly when the header's mapper number is not supported, with
/// that number in the error.
pub fn load_rom(cart: &Cartridge) -> (r: Result<MapperType, ErrorMissingMapper>)
    ensures
        match r {
            Ok(m) => supported(cart.header.mapper_num) && m@ == loaded_mapper(cart),
            Err(e) => !supported(cart.header.mapper_num) && e.mapper_num == cart.header.mapper_num,
        },
{
    match cart.header.mapper_num {
        0 => Ok(MapperType::Nrom(Nrom::load(cart))),
        1 => Ok(MMC1::load(cart)),
        2 => Ok(Uxrom::load(cart)),
        71 => Ok(Uxrom::load(cart)),
        _ => Err(ErrorMissingMapper::new(cart.header.mapper_num)),
    }
}

/// The mapper of an empty cartridge slot.
pub fn null() -> (r: MapperType)
    ensures
        r@ == MapperView::NullMapper,
{
    MapperType::NullMapper(NullMapper {  })
}

} // verus!
