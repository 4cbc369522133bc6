//! Snapshots of a running machine: the CPU registers, the work RAM, the
//! memories and registers of the picture unit, and the mapper.

use vstd::prelude::*;
use crate::cpu::Reg;
use crate::mapper::{MapperType, MapperView};
use crate::memory::{Memory, MemoryView};
use crate::ppu::memory::{PPUMemory, PPUMemoryView};

verus! {

pub struct SaveState {
    pub wram: Memory,
    pub mapper: MapperType,
    pub ppu_mem: PPUMemory,
    pub cpu_reg: Reg,
}

/// What a snapshot holds.
pub struct SaveStateView {
    pub wram: MemoryView,
    pub mapper: MapperView,
    pub ppu_mem: PPUMemoryView,
    pub cpu_reg: Reg,
}

impl View for SaveState {
    type V = SaveStateView;

    open spec fn view(&self) -> SaveStateView {
        SaveStateView {
            wram: self.wram@,
            mapper: self.mapper@,
            ppu_mem: self.ppu_mem@,
            cpu_reg: self.cpu_reg,
        }
    }
}

impl SaveStateView {
    /// The snapshot of nothing: no work RAM, an empty cartridge slot, and
    /// registers as at power-on.
    pub open spec fn empty() -> SaveStateView {
        SaveStateView {
            wram: MemoryView { data: Seq::empty(), writable: true },
            mapper: MapperView::NullMapper,
            ppu_mem: PPUMemoryView::power_on(),
            cpu_reg: Reg::power_on(),
        }
    }
}

impl SaveState {
    pub fn new() -> (r: Self)
        ensures
            r@ == SaveStateView::empty(),
    {
        Self {
            wram: Memory::new(),
            mapper: crate::mapper::null(),
            ppu_mem: PPUMemory::new(),
            cpu_reg: Reg::new(),
        }
    }
}

impl Clone for SaveState {
    fn clone(&self) -> (r: Self)
        ensures
            r@ == self@,
    {
        SaveState {
            wram: self.wram.clone(),
            mapper: self.mapper.clone(),
            ppu_mem: self.ppu_mem.clone(),
            cpu_reg: self.cpu_reg,
        }
    }
}

} // verus!
