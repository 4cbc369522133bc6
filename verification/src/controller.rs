//! Controller ports.

pub mod basic;

use vstd::prelude::*;

verus! {

/// A device on a controller port.
pub trait Controller {
    /// Takes over the input that the host has supplied since the last call.
    fn update(&mut self);

    /// Answers a read of port address `addr`.
    fn read(&mut self, addr: usize) -> (value: u8);

    /// Takes a write to port address `addr`.
    fn write(&mut self, addr: usize, value: u8);
}

} // verus!
