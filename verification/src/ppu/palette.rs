//! The master palette: the colour that each of the 64 palette entries of
//! the picture unit is shown in.

use vstd::prelude::*;
use vstd::array::spec_array_fill_for_copy_type;

verus! {

/// The number of bytes of a palette: 64 triples of red, green and blue.
pub const PALETTE_BYTES: usize = 64 * 3;

#[allow(non_snake_case)]
#[derive(Debug, Copy, Clone)]
pub struct NesColor {
    pub R: u8,
    pub G: u8,
    pub B: u8,
}

#[derive(Debug, Copy, Clone)]
pub struct Palette {
    pub color: [NesColor; 64],
}

/// The error of a palette that is shorter than 64 triples.
#[derive(Debug, Clone, Copy, PartialEq, Eq)]
pub struct PaletteTooShort {
    pub len: usize,
}

/// The colour that entry `i` of raw palette `bytes` holds.
pub open spec fn color_at(bytes: Seq<u8>, i: int) -> NesColor {
    NesColor { R: bytes[i * 3], G: bytes[i * 3 + 1], B: bytes[i * 3 + 2] }
}

impl Palette {
    /// Whether the palette holds the 64 colours of raw palette `bytes`.
    pub open spec fn holds(self, bytes: Seq<u8>) -> bool {
        forall|i: int| 0 <= i < 64 ==> #[trigger] self.color[i] == color_at(bytes, i)
    }

    /// The palette of 64 blacks.
    pub open spec fn black() -> Palette {
        Palette { color: spec_array_fill_for_copy_type::<NesColor, 64>(NesColor { R: 0, G: 0, B: 0 }) }
    }

    pub fn new() -> (r: Self)
        ensures
            r == Self::black(),
    {
        Self { color: [NesColor { R: 0, G: 0, B: 0 };64] }
    }

    /// The palette that raw bytes hold. Fails exactly when there are fewer
    /// than 192 of them; bytes beyond those are not looked at.
    pub fn from_bytes(bytes: &[u8]) -> (r: Result<Self, PaletteTooShort>)
        ensures
            match r {
                Ok(p) => bytes@.len() >= PALETTE_BYTES && p.holds(bytes@),
                Err(e) => bytes@.len() < PALETTE_BYTES && e.len == bytes@.len(),
            },
    {
        let mut p = Self::new();
        match p.change_from_bytes(bytes) {
            Ok(()) => Ok(p),
            Err(e) => Err(e),
        }
    }

    /// Replaces the 64 colours by those that raw bytes hold. Fails, and
    /// leaves the palette as it is, exactly when there are fewer than 192
    /// bytes.
    pub fn change_from_bytes(&mut self, bytes: &[u8]) -> (r: Result<(), PaletteTooShort>)
        ensures
            match r {
                Ok(_) => bytes@.len() >= PALETTE_BYTES && final(self).holds(bytes@),
                Err(e) => bytes@.len() < PALETTE_BYTES && e.len == bytes@.len() && *final(self)
                    == *old(self),
            },
    {
        if bytes.len() < PALETTE_BYTES {
            return Err(PaletteTooShort { len: bytes.len() });
        }
        let mut i: usize = 0;
        while i < 64
            invariant
                i <= 64,
                bytes@.len() >= PALETTE_BYTES,
                forall|j: int| 0 <= j < i ==> #[trigger] self.color[j] == color_at(bytes@, j),
            decreases 64 - i,
        {
            self.color[i] = NesColor { R: bytes[i * 3], G: bytes[i * 3 + 1], B: bytes[i * 3 + 2] };
            i += 1;
        }
        Ok(())
    }
}

} // verus!
