use vstd::prelude::*;

verus! {

/// A text-background map entry: tile number (bits 0-9), the two flip bits
/// (10 and 11) and the palette bank (bits 12-15).
#[derive(Clone, Copy, Debug)]
pub struct TileMapEntry {
    pub tile_index: u16,
    pub vertical_flip: bool,
    pub horizontal_flip: bool,
    pub palette_bank: u8,
}

/// The map entry a 16-bit value stands for.
pub open spec fn tile_map_entry_of(value: u16) -> TileMapEntry {
    TileMapEntry {
        tile_index: value & 0x3FF,
        vertical_flip: (value >> 10u16) & 1 != 0,
        horizontal_flip: (value >> 11u16) & 1 != 0,
        palette_bank: (value >> 12u16) as u8,
    }
}

impl TileMapEntry {
    /// Splits a map entry into its fields.
    pub fn from(value: u16) -> (entry: TileMapEntry)
        ensures
            entry == tile_map_entry_of(value),
            entry.tile_index < 1024,
            entry.palette_bank < 16,
    {
        proof {
            assert(value & 0x3FF < 1024 && value >> 12u16 < 16) by (bit_vector);
        }
        TileMapEntry {
            tile_index: value & 0x3FF,
            vertical_flip: ((value >> 10u16) & 0x1) != 0,
            horizontal_flip: ((value >> 11u16) & 0x1) != 0,
            palette_bank: (value >> 12u16) as u8,
        }
    }
}

} // verus!
