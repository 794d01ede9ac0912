use vstd::prelude::*;
use crate::gpu::bitmap::{affine_coordinate, coordinate, sign_extend_28, sign_extend_reference};
use crate::gpu::gpu::{DISPLAY_WIDTH, GPU};
use crate::gpu::rgb15::{rgb15_of, Rgb15};
use crate::memory::lcd_io_registers::PixelFormat;
use crate::memory::memory_map::{halfword_at, MemoryMap};

verus! {

/// A map entry of a text background, as the background renderer reads it: tile number (bits 0-9), the two flip bits
/// (10 and 11) and the palette bank (bits 12-15).
#[derive(Clone, Copy, Debug)]
pub struct TileMapEntry {
    pub tile_index: u16,
    pub vertical_flip: bool,
    pub horizontal_flip: bool,
    pub palette_bank: u8,
}

/// The map entry a 16-bit value stands for.
pub open spec fn tile_map_entry_of(value: u16) -> TileMapEntry {
    TileMapEntry {
        tile_index: value & 0x3FF,
        vertical_flip: (value >> 10u16) & 1 != 0,
        horizontal_flip: (value >> 11u16) & 1 != 0,
        palette_bank: (value >> 12u16) as u8,
    }
}

impl TileMapEntry {
    /// Splits a map entry into its fields.
    pub fn from(value: u16) -> (entry: TileMapEntry)
        ensures
            entry == tile_map_entry_of(value),
            entry.tile_index < 1024,
            entry.palette_bank < 16,
    {
        proof {
            assert(value & 0x3FF < 1024 && value >> 12u16 < 16) by (bit_vector);
        }
        TileMapEntry {
            tile_index: value & 0x3FF,
            vertical_flip: ((value >> 10u16) & 0x1) != 0,
            horizontal_flip: ((value >> 11u16) & 0x1) != 0,
            palette_bank: (value >> 12u16) as u8,
        }
    }
}

/// The screen block (0-3) of the 32x32-tile map that holds background pixel
/// (`bx`, `by`): blocks are 256 pixels square, laid out left to right, then
/// top to bottom.
pub open spec fn text_bg_block(w: u32, h: u32, bx: int, by: int) -> int {
    if w == 512 && h == 512 {
        2 * (by / 256) + bx / 256
    } else if w == 512 {
        bx / 256
    } else if h == 512 {
        by / 256
    } else {
        0
    }
}

/// The palette index of pixel (`tile_px`, `tile_py`) of a map entry's tile,
/// flipped as the entry says: one byte per pixel, or a nibble (low nibble
/// first) at 4 bits per pixel.
pub open spec fn text_tile_index(mem: Seq<u8>, entry: TileMapEntry, tileset: int, eight_bit: bool, tile_px: int, tile_py: int) -> u32 {
    let pixel_x = if entry.vertical_flip { 7 - tile_px } else { tile_px };
    let pixel_y = if entry.horizontal_flip { 7 - tile_py } else { tile_py };
    let tile_address = tileset + entry.tile_index * (if eight_bit { 0x40int } else { 0x20int });
    if eight_bit {
        mem[tile_address + 8 * pixel_y + pixel_x] as u32
    } else {
        let v = mem[tile_address + 4 * pixel_y + pixel_x / 2];
        (if pixel_x % 2 != 0 { v >> 4u8 } else { v & 0xF }) as u32
    }
}

/// A text background pixel of palette index 0 is transparent, as is one of
/// index 16, 32, ... in a palette bank other than 0.
pub proof fn lemma_index_zero_is_transparent(
    mem: Seq<u8>,
    entry: TileMapEntry,
    tileset: int,
    eight_bit: bool,
    tile_px: int,
    tile_py: int,
)
    ensures
        text_tile_index(mem, entry, tileset, eight_bit, tile_px, tile_py) == 0 ==> text_bg_texel(
            mem,
            entry,
            tileset,
            eight_bit,
            tile_px,
            tile_py,
        ) == rgb15_of(0x8000),
        !eight_bit && entry.palette_bank != 0 && text_tile_index(mem, entry, tileset, eight_bit, tile_px, tile_py) % 16
            == 0 ==> text_bg_texel(mem, entry, tileset, eight_bit, tile_px, tile_py) == rgb15_of(0x8000),
{
}

/// The colour of background pixel (`bx`, `by`) of a text background, given
/// its map entry's location in the map: the entry's tile, flipped (bit 10
/// flips columns, bit 11 rows), at 4 or 8 bits per pixel, through the
/// background palette; index 0 is transparent.
pub open spec fn text_bg_texel(mem: Seq<u8>, entry: TileMapEntry, tileset: int, eight_bit: bool, tile_px: int, tile_py: int) -> Rgb15 {
    let pixel_index = text_tile_index(mem, entry, tileset, eight_bit, tile_px, tile_py);
    let bank: u32 = if eight_bit { 0 } else { entry.palette_bank as u32 };
    if pixel_index == 0 || (bank != 0 && pixel_index % 16 == 0) {
        rgb15_of(0x8000)
    } else {
        rgb15_of(halfword_at(mem, 2 * pixel_index + 0x20 * bank + 0x0500_0000))
    }
}

/// The colour of column `x` of the current line of text background `bg`:
/// the scrolled background pixel (wrapping around the background's size),
/// found through the map entry of its tile in its screen block.
pub open spec fn text_bg_pixel(gpu: GPU, mem: Seq<u8>, bg: int, x: int) -> Rgb15 {
    let b = gpu.backgrounds@[bg];
    let control = b.control;
    let (w, h) = control.background_dimensions();
    let line = gpu.vertical_count.current_scanline() as int;
    let bx = (x + b.horizontal_offset.offset()) % (w as int);
    let by = (line + b.vertical_offset.offset()) % (h as int);
    let sbb = text_bg_block(w, h, bx, by);
    let entry = tile_map_entry_of(
        halfword_at(mem, control.tilemap_location() + 0x800 * sbb + 2 * (32 * ((by / 8) % 32) + (bx / 8) % 32)),
    );
    text_bg_texel(mem, entry, control.tileset_location() as int, control.colors() != 0, bx % 8, by % 8)
}

/// One pixel of a text background tile (see `text_bg_texel`).
fn read_text_bg_texel(mem_map: &MemoryMap, entry: TileMapEntry, tileset: u32, eight_bit: bool, tile_size: u32, tile_px: u32, tile_py: u32) -> (c: Rgb15)
    requires
        tileset <= 0x0600_C000,
        entry.tile_index < 1024,
        entry.palette_bank < 16,
        tile_size == (if eight_bit { 0x40u32 } else { 0x20u32 }),
        tile_px < 8,
        tile_py < 8,
        mem_map.memory.len() >= 0x0602_0000,
    ensures
        c == text_bg_texel(mem_map.memory@, entry, tileset as int, eight_bit, tile_px as int, tile_py as int),
{
    let tile_address = tileset + (entry.tile_index as u32) * tile_size;
    let pixel_x = if entry.vertical_flip { 7 - tile_px } else { tile_px };
    let pixel_y = if entry.horizontal_flip { 7 - tile_py } else { tile_py };
    let pixel_index = if eight_bit {
        mem_map.read_u8(tile_address + (8 * pixel_y + pixel_x)) as u32
    } else {
        let value = mem_map.read_u8(tile_address + (4 * pixel_y + (pixel_x / 2)));
        if pixel_x % 2 != 0 {
            (value >> 4u8) as u32
        } else {
            (value & 0xf) as u32
        }
    };
    let palette_bank: u32 = if eight_bit { 0 } else { entry.palette_bank as u32 };
    if pixel_index == 0 || (palette_bank != 0 && pixel_index % 16 == 0) {
        Rgb15::new(0x8000)
    } else {
        let palette_ram_index = 2 * pixel_index + 0x20 * palette_bank;
        Rgb15::new(mem_map.read_u16(palette_ram_index + 0x500_0000u32))
    }
}

/// The side of the square texture of an affine background: 128 pixels for
/// screen size 0, doubling with each step up to 1024.
pub open spec fn aff_texture_size(screen_size: u8) -> int {
    if screen_size == 0 { 128 } else if screen_size == 1 { 256 } else if screen_size == 2 { 512 } else { 1024 }
}

/// The colour of column `x` of the current line of affine background `bg`
/// (2 or 3): the texel at the transformed point, where points outside the
/// texture wrap around when the overflow bit is set and are transparent
/// otherwise; the map holds one tile number per byte, tiles are 8x8 bytes of
/// palette indices, index 0 is transparent.
pub open spec fn aff_bg_pixel(gpu: GPU, mem: Seq<u8>, bg: int, x: int) -> Rgb15 {
    let control = gpu.backgrounds@[bg].control;
    let affine = gpu.bg_affine_components@[bg - 2];
    let size = aff_texture_size(control.screen_size());
    let px0 = affine_coordinate(sign_extend_28(affine.refrence_point_x_internal), x, affine.rotation_scaling_param_a.value as i16 as i32) as int;
    let py0 = affine_coordinate(sign_extend_28(affine.refrence_point_y_internal), x, affine.rotation_scaling_param_c.value as i16 as i32) as int;
    let inside = 0 <= px0 < size && 0 <= py0 < size;
    if !inside && control.display_area_overflow() == 0 {
        rgb15_of(0x8000)
    } else {
        let px = px0 % size;
        let py = py0 % size;
        let tile_index = mem[control.tilemap_location() + (size / 8) * (py / 8) + px / 8];
        let pixel_index = mem[control.tileset_location() + tile_index * 0x40 + 8 * (py % 8) + px % 8];
        if pixel_index == 0 {
            rgb15_of(0x8000)
        } else {
            rgb15_of(halfword_at(mem, 2 * pixel_index + 0x0500_0000))
        }
    }
}

/// A coordinate wrapped into a texture of power-of-two side `size` (up to
/// 1024): the Euclidean remainder.
fn wrap_coordinate(point: i32, size: i32) -> (wrapped: i32)
    requires
        -0x10_0000 <= point <= 0x10_0000,
        size == 128 || size == 256 || size == 512 || size == 1024,
    ensures
        wrapped == point % size,
        0 <= wrapped < size,
{
    let shifted = point + 0x20_0000;
    proof {
        let k: int = 0x20_0000int / (size as int);
        assert(size * k == 0x20_0000);
        vstd::arithmetic::div_mod::lemma_mod_multiples_vanish(k, point as int, size as int);
    }
    shifted % size
}

/// Whether the first `n` columns of background `bg`'s scanline in `now` are
/// the text background pixels of `before`, with everything else of `before`
/// kept but that scanline.
pub open spec fn text_bg_rendered_up_to(now: GPU, before: GPU, mem: Seq<u8>, bg: int, n: int) -> bool {
    &&& now.wf()
    &&& forall|k: int| 0 <= k < n ==> #[trigger] now.backgrounds@[bg].scan_line@[k] == text_bg_pixel(before, mem, bg, k)
    &&& forall|i: int| 0 <= i < 4 && i != bg ==> #[trigger] now.backgrounds@[i] == before.backgrounds@[i]
    &&& now.backgrounds@[bg].control == before.backgrounds@[bg].control
    &&& now.backgrounds@[bg].id == before.backgrounds@[bg].id
    &&& now.backgrounds@[bg].horizontal_offset == before.backgrounds@[bg].horizontal_offset
    &&& now.backgrounds@[bg].vertical_offset == before.backgrounds@[bg].vertical_offset
    &&& now == (GPU { backgrounds: now.backgrounds, ..before })
}

/// Stepping one pixel right in a background `w` pixels wide (256 or 512),
/// wrapping at its right edge.
proof fn lemma_next_column(x: int, hofs: int, w: int)
    requires
        x >= 0,
        hofs >= 0,
        w == 256 || w == 512,
    ensures
        (x + 1 + hofs) % w == (if (x + hofs) % w + 1 == w { 0 } else { (x + hofs) % w + 1 }),
{
}

/// Toggling the low bit of a screen block number moves to the horizontally
/// adjacent block.
proof fn lemma_toggle_block(sbb: u32)
    requires
        sbb < 4,
    ensures
        sbb ^ 1 == (if sbb % 2 == 0 { sbb + 1 } else { sbb - 1 }),
{
    assert(sbb < 4 ==> sbb ^ 1 == (if sbb % 2 == 0 { sbb + 1 } else { sbb - 1 })) by (bit_vector);
}

impl GPU {
    /// Renders the current line of text background `bg_number` (see
    /// `text_bg_pixel`): the line is walked tile by tile through the map,
    /// moving to the next screen block at each block edge.
    #[verifier::rlimit(100)]
    pub fn render_bg(&mut self, mem_map: &MemoryMap, bg_number: usize)
        requires
            old(self).wf(),
            bg_number < 4,
            mem_map.memory.len() >= 0x0602_0000,
        ensures
            text_bg_rendered_up_to(*final(self), *old(self), mem_map.memory@, bg_number as int, DISPLAY_WIDTH as int),
    {
        let (vertical_offset, horizontal_offset) = self.backgrounds[bg_number].get_offsets();
        let control = self.backgrounds[bg_number].control;
        let tileset_location = control.get_tileset_location();
        let tilemap_location = control.get_tilemap_location();
        let (background_width, background_height) = control.get_background_dimensions();
        let pixel_format = control.get_pixel_format();
        let eight_bit = pixel_format == PixelFormat::EightBit;
        let tile_size = control.get_tilesize();
        let current_scanline = self.vertical_count.get_current_scanline() as u32;
        let mut x: u32 = 0;
        let background_x = (x + horizontal_offset) % background_width;
        let background_y = (current_scanline + vertical_offset) % background_height;
        let mut sbb: u32 = 0;
        if background_width == 256 && background_height == 256 {
            sbb = 0;
        } else if background_width == 512 && background_height == 256 {
            sbb = background_x / 256;
        } else if background_width == 256 && background_height == 512 {
            sbb = background_y / 256;
        } else if background_width == 512 && background_height == 512 {
            sbb = 2 * (background_y / 256) + (background_x / 256);
        }
        let mut se_row = (background_x / 8) % 32;
        let se_column = (background_y / 8) % 32;
        let mut start_tile_x = background_x % 8;
        let tile_py = background_y % 8;
        let ghost bx: int = background_x as int;
        let ghost by: int = background_y as int;
        let ghost w: int = background_width as int;
        let ghost hofs: int = horizontal_offset as int;
        loop
            invariant
                x < DISPLAY_WIDTH,
                bg_number < 4,
                mem_map.memory.len() >= 0x0602_0000,
                control == old(self).backgrounds@[bg_number as int].control,
                horizontal_offset == old(self).backgrounds@[bg_number as int].horizontal_offset.offset(),
                vertical_offset == old(self).backgrounds@[bg_number as int].vertical_offset.offset(),
                horizontal_offset < 512,
                hofs == horizontal_offset,
                (background_width, background_height) == control.background_dimensions(),
                w == background_width,
                w == 256 || w == 512,
                background_height == 256 || background_height == 512,
                current_scanline == old(self).vertical_count.current_scanline(),
                by == (current_scanline + vertical_offset) % (background_height as int),
                0 <= by < background_height,
                se_column == (by / 8) % 32,
                tile_py == by % 8,
                tileset_location == control.tileset_location(),
                tileset_location <= 0x0600_C000,
                tilemap_location == control.tilemap_location(),
                tilemap_location <= 0x0600_F800,
                eight_bit == (control.colors() != 0),
                tile_size == (if eight_bit { 0x40u32 } else { 0x20u32 }),
                bx == (x + hofs) % w,
                0 <= bx < w,
                se_row == (bx / 8) % 32,
                start_tile_x == bx % 8,
                sbb == text_bg_block(background_width, background_height, bx, by),
                sbb < 4,
                text_bg_rendered_up_to(*self, *old(self), mem_map.memory@, bg_number as int, x as int),
            decreases DISPLAY_WIDTH - x,
        {
            let ghost x0 = x;
            let mut map_address = tilemap_location + 0x800 * sbb + 2 * (32 * se_column + se_row);
            let mut tile: u32 = se_row;
            while tile < 32
                invariant
                    x < DISPLAY_WIDTH,
                    x0 <= x,
                    tile > se_row ==> x > x0,
                    se_row <= tile <= 32,
                    se_row < 32,
                    bg_number < 4,
                    mem_map.memory.len() >= 0x0602_0000,
                    control == old(self).backgrounds@[bg_number as int].control,
                    horizontal_offset == old(self).backgrounds@[bg_number as int].horizontal_offset.offset(),
                    vertical_offset == old(self).backgrounds@[bg_number as int].vertical_offset.offset(),
                    horizontal_offset < 512,
                    hofs == horizontal_offset,
                    (background_width, background_height) == control.background_dimensions(),
                    w == background_width,
                    w == 256 || w == 512,
                    background_height == 256 || background_height == 512,
                    current_scanline == old(self).vertical_count.current_scanline(),
                    by == (current_scanline + vertical_offset) % (background_height as int),
                    0 <= by < background_height,
                    se_column == (by / 8) % 32,
                    tile_py == by % 8,
                    tileset_location == control.tileset_location(),
                    tileset_location <= 0x0600_C000,
                    tilemap_location == control.tilemap_location(),
                    tilemap_location <= 0x0600_F800,
                    eight_bit == (control.colors() != 0),
                    tile_size == (if eight_bit { 0x40u32 } else { 0x20u32 }),
                    bx == (x + hofs) % w,
                    0 <= bx < w,
                    start_tile_x == bx % 8,
                    sbb < 4,
                    tile < 32 ==> {
                        &&& (bx / 8) % 32 == tile
                        &&& sbb == text_bg_block(background_width, background_height, bx, by)
                        &&& map_address == tilemap_location + 0x800 * sbb + 2 * (32 * se_column + tile)
                    },
                    tile == 32 ==> {
                        &&& bx % 256 == 0
                        &&& start_tile_x == 0
                        &&& text_bg_block(background_width, background_height, bx, by) == (if w == 512 {
                            if sbb % 2 == 0 { sbb + 1 } else { sbb - 1 }
                        } else {
                            sbb as int
                        })
                    },
                    text_bg_rendered_up_to(*self, *old(self), mem_map.memory@, bg_number as int, x as int),
                decreases 32 - tile,
            {
                let entry = TileMapEntry::from(mem_map.read_u16(map_address));
                let mut tile_px: u32 = start_tile_x;
                let ghost px0 = tile_px;
                let ghost x1 = x;
                while tile_px < 8
                    invariant
                        x < DISPLAY_WIDTH,
                        x0 <= x1 <= x,
                        tile > se_row ==> x1 > x0,
                        tile_px > px0 ==> x > x1,
                        px0 <= tile_px <= 8,
                        px0 == start_tile_x,
                        tile < 32,
                        se_row <= tile,
                        bg_number < 4,
                        mem_map.memory.len() >= 0x0602_0000,
                        control == old(self).backgrounds@[bg_number as int].control,
                        horizontal_offset == old(self).backgrounds@[bg_number as int].horizontal_offset.offset(),
                        vertical_offset == old(self).backgrounds@[bg_number as int].vertical_offset.offset(),
                        horizontal_offset < 512,
                        hofs == horizontal_offset,
                        (background_width, background_height) == control.background_dimensions(),
                        w == background_width,
                        w == 256 || w == 512,
                        background_height == 256 || background_height == 512,
                        current_scanline == old(self).vertical_count.current_scanline(),
                        by == (current_scanline + vertical_offset) % (background_height as int),
                        0 <= by < background_height,
                        se_column == (by / 8) % 32,
                        tile_py == by % 8,
                        tileset_location == control.tileset_location(),
                        tileset_location <= 0x0600_C000,
                        tilemap_location == control.tilemap_location(),
                        tilemap_location <= 0x0600_F800,
                        eight_bit == (control.colors() != 0),
                        tile_size == (if eight_bit { 0x40u32 } else { 0x20u32 }),
                        entry == tile_map_entry_of(halfword_at(mem_map.memory@, tilemap_location + 0x800 * sbb + 2 * (32 * se_column + tile))),
                        entry.tile_index < 1024,
                        entry.palette_bank < 16,
                        bx == (x + hofs) % w,
                        0 <= bx < w,
                        sbb < 4,
                        map_address == tilemap_location + 0x800 * sbb + 2 * (32 * se_column + tile),
                        tile_px < 8 ==> {
                            &&& bx % 8 == tile_px
                            &&& (bx / 8) % 32 == tile
                            &&& sbb == text_bg_block(background_width, background_height, bx, by)
                        },
                        tile_px == 8 ==> {
                            &&& bx % 8 == 0
                            &&& tile < 31 ==> (bx / 8) % 32 == tile + 1 && sbb == text_bg_block(
                                background_width,
                                background_height,
                                bx,
                                by,
                            )
                            &&& tile == 31 ==> bx % 256 == 0 && text_bg_block(background_width, background_height, bx, by)
                                == (if w == 512 {
                                if sbb % 2 == 0 { sbb + 1 } else { sbb - 1 }
                            } else {
                                sbb as int
                            })
                        },
                        text_bg_rendered_up_to(*self, *old(self), mem_map.memory@, bg_number as int, x as int),
                    decreases 8 - tile_px,
                {
                    let color = read_text_bg_texel(mem_map, entry, tileset_location, eight_bit, tile_size, tile_px, tile_py);
                    assert(color == text_bg_pixel(*old(self), mem_map.memory@, bg_number as int, x as int));
                    self.backgrounds[bg_number].scan_line.set(x as usize, color);
                    x = x + 1;
                    if x == DISPLAY_WIDTH {
                        return;
                    }
                    proof {
                        lemma_next_column((x - 1) as int, hofs, w);
                        bx = if bx + 1 == w { 0 } else { bx + 1 };
                    }
                    tile_px = tile_px + 1;
                }
                start_tile_x = 0;
                map_address = map_address + 2;
                tile = tile + 1;
            }
            se_row = 0;
            if background_width == 512 {
                proof {
                    lemma_toggle_block(sbb);
                }
                sbb = sbb ^ 1;
            }
        }
    }

    /// Renders the current line of affine background 2 or 3 (see
    /// `aff_bg_pixel`).
    #[verifier::rlimit(50)]
    pub fn render_aff_bg(&mut self, mem_map: &MemoryMap, bg_number: usize)
        requires
            old(self).wf(),
            bg_number == 2 || bg_number == 3,
            mem_map.memory.len() >= 0x0602_0000,
        ensures
            final(self).wf(),
            forall|x: int| 0 <= x < 240 ==> #[trigger] final(self).backgrounds@[bg_number as int].scan_line@[x]
                == aff_bg_pixel(*old(self), mem_map.memory@, bg_number as int, x),
            forall|i: int| 0 <= i < 4 && i != bg_number ==> #[trigger] final(self).backgrounds@[i] == old(self).backgrounds@[i],
            final(self).backgrounds@[bg_number as int].control == old(self).backgrounds@[bg_number as int].control,
            final(self).backgrounds@[bg_number as int].id == old(self).backgrounds@[bg_number as int].id,
            final(self).backgrounds@[bg_number as int].horizontal_offset == old(self).backgrounds@[bg_number as int].horizontal_offset,
            final(self).backgrounds@[bg_number as int].vertical_offset == old(self).backgrounds@[bg_number as int].vertical_offset,
            *final(self) == (GPU { backgrounds: final(self).backgrounds, ..*old(self) }),
    {
        let control = self.backgrounds[bg_number].control;
        let texture_size: i32 = match control.get_screen_size() {
            0 => 128,
            1 => 256,
            2 => 512,
            _ => 1024,
        };
        let ref_point_x = sign_extend_reference(self.bg_affine_components[bg_number - 2].refrence_point_x_internal);
        let ref_point_y = sign_extend_reference(self.bg_affine_components[bg_number - 2].refrence_point_y_internal);
        let pa = self.bg_affine_components[bg_number - 2].rotation_scaling_param_a.signed_value();
        let pc = self.bg_affine_components[bg_number - 2].rotation_scaling_param_c.signed_value();
        let screen_block = control.get_tilemap_location();
        let char_block = control.get_tileset_location();
        let wraparound = control.get_display_area_overflow();
        let mut screen_x: u32 = 0;
        while screen_x < DISPLAY_WIDTH
            invariant
                screen_x <= DISPLAY_WIDTH,
                bg_number == 2 || bg_number == 3,
                self.wf(),
                mem_map.memory.len() >= 0x0602_0000,
                control == old(self).backgrounds@[bg_number as int].control,
                texture_size == aff_texture_size(control.screen_size()),
                ref_point_x == sign_extend_28(old(self).bg_affine_components@[bg_number - 2].refrence_point_x_internal),
                ref_point_y == sign_extend_28(old(self).bg_affine_components@[bg_number - 2].refrence_point_y_internal),
                pa == old(self).bg_affine_components@[bg_number - 2].rotation_scaling_param_a.value as i16 as i32,
                pc == old(self).bg_affine_components@[bg_number - 2].rotation_scaling_param_c.value as i16 as i32,
                -0x0800_0000 <= ref_point_x < 0x0800_0000,
                -0x0800_0000 <= ref_point_y < 0x0800_0000,
                -32768 <= pa < 32768,
                -32768 <= pc < 32768,
                screen_block == control.tilemap_location(),
                screen_block <= 0x0600_F800,
                char_block == control.tileset_location(),
                char_block <= 0x0600_C000,
                wraparound == control.display_area_overflow(),
                forall|k: int| 0 <= k < screen_x ==> #[trigger] self.backgrounds@[bg_number as int].scan_line@[k]
                    == aff_bg_pixel(*old(self), mem_map.memory@, bg_number as int, k),
                forall|i: int| 0 <= i < 4 && i != bg_number ==> #[trigger] self.backgrounds@[i] == old(self).backgrounds@[i],
                self.backgrounds@[bg_number as int].control == old(self).backgrounds@[bg_number as int].control,
                self.backgrounds@[bg_number as int].id == old(self).backgrounds@[bg_number as int].id,
                self.backgrounds@[bg_number as int].horizontal_offset == old(self).backgrounds@[bg_number as int].horizontal_offset,
                self.backgrounds@[bg_number as int].vertical_offset == old(self).backgrounds@[bg_number as int].vertical_offset,
                *self == (GPU { backgrounds: self.backgrounds, ..*old(self) }),
            decreases DISPLAY_WIDTH - screen_x,
        {
            let mut point_x = coordinate(ref_point_x, screen_x, pa);
            let mut point_y = coordinate(ref_point_y, screen_x, pc);
            let inside = point_x >= 0 && point_x < texture_size && point_y >= 0 && point_y < texture_size;
            let color = if !inside && wraparound == 0 {
                Rgb15::new(0x8000)
            } else {
                point_x = wrap_coordinate(point_x, texture_size);
                point_y = wrap_coordinate(point_y, texture_size);
                let row_tiles = texture_size as u32 / 8;
                let tile_row = point_y as u32 / 8;
                assert(row_tiles * tile_row <= 128 * 128) by (nonlinear_arith)
                    requires
                        row_tiles <= 128,
                        tile_row <= 128,
                ;
                let map_addr = screen_block + (row_tiles * tile_row + (point_x as u32 / 8));
                let tile_index = mem_map.read_u8(map_addr) as u32;
                let tile_addr = char_block + tile_index * 0x40;
                let pixel_index_address = tile_addr + (8 * ((point_y % 8) as u32) + ((point_x % 8) as u32));
                let pixel_index = mem_map.read_u8(pixel_index_address) as u32;
                if pixel_index == 0 {
                    Rgb15::new(0x8000)
                } else {
                    let palette_ram_index = 2 * pixel_index;
                    Rgb15::new(mem_map.read_u16(palette_ram_index + 0x500_0000u32))
                }
            };
            self.backgrounds[bg_number].scan_line.set(screen_x as usize, color);
            screen_x = screen_x + 1;
        }
    }
}

} // verus!
