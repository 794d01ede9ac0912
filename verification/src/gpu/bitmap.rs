use vstd::prelude::*;
use crate::gpu::gpu::{DISPLAY_HEIGHT, DISPLAY_WIDTH, GPU};
use crate::gpu::rgb15::{rgb15_of, Rgb15};
use crate::memory::memory_map::{halfword_at, MemoryMap, PALETTE_RAM_START};

verus! {

/// The start of video RAM, where the bitmap modes keep their frames.
pub const VRAM_START: u32 = 0x0600_0000;

/// A 28-bit reference point register as a signed number (bit 27 is the sign).
pub open spec fn sign_extend_28(value: u32) -> i32 {
    if value & 0x0800_0000 != 0 {
        (value | 0xF000_0000) as i32
    } else {
        (value & 0x0FFF_FFFF) as i32
    }
}

/// The texture coordinate that screen column `x` reaches from a reference
/// point along a matrix column, in whole pixels (rounded down).
pub open spec fn affine_coordinate(reference: i32, x: int, param: i32) -> i32 {
    ((reference + x * param) as i32) >> 8i32
}

/// The page of video RAM that the frame-select bit shows in modes 4 and 5.
pub open spec fn bitmap_page(frame_select: u8) -> u32 {
    if frame_select == 0 { 0x0600_0000 } else { 0x0600_A000 }
}

/// The colour of column `x` in mode 3: the 16-bit colour at the texture
/// point of the 240x160 bitmap, transparent outside it.
pub open spec fn mode_3_pixel(mem: Seq<u8>, ref_x: i32, ref_y: i32, pa: i32, pc: i32, x: int) -> Rgb15 {
    let px = affine_coordinate(ref_x, x, pa);
    let py = affine_coordinate(ref_y, x, pc);
    if px < 0 || px >= 240 || py < 0 || py >= 160 {
        rgb15_of(0x8000)
    } else {
        rgb15_of(halfword_at(mem, VRAM_START + 2 * (240 * py + px)))
    }
}

/// The colour of column `x` in mode 4: the palette colour that the byte at
/// the texture point of the 240x160 page selects, transparent outside it.
pub open spec fn mode_4_pixel(mem: Seq<u8>, page: u32, ref_x: i32, ref_y: i32, pa: i32, pc: i32, x: int) -> Rgb15 {
    let px = affine_coordinate(ref_x, x, pa);
    let py = affine_coordinate(ref_y, x, pc);
    if px < 0 || px >= 240 || py < 0 || py >= 160 {
        rgb15_of(0x8000)
    } else {
        rgb15_of(halfword_at(mem, 2 * mem[page + 240 * py + px] + PALETTE_RAM_START))
    }
}

/// The colour of column `x` in mode 5: the 16-bit colour at the texture
/// point of the 160x128 page, transparent outside it.
pub open spec fn mode_5_pixel(mem: Seq<u8>, page: u32, ref_x: i32, ref_y: i32, pa: i32, pc: i32, x: int) -> Rgb15 {
    let px = affine_coordinate(ref_x, x, pa);
    let py = affine_coordinate(ref_y, x, pc);
    if px < 0 || px >= 160 || py < 0 || py >= 128 {
        rgb15_of(0x8000)
    } else {
        rgb15_of(halfword_at(mem, page + 2 * (160 * py + px)))
    }
}

/// A reference point register as a signed number (see `sign_extend_28`).
pub(crate) fn sign_extend_reference(value: u32) -> (r: i32)
    ensures
        r == sign_extend_28(value),
        -0x0800_0000 <= r < 0x0800_0000,
{
    proof {
        assert(value & 0x0800_0000 != 0 ==> -0x0800_0000 <= ((value | 0xF000_0000) as i32) < 0)
            by (bit_vector);
        assert(value & 0x0800_0000 == 0 ==> 0 <= ((value & 0x0FFF_FFFF) as i32) < 0x0800_0000) by (bit_vector);
    }
    if value & 0x0800_0000 != 0 {
        (value | 0xF000_0000) as i32
    } else {
        (value & 0x0FFF_FFFF) as i32
    }
}

/// The texture coordinate of screen column `x` (see `affine_coordinate`).
pub(crate) fn coordinate(reference: i32, x: u32, param: i32) -> (c: i32)
    requires
        -0x0800_0000 <= reference < 0x0800_0000,
        x < 240,
        -32768 <= param < 32768,
    ensures
        c == affine_coordinate(reference, x as int, param),
        -0x10_0000 <= c <= 0x10_0000,
{
    assert(-240 * 32768 <= (x as i32) * param <= 240 * 32768) by (nonlinear_arith)
        requires
            x < 240,
            -32768 <= param < 32768,
    ;
    let sum = reference + (x as i32) * param;
    assert(-0x10_0000 <= sum >> 8i32 <= 0x10_0000) by (bit_vector)
        requires
            -0x0800_0000 - 240 * 32768 <= sum <= 0x0800_0000 + 240 * 32768,
    ;
    sum >> 8i32
}

impl GPU {
    /// Renders the current line of background 2 in mode 3 (a 240x160 bitmap
    /// of direct colours) through the affine transform of background 2.
    pub fn render_mode_3(&mut self, mem_map: &MemoryMap)
        requires
            old(self).wf(),
            mem_map.memory.len() >= 0x0602_0000,
        ensures
            final(self).wf(),
            forall|x: int| 0 <= x < 240 ==> #[trigger] final(self).backgrounds@[2].scan_line@[x] == mode_3_pixel(
                mem_map.memory@,
                sign_extend_28(old(self).bg_affine_components@[0].refrence_point_x_internal),
                sign_extend_28(old(self).bg_affine_components@[0].refrence_point_y_internal),
                old(self).bg_affine_components@[0].rotation_scaling_param_a.value as i16 as i32,
                old(self).bg_affine_components@[0].rotation_scaling_param_c.value as i16 as i32,
                x,
            ),
            forall|i: int| 0 <= i < 4 && i != 2 ==> #[trigger] final(self).backgrounds@[i] == old(self).backgrounds@[i],
            final(self).backgrounds@[2].id == old(self).backgrounds@[2].id,
            final(self).backgrounds@[2].control == old(self).backgrounds@[2].control,
            final(self).backgrounds@[2].horizontal_offset == old(self).backgrounds@[2].horizontal_offset,
            final(self).backgrounds@[2].vertical_offset == old(self).backgrounds@[2].vertical_offset,
            *final(self) == (GPU { backgrounds: final(self).backgrounds, ..*old(self) }),
    {
        let map_start_address: u32 = VRAM_START;
        let pa = self.bg_affine_components[0].rotation_scaling_param_a.signed_value();
        let pc = self.bg_affine_components[0].rotation_scaling_param_c.signed_value();
        let ref_point_x = sign_extend_reference(self.bg_affine_components[0].refrence_point_x_internal);
        let ref_point_y = sign_extend_reference(self.bg_affine_components[0].refrence_point_y_internal);
        let mut x: u32 = 0;
        while x < DISPLAY_WIDTH
            invariant
                x <= DISPLAY_WIDTH,
                self.wf(),
                mem_map.memory.len() >= 0x0602_0000,
                forall|k: int| 0 <= k < x ==> #[trigger] self.backgrounds@[2].scan_line@[k] == mode_3_pixel(
                    mem_map.memory@, ref_point_x, ref_point_y, pa, pc, k),
                -0x0800_0000 <= ref_point_x < 0x0800_0000,
                -0x0800_0000 <= ref_point_y < 0x0800_0000,
                -32768 <= pa < 32768,
                -32768 <= pc < 32768,
                map_start_address == VRAM_START,
                forall|i: int| 0 <= i < 4 && i != 2 ==> #[trigger] self.backgrounds@[i] == old(self).backgrounds@[i],
                self.backgrounds@[2].id == old(self).backgrounds@[2].id,
                self.backgrounds@[2].control == old(self).backgrounds@[2].control,
                self.backgrounds@[2].horizontal_offset == old(self).backgrounds@[2].horizontal_offset,
                self.backgrounds@[2].vertical_offset == old(self).backgrounds@[2].vertical_offset,
                *self == (GPU { backgrounds: self.backgrounds, ..*old(self) }),
            decreases DISPLAY_WIDTH - x,
        {
            let pixel_x = coordinate(ref_point_x, x, pa);
            let pixel_y = coordinate(ref_point_y, x, pc);
            let color = if pixel_x < 0 || pixel_x >= (DISPLAY_WIDTH as i32) || pixel_y < 0 || pixel_y >= (DISPLAY_HEIGHT as i32) {
                Rgb15::new(0x8000)
            } else {
                let bitmap_index = DISPLAY_WIDTH * (pixel_y as u32) + (pixel_x as u32);
                Rgb15::new(mem_map.read_u16((2 * bitmap_index) + map_start_address))
            };
            self.backgrounds[2].scan_line.set(x as usize, color);
            x = x + 1;
        }
    }

    /// Renders the current line of background 2 in mode 4 (a 240x160 bitmap
    /// of palette indices in the page that the frame-select bit shows)
    /// through the affine transform of background 2.
    pub fn render_mode_4(&mut self, mem_map: &MemoryMap)
        requires
            old(self).wf(),
            mem_map.memory.len() >= 0x0602_0000,
        ensures
            final(self).wf(),
            forall|x: int| 0 <= x < 240 ==> #[trigger] final(self).backgrounds@[2].scan_line@[x] == mode_4_pixel(
                mem_map.memory@,
                bitmap_page(old(self).display_control.display_frame_select()),
                sign_extend_28(old(self).bg_affine_components@[0].refrence_point_x_internal),
                sign_extend_28(old(self).bg_affine_components@[0].refrence_point_y_internal),
                old(self).bg_affine_components@[0].rotation_scaling_param_a.value as i16 as i32,
                old(self).bg_affine_components@[0].rotation_scaling_param_c.value as i16 as i32,
                x,
            ),
            forall|i: int| 0 <= i < 4 && i != 2 ==> #[trigger] final(self).backgrounds@[i] == old(self).backgrounds@[i],
            final(self).backgrounds@[2].id == old(self).backgrounds@[2].id,
            final(self).backgrounds@[2].control == old(self).backgrounds@[2].control,
            final(self).backgrounds@[2].horizontal_offset == old(self).backgrounds@[2].horizontal_offset,
            final(self).backgrounds@[2].vertical_offset == old(self).backgrounds@[2].vertical_offset,
            *final(self) == (GPU { backgrounds: final(self).backgrounds, ..*old(self) }),
    {
        let page_ofs: u32 = match self.display_control.get_display_frame_select() {
            0 => 0x0600_0000,
            _ => 0x0600_A000,
        };
        let pa = self.bg_affine_components[0].rotation_scaling_param_a.signed_value();
        let pc = self.bg_affine_components[0].rotation_scaling_param_c.signed_value();
        let ref_point_x = sign_extend_reference(self.bg_affine_components[0].refrence_point_x_internal);
        let ref_point_y = sign_extend_reference(self.bg_affine_components[0].refrence_point_y_internal);
        let mut x: u32 = 0;
        while x < DISPLAY_WIDTH
            invariant
                x <= DISPLAY_WIDTH,
                self.wf(),
                mem_map.memory.len() >= 0x0602_0000,
                page_ofs == bitmap_page(old(self).display_control.display_frame_select()),
                forall|k: int| 0 <= k < x ==> #[trigger] self.backgrounds@[2].scan_line@[k] == mode_4_pixel(
                    mem_map.memory@, page_ofs, ref_point_x, ref_point_y, pa, pc, k),
                -0x0800_0000 <= ref_point_x < 0x0800_0000,
                -0x0800_0000 <= ref_point_y < 0x0800_0000,
                -32768 <= pa < 32768,
                -32768 <= pc < 32768,
                forall|i: int| 0 <= i < 4 && i != 2 ==> #[trigger] self.backgrounds@[i] == old(self).backgrounds@[i],
                self.backgrounds@[2].id == old(self).backgrounds@[2].id,
                self.backgrounds@[2].control == old(self).backgrounds@[2].control,
                self.backgrounds@[2].horizontal_offset == old(self).backgrounds@[2].horizontal_offset,
                self.backgrounds@[2].vertical_offset == old(self).backgrounds@[2].vertical_offset,
                *self == (GPU { backgrounds: self.backgrounds, ..*old(self) }),
            decreases DISPLAY_WIDTH - x,
        {
            let pixel_x = coordinate(ref_point_x, x, pa);
            let pixel_y = coordinate(ref_point_y, x, pc);
            let color = if pixel_x < 0 || pixel_x >= (DISPLAY_WIDTH as i32) || pixel_y < 0 || pixel_y >= (DISPLAY_HEIGHT as i32) {
                Rgb15::new(0x8000)
            } else {
                let bitmap_index = DISPLAY_WIDTH * (pixel_y as u32) + (pixel_x as u32);
                let bitmap_offset = page_ofs + bitmap_index;
                let index = mem_map.read_u8(bitmap_offset) as u32;
                Rgb15::new(mem_map.read_u16((2 * index) + PALETTE_RAM_START))
            };
            self.backgrounds[2].scan_line.set(x as usize, color);
            x = x + 1;
        }
    }

    /// Renders the first 160 columns of the current line of background 2 in
    /// mode 5 (a 160x128 bitmap of direct colours in the page that the
    /// frame-select bit shows) through the affine transform of background 2;
    /// the rest of the line is left as it was.
    pub fn render_mode_5(&mut self, mem_map: &MemoryMap)
        requires
            old(self).wf(),
            mem_map.memory.len() >= 0x0602_0000,
        ensures
            final(self).wf(),
            forall|x: int| 0 <= x < 160 ==> #[trigger] final(self).backgrounds@[2].scan_line@[x] == mode_5_pixel(
                mem_map.memory@,
                bitmap_page(old(self).display_control.display_frame_select()),
                sign_extend_28(old(self).bg_affine_components@[0].refrence_point_x_internal),
                sign_extend_28(old(self).bg_affine_components@[0].refrence_point_y_internal),
                old(self).bg_affine_components@[0].rotation_scaling_param_a.value as i16 as i32,
                old(self).bg_affine_components@[0].rotation_scaling_param_c.value as i16 as i32,
                x,
            ),
            forall|x: int| 160 <= x < 240 ==> #[trigger] final(self).backgrounds@[2].scan_line@[x]
                == old(self).backgrounds@[2].scan_line@[x],
            forall|i: int| 0 <= i < 4 && i != 2 ==> #[trigger] final(self).backgrounds@[i] == old(self).backgrounds@[i],
            final(self).backgrounds@[2].id == old(self).backgrounds@[2].id,
            final(self).backgrounds@[2].control == old(self).backgrounds@[2].control,
            final(self).backgrounds@[2].horizontal_offset == old(self).backgrounds@[2].horizontal_offset,
            final(self).backgrounds@[2].vertical_offset == old(self).backgrounds@[2].vertical_offset,
            *final(self) == (GPU { backgrounds: final(self).backgrounds, ..*old(self) }),
    {
        let page_ofs: u32 = match self.display_control.get_display_frame_select() {
            0 => 0x0600_0000,
            _ => 0x0600_A000,
        };
        let pa = self.bg_affine_components[0].rotation_scaling_param_a.signed_value();
        let pc = self.bg_affine_components[0].rotation_scaling_param_c.signed_value();
        let ref_point_x = sign_extend_reference(self.bg_affine_components[0].refrence_point_x_internal);
        let ref_point_y = sign_extend_reference(self.bg_affine_components[0].refrence_point_y_internal);
        let mut x: u32 = 0;
        while x < 160
            invariant
                x <= 160,
                self.wf(),
                mem_map.memory.len() >= 0x0602_0000,
                page_ofs == bitmap_page(old(self).display_control.display_frame_select()),
                forall|k: int| 0 <= k < x ==> #[trigger] self.backgrounds@[2].scan_line@[k] == mode_5_pixel(
                    mem_map.memory@, page_ofs, ref_point_x, ref_point_y, pa, pc, k),
                forall|k: int| x <= k < 240 ==> #[trigger] self.backgrounds@[2].scan_line@[k]
                    == old(self).backgrounds@[2].scan_line@[k],
                -0x0800_0000 <= ref_point_x < 0x0800_0000,
                -0x0800_0000 <= ref_point_y < 0x0800_0000,
                -32768 <= pa < 32768,
                -32768 <= pc < 32768,
                forall|i: int| 0 <= i < 4 && i != 2 ==> #[trigger] self.backgrounds@[i] == old(self).backgrounds@[i],
                self.backgrounds@[2].id == old(self).backgrounds@[2].id,
                self.backgrounds@[2].control == old(self).backgrounds@[2].control,
                self.backgrounds@[2].horizontal_offset == old(self).backgrounds@[2].horizontal_offset,
                self.backgrounds@[2].vertical_offset == old(self).backgrounds@[2].vertical_offset,
                *self == (GPU { backgrounds: self.backgrounds, ..*old(self) }),
            decreases 160 - x,
        {
            let pixel_x = coordinate(ref_point_x, x, pa);
            let pixel_y = coordinate(ref_point_y, x, pc);
            let color = if pixel_x < 0 || pixel_x >= 160 || pixel_y < 0 || pixel_y >= 128 {
                Rgb15::new(0x8000)
            } else {
                let bitmap_index = 160u32 * (pixel_y as u32) + (pixel_x as u32);
                let bitmap_offset = page_ofs + (2 * bitmap_index);
                Rgb15::new(mem_map.read_u16(bitmap_offset))
            };
            self.backgrounds[2].scan_line.set(x as usize, color);
            x = x + 1;
        }
    }
}

} // verus!
