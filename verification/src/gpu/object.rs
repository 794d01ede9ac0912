use vstd::prelude::*;
use crate::gpu::gpu::{DISPLAY_HEIGHT, DISPLAY_WIDTH, GPU, WINDOW_SIZE};
use crate::gpu::rgb15::{rgb15_of, Rgb15};
use crate::memory::lcd_io_registers::{OBJRotScaleParam, ObjAttribute0, ObjAttribute1, ObjAttribute2, PixelFormat};
use crate::memory::memory_map::{halfword_at, MemoryMap};

verus! {

/// The width and height in pixels of a sprite of a given size (0-3) and
/// shape (0 square, 1 wide, 2 tall); the unused shape 3 gives 8x8.
pub open spec fn obj_dimensions(size: u8, shape: u8) -> (int, int) {
    if shape == 0 {
        if size == 0 { (8, 8) } else if size == 1 { (16, 16) } else if size == 2 { (32, 32) } else if size == 3 { (64, 64) } else { (8, 8) }
    } else if shape == 1 {
        if size == 0 { (16, 8) } else if size == 1 { (32, 8) } else if size == 2 { (32, 16) } else if size == 3 { (64, 32) } else { (8, 8) }
    } else if shape == 2 {
        if size == 0 { (8, 16) } else if size == 1 { (8, 32) } else if size == 2 { (16, 32) } else if size == 3 { (32, 64) } else { (8, 8) }
    } else {
        (8, 8)
    }
}

/// The sprite sizes: a square sprite (shape 0) is as wide as it is tall and
/// doubles its side with each size step from 8; a wide sprite (shape 1) is
/// wider than it is tall, and a tall sprite (shape 2) is the wide sprite of
/// the same size turned on its side; every sprite side is 8 to 64 pixels.
pub proof fn lemma_obj_dimensions_shapes(size: u8)
    requires
        size < 4,
    ensures
        obj_dimensions(size, 0).0 == obj_dimensions(size, 0).1,
        obj_dimensions(0, 0).0 == 8,
        size < 3 ==> obj_dimensions((size + 1) as u8, 0).0 == 2 * obj_dimensions(size, 0).0,
        obj_dimensions(size, 1).0 > obj_dimensions(size, 1).1,
        obj_dimensions(size, 2).0 == obj_dimensions(size, 1).1,
        obj_dimensions(size, 2).1 == obj_dimensions(size, 1).0,
        obj_dimensions(size, 2).1 > obj_dimensions(size, 2).0,
        forall|shape: u8| 8 <= #[trigger] obj_dimensions(size, shape).0 <= 64 && 8 <= obj_dimensions(size, shape).1 <= 64,
{
}

/// A sprite: its three attribute registers.
#[derive(Clone, Copy, Debug)]
pub struct Object {
    pub attr0: ObjAttribute0,
    pub attr1: ObjAttribute1,
    pub attr2: ObjAttribute2,
}

impl Object {
    /// The sprite's X (0-511) and Y (0-255) fields.
    pub fn position(&self) -> (pos: (i32, i32))
        ensures
            pos.0 == self.attr1.x_coordinate(),
            pos.1 == self.attr0.y_coordinate(),
            0 <= pos.0 < 512,
            0 <= pos.1 < 256,
    {
        (self.attr1.get_x_coordinate() as i16 as i32, self.attr0.get_y_coordinate() as i16 as i32)
    }

    /// The sprite's width and height (see `obj_dimensions`).
    pub fn size(&self) -> (dims: (i32, i32))
        ensures
            (dims.0 as int, dims.1 as int) == obj_dimensions(self.attr1.obj_size(), self.attr0.obj_shape()),
    {
        match (self.attr1.get_obj_size(), self.attr0.get_obj_shape()) {
            (0, 0) => (8, 8),
            (1, 0) => (16, 16),
            (2, 0) => (32, 32),
            (3, 0) => (64, 64),
            (0, 1) => (16, 8),
            (1, 1) => (32, 8),
            (2, 1) => (32, 16),
            (3, 1) => (64, 32),
            (0, 2) => (8, 16),
            (1, 2) => (8, 32),
            (2, 2) => (16, 32),
            (3, 2) => (32, 64),
            _ => (8, 8),
        }
    }

    /// The pixel format the colour flag selects: 4 bits when clear, 8 when set.
    pub fn color_format(&self) -> (format: PixelFormat)
        ensures
            format == (if self.attr0.color_flag() == 0 { PixelFormat::FourBit } else { PixelFormat::EightBit }),
    {
        if self.attr0.get_color_flag() == 0 {
            PixelFormat::FourBit
        } else {
            PixelFormat::EightBit
        }
    }

    /// The bytes one 8x8 tile of the sprite takes: 0x20 at 4 bits per pixel,
    /// 0x40 at 8.
    pub fn tile_size(&self) -> (bytes: i32)
        ensures
            bytes == (if self.attr0.color_flag() == 0 { 0x20int } else { 0x40int }),
    {
        if self.attr0.get_color_flag() == 0 {
            0x20
        } else {
            0x40
        }
    }
}

/// One of the 32 sprite transformation matrices.
#[derive(Clone, Copy, Debug)]
pub struct AffineMatrix {
    pub pa: OBJRotScaleParam,
    pub pb: OBJRotScaleParam,
    pub pc: OBJRotScaleParam,
    pub pd: OBJRotScaleParam,
}

/// A sprite's Y field as a screen row: fields from 160 up are rows above the
/// screen.
pub open spec fn wrapped_y(y: int) -> int {
    if y >= 160 { y - 256 } else { y }
}

/// A sprite's X field as a screen column: fields from 240 up are columns left
/// of the screen.
pub open spec fn wrapped_x(x: int) -> int {
    if x >= 240 { x - 512 } else { x }
}

/// The address of a sprite's first tile: sprite tiles start at 0x06010000,
/// or at 0x06014000 in the bitmap modes, in steps of 32 bytes.
pub open spec fn obj_tile_base(bg_mode: u8, tile_index: u16) -> int {
    (if bg_mode > 2 { 0x0601_4000int } else { 0x0601_0000int }) + 0x20 * tile_index
}

/// How many tiles one row of sprite tiles spans in memory: a fixed 32 (4-bit)
/// or 16 (8-bit) tiles in the two-dimensional mapping, the sprite's own width
/// in the one-dimensional mapping.
pub open spec fn obj_tile_array_width(mapping: u8, eight_bit: bool, width: int) -> int {
    if mapping == 0 {
        if eight_bit { 16 } else { 32 }
    } else {
        width / 8
    }
}

/// The palette index of texel (`sx`, `sy`) of a sprite: found in its tile,
/// one byte per pixel, or a nibble (low nibble first) at 4 bits per pixel.
pub open spec fn obj_pixel_index(mem: Seq<u8>, eight_bit: bool, tile_base: int, tile_array_width: int, tile_size: int, sx: int, sy: int) -> u32 {
    let tile_x = sx % 8;
    let tile_y = sy % 8;
    let tile_addr = tile_base + (tile_array_width * (sy / 8) + sx / 8) * tile_size;
    if eight_bit {
        mem[tile_addr + 8 * tile_y + tile_x] as u32
    } else {
        let v = mem[tile_addr + 4 * tile_y + tile_x / 2];
        (if tile_x % 2 != 0 { v >> 4u8 } else { v & 0xF }) as u32
    }
}

/// The colour of a sprite palette index in a bank: index 0 (of any bank) is
/// transparent, else the colour from the sprite palette at 0x05000200.
pub open spec fn obj_palette_color(mem: Seq<u8>, pixel_index: u32, bank: u32) -> Rgb15 {
    if pixel_index == 0 || (bank != 0 && pixel_index % 16 == 0) {
        rgb15_of(0x8000)
    } else {
        rgb15_of(halfword_at(mem, 0x0500_0000 + 0x200 + 2 * pixel_index + 0x20 * bank))
    }
}

/// The colour a normal (non-affine) sprite shows at screen column `x` of the
/// current line, with its flips applied.
pub open spec fn normal_obj_color(gpu: GPU, mem: Seq<u8>, n: int, x: int) -> Rgb15 {
    let obj = gpu.objects@[n];
    let line = gpu.vertical_count.current_scanline() as int;
    let oy = wrapped_y(obj.attr0.y_coordinate() as int);
    let ox = wrapped_x(obj.attr1.x_coordinate() as int);
    let (w, h) = obj_dimensions(obj.attr1.obj_size(), obj.attr0.obj_shape());
    let eight_bit = obj.attr0.color_flag() != 0;
    let sy = if obj.attr1.vertical_flip() != 0 { h - (line - oy) - 1 } else { line - oy };
    let sx = if obj.attr1.horizontal_flip() != 0 { w - (x - ox) - 1 } else { x - ox };
    let bank: u32 = if eight_bit { 0 } else { obj.attr2.palette_number() as u32 };
    obj_palette_color(
        mem,
        obj_pixel_index(
            mem,
            eight_bit,
            obj_tile_base(gpu.display_control.bg_mode(), obj.attr2.character_name()),
            obj_tile_array_width(gpu.display_control.obj_charcter_vram_mapping(), eight_bit, w),
            if eight_bit { 0x40 } else { 0x20 },
            sx,
            sy,
        ),
        bank,
    )
}

/// Whether a normal sprite covers screen column `x` of the current line.
pub open spec fn normal_obj_covers(gpu: GPU, n: int, x: int) -> bool {
    let obj = gpu.objects@[n];
    let line = gpu.vertical_count.current_scanline() as int;
    let oy = wrapped_y(obj.attr0.y_coordinate() as int);
    let ox = wrapped_x(obj.attr1.x_coordinate() as int);
    let (w, h) = obj_dimensions(obj.attr1.obj_size(), obj.attr0.obj_shape());
    &&& oy <= line < oy + h
    &&& ox <= x < ox + w
    &&& 0 <= x < DISPLAY_WIDTH
}

/// Whether sprite `n` draws at screen column `x` of the current line: it
/// covers the pixel, nothing of the same or a higher priority was drawn
/// there before, and its colour there is not transparent.
pub open spec fn obj_draws(gpu: GPU, buffer: Seq<(Rgb15, u8, u8)>, n: int, x: int, color: Rgb15, covers: bool) -> bool {
    let index = DISPLAY_WIDTH * gpu.vertical_count.current_scanline() + x;
    &&& covers
    &&& buffer[index].1 > gpu.objects@[n].attr2.priority_rel_to_bg()
    &&& color.value != 0x8000
}

/// The sprite layer after a sprite has drawn on the current line: a
/// drawn pixel takes the sprite's colour, priority and graphics mode, unless
/// the sprite is an object-window sprite (graphics mode 2), which draws into
/// the window mask instead.
pub open spec fn obj_buffer_after(gpu: GPU, buffer: Seq<(Rgb15, u8, u8)>, n: int, color: spec_fn(int) -> Rgb15, covers: spec_fn(int) -> bool) -> Seq<(Rgb15, u8, u8)> {
    let line = gpu.vertical_count.current_scanline() as int;
    let obj = gpu.objects@[n];
    Seq::new(
        buffer.len(),
        |i: int| {
            let x = i - DISPLAY_WIDTH * line;
            if 0 <= x < DISPLAY_WIDTH && obj_draws(gpu, buffer, n, x, color(x), covers(x)) && obj.attr0.gfx_mode() != 2 {
                (color(x), obj.attr2.priority_rel_to_bg(), obj.attr0.gfx_mode())
            } else {
                buffer[i]
            }
        },
    )
}

/// The object window mask after a sprite has drawn on the current line.
pub open spec fn obj_window_after(gpu: GPU, buffer: Seq<(Rgb15, u8, u8)>, window: Seq<bool>, n: int, color: spec_fn(int) -> Rgb15, covers: spec_fn(int) -> bool) -> Seq<bool> {
    let line = gpu.vertical_count.current_scanline() as int;
    let obj = gpu.objects@[n];
    Seq::new(
        window.len(),
        |i: int| {
            let x = i - DISPLAY_WIDTH * line;
            if 0 <= x < DISPLAY_WIDTH && obj_draws(gpu, buffer, n, x, color(x), covers(x)) && obj.attr0.gfx_mode() == 2 {
                true
            } else {
                window[i]
            }
        },
    )
}

/// The bounds on what one sprite may change on the current line: a pixel
/// of the sprite layer changes only in the current row, at a column that the
/// sprite covers, where what was there had a lower priority (a larger
/// number), and it then holds an opaque colour with the sprite's priority and
/// graphics mode, which is not the window mode; a pixel of the window mask
/// changes only under the same conditions in window mode, and is then set.
pub open spec fn sprite_draw_bounded(
    before_buffer: Seq<(Rgb15, u8, u8)>,
    before_window: Seq<bool>,
    now_buffer: Seq<(Rgb15, u8, u8)>,
    now_window: Seq<bool>,
    gpu: GPU,
    n: int,
    covers: spec_fn(int) -> bool,
) -> bool {
    let line = gpu.vertical_count.current_scanline() as int;
    let p = gpu.objects@[n].attr2.priority_rel_to_bg();
    let g = gpu.objects@[n].attr0.gfx_mode();
    &&& now_buffer.len() == before_buffer.len()
    &&& now_window.len() == before_window.len()
    &&& forall|i: int|
        0 <= i < before_buffer.len() && #[trigger] now_buffer[i] != before_buffer[i] ==> {
            &&& 0 <= i - DISPLAY_WIDTH * line < DISPLAY_WIDTH
            &&& covers(i - DISPLAY_WIDTH * line)
            &&& before_buffer[i].1 > p
            &&& g != 2
            &&& now_buffer[i].0.value != 0x8000
            &&& now_buffer[i].1 == p
            &&& now_buffer[i].2 == g
        }
    &&& forall|i: int|
        0 <= i < before_window.len() && #[trigger] now_window[i] != before_window[i] ==> {
            &&& 0 <= i - DISPLAY_WIDTH * line < DISPLAY_WIDTH
            &&& covers(i - DISPLAY_WIDTH * line)
            &&& before_buffer[i].1 > p
            &&& g == 2
            &&& now_window[i]
        }
}

/// A sprite drawn as `obj_buffer_after` and `obj_window_after` say stays
/// within `sprite_draw_bounded`.
pub proof fn lemma_sprite_draw_bounded(
    gpu: GPU,
    buffer: Seq<(Rgb15, u8, u8)>,
    window: Seq<bool>,
    n: int,
    color: spec_fn(int) -> Rgb15,
    covers: spec_fn(int) -> bool,
)
    ensures
        sprite_draw_bounded(
            buffer,
            window,
            obj_buffer_after(gpu, buffer, n, color, covers),
            obj_window_after(gpu, buffer, window, n, color, covers),
            gpu,
            n,
            covers,
        ),
{
}

/// Whether a normal sprite can be drawn on the current line: a line below
/// the screen has no row in the sprite layer, so the sprite must then miss
/// the line or lie wholly left of the screen.
pub open spec fn normal_obj_line_fits(gpu: GPU, n: int) -> bool {
    let obj = gpu.objects@[n];
    let line = gpu.vertical_count.current_scanline() as int;
    let oy = wrapped_y(obj.attr0.y_coordinate() as int);
    let ox = wrapped_x(obj.attr1.x_coordinate() as int);
    let (w, h) = obj_dimensions(obj.attr1.obj_size(), obj.attr0.obj_shape());
    line < DISPLAY_HEIGHT || !(oy <= line < oy + h) || ox + w <= 0
}

/// Whether an affine sprite can be drawn on the current line (as
/// `normal_obj_line_fits`, with its bounding box).
pub open spec fn aff_obj_line_fits(gpu: GPU, n: int) -> bool {
    let obj = gpu.objects@[n];
    let line = gpu.vertical_count.current_scanline() as int;
    let oy = wrapped_y(obj.attr0.y_coordinate() as int);
    let ox = wrapped_x(obj.attr1.x_coordinate() as int);
    let (bw, bh) = aff_bbox(obj);
    line < DISPLAY_HEIGHT || !(oy <= line < oy + bh) || ox + bw <= 0
}

/// Whether sprite `n` can be drawn on the current line by its object mode:
/// hidden sprites always can.
pub open spec fn obj_line_fits(gpu: GPU, n: int) -> bool {
    let mode = gpu.objects@[n].attr0.obj_mode();
    if mode == 2 {
        true
    } else if mode == 0 {
        normal_obj_line_fits(gpu, n)
    } else {
        aff_obj_line_fits(gpu, n)
    }
}

/// The bounding box of an affine sprite: twice its size when the double-size
/// flag is set (object mode 3).
pub open spec fn aff_bbox(obj: Object) -> (int, int) {
    let (w, h) = obj_dimensions(obj.attr1.obj_size(), obj.attr0.obj_shape());
    if obj.attr0.obj_mode() == 3 { (2 * w, 2 * h) } else { (w, h) }
}

/// The texel (column, row) that screen column `x` of the current line maps
/// to through an affine sprite's matrix: the offsets from the bounding box
/// centre are transformed and moved to the sprite's centre.
pub open spec fn aff_obj_texel(gpu: GPU, n: int, x: int) -> (int, int) {
    let obj = gpu.objects@[n];
    let line = gpu.vertical_count.current_scanline() as int;
    let ref_y = wrapped_y(obj.attr0.y_coordinate() as int);
    let ref_x = wrapped_x(obj.attr1.x_coordinate() as int);
    let (w, h) = obj_dimensions(obj.attr1.obj_size(), obj.attr0.obj_shape());
    let (bw, bh) = aff_bbox(obj);
    let m = gpu.aff_matrices@[obj.attr1.rotation_scaling_param() as int];
    let ix = x - (ref_x + bw / 2);
    let iy = line - (ref_y + bh / 2);
    let pa = m.pa.aff_param() as i16 as int;
    let pb = m.pb.aff_param() as i16 as int;
    let pc = m.pc.aff_param() as i16 as int;
    let pd = m.pd.aff_param() as i16 as int;
    (((((pa * ix + pb * iy) as i32) >> 8i32) as int) + w / 2, ((((pc * ix + pd * iy) as i32) >> 8i32) as int) + h / 2)
}

/// Whether an affine sprite draws from its texture at screen column `x` of
/// the current line: the pixel is inside its bounding box and on screen, and
/// the texel it maps to is inside the sprite.
pub open spec fn aff_obj_covers(gpu: GPU, n: int, x: int) -> bool {
    let obj = gpu.objects@[n];
    let line = gpu.vertical_count.current_scanline() as int;
    let ref_y = wrapped_y(obj.attr0.y_coordinate() as int);
    let ref_x = wrapped_x(obj.attr1.x_coordinate() as int);
    let (w, h) = obj_dimensions(obj.attr1.obj_size(), obj.attr0.obj_shape());
    let (bw, bh) = aff_bbox(obj);
    let (tx, ty) = aff_obj_texel(gpu, n, x);
    &&& ref_y <= line < ref_y + bh
    &&& ref_x <= x < ref_x + bw
    &&& 0 <= x < DISPLAY_WIDTH
    &&& 0 <= tx < w
    &&& 0 <= ty < h
}

/// The colour an affine sprite shows at screen column `x` of the current line.
pub open spec fn aff_obj_color(gpu: GPU, mem: Seq<u8>, n: int, x: int) -> Rgb15 {
    let obj = gpu.objects@[n];
    let (w, h) = obj_dimensions(obj.attr1.obj_size(), obj.attr0.obj_shape());
    let eight_bit = obj.attr0.color_flag() != 0;
    let (tx, ty) = aff_obj_texel(gpu, n, x);
    let bank: u32 = if eight_bit { 0 } else { obj.attr2.palette_number() as u32 };
    obj_palette_color(
        mem,
        obj_pixel_index(
            mem,
            eight_bit,
            obj_tile_base(gpu.display_control.bg_mode(), obj.attr2.character_name()),
            obj_tile_array_width(gpu.display_control.obj_charcter_vram_mapping(), eight_bit, w),
            if eight_bit { 0x40 } else { 0x20 },
            tx,
            ty,
        ),
        bank,
    )
}

/// The sprite layer and object window mask after the first `k` sprites have
/// drawn the current line, in order: hidden sprites (object mode 2) draw
/// nothing, normal sprites (mode 0) and affine ones (modes 1 and 3) draw as
/// `obj_buffer_after` and `obj_window_after` say.
pub open spec fn sprite_layers(gpu: GPU, mem: Seq<u8>, k: nat) -> (Seq<(Rgb15, u8, u8)>, Seq<bool>)
    decreases k,
{
    if k == 0 {
        (gpu.obj_buffer@, gpu.obj_window@)
    } else {
        let (buffer, window) = sprite_layers(gpu, mem, (k - 1) as nat);
        let n = k - 1;
        let mode = gpu.objects@[n].attr0.obj_mode();
        if mode == 2 {
            (buffer, window)
        } else if mode == 0 {
            let color = |x: int| normal_obj_color(gpu, mem, n, x);
            let covers = |x: int| normal_obj_covers(gpu, n, x);
            (obj_buffer_after(gpu, buffer, n, color, covers), obj_window_after(gpu, buffer, window, n, color, covers))
        } else {
            let color = |x: int| aff_obj_color(gpu, mem, n, x);
            let covers = |x: int| aff_obj_covers(gpu, n, x);
            (obj_buffer_after(gpu, buffer, n, color, covers), obj_window_after(gpu, buffer, window, n, color, covers))
        }
    }
}

/// The palette index of a sprite texel, read from memory (see `obj_pixel_index`).
fn read_obj_pixel_index(mem_map: &MemoryMap, eight_bit: bool, tile_base: u32, tile_array_width: u32, tile_size: u32, sx: u32, sy: u32) -> (index: u32)
    requires
        0x0601_0000 <= tile_base <= 0x0601_4000 + 0x20 * 1023,
        tile_array_width <= 32,
        tile_size == 0x20 || tile_size == 0x40,
        sx < 64,
        sy < 64,
        mem_map.memory.len() >= 0x0602_0000,
    ensures
        index == obj_pixel_index(mem_map.memory@, eight_bit, tile_base as int, tile_array_width as int, tile_size as int, sx as int, sy as int),
        index < 256,
{
    let tile_x = sx % 8;
    let tile_y = sy % 8;
    assert(tile_array_width * (sy / 8) <= 32 * 7) by (nonlinear_arith)
        requires tile_array_width <= 32, sy < 64;
    assert((tile_array_width * (sy / 8) + sx / 8) * tile_size <= 231 * 0x40) by (nonlinear_arith)
        requires tile_array_width * (sy / 8) <= 32 * 7, sx < 64, tile_size <= 0x40;
    let tile_addr = tile_base + (tile_array_width * (sy / 8) + sx / 8) * tile_size;
    if eight_bit {
        mem_map.read_u8(tile_addr + (8 * tile_y + tile_x)) as u32
    } else {
        let value = mem_map.read_u8(tile_addr + (4 * tile_y + (tile_x / 2)));
        if tile_x % 2 != 0 {
            (value >> 4u8) as u32
        } else {
            (value & 0xf) as u32
        }
    }
}

/// The colour of a sprite palette index (see `obj_palette_color`).
fn read_obj_palette_color(mem_map: &MemoryMap, pixel_index: u32, bank: u32) -> (color: Rgb15)
    requires
        pixel_index < 256,
        bank < 16,
        mem_map.memory.len() >= 0x0602_0000,
    ensures
        color == obj_palette_color(mem_map.memory@, pixel_index, bank),
{
    if pixel_index == 0 || (bank != 0 && pixel_index % 16 == 0) {
        Rgb15::new(0x8000)
    } else {
        let palette_ram_index = 0x200 + 2 * pixel_index + 0x20 * bank;
        Rgb15::new(mem_map.read_u16(palette_ram_index + 0x500_0000u32))
    }
}

/// The colour of a normal sprite at a covered screen column (see
/// `normal_obj_color`), from the sprite's geometry worked out once per line.
fn normal_obj_texel(
    sprite: Object,
    mem_map: &MemoryMap,
    x: i32,
    current_scanline: i32,
    obj_x: i32,
    obj_y: i32,
    obj_w: i32,
    obj_h: i32,
    eight_bit: bool,
    tile_base: u32,
    tile_array_width: i32,
    tile_size: i32,
    palette_bank: u32,
) -> (c: Rgb15)
    requires
        obj_y <= current_scanline < obj_y + obj_h,
        obj_x <= x < obj_x + obj_w,
        (obj_w as int, obj_h as int) == obj_dimensions(sprite.attr1.obj_size(), sprite.attr0.obj_shape()),
        0x0601_0000 <= tile_base <= 0x0601_4000 + 0x20 * 1023,
        tile_size == (if eight_bit { 0x40int } else { 0x20int }),
        palette_bank < 16,
        0 <= tile_array_width <= 32,
        mem_map.memory.len() >= 0x0602_0000,
    ensures
        ({
            let sy = if sprite.attr1.vertical_flip() != 0 { obj_h - (current_scanline - obj_y) - 1 } else { current_scanline - obj_y };
            let sx = if sprite.attr1.horizontal_flip() != 0 { obj_w - (x - obj_x) - 1 } else { x - obj_x };
            c == obj_palette_color(
                mem_map.memory@,
                obj_pixel_index(mem_map.memory@, eight_bit, tile_base as int, tile_array_width as int, tile_size as int, sx, sy),
                palette_bank,
            )
        }),
{
    let mut sprite_y = current_scanline - obj_y;
    let mut sprite_x = x - obj_x;
    sprite_y = if sprite.attr1.get_vertical_flip() != 0 { obj_h - sprite_y - 1 } else { sprite_y };
    sprite_x = if sprite.attr1.get_horizontal_flip() != 0 { obj_w - sprite_x - 1 } else { sprite_x };
    let pixel_index = read_obj_pixel_index(
        mem_map,
        eight_bit,
        tile_base,
        tile_array_width as u32,
        tile_size as u32,
        sprite_x as u32,
        sprite_y as u32,
    );
    read_obj_palette_color(mem_map, pixel_index, palette_bank)
}

/// The texel coordinate an affine offset maps to (see `aff_obj_texel`).
fn aff_coordinate(p1: i32, d1: i32, p2: i32, d2: i32, half: i32) -> (c: i32)
    requires
        -32768 <= p1 < 32768,
        -32768 <= p2 < 32768,
        -128 <= d1 <= 128,
        -128 <= d2 <= 128,
        0 <= half <= 32,
    ensures
        c == ((((p1 * d1 + p2 * d2) as i32) >> 8i32) as int) + half,
{
    assert(-4194304 <= p1 * d1 <= 4194304) by (nonlinear_arith)
        requires -32768 <= p1 < 32768, -128 <= d1 <= 128;
    assert(-4194304 <= p2 * d2 <= 4194304) by (nonlinear_arith)
        requires -32768 <= p2 < 32768, -128 <= d2 <= 128;
    let sum = p1 * d1 + p2 * d2;
    assert(-32768 <= sum >> 8i32 <= 32768) by (bit_vector)
        requires
            -8388608 <= sum <= 8388608,
    ;
    (sum >> 8i32) + half
}

impl GPU {
    /// Draws the current line of every sprite into the sprite layer, in order
    /// (see `sprite_layers`).
    pub fn render_obj(&mut self, mem_map: &MemoryMap)
        requires
            old(self).wf(),
            forall|n: int| 0 <= n < 128 ==> obj_line_fits(*old(self), n),
            mem_map.memory.len() >= 0x0602_0000,
        ensures
            final(self).wf(),
            (final(self).obj_buffer@, final(self).obj_window@) == sprite_layers(*old(self), mem_map.memory@, 128),
            *final(self) == (GPU { obj_buffer: final(self).obj_buffer, obj_window: final(self).obj_window, ..*old(self) }),
    {
        let mut i: usize = 0;
        while i < 128
            invariant
                i <= 128,
                self.wf(),
                forall|n: int| 0 <= n < 128 ==> obj_line_fits(*old(self), n),
                mem_map.memory.len() >= 0x0602_0000,
                (self.obj_buffer@, self.obj_window@) == sprite_layers(*old(self), mem_map.memory@, i as nat),
                *self == (GPU { obj_buffer: self.obj_buffer, obj_window: self.obj_window, ..*old(self) }),
            decreases 128 - i,
        {
            let ghost before = *self;
            proof {
                assert(before == (GPU { obj_buffer: before.obj_buffer, obj_window: before.obj_window, ..*old(self) }));
                assert(obj_line_fits(*old(self), i as int));
                assert(before.objects@[i as int] == old(self).objects@[i as int]);
                assert(before.vertical_count == old(self).vertical_count);
            }
            match self.objects[i].attr0.get_obj_mode() {
                0b10 => {},
                0b00 => self.render_normal_obj(i, mem_map),
                _ => self.render_aff_obj(i, mem_map),
            }
            proof {
                let n = i as int;
                assert(before.objects@[n] == old(self).objects@[n]);
                assert((|x: int| normal_obj_color(before, mem_map.memory@, n, x)) =~= (|x: int| normal_obj_color(*old(self), mem_map.memory@, n, x)));
                assert((|x: int| normal_obj_covers(before, n, x)) =~= (|x: int| normal_obj_covers(*old(self), n, x)));
                assert((|x: int| aff_obj_color(before, mem_map.memory@, n, x)) =~= (|x: int| aff_obj_color(*old(self), mem_map.memory@, n, x)));
                assert((|x: int| aff_obj_covers(before, n, x)) =~= (|x: int| aff_obj_covers(*old(self), n, x)));
            }
            i = i + 1;
        }
    }

    /// Draws the current line of an affine sprite into the sprite layer (see
    /// `obj_buffer_after` and `obj_window_after` with `aff_obj_color` and
    /// `aff_obj_covers`).
    #[verifier::rlimit(80)]
    pub fn render_aff_obj(&mut self, sprite_num: usize, mem_map: &MemoryMap)
        requires
            old(self).wf(),
            sprite_num < 128,
            aff_obj_line_fits(*old(self), sprite_num as int),
            mem_map.memory.len() >= 0x0602_0000,
        ensures
            final(self).wf(),
            final(self).obj_buffer@ == obj_buffer_after(
                *old(self),
                old(self).obj_buffer@,
                sprite_num as int,
                (|x: int| aff_obj_color(*old(self), mem_map.memory@, sprite_num as int, x)),
                (|x: int| aff_obj_covers(*old(self), sprite_num as int, x)),
            ),
            final(self).obj_window@ == obj_window_after(
                *old(self),
                old(self).obj_buffer@,
                old(self).obj_window@,
                sprite_num as int,
                (|x: int| aff_obj_color(*old(self), mem_map.memory@, sprite_num as int, x)),
                (|x: int| aff_obj_covers(*old(self), sprite_num as int, x)),
            ),
            sprite_draw_bounded(
                old(self).obj_buffer@,
                old(self).obj_window@,
                final(self).obj_buffer@,
                final(self).obj_window@,
                *old(self),
                sprite_num as int,
                (|x: int| aff_obj_covers(*old(self), sprite_num as int, x)),
            ),
            *final(self) == (GPU { obj_buffer: final(self).obj_buffer, obj_window: final(self).obj_window, ..*old(self) }),
    {
        let ghost color = |x: int| aff_obj_color(*old(self), mem_map.memory@, sprite_num as int, x);
        let ghost covers = |x: int| aff_obj_covers(*old(self), sprite_num as int, x);
        proof {
            lemma_sprite_draw_bounded(*old(self), old(self).obj_buffer@, old(self).obj_window@, sprite_num as int, color, covers);
        }
        let sprite = self.objects[sprite_num];
        let current_scanline = self.vertical_count.get_current_scanline() as i32;
        let priority = sprite.attr2.get_priority_rel_to_bg();
        let (obj_x, obj_y) = sprite.position();
        let (obj_w, obj_h) = sprite.size();
        let gfx_mode = sprite.attr0.get_gfx_mode();
        let (bbox_w, bbox_h) = match sprite.attr0.get_obj_mode() {
            0b11 => (2 * obj_w, 2 * obj_h),
            _ => (obj_w, obj_h),
        };
        let mut ref_point_x = obj_x;
        let mut ref_point_y = obj_y;
        if obj_y >= (DISPLAY_HEIGHT as i32) {
            ref_point_y = ref_point_y - 256;
        }
        if obj_x >= (DISPLAY_WIDTH as i32) {
            ref_point_x = ref_point_x - 512;
        }
        if !(current_scanline >= ref_point_y && current_scanline < ref_point_y + bbox_h) {
            assert(self.obj_buffer@ =~= obj_buffer_after(*old(self), old(self).obj_buffer@, sprite_num as int, color, covers));
            assert(self.obj_window@ =~= obj_window_after(*old(self), old(self).obj_buffer@, old(self).obj_window@, sprite_num as int, color, covers));
            return;
        }
        let mode = self.display_control.get_bg_mode();
        let tile_index = sprite.attr2.get_character_name();
        let tile_base: u32 = (if mode > 2 { 0x0601_4000u32 } else { 0x0601_0000u32 }) + 0x20 * (tile_index as u32);
        let pixel_format = sprite.color_format();
        let tile_size = sprite.tile_size();
        let palette_bank: u32 = match pixel_format {
            PixelFormat::FourBit => sprite.attr2.get_palette_number() as u32,
            PixelFormat::EightBit => 0u32,
        };
        let eight_bit = pixel_format == PixelFormat::EightBit;
        let tile_array_width: i32 = if self.display_control.get_obj_charcter_vram_mapping() == 0 {
            match pixel_format {
                PixelFormat::FourBit => 32,
                PixelFormat::EightBit => 16,
            }
        } else {
            obj_w / 8
        };
        let aff_index = sprite.attr1.get_rotation_scaling_param();
        let aff_matrix = self.aff_matrices[aff_index as usize];
        let pa = aff_matrix.pa.get_aff_param() as i16 as i32;
        let pb = aff_matrix.pb.get_aff_param() as i16 as i32;
        let pc = aff_matrix.pc.get_aff_param() as i16 as i32;
        let pd = aff_matrix.pd.get_aff_param() as i16 as i32;
        let half_width = bbox_w / 2;
        let half_height = bbox_h / 2;
        let iy = current_scanline - (ref_point_y + half_height);
        let start: i32 = if ref_point_x < 0 { 0 } else { ref_point_x };
        let end_x = ref_point_x + bbox_w;
        let stop: i32 = if end_x > (DISPLAY_WIDTH as i32) { DISPLAY_WIDTH as i32 } else { end_x };
        let stop: i32 = if stop < start { start } else { stop };
        let line_start: usize = (DISPLAY_WIDTH * (current_scanline as u32)) as usize;
        let mut screen_x: i32 = start;
        while screen_x < stop
            invariant
                start <= screen_x <= stop,
                0 <= start <= DISPLAY_WIDTH,
                stop <= DISPLAY_WIDTH,
                stop == start || stop == (if end_x > DISPLAY_WIDTH { DISPLAY_WIDTH as int } else { end_x as int }),
                start == (if ref_point_x < 0 { 0 } else { ref_point_x as int }),
                end_x == ref_point_x + bbox_w,
                sprite == old(self).objects@[sprite_num as int],
                current_scanline == old(self).vertical_count.current_scanline(),
                current_scanline < DISPLAY_HEIGHT || start == stop,
                line_start == DISPLAY_WIDTH * current_scanline,
                ref_point_x == wrapped_x(sprite.attr1.x_coordinate() as int),
                ref_point_y == wrapped_y(sprite.attr0.y_coordinate() as int),
                (obj_w as int, obj_h as int) == obj_dimensions(sprite.attr1.obj_size(), sprite.attr0.obj_shape()),
                (bbox_w as int, bbox_h as int) == aff_bbox(sprite),
                ref_point_y <= current_scanline < ref_point_y + bbox_h,
                half_width == bbox_w / 2,
                iy == current_scanline - (ref_point_y + half_height),
                half_height == bbox_h / 2,
                gfx_mode == sprite.attr0.gfx_mode(),
                priority == sprite.attr2.priority_rel_to_bg(),
                eight_bit == (sprite.attr0.color_flag() != 0),
                tile_base == obj_tile_base(old(self).display_control.bg_mode(), sprite.attr2.character_name()),
                0x0601_0000 <= tile_base <= 0x0601_4000 + 0x20 * 1023,
                tile_size == (if eight_bit { 0x40int } else { 0x20int }),
                palette_bank == (if eight_bit { 0 } else { sprite.attr2.palette_number() as u32 }),
                palette_bank < 16,
                tile_array_width == obj_tile_array_width(old(self).display_control.obj_charcter_vram_mapping(), eight_bit, obj_w as int),
                0 <= tile_array_width <= 32,
                aff_matrix == old(self).aff_matrices@[sprite.attr1.rotation_scaling_param() as int],
                pa == aff_matrix.pa.aff_param() as i16 as i32,
                pb == aff_matrix.pb.aff_param() as i16 as i32,
                pc == aff_matrix.pc.aff_param() as i16 as i32,
                pd == aff_matrix.pd.aff_param() as i16 as i32,
                mem_map.memory.len() >= 0x0602_0000,
                color == (|x: int| aff_obj_color(*old(self), mem_map.memory@, sprite_num as int, x)),
                covers == (|x: int| aff_obj_covers(*old(self), sprite_num as int, x)),
                self.wf(),
                *self == (GPU { obj_buffer: self.obj_buffer, obj_window: self.obj_window, ..*old(self) }),
                forall|i: int| 0 <= i < WINDOW_SIZE ==> self.obj_buffer@[i] == (if line_start <= i < line_start + screen_x
                    && obj_draws(*old(self), old(self).obj_buffer@, sprite_num as int, i - line_start, color(i - line_start), covers(i - line_start))
                    && gfx_mode != 2 {
                    (color(i - line_start), priority, gfx_mode)
                } else {
                    old(self).obj_buffer@[i]
                }),
                forall|i: int| 0 <= i < WINDOW_SIZE ==> self.obj_window@[i] == (if line_start <= i < line_start + screen_x
                    && obj_draws(*old(self), old(self).obj_buffer@, sprite_num as int, i - line_start, color(i - line_start), covers(i - line_start))
                    && gfx_mode == 2 {
                    true
                } else {
                    old(self).obj_window@[i]
                }),
            decreases stop - screen_x,
        {
            let ix = screen_x - (ref_point_x + half_width);
            let obj_buffer_index: usize = line_start + (screen_x as usize);
            if self.obj_buffer[obj_buffer_index].1 > priority {
                let texture_x = aff_coordinate(pa, ix, pb, iy, obj_w / 2);
                let texture_y = aff_coordinate(pc, ix, pd, iy, obj_h / 2);
                if texture_x >= 0 && texture_x < obj_w && texture_y >= 0 && texture_y < obj_h {
                    let pixel_index = read_obj_pixel_index(
                        mem_map,
                        eight_bit,
                        tile_base,
                        tile_array_width as u32,
                        tile_size as u32,
                        texture_x as u32,
                        texture_y as u32,
                    );
                    let color_here = read_obj_palette_color(mem_map, pixel_index, palette_bank);
                    assert(color_here == color(screen_x as int));
                    if !color_here.is_transparent() {
                        if gfx_mode == 0b10 {
                            self.obj_window.set(obj_buffer_index, true);
                        } else {
                            self.obj_buffer.set(obj_buffer_index, (color_here, priority, gfx_mode));
                        }
                    }
                }
            }
            screen_x = screen_x + 1;
        }
        assert(self.obj_buffer@ =~= obj_buffer_after(*old(self), old(self).obj_buffer@, sprite_num as int, color, covers));
        assert(self.obj_window@ =~= obj_window_after(*old(self), old(self).obj_buffer@, old(self).obj_window@, sprite_num as int, color, covers));
    }

    /// Draws the current line of a normal (non-affine) sprite into the sprite
    /// layer (see `obj_buffer_after` and `obj_window_after` with
    /// `normal_obj_color` and `normal_obj_covers`).
    #[verifier::rlimit(50)]
    pub fn render_normal_obj(&mut self, sprite_num: usize, mem_map: &MemoryMap)
        requires
            old(self).wf(),
            sprite_num < 128,
            normal_obj_line_fits(*old(self), sprite_num as int),
            mem_map.memory.len() >= 0x0602_0000,
        ensures
            final(self).wf(),
            final(self).obj_buffer@ == obj_buffer_after(
                *old(self),
                old(self).obj_buffer@,
                sprite_num as int,
                (|x: int| normal_obj_color(*old(self), mem_map.memory@, sprite_num as int, x)),
                (|x: int| normal_obj_covers(*old(self), sprite_num as int, x)),
            ),
            final(self).obj_window@ == obj_window_after(
                *old(self),
                old(self).obj_buffer@,
                old(self).obj_window@,
                sprite_num as int,
                (|x: int| normal_obj_color(*old(self), mem_map.memory@, sprite_num as int, x)),
                (|x: int| normal_obj_covers(*old(self), sprite_num as int, x)),
            ),
            sprite_draw_bounded(
                old(self).obj_buffer@,
                old(self).obj_window@,
                final(self).obj_buffer@,
                final(self).obj_window@,
                *old(self),
                sprite_num as int,
                (|x: int| normal_obj_covers(*old(self), sprite_num as int, x)),
            ),
            *final(self) == (GPU { obj_buffer: final(self).obj_buffer, obj_window: final(self).obj_window, ..*old(self) }),
    {
        let ghost color = |x: int| normal_obj_color(*old(self), mem_map.memory@, sprite_num as int, x);
        let ghost covers = |x: int| normal_obj_covers(*old(self), sprite_num as int, x);
        proof {
            lemma_sprite_draw_bounded(*old(self), old(self).obj_buffer@, old(self).obj_window@, sprite_num as int, color, covers);
        }
        let sprite = self.objects[sprite_num];
        let current_scanline = self.vertical_count.get_current_scanline() as i32;
        let (mut obj_x, mut obj_y) = sprite.position();
        let gfx_mode = sprite.attr0.get_gfx_mode();
        let priority = sprite.attr2.get_priority_rel_to_bg();
        if obj_y >= (DISPLAY_HEIGHT as i32) {
            obj_y = obj_y - 256;
        }
        if obj_x >= (DISPLAY_WIDTH as i32) {
            obj_x = obj_x - 512;
        }
        let (obj_w, obj_h) = sprite.size();
        if !(current_scanline >= obj_y && current_scanline < obj_y + obj_h) {
            assert(self.obj_buffer@ =~= obj_buffer_after(*old(self), old(self).obj_buffer@, sprite_num as int, color, covers));
            assert(self.obj_window@ =~= obj_window_after(*old(self), old(self).obj_buffer@, old(self).obj_window@, sprite_num as int, color, covers));
            return;
        }
        let mode = self.display_control.get_bg_mode();
        let tile_index = sprite.attr2.get_character_name();
        let tile_base: u32 = (if mode > 2 { 0x0601_4000u32 } else { 0x0601_0000u32 }) + 0x20 * (tile_index as u32);
        let pixel_format = sprite.color_format();
        let tile_size = sprite.tile_size();
        let palette_bank: u32 = match pixel_format {
            PixelFormat::FourBit => sprite.attr2.get_palette_number() as u32,
            PixelFormat::EightBit => 0u32,
        };
        let eight_bit = pixel_format == PixelFormat::EightBit;
        let end_x = obj_x + obj_w;
        let tile_array_width: i32 = if self.display_control.get_obj_charcter_vram_mapping() == 0 {
            match pixel_format {
                PixelFormat::FourBit => 32,
                PixelFormat::EightBit => 16,
            }
        } else {
            obj_w / 8
        };
        let start: i32 = if obj_x < 0 { 0 } else { obj_x };
        let stop: i32 = if end_x > (DISPLAY_WIDTH as i32) { DISPLAY_WIDTH as i32 } else { end_x };
        let stop: i32 = if stop < start { start } else { stop };
        let line_start: usize = (DISPLAY_WIDTH * (current_scanline as u32)) as usize;
        let mut x: i32 = start;
        while x < stop
            invariant
                start <= x <= stop,
                0 <= start,
                stop <= DISPLAY_WIDTH,
                stop == start || stop == (if end_x > DISPLAY_WIDTH { DISPLAY_WIDTH as int } else { end_x as int }),
                start == (if obj_x < 0 { 0 } else { obj_x as int }),
                end_x == obj_x + obj_w,
                sprite == old(self).objects@[sprite_num as int],
                current_scanline == old(self).vertical_count.current_scanline(),
                current_scanline < DISPLAY_HEIGHT || start == stop,
                line_start == DISPLAY_WIDTH * current_scanline,
                obj_x == wrapped_x(sprite.attr1.x_coordinate() as int),
                obj_y == wrapped_y(sprite.attr0.y_coordinate() as int),
                (obj_w as int, obj_h as int) == obj_dimensions(sprite.attr1.obj_size(), sprite.attr0.obj_shape()),
                obj_y <= current_scanline < obj_y + obj_h,
                gfx_mode == sprite.attr0.gfx_mode(),
                priority == sprite.attr2.priority_rel_to_bg(),
                eight_bit == (sprite.attr0.color_flag() != 0),
                tile_base == obj_tile_base(old(self).display_control.bg_mode(), sprite.attr2.character_name()),
                0x0601_0000 <= tile_base <= 0x0601_4000 + 0x20 * 1023,
                tile_size == (if eight_bit { 0x40int } else { 0x20int }),
                palette_bank == (if eight_bit { 0 } else { sprite.attr2.palette_number() as u32 }),
                palette_bank < 16,
                tile_array_width == obj_tile_array_width(old(self).display_control.obj_charcter_vram_mapping(), eight_bit, obj_w as int),
                0 <= tile_array_width <= 32,
                mem_map.memory.len() >= 0x0602_0000,
                color == (|x: int| normal_obj_color(*old(self), mem_map.memory@, sprite_num as int, x)),
                covers == (|x: int| normal_obj_covers(*old(self), sprite_num as int, x)),
                self.wf(),
                *self == (GPU { obj_buffer: self.obj_buffer, obj_window: self.obj_window, ..*old(self) }),
                forall|i: int| 0 <= i < WINDOW_SIZE ==> self.obj_buffer@[i] == (if line_start <= i < line_start + x
                    && obj_draws(*old(self), old(self).obj_buffer@, sprite_num as int, i - line_start, color(i - line_start), covers(i - line_start))
                    && gfx_mode != 2 {
                    (color(i - line_start), priority, gfx_mode)
                } else {
                    old(self).obj_buffer@[i]
                }),
                forall|i: int| 0 <= i < WINDOW_SIZE ==> self.obj_window@[i] == (if line_start <= i < line_start + x
                    && obj_draws(*old(self), old(self).obj_buffer@, sprite_num as int, i - line_start, color(i - line_start), covers(i - line_start))
                    && gfx_mode == 2 {
                    true
                } else {
                    old(self).obj_window@[i]
                }),
            decreases stop - x,
        {
            let obj_buffer_index: usize = line_start + (x as usize);
            if self.obj_buffer[obj_buffer_index].1 > priority {
                let color_here = normal_obj_texel(
                    sprite,
                    mem_map,
                    x,
                    current_scanline,
                    obj_x,
                    obj_y,
                    obj_w,
                    obj_h,
                    eight_bit,
                    tile_base,
                    tile_array_width,
                    tile_size,
                    palette_bank,
                );
                assert(color_here == color(x as int));
                if !color_here.is_transparent() {
                    if gfx_mode == 0b10 {
                        self.obj_window.set(obj_buffer_index, true);
                    } else {
                        self.obj_buffer.set(obj_buffer_index, (color_here, priority, gfx_mode));
                    }
                }
            }
            x = x + 1;
        }
        assert(self.obj_buffer@ =~= obj_buffer_after(*old(self), old(self).obj_buffer@, sprite_num as int, color, covers));
        assert(self.obj_window@ =~= obj_window_after(*old(self), old(self).obj_buffer@, old(self).obj_window@, sprite_num as int, color, covers));
    }
}

} // verus!
