use vstd::prelude::*;
use crate::gpu::lcd_control_registers::{DisplayControl, DisplayStatus, GreenSwap, VerticalCount};
use crate::gpu::rgb15::{rgb15_of, Rgb15};
use crate::memory::bg_registers::{BGOffset, BGRotScaleParam, BG_Control};
use crate::gpu::object::{AffineMatrix, Object};
use crate::memory::lcd_io_registers::{
    AlphaBlendingCoefficients, BrightnessCoefficient, ColorSpecialEffectsSelection, ControlWindowInside,
    ControlWindowOutside, MosaicSize, OBJRotScaleParam, ObjAttribute0, ObjAttribute1, ObjAttribute2,
    WindowHorizontalDimension, WindowVerticalDimension,
};

verus! {

pub const DISPLAY_WIDTH: u32 = 240;
pub const DISPLAY_HEIGHT: u32 = 160;
pub const WINDOW_SIZE: usize = 38400;
pub const VBLANK_LENGTH: u32 = 68;

pub const HDRAW_CYCLES: i64 = 960;
pub const HBLANK_CYCLES: i64 = 272;
pub const SCANLINE_CYCLES: i64 = 1232;
pub const VDRAW_CYCLES: i64 = 197120;
pub const VBLANK_CYCLES: i64 = 83776;

/// The part of a scanline the display is in.
#[derive(Clone, Copy, Debug, PartialEq, Eq, Structural)]
pub enum GpuState {
    HDraw,
    HBlank,
    VBlank,
}

/// A background layer: its registers and the scanline last rendered for it.
pub struct Background {
    pub control: BG_Control,
    pub horizontal_offset: BGOffset,
    pub vertical_offset: BGOffset,
    pub scan_line: Vec<Rgb15>,
    pub id: usize,
}

impl Background {
    /// The vertical and horizontal scroll offsets, in that order.
    pub fn get_offsets(&self) -> (offsets: (u32, u32))
        ensures
            offsets.0 == self.vertical_offset.offset(),
            offsets.1 == self.horizontal_offset.offset(),
            offsets.0 < 512 && offsets.1 < 512,
    {
        (self.vertical_offset.get_offset() as u32, self.horizontal_offset.get_offset() as u32)
    }
}

/// The affine state of background 2 or 3: the reference point registers
/// (as last written and as currently stepped) and the 2x2 matrix.
#[derive(Clone, Copy)]
pub struct BgAffineComponent {
    pub refrence_point_x_internal: u32,
    pub refrence_point_x_external: u32,
    pub refrence_point_x_external_hold: u32,
    pub refrence_point_y_internal: u32,
    pub refrence_point_y_external: u32,
    pub refrence_point_y_external_hold: u32,
    pub rotation_scaling_param_a: BGRotScaleParam,
    pub rotation_scaling_param_b: BGRotScaleParam,
    pub rotation_scaling_param_c: BGRotScaleParam,
    pub rotation_scaling_param_d: BGRotScaleParam,
}

/// A window's right or bottom edge as the hardware uses it: an edge past the
/// screen, or before the opposite edge, extends to the screen's end.
pub open spec fn window_end(start: u32, end: u32, limit: u32) -> u32 {
    if end > limit || end < start { limit } else { end }
}

/// A rectangular window given by its edge registers.
pub struct Window {
    pub horizontal_dimensions: WindowHorizontalDimension,
    pub vertical_dimensions: WindowVerticalDimension,
}

impl Window {
    /// Whether a pixel lies inside the window: `X1 <= x < X2` and
    /// `Y1 <= y < Y2`, with the right and bottom edges as `window_end` gives
    /// them.
    pub open spec fn contains(&self, x: u32, y: u32) -> bool {
        let left = self.horizontal_dimensions.X1() as u32;
        let right = window_end(left, self.horizontal_dimensions.X2() as u32, DISPLAY_WIDTH);
        let top = self.vertical_dimensions.Y1() as u32;
        let bottom = window_end(top, self.vertical_dimensions.Y2() as u32, DISPLAY_HEIGHT);
        left <= x < right && top <= y < bottom
    }

    /// Whether a pixel lies inside the window (see `contains`).
    pub fn inside(&self, x: u32, y: u32) -> (r: bool)
        ensures
            r == self.contains(x, y),
    {
        let left = self.horizontal_dimensions.get_X1() as u32;
        let mut right = self.horizontal_dimensions.get_X2() as u32;
        let top = self.vertical_dimensions.get_Y1() as u32;
        let mut bottom = self.vertical_dimensions.get_Y2() as u32;
        if right > DISPLAY_WIDTH || right < left {
            right = DISPLAY_WIDTH;
        }
        if bottom > DISPLAY_HEIGHT || bottom < top {
            bottom = DISPLAY_HEIGHT;
        }
        (x >= left && x < right) && (y >= top && y < bottom)
    }
}

/// The display: its control and status registers, the four backgrounds with
/// their scanline buffers, the affine state of backgrounds 2 and 3, the two
/// windows, the 128 sprites and 32 sprite matrices, the sprite window mask,
/// the window, mosaic and colour effect registers, the timing state, the
/// frame buffer and the sprite layer of the frame (colour, priority,
/// graphics mode per pixel).
pub struct GPU {
    pub display_control: DisplayControl,
    pub green_swap: GreenSwap,
    pub display_status: DisplayStatus,
    pub vertical_count: VerticalCount,
    pub backgrounds: [Background; 4],
    pub bg_affine_components: [BgAffineComponent; 2],
    pub windows: [Window; 2],
    pub obj_window: Vec<bool>,
    pub objects: Vec<Object>,
    pub aff_matrices: Vec<AffineMatrix>,
    pub control_window_inside: ControlWindowInside,
    pub control_window_outside: ControlWindowOutside,
    pub mosaic_size: MosaicSize,
    pub color_special_effects_selection: ColorSpecialEffectsSelection,
    pub alpha_blending_coefficients: AlphaBlendingCoefficients,
    pub brightness_coefficient: BrightnessCoefficient,
    pub cycles_to_next_state: i64,
    pub current_state: GpuState,
    pub frame_ready: bool,
    pub frame_buffer: Vec<u32>,
    pub obj_buffer: Vec<(Rgb15, u8, u8)>,
}

/// The 128 sprites, every attribute zero.
fn gen_obj_array() -> (objects: Vec<Object>)
    ensures
        objects.len() == 128,
        forall|i: int| 0 <= i < 128 ==> (#[trigger] objects@[i]).attr0.value == 0 && objects@[i].attr1.value == 0
            && objects@[i].attr2.value == 0,
{
    let mut objects: Vec<Object> = Vec::new();
    let mut i: usize = 0;
    while i < 128
        invariant
            i <= 128,
            objects.len() == i,
            forall|k: int| 0 <= k < i ==> (#[trigger] objects@[k]).attr0.value == 0 && objects@[k].attr1.value == 0
                && objects@[k].attr2.value == 0,
        decreases 128 - i,
    {
        objects.push(Object { attr0: ObjAttribute0::new(i), attr1: ObjAttribute1::new(i), attr2: ObjAttribute2::new(i) });
        i = i + 1;
    }
    objects
}

/// The 32 sprite matrices, every parameter zero.
fn gen_aff_matrix_array() -> (matrices: Vec<AffineMatrix>)
    ensures
        matrices.len() == 32,
        forall|i: int| 0 <= i < 32 ==> (#[trigger] matrices@[i]).pa.value == 0 && matrices@[i].pb.value == 0
            && matrices@[i].pc.value == 0 && matrices@[i].pd.value == 0,
{
    let mut matrices: Vec<AffineMatrix> = Vec::new();
    let mut i: usize = 0;
    while i < 32
        invariant
            i <= 32,
            matrices.len() == i,
            forall|k: int| 0 <= k < i ==> (#[trigger] matrices@[k]).pa.value == 0 && matrices@[k].pb.value == 0
                && matrices@[k].pc.value == 0 && matrices@[k].pd.value == 0,
        decreases 32 - i,
    {
        matrices.push(AffineMatrix {
            pa: OBJRotScaleParam::new(4 * i),
            pb: OBJRotScaleParam::new(4 * i + 1),
            pc: OBJRotScaleParam::new(4 * i + 2),
            pd: OBJRotScaleParam::new(4 * i + 3),
        });
        i = i + 1;
    }
    matrices
}

/// A sprite layer with nothing drawn: transparent, behind everything
/// (priority 4), normal mode.
fn empty_obj_buffer() -> (buffer: Vec<(Rgb15, u8, u8)>)
    ensures
        buffer.len() == WINDOW_SIZE,
        forall|i: int| 0 <= i < WINDOW_SIZE ==> buffer@[i] == (rgb15_of(0x8000), 4u8, 0u8),
{
    let mut buffer: Vec<(Rgb15, u8, u8)> = Vec::new();
    let mut i: usize = 0;
    while i < WINDOW_SIZE
        invariant
            i <= WINDOW_SIZE,
            buffer.len() == i,
            forall|k: int| 0 <= k < i ==> buffer@[k] == (rgb15_of(0x8000), 4u8, 0u8),
        decreases WINDOW_SIZE - i,
    {
        buffer.push((Rgb15::new(0x8000), 4, 0));
        i = i + 1;
    }
    buffer
}

/// A scanline buffer of `DISPLAY_WIDTH` transparent pixels.
fn transparent_line() -> (line: Vec<Rgb15>)
    ensures
        line.len() == DISPLAY_WIDTH,
        forall|i: int| 0 <= i < DISPLAY_WIDTH ==> line@[i] == rgb15_of(0x8000),
{
    let mut line: Vec<Rgb15> = Vec::new();
    let mut i: u32 = 0;
    while i < DISPLAY_WIDTH
        invariant
            i <= DISPLAY_WIDTH,
            line.len() == i,
            forall|k: int| 0 <= k < i ==> line@[k] == rgb15_of(0x8000),
        decreases DISPLAY_WIDTH - i,
    {
        line.push(Rgb15::new(0x8000));
        i = i + 1;
    }
    line
}

/// A background with the given register slots and a transparent scanline.
fn background(id: usize) -> (bg: Background)
    requires
        id < 4,
    ensures
        bg.id == id,
        bg.control.index == id,
        bg.horizontal_offset.index == 2 * id,
        bg.vertical_offset.index == 2 * id + 1,
        bg.control.value == 0 && bg.horizontal_offset.value == 0 && bg.vertical_offset.value == 0,
        bg.scan_line.len() == DISPLAY_WIDTH,
        forall|i: int| 0 <= i < DISPLAY_WIDTH ==> bg.scan_line@[i] == rgb15_of(0x8000),
{
    Background {
        control: BG_Control::new(id),
        horizontal_offset: BGOffset::new(2 * id),
        vertical_offset: BGOffset::new(2 * id + 1),
        scan_line: transparent_line(),
        id,
    }
}

/// The affine state of background 2 (`n == 0`) or 3 (`n == 1`), all zero,
/// its four matrix registers in register slots `4 * n` to `4 * n + 3`.
fn affine_component(n: usize) -> (c: BgAffineComponent)
    requires
        n < 2,
    ensures
        c.refrence_point_x_internal == 0 && c.refrence_point_y_internal == 0,
        c.refrence_point_x_external == 0 && c.refrence_point_y_external == 0,
        c.refrence_point_x_external_hold == 0 && c.refrence_point_y_external_hold == 0,
        c.rotation_scaling_param_a.value == 0 && c.rotation_scaling_param_b.value == 0,
        c.rotation_scaling_param_c.value == 0 && c.rotation_scaling_param_d.value == 0,
        c.rotation_scaling_param_a.index == 4 * n && c.rotation_scaling_param_b.index == 4 * n + 1,
        c.rotation_scaling_param_c.index == 4 * n + 2 && c.rotation_scaling_param_d.index == 4 * n + 3,
{
    BgAffineComponent {
        refrence_point_x_internal: 0,
        refrence_point_x_external: 0,
        refrence_point_x_external_hold: 0,
        refrence_point_y_internal: 0,
        refrence_point_y_external: 0,
        refrence_point_y_external_hold: 0,
        rotation_scaling_param_a: BGRotScaleParam::new(4 * n),
        rotation_scaling_param_b: BGRotScaleParam::new(4 * n + 1),
        rotation_scaling_param_c: BGRotScaleParam::new(4 * n + 2),
        rotation_scaling_param_d: BGRotScaleParam::new(4 * n + 3),
    }
}

impl GPU {
    /// Every background has a full scanline buffer and the frame buffer
    /// holds a whole screen.
    pub open spec fn wf(&self) -> bool {
        &&& forall|i: int| 0 <= i < 4 ==> (#[trigger] self.backgrounds@[i]).scan_line.len() == DISPLAY_WIDTH
        &&& self.frame_buffer.len() == WINDOW_SIZE
        &&& self.obj_buffer.len() == WINDOW_SIZE
        &&& self.obj_window.len() == WINDOW_SIZE
        &&& self.objects.len() == 128
        &&& self.aff_matrices.len() == 32
    }

    /// A display at the start of a frame's first line: every register zero,
    /// every scanline transparent, the frame buffer black.
    pub fn new() -> (gpu: GPU)
        ensures
            gpu.wf(),
            gpu.display_control.value == 0,
            gpu.display_status.value == 0,
            gpu.vertical_count.value == 0,
            forall|i: int, x: int| 0 <= i < 4 && 0 <= x < DISPLAY_WIDTH ==> #[trigger] gpu.backgrounds@[i].scan_line@[x]
                == rgb15_of(0x8000),
            forall|i: int| 0 <= i < 2 ==> (#[trigger] gpu.bg_affine_components@[i]).refrence_point_x_internal == 0,
            forall|i: int| 0 <= i < 2 ==> (#[trigger] gpu.bg_affine_components@[i]).refrence_point_y_internal == 0,
            forall|i: int| 0 <= i < WINDOW_SIZE ==> gpu.frame_buffer@[i] == 0,
            forall|i: int| 0 <= i < WINDOW_SIZE ==> !gpu.obj_window@[i],
            forall|i: int| 0 <= i < WINDOW_SIZE ==> gpu.obj_buffer@[i] == (rgb15_of(0x8000), 4u8, 0u8),
            forall|i: int| 0 <= i < 128 ==> (#[trigger] gpu.objects@[i]).attr0.value == 0,
            forall|i: int| 0 <= i < 128 ==> (#[trigger] gpu.objects@[i]).attr1.value == 0,
            forall|i: int| 0 <= i < 128 ==> (#[trigger] gpu.objects@[i]).attr2.value == 0,
            forall|i: int| 0 <= i < 32 ==> (#[trigger] gpu.aff_matrices@[i]).pa.value == 0 && gpu.aff_matrices@[i].pb.value == 0
                && gpu.aff_matrices@[i].pc.value == 0 && gpu.aff_matrices@[i].pd.value == 0,
            forall|i: int| 0 <= i < 4 ==> (#[trigger] gpu.backgrounds@[i]).control.value == 0
                && gpu.backgrounds@[i].horizontal_offset.value == 0 && gpu.backgrounds@[i].vertical_offset.value == 0
                && gpu.backgrounds@[i].id == i,
            forall|i: int| 0 <= i < 2 ==> (#[trigger] gpu.bg_affine_components@[i]).refrence_point_x_external == 0
                && gpu.bg_affine_components@[i].refrence_point_y_external == 0
                && gpu.bg_affine_components@[i].refrence_point_x_external_hold == 0
                && gpu.bg_affine_components@[i].refrence_point_y_external_hold == 0
                && gpu.bg_affine_components@[i].rotation_scaling_param_a.value == 0
                && gpu.bg_affine_components@[i].rotation_scaling_param_b.value == 0
                && gpu.bg_affine_components@[i].rotation_scaling_param_c.value == 0
                && gpu.bg_affine_components@[i].rotation_scaling_param_d.value == 0,
            forall|i: int| 0 <= i < 2 ==> (#[trigger] gpu.windows@[i]).horizontal_dimensions.value == 0
                && gpu.windows@[i].vertical_dimensions.value == 0,
            gpu.green_swap.value == 0,
            gpu.mosaic_size.value == 0,
            gpu.control_window_inside.value == 0 && gpu.control_window_outside.value == 0,
            gpu.color_special_effects_selection.value == 0,
            gpu.alpha_blending_coefficients.value == 0 && gpu.brightness_coefficient.value == 0,
            gpu.cycles_to_next_state == HDRAW_CYCLES,
            gpu.current_state == GpuState::HDraw,
            !gpu.frame_ready,
    {
        GPU {
            display_control: DisplayControl::new(),
            green_swap: GreenSwap::new(),
            display_status: DisplayStatus::new(),
            vertical_count: VerticalCount::new(),
            backgrounds: [background(0), background(1), background(2), background(3)],
            bg_affine_components: [affine_component(0), affine_component(1)],
            windows: [
                Window {
                    horizontal_dimensions: WindowHorizontalDimension::new(0),
                    vertical_dimensions: WindowVerticalDimension::new(0),
                },
                Window {
                    horizontal_dimensions: WindowHorizontalDimension::new(1),
                    vertical_dimensions: WindowVerticalDimension::new(1),
                },
            ],
            cycles_to_next_state: HDRAW_CYCLES,
            current_state: GpuState::HDraw,
            obj_window: vec![false; WINDOW_SIZE],
            objects: gen_obj_array(),
            aff_matrices: gen_aff_matrix_array(),
            control_window_inside: ControlWindowInside::new(),
            control_window_outside: ControlWindowOutside::new(),
            mosaic_size: MosaicSize::new(),
            color_special_effects_selection: ColorSpecialEffectsSelection::new(),
            alpha_blending_coefficients: AlphaBlendingCoefficients::new(),
            brightness_coefficient: BrightnessCoefficient::new(),
            frame_ready: false,
            frame_buffer: vec![0u32; WINDOW_SIZE],
            obj_buffer: empty_obj_buffer(),
        }
    }
}

} // verus!
