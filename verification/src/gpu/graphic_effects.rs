use vstd::prelude::*;
use crate::gpu::gpu::{DISPLAY_HEIGHT, DISPLAY_WIDTH, GPU, WINDOW_SIZE};
use crate::gpu::lcd_control_registers::DisplayControl;
use crate::gpu::rgb15::{rgb15_of, zero_rgb, Rgb15};
use crate::memory::lcd_io_registers::{ColorSpecialEffectsSelection, ControlWindowInside, ControlWindowOutside};
use crate::memory::memory_map::{halfword_at, MemoryMap, PALETTE_RAM_START};

verus! {

/// The colour special effect selected in the blend control register.
#[derive(Clone, Copy, Debug, PartialEq, Eq, Structural)]
pub enum BlendMode {
    Off,
    Alpha,
    White,
    Black,
}

/// The effect a two-bit field selects.
pub open spec fn blend_mode_of(value: u8) -> BlendMode {
    if value == 0 {
        BlendMode::Off
    } else if value == 1 {
        BlendMode::Alpha
    } else if value == 2 {
        BlendMode::White
    } else {
        BlendMode::Black
    }
}

impl BlendMode {
    /// The effect a two-bit field selects; larger values are no effect.
    pub fn from(value: u8) -> (mode: BlendMode)
        requires
            value < 4,
        ensures
            mode == blend_mode_of(value),
    {
        match value {
            0b00 => BlendMode::Off,
            0b01 => BlendMode::Alpha,
            0b10 => BlendMode::White,
            _ => BlendMode::Black,
        }
    }
}

/// The region of the screen a pixel falls in when windows are on.
#[derive(Clone, Copy, Debug, PartialEq, Eq, Structural)]
pub enum WindowTypes {
    Window0,
    Window1,
    WindowOutside,
    WindowObject,
}

/// One blended colour component: the weighted sum of the two components in
/// sixteenths, cut to eight bits, at most 31.
pub open spec fn blend_component(first: u8, second: u8, first_weight: u8, second_weight: u8) -> u8 {
    let mixed = ((((first as u32) * (first_weight as u32) + (second as u32) * (second_weight as u32)) as u32) >> 4u32) as u8;
    if mixed < 31 { mixed } else { 31 }
}

/// The colour that a blend makes of a first target over a second: alpha
/// blending weighs them by `eva` and `evb`; brightening and darkening move
/// the first target towards white or black by `evy` sixteenths. The `value`
/// field is not touched.
pub open spec fn blended(target_1: Rgb15, target_2: Rgb15, mode: BlendMode, eva: u8, evb: u8, evy: u8) -> Rgb15 {
    match mode {
        BlendMode::Alpha => Rgb15 {
            red: blend_component(target_1.red, target_2.red, eva, evb),
            green: blend_component(target_1.green, target_2.green, eva, evb),
            blue: blend_component(target_1.blue, target_2.blue, eva, evb),
            ..target_1
        },
        BlendMode::Black => Rgb15 {
            red: blend_component(target_1.red, 0, (16 - evy) as u8, evy),
            green: blend_component(target_1.green, 0, (16 - evy) as u8, evy),
            blue: blend_component(target_1.blue, 0, (16 - evy) as u8, evy),
            ..target_1
        },
        BlendMode::White => Rgb15 {
            red: blend_component(target_1.red, 31, (16 - evy) as u8, evy),
            green: blend_component(target_1.green, 31, (16 - evy) as u8, evy),
            blue: blend_component(target_1.blue, 31, (16 - evy) as u8, evy),
            ..target_1
        },
        BlendMode::Off => target_1,
    }
}

/// One blended colour component (see `blend_component`).
fn mix(first: u8, second: u8, first_weight: u8, second_weight: u8) -> (c: u8)
    ensures
        c == blend_component(first, second, first_weight, second_weight),
{
    assert((first as u32) * (first_weight as u32) <= 65025 && (second as u32) * (second_weight as u32) <= 65025)
        by (nonlinear_arith);
    let mixed = (((first as u32) * (first_weight as u32) + (second as u32) * (second_weight as u32)) >> 4u32) as u8;
    if mixed < 31 {
        mixed
    } else {
        31
    }
}

/// Blends `target_2` into `target_1` (see `blended`) with the alpha weights
/// `eva` and `evb` and the brightness `evy`, which must not exceed 16.
pub fn blend_colors(target_1: &mut Rgb15, target_2: &Rgb15, blend_mode: &BlendMode, eva: u8, evb: u8, evy: u8)
    requires
        evy <= 16,
    ensures
        *final(target_1) == blended(*old(target_1), *target_2, *blend_mode, eva, evb, evy),
{
    match blend_mode {
        BlendMode::Alpha => {
            target_1.red = mix(target_1.red, target_2.red, eva, evb);
            target_1.green = mix(target_1.green, target_2.green, eva, evb);
            target_1.blue = mix(target_1.blue, target_2.blue, eva, evb);
        },
        BlendMode::Black => {
            let other = Rgb15::new(0);
            let eva = 16 - evy;
            let evb = evy;
            proof {
                assert(0u16 & 0x1F == 0 && (0u16 >> 5u16) & 0x1F == 0 && (0u16 >> 10u16) & 0x1F == 0) by (bit_vector);
            }
            target_1.red = mix(target_1.red, other.red, eva, evb);
            target_1.green = mix(target_1.green, other.green, eva, evb);
            target_1.blue = mix(target_1.blue, other.blue, eva, evb);
        },
        BlendMode::White => {
            let other = Rgb15::new(0x7FFF);
            let eva = 16 - evy;
            let evb = evy;
            proof {
                assert(0x7FFFu16 & 0x1F == 31 && (0x7FFFu16 >> 5u16) & 0x1F == 31 && (0x7FFFu16 >> 10u16) & 0x1F == 31)
                    by (bit_vector);
            }
            target_1.red = mix(target_1.red, other.red, eva, evb);
            target_1.green = mix(target_1.green, other.green, eva, evb);
            target_1.blue = mix(target_1.blue, other.blue, eva, evb);
        },
        BlendMode::Off => {},
    }
}

/// Whether the display control shows background `bg` (bits 8-11).
pub open spec fn shows_bg(dc: DisplayControl, bg: int) -> bool {
    if bg == 0 {
        dc.screen_display_bg0() == 1
    } else if bg == 1 {
        dc.screen_display_bg1() == 1
    } else if bg == 2 {
        dc.screen_display_bg2() == 1
    } else {
        dc.screen_display_bg3() == 1
    }
}

/// Whether any window (0, 1 or the sprite window) is switched on.
pub open spec fn windows_on(dc: DisplayControl) -> bool {
    dc.window_0_display_flag() != 0 || dc.window_1_display_flag() != 0 || dc.obj_window_display_flag() != 0
}

impl DisplayControl {
    /// Whether background `bg` (0-3) is shown.
    pub fn should_display(&self, bg: u8) -> (shown: bool)
        requires
            bg < 4,
        ensures
            shown == shows_bg(*self, bg as int),
    {
        match bg {
            0 => self.get_screen_display_bg0() == 1,
            1 => self.get_screen_display_bg1() == 1,
            2 => self.get_screen_display_bg2() == 1,
            _ => self.get_screen_display_bg3() == 1,
        }
    }

    /// Whether any window is switched on.
    pub fn using_windows(&self) -> (on: bool)
        ensures
            on == windows_on(*self),
    {
        self.get_window_0_display_flag() != 0 || self.get_window_1_display_flag() != 0
            || self.get_obj_window_display_flag() != 0
    }
}

/// The four background enable bits of a window field as a list.
pub open spec fn bg_enables(field: u8) -> Seq<bool> {
    seq![field & 1 != 0, field & 2 != 0, field & 4 != 0, field & 8 != 0]
}

/// What a window region shows: special effects, sprites, and which
/// backgrounds. Windows 0 and 1 take theirs from WININ, the outside and the
/// sprite window from WINOUT.
pub open spec fn window_flags_of(
    inside: ControlWindowInside,
    outside: ControlWindowOutside,
    window: WindowTypes,
) -> (bool, bool, Seq<bool>) {
    match window {
        WindowTypes::Window0 => (
            inside.window0_sfx_enable() != 0,
            inside.window0_obj_enable() != 0,
            bg_enables(inside.window0_bg_enable()),
        ),
        WindowTypes::Window1 => (
            inside.window1_sfx_enable() != 0,
            inside.window1_obj_enable() != 0,
            bg_enables(inside.window1_bg_enable()),
        ),
        WindowTypes::WindowOutside => (
            outside.outside_sfx_enable() != 0,
            outside.outside_obj_enable() != 0,
            bg_enables(outside.outside_bg_enable()),
        ),
        WindowTypes::WindowObject => (
            outside.obj_window_sfx_enable() != 0,
            outside.obj_window_obj_enable() != 0,
            bg_enables(outside.obj_window_bg_enable()),
        ),
    }
}

/// The four background enable bits of a window field.
fn bg_enable_array(field: u8) -> (enables: [bool; 4])
    ensures
        enables@ == bg_enables(field),
{
    [field & 1 != 0, field & 2 != 0, field & 4 != 0, field & 8 != 0]
}

impl ControlWindowInside {
    /// Whether special effects apply inside window 0 or 1.
    pub fn should_display_sfx(&self, window: &WindowTypes) -> (on: bool)
        requires
            *window == WindowTypes::Window0 || *window == WindowTypes::Window1,
        ensures
            on == window_flags_of(*self, ControlWindowOutside { value: 0 }, *window).0,
    {
        match window {
            WindowTypes::Window0 => self.get_window0_sfx_enable() != 0,
            _ => self.get_window1_sfx_enable() != 0,
        }
    }

    /// Whether sprites show inside window 0 or 1.
    pub fn should_display_obj(&self, window: &WindowTypes) -> (on: bool)
        requires
            *window == WindowTypes::Window0 || *window == WindowTypes::Window1,
        ensures
            on == window_flags_of(*self, ControlWindowOutside { value: 0 }, *window).1,
    {
        match window {
            WindowTypes::Window0 => self.get_window0_obj_enable() != 0,
            _ => self.get_window1_obj_enable() != 0,
        }
    }

    /// Which backgrounds show inside window 0 or 1.
    pub fn bgs_to_display(&self, window: &WindowTypes) -> (bgs: [bool; 4])
        requires
            *window == WindowTypes::Window0 || *window == WindowTypes::Window1,
        ensures
            bgs@ == window_flags_of(*self, ControlWindowOutside { value: 0 }, *window).2,
    {
        match window {
            WindowTypes::Window0 => bg_enable_array(self.get_window0_bg_enable()),
            _ => bg_enable_array(self.get_window1_bg_enable()),
        }
    }
}

impl ControlWindowOutside {
    /// Whether special effects apply outside the windows or in the sprite window.
    pub fn should_display_sfx(&self, window: &WindowTypes) -> (on: bool)
        requires
            *window == WindowTypes::WindowOutside || *window == WindowTypes::WindowObject,
        ensures
            on == window_flags_of(ControlWindowInside { value: 0 }, *self, *window).0,
    {
        match window {
            WindowTypes::WindowOutside => self.get_outside_sfx_enable() != 0,
            _ => self.get_obj_window_sfx_enable() != 0,
        }
    }

    /// Whether sprites show outside the windows or in the sprite window.
    pub fn should_display_obj(&self, window: &WindowTypes) -> (on: bool)
        requires
            *window == WindowTypes::WindowOutside || *window == WindowTypes::WindowObject,
        ensures
            on == window_flags_of(ControlWindowInside { value: 0 }, *self, *window).1,
    {
        match window {
            WindowTypes::WindowOutside => self.get_outside_obj_enable() != 0,
            _ => self.get_obj_window_obj_enable() != 0,
        }
    }

    /// Which backgrounds show outside the windows or in the sprite window.
    pub fn bgs_to_display(&self, window: &WindowTypes) -> (bgs: [bool; 4])
        requires
            *window == WindowTypes::WindowOutside || *window == WindowTypes::WindowObject,
        ensures
            bgs@ == window_flags_of(ControlWindowInside { value: 0 }, *self, *window).2,
    {
        match window {
            WindowTypes::WindowOutside => bg_enable_array(self.get_outside_bg_enable()),
            _ => bg_enable_array(self.get_obj_window_bg_enable()),
        }
    }
}

/// Whether a layer (0-3 backgrounds, 4 sprites, 5 backdrop) is a first
/// target of the colour effect.
pub open spec fn is_first_target(bldcnt: ColorSpecialEffectsSelection, layer: u8) -> bool {
    (bldcnt.first_target() >> layer) & 1 != 0
}

/// Whether a layer is a second target of the colour effect.
pub open spec fn is_second_target(bldcnt: ColorSpecialEffectsSelection, layer: u8) -> bool {
    (bldcnt.second_target() >> layer) & 1 != 0
}

impl ColorSpecialEffectsSelection {
    /// The selected colour effect.
    pub fn get_blendmode(&self) -> (mode: BlendMode)
        ensures
            mode == blend_mode_of(self.blend_mode()),
    {
        BlendMode::from(self.get_blend_mode())
    }

    /// Whether a layer (0-5) is a first target.
    pub fn has_destination(&self, layer: u8) -> (target: bool)
        requires
            layer < 6,
        ensures
            target == is_first_target(*self, layer),
    {
        (self.get_first_target() >> layer) & 1 != 0
    }

    /// Whether a layer (0-5) is a second target.
    pub fn has_source(&self, layer: u8) -> (target: bool)
        requires
            layer < 6,
        ensures
            target == is_second_target(*self, layer),
    {
        (self.get_second_target() >> layer) & 1 != 0
    }
}

/// The window region of pixel (`x`, `y`) when windows are on: window 0 wins
/// over window 1, which wins over the sprite window; else the outside.
pub open spec fn window_type_at(gpu: GPU, x: u32, y: u32) -> Option<WindowTypes> {
    let dc = gpu.display_control;
    if !windows_on(dc) {
        None
    } else if dc.window_0_display_flag() != 0 && gpu.windows@[0].contains(x, y) {
        Some(WindowTypes::Window0)
    } else if dc.window_1_display_flag() != 0 && gpu.windows@[1].contains(x, y) {
        Some(WindowTypes::Window1)
    } else if dc.obj_window_display_flag() != 0 && gpu.obj_window@[DISPLAY_WIDTH * y + x] {
        Some(WindowTypes::WindowObject)
    } else {
        Some(WindowTypes::WindowOutside)
    }
}

/// What shows at pixel (`x`, `y`): its window region's flags, or everything
/// when windows are off.
pub open spec fn pixel_flags(gpu: GPU, x: u32, y: u32) -> (bool, bool, Seq<bool>) {
    match window_type_at(gpu, x, y) {
        Some(w) => window_flags_of(gpu.control_window_inside, gpu.control_window_outside, w),
        None => (true, true, seq![true, true, true, true]),
    }
}

/// The shown backgrounds in drawing order, back to front: by priority from 3
/// (back) to 0 (front), and within a priority from background 3 to 0; the
/// first `k` of the 16 (priority, background) pairs are considered.
pub open spec fn bg_order(gpu: GPU, k: nat) -> Seq<u8>
    decreases k,
{
    if k == 0 {
        Seq::empty()
    } else {
        let prev = bg_order(gpu, (k - 1) as nat);
        let j = k - 1;
        let priority = 3 - j / 4;
        let bg = 3 - j % 4;
        if shows_bg(gpu.display_control, bg) && gpu.backgrounds@[bg].control.bg_priority() == priority {
            prev.push(bg as u8)
        } else {
            prev
        }
    }
}

/// The two frontmost opaque background layers at column `x` after the first
/// `k` backgrounds of `order` are drawn (5 means the backdrop), with their
/// priorities (4 for the backdrop): (front, behind, front priority, behind
/// priority).
pub open spec fn stacked_layers(gpu: GPU, order: Seq<u8>, bgs: Seq<bool>, x: int, k: nat) -> (u8, u8, u8, u8)
    decreases k,
{
    if k == 0 {
        (5, 5, 4, 4)
    } else {
        let (l0, l1, p0, p1) = stacked_layers(gpu, order, bgs, x, (k - 1) as nat);
        let bg = order[k - 1];
        if bgs[bg as int] && gpu.backgrounds@[bg as int].scan_line@[x].value != 0x8000 {
            (bg, l0, gpu.backgrounds@[bg as int].control.bg_priority(), p0)
        } else {
            (l0, l1, p0, p1)
        }
    }
}

/// The two frontmost layers at column `x` of the current line, the sprite
/// layer (4) slotted in by priority when sprites show there.
pub open spec fn layers_at(gpu: GPU, x: int) -> (u8, u8) {
    let line = gpu.vertical_count.current_scanline() as u32;
    let (sfx, objs, bgs) = pixel_flags(gpu, x as u32, line);
    let order = bg_order(gpu, 16);
    let (l0, l1, p0, p1) = stacked_layers(gpu, order, bgs, x, order.len());
    let (obj_color, obj_priority, obj_mode) = gpu.obj_buffer@[DISPLAY_WIDTH * line + x];
    if gpu.display_control.screen_display_obj() != 0 && objs && obj_color.value != 0x8000 {
        if obj_priority <= p0 {
            (4, l0)
        } else if obj_priority <= p1 {
            (l0, 4)
        } else {
            (l0, l1)
        }
    } else {
        (l0, l1)
    }
}

/// The colour of a layer at column `x`: a background's scanline, the sprite
/// layer, or the backdrop (palette entry 0).
pub open spec fn layer_color(gpu: GPU, mem: Seq<u8>, layer: u8, x: int) -> Rgb15 {
    let line = gpu.vertical_count.current_scanline() as int;
    if layer <= 3 {
        gpu.backgrounds@[layer as int].scan_line@[x]
    } else if layer == 4 {
        gpu.obj_buffer@[DISPLAY_WIDTH * line + x].0
    } else {
        rgb15_of(halfword_at(mem, PALETTE_RAM_START as int))
    }
}

/// The colour effect applied at column `x` of the current line (`Off` when
/// none): where effects are allowed, or where a semi-transparent sprite is in
/// front, the selected effect applies when the front layer is a first
/// target and (for alpha blending) the layer behind is a second target; a
/// semi-transparent sprite over a second target always alpha-blends.
pub open spec fn effect_at(gpu: GPU, x: int) -> BlendMode {
    let line = gpu.vertical_count.current_scanline() as u32;
    let (sfx, objs, bgs) = pixel_flags(gpu, x as u32, line);
    let (l0, l1) = layers_at(gpu, x);
    let is_alpha_obj = l0 == 4 && gpu.obj_buffer@[DISPLAY_WIDTH * line + x].2 == 1;
    let bldcnt = gpu.color_special_effects_selection;
    if sfx || is_alpha_obj {
        let have_destination = is_first_target(bldcnt, l0) || is_alpha_obj;
        let have_source = is_second_target(bldcnt, l1);
        let mode = if is_alpha_obj && have_source { BlendMode::Alpha } else { blend_mode_of(bldcnt.blend_mode()) };
        if mode != BlendMode::Off && have_destination && (have_source || mode != BlendMode::Alpha) {
            mode
        } else {
            BlendMode::Off
        }
    } else {
        BlendMode::Off
    }
}

/// The final colour of column `x` of the current line: the front layer,
/// with the colour effect applied.
pub open spec fn composite_color(gpu: GPU, mem: Seq<u8>, x: int) -> Rgb15 {
    let (l0, l1) = layers_at(gpu, x);
    blended(
        layer_color(gpu, mem, l0, x),
        layer_color(gpu, mem, l1, x),
        effect_at(gpu, x),
        gpu.alpha_blending_coefficients.eva_coefficient(),
        gpu.alpha_blending_coefficients.evb_coefficient(),
        gpu.brightness_coefficient.evy_coefficient(),
    )
}

/// Whether a line can be composited: brightening and darkening need a
/// brightness of at most 16 sixteenths wherever they apply.
pub open spec fn composite_in_range(gpu: GPU) -> bool {
    forall|x: int| 0 <= x < DISPLAY_WIDTH && (#[trigger] effect_at(gpu, x) == BlendMode::White || effect_at(gpu, x) == BlendMode::Black)
        ==> gpu.brightness_coefficient.evy_coefficient() <= 16
}

/// Window 0 wins over window 1, which wins over the sprite window: a pixel
/// inside an enabled window 0 is in window 0 whatever else covers it; a
/// pixel placed in window 1 is inside it and outside any enabled window 0;
/// one placed in the sprite window is marked in the sprite window mask and
/// in neither enabled rectangular window; one placed outside is in no
/// enabled window; and with every window off no region is given.
pub proof fn lemma_window_priority(gpu: GPU, x: u32, y: u32)
    ensures
        ({
            let dc = gpu.display_control;
            let in0 = dc.window_0_display_flag() != 0 && gpu.windows@[0].contains(x, y);
            let in1 = dc.window_1_display_flag() != 0 && gpu.windows@[1].contains(x, y);
            let in_obj = dc.obj_window_display_flag() != 0 && gpu.obj_window@[DISPLAY_WIDTH * y + x];
            &&& in0 ==> window_type_at(gpu, x, y) == Some(WindowTypes::Window0)
            &&& window_type_at(gpu, x, y) == Some(WindowTypes::Window1) ==> in1 && !in0
            &&& window_type_at(gpu, x, y) == Some(WindowTypes::WindowObject) ==> in_obj && !in0 && !in1
            &&& window_type_at(gpu, x, y) == Some(WindowTypes::WindowOutside) ==> !in0 && !in1 && !in_obj
            &&& (window_type_at(gpu, x, y) is None) == (dc.window_0_display_flag() == 0 && dc.window_1_display_flag() == 0
                && dc.obj_window_display_flag() == 0)
        }),
{
}

impl GPU {
    /// The window region of a pixel (see `window_type_at`).
    fn get_window_type(&self, x: u32, y: u32) -> (window: Option<WindowTypes>)
        requires
            self.wf(),
            x < DISPLAY_WIDTH,
            y < DISPLAY_HEIGHT,
        ensures
            window == window_type_at(*self, x, y),
    {
        if self.display_control.using_windows() {
            if self.display_control.get_window_0_display_flag() != 0 && self.windows[0].inside(x, y) {
                return Some(WindowTypes::Window0);
            }
            if self.display_control.get_window_1_display_flag() != 0 && self.windows[1].inside(x, y) {
                return Some(WindowTypes::Window1);
            }
            let obj_window_index: usize = (DISPLAY_WIDTH * y + x) as usize;
            if self.display_control.get_obj_window_display_flag() != 0 && self.obj_window[obj_window_index] {
                return Some(WindowTypes::WindowObject);
            }
            Some(WindowTypes::WindowOutside)
        } else {
            None
        }
    }

    /// What a window region shows (see `window_flags_of`).
    fn get_window_flags(&self, window_type: &WindowTypes) -> (flags: (bool, bool, [bool; 4]))
        ensures
            (flags.0, flags.1, flags.2@) == window_flags_of(
                self.control_window_inside,
                self.control_window_outside,
                *window_type,
            ),
    {
        match window_type {
            WindowTypes::Window0 | WindowTypes::Window1 => {
                (
                    self.control_window_inside.should_display_sfx(window_type),
                    self.control_window_inside.should_display_obj(window_type),
                    self.control_window_inside.bgs_to_display(window_type),
                )
            },
            WindowTypes::WindowObject | WindowTypes::WindowOutside => {
                (
                    self.control_window_outside.should_display_sfx(window_type),
                    self.control_window_outside.should_display_obj(window_type),
                    self.control_window_outside.bgs_to_display(window_type),
                )
            },
        }
    }

    /// Blends `target_2` into `target_1` with the display's alpha and
    /// brightness coefficients (see `blended`).
    fn blend(&self, target_1: &mut Rgb15, target_2: &Rgb15, blend_mode: &BlendMode)
        requires
            *blend_mode == BlendMode::White || *blend_mode == BlendMode::Black
                ==> self.brightness_coefficient.evy_coefficient() <= 16,
        ensures
            *final(target_1) == blended(
                *old(target_1),
                *target_2,
                *blend_mode,
                self.alpha_blending_coefficients.eva_coefficient(),
                self.alpha_blending_coefficients.evb_coefficient(),
                self.brightness_coefficient.evy_coefficient(),
            ),
    {
        let eva = self.alpha_blending_coefficients.get_eva_coefficient();
        let evb = self.alpha_blending_coefficients.get_evb_coefficient();
        let evy = self.brightness_coefficient.get_evy_coefficient();
        match blend_mode {
            BlendMode::Alpha | BlendMode::Off => blend_colors(target_1, target_2, blend_mode, eva, evb, 0),
            _ => blend_colors(target_1, target_2, blend_mode, eva, evb, evy),
        }
    }

    /// The shown backgrounds in drawing order and their number (see `bg_order`).
    fn sort_backgrounds(&self) -> (sorted: ([u8; 4], usize))
        ensures
            sorted.1 == bg_order(*self, 16).len(),
            sorted.1 <= 4,
            forall|i: int| 0 <= i < sorted.1 ==> sorted.0@[i] == bg_order(*self, 16)[i],
    {
        let mut bg_list: [u8; 4] = [0; 4];
        let mut bg_count: usize = 0;
        let mut priority: u8 = 4;
        while priority > 0
            invariant
                priority <= 4,
                bg_count == bg_order(*self, (4 * (4 - priority)) as nat).len(),
                forall|i: int| 0 <= i < bg_count ==> bg_list@[i] == bg_order(*self, (4 * (4 - priority)) as nat)[i],
            decreases priority,
        {
            priority = priority - 1;
            let mut bg: u8 = 4;
            while bg > 0
                invariant
                    priority < 4,
                    bg <= 4,
                    bg_count == bg_order(*self, (4 * (3 - priority) + (4 - bg)) as nat).len(),
                    forall|i: int| 0 <= i < bg_count ==> bg_list@[i] == bg_order(
                        *self,
                        (4 * (3 - priority) + (4 - bg)) as nat,
                    )[i],
                decreases bg,
            {
                bg = bg - 1;
                if self.display_control.should_display(bg) && self.backgrounds[bg as usize].control.get_bg_priority() == priority {
                    proof {
                        lemma_bg_order_len(*self, (4 * (3 - priority) + (4 - bg)) as nat);
                    }
                    bg_list[bg_count] = bg;
                    bg_count = bg_count + 1;
                }
            }
        }
        proof {
            lemma_bg_order_len(*self, 16);
        }
        (bg_list, bg_count)
    }

    /// The 0RGB word of column `x` of the current line (see `composite_color`).
    fn composite_pixel(&self, mem_map: &MemoryMap, bg_list: &[u8; 4], bg_count: usize, x: u32, line: u32) -> (word: u32)
        requires
            self.wf(),
            line == self.vertical_count.current_scanline(),
            line < DISPLAY_HEIGHT,
            x < DISPLAY_WIDTH,
            mem_map.memory.len() > PALETTE_RAM_START + 1,
            composite_in_range(*self),
            bg_count == bg_order(*self, 16).len(),
            bg_count <= 4,
            forall|i: int| 0 <= i < bg_count ==> bg_list@[i] == bg_order(*self, 16)[i],
        ensures
            word == composite_word(*self, mem_map.memory@, x as int),
    {
        let ghost order = bg_order(*self, 16);
        proof {
            lemma_bg_order_len(*self, 16);
        }
        let obj_buffer_index: usize = (DISPLAY_WIDTH * line + x) as usize;
        let (obj_color, obj_priority, obj_gfx_mode) = self.obj_buffer[obj_buffer_index];
        let window_type = self.get_window_type(x, line);
        let dsp_ctrl_obj = self.display_control.get_screen_display_obj() != 0;
        let (disp_sfx, disp_obj, bgs_to_disp) = match &window_type {
            Some(val) => self.get_window_flags(val),
            None => (true, true, [true, true, true, true]),
        };
        proof {
            assert((disp_sfx, disp_obj, bgs_to_disp@) == pixel_flags(*self, x, line));
        }
        let mut layer: (u8, u8) = (5, 5);
        let mut priority: (u8, u8) = (4, 4);
        let mut i: usize = 0;
        while i < bg_count
            invariant
                i <= bg_count,
                bg_count == order.len(),
                bg_count <= 4,
                order == bg_order(*self, 16),
                forall|k: int| 0 <= k < bg_count ==> bg_list@[k] == order[k],
                forall|k: int| 0 <= k < order.len() ==> order[k] < 4,
                self.wf(),
                x < DISPLAY_WIDTH,
                bgs_to_disp@.len() == 4,
                (layer.0, layer.1, priority.0, priority.1) == stacked_layers(*self, order, bgs_to_disp@, x as int, i as nat),
                layer.0 <= 5 && layer.1 <= 5,
            decreases bg_count - i,
        {
            let bg = bg_list[i];
            proof {
                assert(bg == order[i as int]);
            }
            if bgs_to_disp[bg as usize] {
                let pixel_new = self.backgrounds[bg as usize].scan_line[x as usize];
                if !pixel_new.is_transparent() {
                    layer.1 = layer.0;
                    layer.0 = bg;
                    priority.1 = priority.0;
                    priority.0 = self.backgrounds[bg as usize].control.get_bg_priority();
                }
            }
            i = i + 1;
        }
        if dsp_ctrl_obj && disp_obj && !obj_color.is_transparent() {
            if obj_priority <= priority.0 {
                layer.1 = layer.0;
                layer.0 = 4;
            } else if obj_priority <= priority.1 {
                layer.1 = 4;
            }
        }
        proof {
            assert((layer.0, layer.1) == layers_at(*self, x as int));
        }
        let mut front = self.layer_pixel(mem_map, layer.0, x, obj_color);
        let back = self.layer_pixel(mem_map, layer.1, x, obj_color);
        let is_alpha_obj = layer.0 == 4 && obj_gfx_mode == 0b01;
        if disp_sfx || is_alpha_obj {
            let mut blend_mode = self.color_special_effects_selection.get_blendmode();
            let have_destination = self.color_special_effects_selection.has_destination(layer.0) || is_alpha_obj;
            let have_source = self.color_special_effects_selection.has_source(layer.1);
            if is_alpha_obj && have_source {
                blend_mode = BlendMode::Alpha;
            }
            if blend_mode != BlendMode::Off && have_destination && (have_source || blend_mode != BlendMode::Alpha) {
                proof {
                    assert(blend_mode == effect_at(*self, x as int));
                }
                self.blend(&mut front, &back, &blend_mode);
            }
        }
        front.to_0rgb()
    }

    /// The colour of a layer at column `x` of the current line (see `layer_color`).
    fn layer_pixel(&self, mem_map: &MemoryMap, layer: u8, x: u32, obj_color: Rgb15) -> (color: Rgb15)
        requires
            self.wf(),
            layer <= 5,
            x < DISPLAY_WIDTH,
            self.vertical_count.current_scanline() < DISPLAY_HEIGHT,
            obj_color == self.obj_buffer@[DISPLAY_WIDTH * self.vertical_count.current_scanline() + x].0,
            mem_map.memory.len() > PALETTE_RAM_START + 1,
        ensures
            color == layer_color(*self, mem_map.memory@, layer, x as int),
    {
        if layer <= 3 {
            self.backgrounds[layer as usize].scan_line[x as usize]
        } else if layer == 4 {
            obj_color
        } else {
            Rgb15::new(mem_map.read_u16(PALETTE_RAM_START))
        }
    }

    /// Composites the current line into the frame buffer: each column gets
    /// the 0RGB word of its final colour (see `composite_color`); the rest
    /// of the frame buffer and of the display is left as it was.
    pub fn composite_background(&mut self, mem_map: &MemoryMap)
        requires
            old(self).wf(),
            old(self).vertical_count.current_scanline() < DISPLAY_HEIGHT,
            mem_map.memory.len() > PALETTE_RAM_START + 1,
            composite_in_range(*old(self)),
        ensures
            final(self).wf(),
            forall|x: int| 0 <= x < DISPLAY_WIDTH ==> #[trigger] final(self).frame_buffer@[DISPLAY_WIDTH
                * old(self).vertical_count.current_scanline() + x] == composite_word(*old(self), mem_map.memory@, x),
            forall|i: int|
                0 <= i < WINDOW_SIZE && !(DISPLAY_WIDTH * old(self).vertical_count.current_scanline() <= i
                    < DISPLAY_WIDTH * old(self).vertical_count.current_scanline() + DISPLAY_WIDTH)
                    ==> #[trigger] final(self).frame_buffer@[i] == old(self).frame_buffer@[i],
            *final(self) == (GPU { frame_buffer: final(self).frame_buffer, ..*old(self) }),
    {
        let current_scanline = self.vertical_count.get_current_scanline() as u32;
        let (bg_list, bg_count) = self.sort_backgrounds();
        let mut words: Vec<u32> = Vec::new();
        let mut x: u32 = 0;
        while x < DISPLAY_WIDTH
            invariant
                x <= DISPLAY_WIDTH,
                words.len() == x,
                *self == *old(self),
                self.wf(),
                current_scanline == self.vertical_count.current_scanline(),
                current_scanline < DISPLAY_HEIGHT,
                mem_map.memory.len() > PALETTE_RAM_START + 1,
                composite_in_range(*self),
                bg_count == bg_order(*self, 16).len(),
                bg_count <= 4,
                forall|i: int| 0 <= i < bg_count ==> bg_list@[i] == bg_order(*self, 16)[i],
                forall|k: int| 0 <= k < x ==> words@[k] == composite_word(*self, mem_map.memory@, k),
            decreases DISPLAY_WIDTH - x,
        {
            let word = self.composite_pixel(mem_map, &bg_list, bg_count, x, current_scanline);
            words.push(word);
            x = x + 1;
        }
        let base: usize = (DISPLAY_WIDTH * current_scanline) as usize;
        let mut x: usize = 0;
        while x < 240
            invariant
                x <= 240,
                words.len() == DISPLAY_WIDTH,
                base == DISPLAY_WIDTH * old(self).vertical_count.current_scanline(),
                old(self).vertical_count.current_scanline() < DISPLAY_HEIGHT,
                self.frame_buffer.len() == WINDOW_SIZE,
                *self == (GPU { frame_buffer: self.frame_buffer, ..*old(self) }),
                forall|k: int| 0 <= k < DISPLAY_WIDTH ==> words@[k] == composite_word(*old(self), mem_map.memory@, k),
                forall|k: int| 0 <= k < x ==> self.frame_buffer@[base + k] == words@[k],
                forall|i: int|
                    0 <= i < WINDOW_SIZE && !(base <= i < base + x) ==> self.frame_buffer@[i] == old(self).frame_buffer@[i],
            decreases 240 - x,
        {
            self.frame_buffer.set(base + x, words[x]);
            x = x + 1;
        }
        proof {
            assert forall|k: int| 0 <= k < DISPLAY_WIDTH implies #[trigger] self.frame_buffer@[base + k]
                == composite_word(*old(self), mem_map.memory@, k) by {
                assert(self.frame_buffer@[base + k] == words@[k]);
            }
        }
    }
}

/// The 0RGB word of column `x`'s final colour.
pub open spec fn composite_word(gpu: GPU, mem: Seq<u8>, x: int) -> u32 {
    let c = composite_color(gpu, mem, x);
    zero_rgb(c.red, c.green, c.blue)
}

/// The position of background `bg` among the 16 (priority, background)
/// pairs that `bg_order` walks.
spec fn bg_slot(gpu: GPU, bg: int) -> int {
    4 * (3 - gpu.backgrounds@[bg].control.bg_priority()) + (3 - bg)
}

/// How many of the four backgrounds have their pair among the first `k`.
spec fn slots_before(gpu: GPU, k: int) -> int {
    (if bg_slot(gpu, 0) < k { 1int } else { 0 }) + (if bg_slot(gpu, 1) < k { 1int } else { 0 })
        + (if bg_slot(gpu, 2) < k { 1int } else { 0 }) + (if bg_slot(gpu, 3) < k { 1int } else { 0 })
}

/// Each background enters the drawing order at most once, so the order
/// holds at most four backgrounds.
proof fn lemma_bg_order_len(gpu: GPU, k: nat)
    ensures
        bg_order(gpu, k).len() <= slots_before(gpu, k as int),
        bg_order(gpu, k).len() <= 4,
        forall|i: int| 0 <= i < bg_order(gpu, k).len() ==> bg_order(gpu, k)[i] < 4,
    decreases k,
{
    if k > 0 {
        lemma_bg_order_len(gpu, (k - 1) as nat);
        let j = k - 1;
        let bg = 3 - j % 4;
        assert(j == 4 * (j / 4) + j % 4);
        if shows_bg(gpu.display_control, bg) && gpu.backgrounds@[bg].control.bg_priority() == 3 - j / 4 {
            assert(bg_slot(gpu, bg) == j);
        }
    }
}

} // verus!
