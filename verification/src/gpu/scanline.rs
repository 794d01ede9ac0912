use vstd::prelude::*;
use crate::gpu::bitmap::{bitmap_page, mode_3_pixel, mode_4_pixel, mode_5_pixel, sign_extend_28};
use crate::gpu::gpu::{Background, DISPLAY_HEIGHT, DISPLAY_WIDTH, GPU};
use crate::gpu::graphic_effects::shows_bg;
use crate::gpu::object::{
    aff_obj_color, aff_obj_covers, normal_obj_color, normal_obj_covers, sprite_layers,
};
use crate::gpu::rgb15::Rgb15;
use crate::gpu::tile_map::{aff_bg_pixel, text_bg_pixel};
use crate::memory::memory_map::MemoryMap;

verus! {

/// The new colour of column `x` of background `bg` when the current line is
/// rendered, or `None` where rendering leaves it as it was. Mode 0 draws
/// the shown text backgrounds 0-3; mode 1 the shown text backgrounds 0 and 1
/// and affine background 2; mode 2 the shown affine backgrounds 2 and 3;
/// modes 3, 4 and 5 draw the bitmap into background 2 (mode 5 only its first
/// 160 columns).
pub open spec fn rendered_bg_pixel(gpu: GPU, mem: Seq<u8>, bg: int, x: int) -> Option<Rgb15> {
    let dc = gpu.display_control;
    let mode = dc.bg_mode();
    let affine = gpu.bg_affine_components@[0];
    let ref_x = sign_extend_28(affine.refrence_point_x_internal);
    let ref_y = sign_extend_28(affine.refrence_point_y_internal);
    let pa = affine.rotation_scaling_param_a.value as i16 as i32;
    let pc = affine.rotation_scaling_param_c.value as i16 as i32;
    let page = bitmap_page(dc.display_frame_select());
    if mode == 0 {
        if shows_bg(dc, bg) { Some(text_bg_pixel(gpu, mem, bg, x)) } else { None }
    } else if mode == 1 {
        if bg <= 1 && shows_bg(dc, bg) {
            Some(text_bg_pixel(gpu, mem, bg, x))
        } else if bg == 2 && shows_bg(dc, bg) {
            Some(aff_bg_pixel(gpu, mem, bg, x))
        } else {
            None
        }
    } else if mode == 2 {
        if bg >= 2 && shows_bg(dc, bg) { Some(aff_bg_pixel(gpu, mem, bg, x)) } else { None }
    } else if bg != 2 {
        None
    } else if mode == 3 {
        Some(mode_3_pixel(mem, ref_x, ref_y, pa, pc, x))
    } else if mode == 4 {
        Some(mode_4_pixel(mem, page, ref_x, ref_y, pa, pc, x))
    } else if x < 160 {
        Some(mode_5_pixel(mem, page, ref_x, ref_y, pa, pc, x))
    } else {
        None
    }
}

/// `bgs` are the backgrounds of `before` with the current line drawn into
/// their scanlines as `rendered_bg_pixel` says, their registers unchanged.
pub open spec fn backgrounds_drawn(bgs: [Background; 4], before: GPU, mem: Seq<u8>) -> bool {
    &&& forall|bg: int| 0 <= bg < 4 ==> (#[trigger] bgs@[bg]).scan_line.len() == DISPLAY_WIDTH
    &&& forall|bg: int, x: int|
        0 <= bg < 4 && 0 <= x < DISPLAY_WIDTH ==> #[trigger] bgs@[bg].scan_line@[x] == match rendered_bg_pixel(
            before,
            mem,
            bg,
            x,
        ) {
            Some(c) => c,
            None => before.backgrounds@[bg].scan_line@[x],
        }
    &&& forall|bg: int| 0 <= bg < 4 ==> (#[trigger] bgs@[bg]).control == before.backgrounds@[bg].control
    &&& forall|bg: int| 0 <= bg < 4 ==> (#[trigger] bgs@[bg]).horizontal_offset == before.backgrounds@[bg].horizontal_offset
    &&& forall|bg: int| 0 <= bg < 4 ==> (#[trigger] bgs@[bg]).vertical_offset == before.backgrounds@[bg].vertical_offset
    &&& forall|bg: int| 0 <= bg < 4 ==> (#[trigger] bgs@[bg]).id == before.backgrounds@[bg].id
}

/// `now` is `before` with its current line rendered: the backgrounds drawn
/// (`backgrounds_drawn`), the sprite layer and sprite window drawn
/// (`sprite_layers`) when sprites are on, and nothing else changed.
pub open spec fn scanline_rendered(now: GPU, before: GPU, mem: Seq<u8>) -> bool {
    &&& now.wf()
    &&& backgrounds_drawn(now.backgrounds, before, mem)
    &&& if before.display_control.screen_display_obj() == 1 {
        (now.obj_buffer@, now.obj_window@) == sprite_layers(before, mem, 128)
    } else {
        now.obj_buffer == before.obj_buffer && now.obj_window == before.obj_window
    }
    &&& now == (GPU { backgrounds: now.backgrounds, obj_buffer: now.obj_buffer, obj_window: now.obj_window, ..before })
}

/// A text background's pixels depend only on its registers and the line.
proof fn lemma_text_bg_pixel_frame(g0: GPU, g1: GPU, mem: Seq<u8>, bg: int)
    requires
        g1.backgrounds@[bg].control == g0.backgrounds@[bg].control,
        g1.backgrounds@[bg].horizontal_offset == g0.backgrounds@[bg].horizontal_offset,
        g1.backgrounds@[bg].vertical_offset == g0.backgrounds@[bg].vertical_offset,
        g1.vertical_count == g0.vertical_count,
    ensures
        forall|x: int| #[trigger] text_bg_pixel(g1, mem, bg, x) == text_bg_pixel(g0, mem, bg, x),
{
}

/// Drawing sprites does not look at the backgrounds.
proof fn lemma_sprite_layers_ignore_backgrounds(g0: GPU, g1: GPU, mem: Seq<u8>, k: nat)
    requires
        g1 == (GPU { backgrounds: g1.backgrounds, ..g0 }),
    ensures
        sprite_layers(g1, mem, k) == sprite_layers(g0, mem, k),
    decreases k,
{
    if k > 0 {
        lemma_sprite_layers_ignore_backgrounds(g0, g1, mem, (k - 1) as nat);
        let n = k - 1;
        assert((|x: int| normal_obj_color(g1, mem, n, x)) =~= (|x: int| normal_obj_color(g0, mem, n, x)));
        assert((|x: int| normal_obj_covers(g1, n, x)) =~= (|x: int| normal_obj_covers(g0, n, x)));
        assert((|x: int| aff_obj_color(g1, mem, n, x)) =~= (|x: int| aff_obj_color(g0, mem, n, x)));
        assert((|x: int| aff_obj_covers(g1, n, x)) =~= (|x: int| aff_obj_covers(g0, n, x)));
    }
}

impl GPU {
    /// Draws the current line of the backgrounds that the display mode shows
    /// (see `rendered_bg_pixel`).
    #[verifier::spinoff_prover]
    fn render_backgrounds(&mut self, mem_map: &MemoryMap)
        requires
            old(self).wf(),
            old(self).display_control.bg_mode() <= 5,
            mem_map.memory.len() >= 0x0602_0000,
        ensures
            final(self).wf(),
            backgrounds_drawn(final(self).backgrounds, *old(self), mem_map.memory@),
            *final(self) == (GPU { backgrounds: final(self).backgrounds, ..*old(self) }),
    {
        let ghost mem = mem_map.memory@;
        let current_mode = self.display_control.get_bg_mode();
        match current_mode {
            0 => {
                let mut i: u8 = 0;
                while i < 4
                    invariant
                        i <= 4,
                        self.wf(),
                        mem_map.memory.len() >= 0x0602_0000,
                        mem == mem_map.memory@,
                        old(self).display_control.bg_mode() == 0,
                        forall|bg: int, x: int|
                            0 <= bg < 4 && 0 <= x < DISPLAY_WIDTH ==> #[trigger] self.backgrounds@[bg].scan_line@[x] == (
                            if bg < i && shows_bg(old(self).display_control, bg) {
                                text_bg_pixel(*old(self), mem, bg, x)
                            } else {
                                old(self).backgrounds@[bg].scan_line@[x]
                            }),
                        forall|bg: int| 0 <= bg < 4 ==> (#[trigger] self.backgrounds@[bg]).control == old(self).backgrounds@[bg].control,
                        forall|bg: int| 0 <= bg < 4 ==> (#[trigger] self.backgrounds@[bg]).horizontal_offset
                            == old(self).backgrounds@[bg].horizontal_offset,
                        forall|bg: int| 0 <= bg < 4 ==> (#[trigger] self.backgrounds@[bg]).vertical_offset
                            == old(self).backgrounds@[bg].vertical_offset,
                        forall|bg: int| 0 <= bg < 4 ==> (#[trigger] self.backgrounds@[bg]).id == old(self).backgrounds@[bg].id,
                        *self == (GPU { backgrounds: self.backgrounds, ..*old(self) }),
                    decreases 4 - i,
                {
                    let ghost before = *self;
                    if self.display_control.should_display(i) {
                        self.render_bg(mem_map, i as usize);
                        proof {
                            lemma_text_bg_pixel_frame(*old(self), before, mem, i as int);
                        }
                    }
                    proof {
                        assert forall|bg: int, x: int| 0 <= bg < 4 && 0 <= x < DISPLAY_WIDTH implies #[trigger] self.backgrounds@[bg].scan_line@[x] == (
                            if bg < i + 1 && shows_bg(old(self).display_control, bg) {
                                text_bg_pixel(*old(self), mem, bg, x)
                            } else {
                                old(self).backgrounds@[bg].scan_line@[x]
                            }) by {
                            if bg != i {
                                assert(self.backgrounds@[bg] == before.backgrounds@[bg]);
                                assert(before.backgrounds@[bg].scan_line@[x] == (if bg < i && shows_bg(old(self).display_control, bg) {
                                    text_bg_pixel(*old(self), mem, bg, x)
                                } else {
                                    old(self).backgrounds@[bg].scan_line@[x]
                                }));
                            } else {
                                assert(before.backgrounds@[bg].scan_line@[x] == old(self).backgrounds@[bg].scan_line@[x]);
                            }
                        }
                    }
                    i = i + 1;
                }
                proof {
                    assert forall|bg: int, x: int| 0 <= bg < 4 && 0 <= x < DISPLAY_WIDTH implies #[trigger] self.backgrounds@[bg].scan_line@[x]
                        == match rendered_bg_pixel(*old(self), mem, bg, x) {
                        Some(c) => c,
                        None => old(self).backgrounds@[bg].scan_line@[x],
                    } by {
                        assert(self.backgrounds@[bg].scan_line@[x] == (if bg < 4 && shows_bg(old(self).display_control, bg) {
                            text_bg_pixel(*old(self), mem, bg, x)
                        } else {
                            old(self).backgrounds@[bg].scan_line@[x]
                        }));
                    }
                    assert forall|bg: int| 0 <= bg < 4 implies (#[trigger] self.backgrounds@[bg]).control == old(self).backgrounds@[bg].control
                        && self.backgrounds@[bg].horizontal_offset == old(self).backgrounds@[bg].horizontal_offset
                        && self.backgrounds@[bg].vertical_offset == old(self).backgrounds@[bg].vertical_offset
                        && self.backgrounds@[bg].id == old(self).backgrounds@[bg].id by {}
                }
            },
            1 => {
                let ghost g0 = *self;
                if self.display_control.should_display(2) {
                    self.render_aff_bg(mem_map, 2);
                }
                let ghost g1 = *self;
                if self.display_control.should_display(1) {
                    self.render_bg(mem_map, 1);
                    proof {
                        lemma_text_bg_pixel_frame(g0, g1, mem, 1);
                    }
                }
                let ghost g2 = *self;
                if self.display_control.should_display(0) {
                    self.render_bg(mem_map, 0);
                    proof {
                        lemma_text_bg_pixel_frame(g0, g2, mem, 0);
                    }
                }
                proof {
                    assert(g1.backgrounds@[3] == g0.backgrounds@[3]);
                    assert(g2.backgrounds@[3] == g0.backgrounds@[3]);
                    assert(self.backgrounds@[3] == g0.backgrounds@[3]);
                    assert(g2.backgrounds@[2] == g1.backgrounds@[2]);
                    assert(self.backgrounds@[2] == g1.backgrounds@[2]);
                    assert(self.backgrounds@[1] == g2.backgrounds@[1]);
                    assert(g1.backgrounds@[1] == g0.backgrounds@[1]);
                    assert(g1.backgrounds@[0] == g0.backgrounds@[0]);
                    assert(g2.backgrounds@[0] == g0.backgrounds@[0]);
                }
            },
            2 => {
                let ghost g0 = *self;
                if self.display_control.should_display(2) {
                    self.render_aff_bg(mem_map, 2);
                }
                let ghost g1 = *self;
                if self.display_control.should_display(3) {
                    self.render_aff_bg(mem_map, 3);
                    proof {
                        assert(g1.bg_affine_components == g0.bg_affine_components);
                        assert(g1.backgrounds@[3].control == g0.backgrounds@[3].control);
                        assert forall|x: int| #[trigger] aff_bg_pixel(g1, mem, 3, x) == aff_bg_pixel(g0, mem, 3, x) by {}
                    }
                }
                proof {
                    assert(g1.backgrounds@[0] == g0.backgrounds@[0]);
                    assert(g1.backgrounds@[1] == g0.backgrounds@[1]);
                    assert(self.backgrounds@[2] == g1.backgrounds@[2]);
                }
            },
            3 => {
                self.render_mode_3(mem_map);
            },
            4 => {
                self.render_mode_4(mem_map);
            },
            _ => {
                self.render_mode_5(mem_map);
            },
        }
    }

    /// Renders the current line: the backgrounds that the display mode
    /// draws, then the sprites when they are on (see `scanline_rendered`).
    pub(crate) fn render_scanline(&mut self, mem_map: &MemoryMap)
        requires
            old(self).wf(),
            old(self).vertical_count.current_scanline() < DISPLAY_HEIGHT,
            old(self).display_control.bg_mode() <= 5,
            mem_map.memory.len() >= 0x0602_0000,
        ensures
            scanline_rendered(*final(self), *old(self), mem_map.memory@),
    {
        self.render_backgrounds(mem_map);
        let ghost drawn = *self;
        if self.display_control.get_screen_display_obj() == 1 {
            self.render_obj(mem_map);
            proof {
                lemma_sprite_layers_ignore_backgrounds(*old(self), drawn, mem_map.memory@, 128);
            }
        }
    }
}

} // verus!
