use vstd::prelude::*;
use crate::bits::{lemma_bits_of_with_other_bits, with_bits};
use crate::dma::DMAController;
use crate::gpu::bitmap::{sign_extend_28, sign_extend_reference};
use crate::gpu::gpu::{
    BgAffineComponent, GpuState, DISPLAY_HEIGHT, DISPLAY_WIDTH, GPU, HBLANK_CYCLES, HDRAW_CYCLES, SCANLINE_CYCLES,
    VBLANK_LENGTH, WINDOW_SIZE,
};
use crate::gpu::lcd_control_registers::{DisplayStatus, VerticalCount};
use crate::interrupts::interrupts::Interrupts;
use crate::gpu::graphic_effects::{composite_in_range, composite_word};
use crate::gpu::scanline::scanline_rendered;
use crate::memory::interrupt_registers::InterruptRequestFlags;
use crate::memory::memory_map::MemoryMap;

verus! {

/// The display with flag `bit` of its status register (DISPSTAT) set to `v`.
pub open spec fn with_status_flag(gpu: GPU, bit: u32, v: u32) -> GPU {
    GPU { display_status: DisplayStatus { value: with_bits(gpu.display_status.value as u32, bit, 1, v) as u16 }, ..gpu }
}

/// The interrupt controller with request `bit` raised when `raise` holds.
pub open spec fn raised_if(irq: Interrupts, bit: u32, raise: bool) -> Interrupts {
    if raise {
        Interrupts {
            if_interrupt: InterruptRequestFlags { value: with_bits(irq.if_interrupt.value as u32, bit, 1, 1) as u16 },
            ..irq
        }
    } else {
        irq
    }
}

/// VCOUNT set to `line`; the V-counter match flag set to whether `line` is
/// the V-count setting; the V-counter interrupt (request bit 2) raised on a
/// match when its interrupt is enabled.
pub open spec fn vcount_set(gpu: GPU, irq: Interrupts, line: u8) -> (GPU, Interrupts) {
    let matched = gpu.display_status.vcount_setting() == line;
    let counted = GPU {
        vertical_count: VerticalCount { value: with_bits(gpu.vertical_count.value as u32, 0, 8, line as u32) as u16 },
        ..gpu
    };
    (
        with_status_flag(counted, 2, if matched { 1 } else { 0 }),
        raised_if(irq, 2, gpu.display_status.vcounter_irq_enable() == 1 && matched),
    )
}

/// One reference point stepped to the next line: from the written value
/// when it was rewritten since the last step (it differs from the held
/// copy), else from the current one, plus the matrix column entry.
pub open spec fn stepped_reference(internal: u32, external: u32, hold: u32, step: i32) -> u32 {
    let start = if hold != external { sign_extend_28(external) } else { sign_extend_28(internal) };
    (step + start) as u32
}

/// The affine state at the start of the next line: each reference point
/// stepped by the matrix entries B and D (see `stepped_reference`), the
/// written values held.
pub open spec fn affine_stepped(c: BgAffineComponent) -> BgAffineComponent {
    BgAffineComponent {
        refrence_point_x_internal: stepped_reference(
            c.refrence_point_x_internal,
            c.refrence_point_x_external,
            c.refrence_point_x_external_hold,
            c.rotation_scaling_param_b.value as i16 as i32,
        ),
        refrence_point_y_internal: stepped_reference(
            c.refrence_point_y_internal,
            c.refrence_point_y_external,
            c.refrence_point_y_external_hold,
            c.rotation_scaling_param_d.value as i16 as i32,
        ),
        refrence_point_x_external_hold: c.refrence_point_x_external,
        refrence_point_y_external_hold: c.refrence_point_y_external,
        ..c
    }
}

/// The affine state at the start of a frame: the reference points reloaded
/// from their written values, which are held.
pub open spec fn affine_reloaded(c: BgAffineComponent) -> BgAffineComponent {
    BgAffineComponent {
        refrence_point_x_internal: c.refrence_point_x_external,
        refrence_point_y_internal: c.refrence_point_y_external,
        refrence_point_x_external_hold: c.refrence_point_x_external,
        refrence_point_y_external_hold: c.refrence_point_y_external,
        ..c
    }
}


/// `now` is `before` with its current line drawn: the backgrounds, sprite
/// layer and sprite window rendered (`scanline_rendered`) and the line's
/// row of the frame buffer composited from them (`composite_word`); the
/// rest of the frame buffer and of the display is unchanged.
pub open spec fn line_drawn(now: GPU, before: GPU, mem: Seq<u8>) -> bool {
    let rendered = GPU { backgrounds: now.backgrounds, obj_buffer: now.obj_buffer, obj_window: now.obj_window, ..before };
    let row = DISPLAY_WIDTH * before.vertical_count.current_scanline();
    &&& scanline_rendered(rendered, before, mem)
    &&& now.frame_buffer.len() == WINDOW_SIZE
    &&& forall|x: int| 0 <= x < DISPLAY_WIDTH ==> #[trigger] now.frame_buffer@[row + x] == composite_word(rendered, mem, x)
    &&& forall|i: int| 0 <= i < WINDOW_SIZE && !(row <= i < row + DISPLAY_WIDTH) ==> #[trigger] now.frame_buffer@[i]
        == before.frame_buffer@[i]
    &&& now == (GPU { frame_buffer: now.frame_buffer, ..rendered })
}

/// Whether compositing the current line of `gpu`, once rendered, stays in
/// range (see `composite_in_range`).
pub open spec fn line_composites(gpu: GPU, mem: Seq<u8>) -> bool {
    forall|r: GPU| #[trigger] scanline_rendered(r, gpu, mem) ==> composite_in_range(r)
}

/// The end of a line's drawing period: the H-blank flag is set, the H-blank
/// interrupt (request bit 1) raised when enabled, the DMA controller told
/// of the H-blank, and H-blank begins.
pub open spec fn hdraw_ends(
    now: GPU, irq_now: Interrupts, dma_now: DMAController,
    before: GPU, irq: Interrupts, dma: DMAController,
) -> bool {
    &&& now == (GPU {
        current_state: GpuState::HBlank,
        cycles_to_next_state: HBLANK_CYCLES,
        ..with_status_flag(before, 1, 1)
    })
    &&& irq_now == raised_if(irq, 1, before.display_status.hblank_irq_enable() == 1)
    &&& dma_now == (DMAController { hblanking: true, ..dma })
}

/// The end of a line's H-blank: the H-blank flag is cleared; a visible line
/// is drawn (`line_drawn`); VCOUNT moves to the next line (`vcount_set`).
/// Before the last visible line is passed the affine reference points step
/// (`affine_stepped`) and drawing resumes; after it they are reloaded
/// (`affine_reloaded`), the V-blank flag is set, the V-blank interrupt
/// (request bit 0) raised when enabled, the DMA controller told of the
/// V-blank, and V-blank begins.
pub open spec fn hblank_ends(
    now: GPU, irq_now: Interrupts, dma_now: DMAController,
    before: GPU, irq: Interrupts, dma: DMAController, mem: Seq<u8>,
) -> bool {
    let line = before.vertical_count.current_scanline();
    let cleared = with_status_flag(before, 1, 0);
    let drawn = GPU {
        backgrounds: now.backgrounds,
        obj_buffer: now.obj_buffer,
        obj_window: now.obj_window,
        frame_buffer: now.frame_buffer,
        ..cleared
    };
    let (counted, irq_counted) = vcount_set(drawn, irq, (line + 1) as u8);
    &&& if line < DISPLAY_HEIGHT { line_drawn(drawn, cleared, mem) } else { drawn == cleared }
    &&& if line + 1 < DISPLAY_HEIGHT {
        &&& forall|i: int| 0 <= i < 2 ==> #[trigger] now.bg_affine_components@[i] == affine_stepped(before.bg_affine_components@[i])
        &&& now == (GPU {
            bg_affine_components: now.bg_affine_components,
            current_state: GpuState::HDraw,
            cycles_to_next_state: HDRAW_CYCLES,
            ..counted
        })
        &&& irq_now == irq_counted
        &&& dma_now == dma
    } else {
        &&& forall|i: int| 0 <= i < 2 ==> #[trigger] now.bg_affine_components@[i] == affine_reloaded(before.bg_affine_components@[i])
        &&& now == (GPU {
            bg_affine_components: now.bg_affine_components,
            current_state: GpuState::VBlank,
            cycles_to_next_state: SCANLINE_CYCLES,
            ..with_status_flag(counted, 0, 1)
        })
        &&& irq_now == raised_if(irq_counted, 0, before.display_status.vblank_irq_enable() == 1)
        &&& dma_now == (DMAController { vblanking: true, ..dma })
    }
}

/// The end of a V-blank line: VCOUNT moves on (`vcount_set`). Before the
/// last line of the frame the H-blank flag is set and the H-blank interrupt
/// raised when enabled; at it the V-blank flag is cleared, VCOUNT returns to
/// line 0, the frame is ready and drawing begins.
pub open spec fn vblank_line_ends(
    now: GPU, irq_now: Interrupts, dma_now: DMAController,
    before: GPU, irq: Interrupts, dma: DMAController,
) -> bool {
    let line = before.vertical_count.current_scanline();
    let (counted, irq_counted) = vcount_set(before, irq, (line + 1) as u8);
    &&& dma_now == dma
    &&& if line + 1 < DISPLAY_HEIGHT + VBLANK_LENGTH - 1 {
        &&& now == (GPU {
            current_state: GpuState::VBlank,
            cycles_to_next_state: SCANLINE_CYCLES,
            ..with_status_flag(counted, 1, 1)
        })
        &&& irq_now == raised_if(irq_counted, 1, before.display_status.hblank_irq_enable() == 1)
    } else {
        let (restarted, irq_restarted) = vcount_set(with_status_flag(counted, 0, 0), irq_counted, 0);
        &&& now == (GPU {
            current_state: GpuState::HDraw,
            cycles_to_next_state: HDRAW_CYCLES,
            frame_ready: true,
            ..restarted
        })
        &&& irq_now == irq_restarted
    }
}

/// One transition of the display's state machine (see `hdraw_ends`,
/// `hblank_ends` and `vblank_line_ends`).
pub open spec fn transition(
    now: GPU, irq_now: Interrupts, dma_now: DMAController,
    before: GPU, irq: Interrupts, dma: DMAController, mem: Seq<u8>,
) -> bool {
    match before.current_state {
        GpuState::HDraw => hdraw_ends(now, irq_now, dma_now, before, irq, dma),
        GpuState::HBlank => hblank_ends(now, irq_now, dma_now, before, irq, dma, mem),
        GpuState::VBlank => vblank_line_ends(now, irq_now, dma_now, before, irq, dma),
    }
}

/// Whether a transition can be made: a visible line that ends its H-blank
/// is drawn, which needs a display mode of at most 5 and a composite that
/// stays in range.
pub open spec fn transition_possible(gpu: GPU, mem: Seq<u8>) -> bool {
    gpu.current_state == GpuState::HBlank && gpu.vertical_count.current_scanline() < DISPLAY_HEIGHT ==> {
        &&& gpu.display_control.bg_mode() <= 5
        &&& line_composites(with_status_flag(gpu, 1, 0), mem)
    }
}

/// `cycles` cycles of the display: when they use up the current state's
/// remaining time, one transition is made (see `transition`) and the
/// overshoot is taken from the next state's time; otherwise only the
/// remaining time shrinks.
pub open spec fn stepped(
    now: GPU, irq_now: Interrupts, dma_now: DMAController,
    before: GPU, irq: Interrupts, dma: DMAController, mem: Seq<u8>, cycles: usize,
) -> bool {
    let remaining = before.cycles_to_next_state - (cycles as i64);
    if remaining <= 0 {
        transition(
            GPU { cycles_to_next_state: (now.cycles_to_next_state - remaining) as i64, ..now },
            irq_now, dma_now, before, irq, dma, mem,
        )
    } else {
        &&& now == (GPU { cycles_to_next_state: remaining as i64, ..before })
        &&& irq_now == irq
        &&& dma_now == dma
    }
}

/// A visible line is drawn into its own row of the frame buffer at the end
/// of its H-blank, before VCOUNT moves on; every other row keeps its
/// contents.
pub proof fn lemma_hblank_draws_its_own_row(
    now: GPU, irq_now: Interrupts, dma_now: DMAController,
    before: GPU, irq: Interrupts, dma: DMAController, mem: Seq<u8>,
)
    requires
        transition(now, irq_now, dma_now, before, irq, dma, mem),
        before.current_state == GpuState::HBlank,
        before.vertical_count.current_scanline() < DISPLAY_HEIGHT,
    ensures
        ({
            let row = DISPLAY_WIDTH * before.vertical_count.current_scanline();
            let rendered = GPU {
                backgrounds: now.backgrounds,
                obj_buffer: now.obj_buffer,
                obj_window: now.obj_window,
                ..with_status_flag(before, 1, 0)
            };
            &&& scanline_rendered(rendered, with_status_flag(before, 1, 0), mem)
            &&& forall|x: int| 0 <= x < DISPLAY_WIDTH ==> #[trigger] now.frame_buffer@[row + x] == composite_word(rendered, mem, x)
            &&& forall|i: int| 0 <= i < WINDOW_SIZE && !(row <= i < row + DISPLAY_WIDTH) ==> #[trigger] now.frame_buffer@[i]
                == before.frame_buffer@[i]
        }),
{
}

/// Setting one of the three status flags keeps the interrupt enables and
/// the V-count setting.
proof fn lemma_status_flag_keeps(gpu: GPU, bit: u32, v: u32)
    requires
        bit < 3,
    ensures
        with_status_flag(gpu, bit, v).display_status.vblank_irq_enable() == gpu.display_status.vblank_irq_enable(),
        with_status_flag(gpu, bit, v).display_status.hblank_irq_enable() == gpu.display_status.hblank_irq_enable(),
        with_status_flag(gpu, bit, v).display_status.vcounter_irq_enable() == gpu.display_status.vcounter_irq_enable(),
        with_status_flag(gpu, bit, v).display_status.vcount_setting() == gpu.display_status.vcount_setting(),
{
    let value = gpu.display_status.value as u32;
    assert(value < 0x10000 && bit < 3 ==> with_bits(value, bit, 1, v) < 0x10000) by (bit_vector);
    lemma_bits_of_with_other_bits(value, bit, 1, v, 3, 1);
    lemma_bits_of_with_other_bits(value, bit, 1, v, 4, 1);
    lemma_bits_of_with_other_bits(value, bit, 1, v, 5, 1);
    lemma_bits_of_with_other_bits(value, bit, 1, v, 8, 8);
}

impl BgAffineComponent {
    /// Steps the reference points to the next line (see `affine_stepped`).
    fn step_reference_points(&mut self)
        ensures
            *final(self) == affine_stepped(*old(self)),
    {
        let mut internal_x = sign_extend_reference(self.refrence_point_x_internal);
        let mut internal_y = sign_extend_reference(self.refrence_point_y_internal);
        let external_x = self.refrence_point_x_external;
        let external_y = self.refrence_point_y_external;
        if self.refrence_point_x_external_hold != external_x {
            internal_x = sign_extend_reference(external_x);
            self.refrence_point_x_external_hold = external_x;
        }
        if self.refrence_point_y_external_hold != external_y {
            internal_y = sign_extend_reference(external_y);
            self.refrence_point_y_external_hold = external_y;
        }
        let pb = self.rotation_scaling_param_b.signed_value();
        let pd = self.rotation_scaling_param_d.signed_value();
        self.refrence_point_x_internal = (pb + internal_x) as u32;
        self.refrence_point_y_internal = (pd + internal_y) as u32;
    }

    /// Reloads the reference points from their written values (see `affine_reloaded`).
    fn reload_reference_points(&mut self)
        ensures
            *final(self) == affine_reloaded(*old(self)),
    {
        self.refrence_point_x_internal = self.refrence_point_x_external;
        self.refrence_point_y_internal = self.refrence_point_y_external;
        self.refrence_point_x_external_hold = self.refrence_point_x_internal;
        self.refrence_point_y_external_hold = self.refrence_point_y_internal;
    }
}

impl GPU {
    /// Moves VCOUNT to `value` and updates the V-counter match (see `vcount_set`).
    fn update_vcount(&mut self, value: u8, irq_ctl: &mut Interrupts)
        ensures
            (*final(self), *final(irq_ctl)) == vcount_set(*old(self), *old(irq_ctl), value),
    {
        self.vertical_count.set_current_scanline(value);
        let vcount_setting = self.display_status.get_vcount_setting();
        let matched: u8 = if vcount_setting == self.vertical_count.get_current_scanline() { 1 } else { 0 };
        self.display_status.set_vcounter_flag(matched);
        if self.display_status.get_vcounter_irq_enable() == 1 && self.display_status.get_vcounter_flag() == 1 {
            irq_ctl.if_interrupt.set_lcd_v_counter(1);
        }
    }

    /// Moves the display to its next state (see `transition`).
    pub fn transition_state(&mut self, mem_map: &MemoryMap, irq_ctl: &mut Interrupts, dma_ctl: &mut DMAController)
        requires
            old(self).wf(),
            mem_map.memory.len() >= 0x0602_0000,
            transition_possible(*old(self), mem_map.memory@),
        ensures
            final(self).wf(),
            transition(*final(self), *final(irq_ctl), *final(dma_ctl), *old(self), *old(irq_ctl), *old(dma_ctl), mem_map.memory@),
    {
        let mut current_scanline = self.vertical_count.get_current_scanline() as u32;
        match self.current_state {
            GpuState::HDraw => {
                self.display_status.set_hblank_flag(1);
                if self.display_status.get_hblank_irq_enable() == 1 {
                    irq_ctl.if_interrupt.set_lcd_h_blank(1);
                }
                dma_ctl.hblanking = true;
                self.current_state = GpuState::HBlank;
                self.cycles_to_next_state = HBLANK_CYCLES;
            },
            GpuState::HBlank => {
                self.display_status.set_hblank_flag(0);
                let ghost cleared = *self;
                if current_scanline < DISPLAY_HEIGHT {
                    self.render_scanline(mem_map);
                    let ghost rendered = *self;
                    self.composite_background(mem_map);
                    proof {
                        assert(rendered == (GPU { backgrounds: self.backgrounds, obj_buffer: self.obj_buffer, obj_window: self.obj_window, ..cleared }));
                    }
                }
                let ghost drawn = *self;
                self.update_vcount((current_scanline + 1) as u8, irq_ctl);
                proof {
                    lemma_status_flag_keeps(*old(self), 1, 0);
                    lemma_status_flag_keeps(drawn, 2, if drawn.display_status.vcount_setting() == ((current_scanline + 1) as u8) { 1 } else { 0 });
                }
                current_scanline = current_scanline + 1;
                if current_scanline < DISPLAY_HEIGHT {
                    let mut c = self.bg_affine_components[0];
                    c.step_reference_points();
                    self.bg_affine_components[0] = c;
                    let mut c = self.bg_affine_components[1];
                    c.step_reference_points();
                    self.bg_affine_components[1] = c;
                    self.current_state = GpuState::HDraw;
                    self.cycles_to_next_state = HDRAW_CYCLES;
                } else {
                    let mut c = self.bg_affine_components[0];
                    c.reload_reference_points();
                    self.bg_affine_components[0] = c;
                    let mut c = self.bg_affine_components[1];
                    c.reload_reference_points();
                    self.bg_affine_components[1] = c;
                    if self.display_status.get_vblank_irq_enable() == 1 {
                        irq_ctl.if_interrupt.set_lcd_v_blank(1);
                    }
                    dma_ctl.vblanking = true;
                    self.display_status.set_vblank_flag(1);
                    self.current_state = GpuState::VBlank;
                    self.cycles_to_next_state = SCANLINE_CYCLES;
                }
                proof {
                    assert(drawn == (GPU {
                        backgrounds: self.backgrounds,
                        obj_buffer: self.obj_buffer,
                        obj_window: self.obj_window,
                        frame_buffer: self.frame_buffer,
                        ..cleared
                    }));
                }
            },
            GpuState::VBlank => {
                self.update_vcount((current_scanline + 1) as u8, irq_ctl);
                proof {
                    lemma_status_flag_keeps(*old(self), 2, if old(self).display_status.vcount_setting() == ((current_scanline + 1) as u8) { 1 } else { 0 });
                }
                current_scanline = current_scanline + 1;
                if current_scanline < DISPLAY_HEIGHT + VBLANK_LENGTH - 1 {
                    self.current_state = GpuState::VBlank;
                    self.display_status.set_hblank_flag(1);
                    if self.display_status.get_hblank_irq_enable() == 1 {
                        irq_ctl.if_interrupt.set_lcd_h_blank(1);
                    }
                    self.cycles_to_next_state = SCANLINE_CYCLES;
                } else {
                    self.display_status.set_vblank_flag(0);
                    self.update_vcount(0, irq_ctl);
                    self.current_state = GpuState::HDraw;
                    self.cycles_to_next_state = HDRAW_CYCLES;
                    self.frame_ready = true;
                }
            },
        }
    }

    /// Advances the display by `cycles` cycles (see `stepped`).
    pub fn step(&mut self, cycles: usize, mem_map: &MemoryMap, irq_ctl: &mut Interrupts, dma_ctl: &mut DMAController)
        requires
            old(self).wf(),
            mem_map.memory.len() >= 0x0602_0000,
            i64::MIN <= old(self).cycles_to_next_state - (cycles as i64) <= i64::MAX,
            old(self).cycles_to_next_state - (cycles as i64) <= 0 ==> transition_possible(*old(self), mem_map.memory@),
        ensures
            final(self).wf(),
            stepped(*final(self), *final(irq_ctl), *final(dma_ctl), *old(self), *old(irq_ctl), *old(dma_ctl), mem_map.memory@, cycles),
    {
        let temp_cycles: i64 = self.cycles_to_next_state - (cycles as i64);
        if temp_cycles <= 0 {
            self.transition_state(mem_map, irq_ctl, dma_ctl);
            self.cycles_to_next_state = self.cycles_to_next_state + temp_cycles;
        } else {
            self.cycles_to_next_state = temp_cycles;
        }
    }
}

} // verus!
