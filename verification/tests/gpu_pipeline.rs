use lib::dma::DMAController;
use lib::gamepak::BackupType;
use lib::gpu::gpu::{GpuState, GPU};
use lib::gpu::rgb15::Rgb15;
use lib::interrupts::interrupts::Interrupts;
use lib::memory::memory_map::MemoryMap;

fn setup() -> (GPU, MemoryMap) {
    (GPU::new(), MemoryMap::new(BackupType::Sram))
}

fn hide_all_sprites(gpu: &mut GPU) {
    for i in 0..128 {
        gpu.objects[i].attr0.set_obj_mode(2);
    }
}

#[test]
fn text_background_reads_map_tile_and_palette() {
    let (mut gpu, mut mem_map) = setup();
    gpu.backgrounds[0].control.set_screen_base_block(8);
    mem_map.write_u16(0x0600_4000, 1);
    mem_map.memory[0x0600_0020] = 0x21;
    mem_map.write_u16(0x0500_0002, 0x001F);
    mem_map.write_u16(0x0500_0004, 0x03E0);

    gpu.render_bg(&mem_map, 0);

    assert_eq!(gpu.backgrounds[0].scan_line[0].value, 0x001F);
    assert_eq!(gpu.backgrounds[0].scan_line[1].value, 0x03E0);
    assert!(gpu.backgrounds[0].scan_line[2].is_transparent());
    assert!(gpu.backgrounds[0].scan_line[8].is_transparent());
    assert!(gpu.backgrounds[1].scan_line[0].is_transparent());
}

#[test]
fn text_background_scrolls_horizontally() {
    let (mut gpu, mut mem_map) = setup();
    gpu.backgrounds[0].control.set_screen_base_block(8);
    gpu.backgrounds[0].horizontal_offset.set_offset(1);
    mem_map.write_u16(0x0600_4000, 1);
    mem_map.memory[0x0600_0020] = 0x21;
    mem_map.write_u16(0x0500_0002, 0x001F);
    mem_map.write_u16(0x0500_0004, 0x03E0);

    gpu.render_bg(&mem_map, 0);

    assert_eq!(gpu.backgrounds[0].scan_line[0].value, 0x03E0);
    assert!(gpu.backgrounds[0].scan_line[1].is_transparent());
}

#[test]
fn affine_background_maps_identity_and_clips_outside() {
    let (mut gpu, mut mem_map) = setup();
    gpu.backgrounds[2].control.set_screen_base_block(8);
    gpu.bg_affine_components[0].rotation_scaling_param_a.set_register(256);
    mem_map.memory[0x0600_4000] = 1;
    mem_map.memory[0x0600_0040] = 3;
    mem_map.write_u16(0x0500_0006, 0x7C00);

    gpu.render_aff_bg(&mem_map, 2);

    assert_eq!(gpu.backgrounds[2].scan_line[0].value, 0x7C00);
    assert!(gpu.backgrounds[2].scan_line[1].is_transparent());
    assert!(gpu.backgrounds[2].scan_line[8].is_transparent());
    assert!(gpu.backgrounds[2].scan_line[200].is_transparent());
}

#[test]
fn sprite_draws_its_tile_into_the_sprite_layer() {
    let (mut gpu, mut mem_map) = setup();
    hide_all_sprites(&mut gpu);
    gpu.objects[0].attr0.set_obj_mode(0);
    gpu.objects[0].attr1.set_x_coordinate(4);
    gpu.objects[0].attr2.set_character_name(1);
    gpu.objects[0].attr2.set_priority_rel_to_bg(2);
    mem_map.memory[0x0601_0020] = 0x01;
    mem_map.write_u16(0x0500_0202, 0x001F);

    gpu.render_obj(&mem_map);

    let (color, priority, mode) = gpu.obj_buffer[4];
    assert_eq!(color.value, 0x001F);
    assert_eq!(priority, 2);
    assert_eq!(mode, 0);
    assert!(gpu.obj_buffer[5].0.is_transparent());
    assert!(gpu.obj_buffer[3].0.is_transparent());
}

#[test]
fn composite_shows_backdrop_where_nothing_is_drawn() {
    let (mut gpu, mut mem_map) = setup();
    mem_map.write_u16(0x0500_0000, 0x001F);

    gpu.composite_background(&mem_map);

    assert_eq!(gpu.frame_buffer[0], 31 << 19);
    assert_eq!(gpu.frame_buffer[239], 31 << 19);
    assert_eq!(gpu.frame_buffer[240], 0);
}

#[test]
fn composite_puts_the_front_background_over_the_backdrop() {
    let (mut gpu, mut mem_map) = setup();
    mem_map.write_u16(0x0500_0000, 0x001F);
    gpu.display_control.set_screen_display_bg0(1);
    gpu.display_control.set_screen_display_bg1(1);
    gpu.backgrounds[0].scan_line[5] = Rgb15::new(0x03E0);
    gpu.backgrounds[1].scan_line[5] = Rgb15::new(0x7C00);
    gpu.backgrounds[1].scan_line[6] = Rgb15::new(0x7C00);
    gpu.backgrounds[0].control.set_bg_priority(1);

    gpu.composite_background(&mem_map);

    // equal priorities are not in play: background 1 (priority 0) is in front
    assert_eq!(gpu.frame_buffer[5], 31 << 3);
    assert_eq!(gpu.frame_buffer[6], 31 << 3);
    assert_eq!(gpu.frame_buffer[7], 31 << 19);
}

#[test]
fn composite_lower_number_wins_between_equal_priorities() {
    let (mut gpu, mut mem_map) = setup();
    mem_map.write_u16(0x0500_0000, 0x001F);
    gpu.display_control.set_screen_display_bg0(1);
    gpu.display_control.set_screen_display_bg1(1);
    gpu.backgrounds[0].scan_line[5] = Rgb15::new(0x03E0);
    gpu.backgrounds[1].scan_line[5] = Rgb15::new(0x7C00);

    gpu.composite_background(&mem_map);

    assert_eq!(gpu.frame_buffer[5], 31 << 11);
}

#[test]
fn composite_alpha_blends_first_target_over_second() {
    let (mut gpu, mut mem_map) = setup();
    mem_map.write_u16(0x0500_0000, 0x7C00);
    gpu.display_control.set_screen_display_bg0(1);
    gpu.backgrounds[0].scan_line[0] = Rgb15::new(0x001F);
    gpu.color_special_effects_selection.set_first_target(1);
    gpu.color_special_effects_selection.set_blend_mode(1);
    gpu.color_special_effects_selection.set_second_target(0x20);
    gpu.alpha_blending_coefficients.set_eva_coefficient(8);
    gpu.alpha_blending_coefficients.set_evb_coefficient(8);

    gpu.composite_background(&mem_map);

    assert_eq!(gpu.frame_buffer[0], (15 << 19) | (15 << 3));
    // where the backdrop is in front nothing is a first target
    assert_eq!(gpu.frame_buffer[1], 31 << 3);
}

#[test]
fn composite_brightens_first_target_fully_to_white() {
    let (mut gpu, mut mem_map) = setup();
    mem_map.write_u16(0x0500_0000, 0);
    gpu.display_control.set_screen_display_bg0(1);
    gpu.backgrounds[0].scan_line[0] = Rgb15::new(0x001F);
    gpu.color_special_effects_selection.set_first_target(1);
    gpu.color_special_effects_selection.set_blend_mode(2);
    gpu.brightness_coefficient.set_evy_coefficient(16);

    gpu.composite_background(&mem_map);

    assert_eq!(gpu.frame_buffer[0], (31 << 19) | (31 << 11) | (31 << 3));
    assert_eq!(gpu.frame_buffer[1], 0);
}

#[test]
fn composite_places_sprite_by_priority() {
    let (mut gpu, mut mem_map) = setup();
    mem_map.write_u16(0x0500_0000, 0);
    gpu.display_control.set_screen_display_bg0(1);
    gpu.display_control.set_screen_display_obj(1);
    gpu.backgrounds[0].control.set_bg_priority(1);
    gpu.backgrounds[0].scan_line[0] = Rgb15::new(0x03E0);
    gpu.backgrounds[0].scan_line[1] = Rgb15::new(0x03E0);
    gpu.obj_buffer[0] = (Rgb15::new(0x001F), 0, 0);
    gpu.obj_buffer[1] = (Rgb15::new(0x001F), 2, 0);

    gpu.composite_background(&mem_map);

    assert_eq!(gpu.frame_buffer[0], 31 << 19);
    assert_eq!(gpu.frame_buffer[1], 31 << 11);
}

#[test]
fn hdraw_end_enters_hblank_and_signals() {
    let (mut gpu, mem_map) = setup();
    let mut irq = Interrupts::new();
    let mut dma = DMAController::new();
    gpu.display_status.set_hblank_irq_enable(1);

    gpu.transition_state(&mem_map, &mut irq, &mut dma);

    assert!(gpu.current_state == GpuState::HBlank);
    assert_eq!(gpu.cycles_to_next_state, 272);
    assert_eq!(gpu.display_status.get_hblank_flag(), 1);
    assert_eq!(irq.if_interrupt.get_lcd_h_blank(), 1);
    assert!(dma.hblanking);
}

#[test]
fn hblank_end_draws_the_line_and_moves_to_the_next() {
    let (mut gpu, mut mem_map) = setup();
    let mut irq = Interrupts::new();
    let mut dma = DMAController::new();
    hide_all_sprites(&mut gpu);
    mem_map.write_u16(0x0500_0000, 0x03E0);
    gpu.display_status.set_vcount_setting(1);
    gpu.display_status.set_vcounter_irq_enable(1);

    gpu.transition_state(&mem_map, &mut irq, &mut dma);
    gpu.transition_state(&mem_map, &mut irq, &mut dma);

    assert!(gpu.current_state == GpuState::HDraw);
    assert_eq!(gpu.cycles_to_next_state, 960);
    assert_eq!(gpu.vertical_count.get_current_scanline(), 1);
    assert_eq!(gpu.display_status.get_hblank_flag(), 0);
    assert_eq!(gpu.display_status.get_vcounter_flag(), 1);
    assert_eq!(irq.if_interrupt.get_lcd_v_counter(), 1);
    assert_eq!(irq.if_interrupt.get_lcd_h_blank(), 0);
    assert_eq!(gpu.frame_buffer[0], 31 << 11);
    assert_eq!(gpu.frame_buffer[239], 31 << 11);
    assert_eq!(gpu.frame_buffer[240], 0);
}

#[test]
fn affine_reference_points_step_each_line_and_reload_each_frame() {
    let (mut gpu, mem_map) = setup();
    let mut irq = Interrupts::new();
    let mut dma = DMAController::new();
    hide_all_sprites(&mut gpu);
    gpu.bg_affine_components[0].rotation_scaling_param_b.set_register(0xFF00);
    gpu.bg_affine_components[0].rotation_scaling_param_d.set_register(256);

    gpu.transition_state(&mem_map, &mut irq, &mut dma);
    gpu.transition_state(&mem_map, &mut irq, &mut dma);

    assert_eq!(gpu.bg_affine_components[0].refrence_point_x_internal, (-256i32) as u32);
    assert_eq!(gpu.bg_affine_components[0].refrence_point_y_internal, 256);

    gpu.bg_affine_components[0].refrence_point_x_external = 0x1000;
    gpu.transition_state(&mem_map, &mut irq, &mut dma);
    gpu.transition_state(&mem_map, &mut irq, &mut dma);

    assert_eq!(gpu.bg_affine_components[0].refrence_point_x_internal, 0x1000 - 256);
    assert_eq!(gpu.bg_affine_components[0].refrence_point_x_external_hold, 0x1000);
    assert_eq!(gpu.bg_affine_components[0].refrence_point_y_internal, 512);
}

#[test]
fn a_frame_runs_through_vblank_back_to_line_zero() {
    let (mut gpu, mem_map) = setup();
    let mut irq = Interrupts::new();
    let mut dma = DMAController::new();
    hide_all_sprites(&mut gpu);
    gpu.display_status.set_vblank_irq_enable(1);

    for _ in 0..320 {
        gpu.transition_state(&mem_map, &mut irq, &mut dma);
    }
    assert!(gpu.current_state == GpuState::VBlank);
    assert_eq!(gpu.vertical_count.get_current_scanline(), 160);
    assert_eq!(gpu.display_status.get_vblank_flag(), 1);
    assert_eq!(irq.if_interrupt.get_lcd_v_blank(), 1);
    assert!(dma.vblanking);
    assert!(!gpu.frame_ready);

    for _ in 0..66 {
        gpu.transition_state(&mem_map, &mut irq, &mut dma);
    }
    assert!(gpu.current_state == GpuState::VBlank);
    assert_eq!(gpu.vertical_count.get_current_scanline(), 226);
    assert!(!gpu.frame_ready);

    gpu.transition_state(&mem_map, &mut irq, &mut dma);
    assert!(gpu.current_state == GpuState::HDraw);
    assert_eq!(gpu.vertical_count.get_current_scanline(), 0);
    assert_eq!(gpu.display_status.get_vblank_flag(), 0);
    assert!(gpu.frame_ready);
}

#[test]
fn step_counts_down_then_carries_the_overshoot() {
    let (mut gpu, mem_map) = setup();
    let mut irq = Interrupts::new();
    let mut dma = DMAController::new();

    gpu.step(900, &mem_map, &mut irq, &mut dma);
    assert!(gpu.current_state == GpuState::HDraw);
    assert_eq!(gpu.cycles_to_next_state, 60);

    gpu.step(100, &mem_map, &mut irq, &mut dma);
    assert!(gpu.current_state == GpuState::HBlank);
    assert_eq!(gpu.cycles_to_next_state, 272 - 40);
}

#[test]
fn sprites_that_miss_a_line_below_the_screen_draw_nothing() {
    let (mut gpu, mem_map) = setup();
    gpu.vertical_count.set_current_scanline(170);
    gpu.render_obj(&mem_map);
    assert!(gpu.obj_buffer.iter().all(|p| p.0.is_transparent() && p.1 == 4));
    assert!(gpu.obj_window.iter().all(|w| !w));
}
