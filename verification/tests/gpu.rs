use lib::gpu::gpu::{Window, GPU};
use lib::gpu::graphic_effects::{blend_colors as blend, BlendMode};
use lib::gpu::lcd_control_registers::DisplayControl;
use lib::gpu::object::Object;
use lib::gpu::rgb15::Rgb15;
use lib::gpu::tile_map_entry::TileMapEntry;
use lib::gamepak::BackupType;
use lib::memory::lcd_io_registers::{
    ObjAttribute0, ObjAttribute1, ObjAttribute2, PixelFormat, WindowHorizontalDimension, WindowVerticalDimension,
};
use lib::memory::memory_map::MemoryMap;

fn setup() -> (GPU, MemoryMap) {
    let mem_map = MemoryMap::new(BackupType::Sram);
    let gpu = GPU::new();
    (gpu, mem_map)
}

#[test]
fn mode_4_out_of_bounds_coordinates_are_transparent_not_garbage() {
    let (mut gpu, mem_map) = setup();
    gpu.bg_affine_components[0].rotation_scaling_param_a.set_register(256);
    gpu.bg_affine_components[0].rotation_scaling_param_c.set_register(0);
    gpu.bg_affine_components[0].refrence_point_x_internal = 10_000_000u32;
    gpu.bg_affine_components[0].refrence_point_y_internal = 0;

    gpu.render_mode_4(&mem_map);

    assert!(gpu.backgrounds[2].scan_line.iter().all(|c| c.is_transparent()));
}

#[test]
fn mode_4_in_bounds_reads_real_bitmap_pixel() {
    let (mut gpu, mut mem_map) = setup();
    gpu.bg_affine_components[0].rotation_scaling_param_a.set_register(256);
    gpu.bg_affine_components[0].rotation_scaling_param_c.set_register(0);
    gpu.bg_affine_components[0].refrence_point_x_internal = 0;
    gpu.bg_affine_components[0].refrence_point_y_internal = 0;

    mem_map.memory[0x0600_0000] = 5;
    mem_map.memory[0x0500_000A] = 0x34;
    mem_map.memory[0x0500_000B] = 0x12;

    gpu.render_mode_4(&mem_map);

    assert_eq!(gpu.backgrounds[2].scan_line[0].value, 0x1234);
}

#[test]
fn mode_3_out_of_bounds_coordinates_are_transparent_not_garbage() {
    let (mut gpu, mem_map) = setup();
    gpu.bg_affine_components[0].rotation_scaling_param_a.set_register(256);
    gpu.bg_affine_components[0].rotation_scaling_param_c.set_register(0);
    gpu.bg_affine_components[0].refrence_point_x_internal = 10_000_000u32;
    gpu.bg_affine_components[0].refrence_point_y_internal = 0;

    gpu.render_mode_3(&mem_map);

    assert!(gpu.backgrounds[2].scan_line.iter().all(|c| c.is_transparent()));
}

#[test]
fn mode_5_out_of_bounds_coordinates_are_transparent_not_garbage() {
    let (mut gpu, mem_map) = setup();
    gpu.bg_affine_components[0].rotation_scaling_param_a.set_register(256);
    gpu.bg_affine_components[0].rotation_scaling_param_c.set_register(0);
    gpu.bg_affine_components[0].refrence_point_x_internal = 10_000_000u32;
    gpu.bg_affine_components[0].refrence_point_y_internal = 0;

    gpu.render_mode_5(&mem_map);

    assert!(gpu.backgrounds[2].scan_line[0..160].iter().all(|c| c.is_transparent()));
}

#[test]
fn mode_3_reads_direct_colours_and_negative_reference_points_wrap_out() {
    let (mut gpu, mut mem_map) = setup();
    gpu.bg_affine_components[0].rotation_scaling_param_a.set_register(256);
    mem_map.memory[0x0600_0002] = 0xFF;
    mem_map.memory[0x0600_0003] = 0x7F;
    gpu.render_mode_3(&mem_map);
    assert_eq!(gpu.backgrounds[2].scan_line[1].value, 0x7FFF);
    assert_eq!(gpu.backgrounds[2].scan_line[0].value, 0);

    // Bit 27 set: the reference point is negative, so column 0 is off the left edge.
    gpu.bg_affine_components[0].refrence_point_x_internal = 0x0FFF_FF00;
    gpu.render_mode_3(&mem_map);
    assert!(gpu.backgrounds[2].scan_line[0].is_transparent());
    assert_eq!(gpu.backgrounds[2].scan_line[2].value, 0x7FFF);
}

#[test]
fn test_macro() {
    let mut a = DisplayControl::new();
    let bg_mode = a.get_bg_mode();
    a.set_bg_mode(5);
    assert_ne!(bg_mode, a.get_bg_mode());
    assert_eq!(5, a.get_bg_mode());
    assert_eq!(2, DisplayControl::SEGMENT_SIZE);
    a.set_window_0_display_flag(1);
    assert_eq!(1, a.get_window_0_display_flag());
}

#[test]
fn rgb15_splits_and_packs_components() {
    let c = Rgb15::new(0x7C1F);
    assert_eq!((c.red, c.green, c.blue), (31, 0, 31));
    assert_eq!(c.to_0rgb(), (31 << 19) | (31 << 3));
    assert!(Rgb15::new(0x8000).is_transparent());
    assert!(!Rgb15::new(0).is_transparent());
}

#[test]
fn tile_map_entry_splits_its_fields() {
    let e = TileMapEntry::from(0xAFFF);
    assert_eq!(e.tile_index, 0x3FF);
    assert!(e.vertical_flip);
    assert!(e.horizontal_flip);
    assert_eq!(e.palette_bank, 0xA);
    let t = lib::gpu::tile_map::TileMapEntry::from(0x0401);
    assert_eq!(t.tile_index, 1);
    assert!(t.vertical_flip && !t.horizontal_flip);
}

#[test]
fn window_edges_clamp_to_the_screen() {
    let mut h = WindowHorizontalDimension::new(0);
    let mut v = WindowVerticalDimension::new(0);
    h.set_X1(10);
    h.set_X2(20);
    v.set_Y1(5);
    v.set_Y2(250);
    let w = Window { horizontal_dimensions: h, vertical_dimensions: v };
    assert!(w.inside(10, 5));
    assert!(!w.inside(20, 5));
    assert!(w.inside(19, 159));
    assert!(!w.inside(9, 6));
    let mut h2 = WindowHorizontalDimension::new(1);
    h2.set_X1(100);
    h2.set_X2(50);
    let w2 = Window { horizontal_dimensions: h2, vertical_dimensions: WindowVerticalDimension::new(1) };
    assert!(w2.inside(239, 0) == false);
}

#[test]
fn object_size_and_format_follow_the_attributes() {
    let mut attr0 = ObjAttribute0::new(0);
    let mut attr1 = ObjAttribute1::new(0);
    attr0.set_obj_shape(1);
    attr1.set_obj_size(2);
    attr1.set_x_coordinate(300);
    attr0.set_y_coordinate(200);
    attr0.set_color_flag(1);
    let obj = Object { attr0, attr1, attr2: ObjAttribute2::new(0) };
    assert_eq!(obj.size(), (32, 16));
    assert_eq!(obj.position(), (300, 200));
    assert_eq!(obj.color_format(), PixelFormat::EightBit);
    assert_eq!(obj.tile_size(), 0x40);
}

#[test]
fn blending_weighs_and_saturates() {
    let mut first = Rgb15::new(0x001F);
    let second = Rgb15::new(0x03E0);
    blend(&mut first, &second, &BlendMode::Alpha, 8, 8, 0);
    assert_eq!((first.red, first.green, first.blue), (15, 15, 0));

    let mut dark = Rgb15::new(0x001F);
    blend(&mut dark, &second, &BlendMode::Black, 0, 0, 16);
    assert_eq!(dark.red, 0);

    let mut bright = Rgb15::new(0);
    blend(&mut bright, &second, &BlendMode::White, 0, 0, 8);
    assert_eq!((bright.red, bright.green, bright.blue), (15, 15, 15));

    let mut hot = Rgb15::new(0x001F);
    blend(&mut hot, &Rgb15::new(0x001F), &BlendMode::Alpha, 16, 16, 0);
    assert_eq!(hot.red, 31);
    assert_eq!(BlendMode::from(2), BlendMode::White);
}
