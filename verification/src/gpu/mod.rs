pub mod graphic_effects;
pub mod lcd_control_registers;
pub mod object;
pub mod rgb15;
pub mod tile_map;
pub mod tile_map_entry;
pub mod gpu;
pub mod bitmap;
pub mod scanline;
pub mod state;
