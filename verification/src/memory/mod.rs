pub mod sound_registers;
pub mod bg_registers;
pub mod dma_registers;
pub mod interrupt_registers;
pub mod lcd_io_registers;
pub mod memory_bus;
pub mod memory_map;
pub mod wave_ram;
