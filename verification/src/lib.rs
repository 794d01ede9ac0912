pub mod arm_formats;
pub mod bits;
pub mod cpu;
pub mod dma;
pub mod formats;
pub mod operations;
pub mod memory;
pub mod apu;
pub mod gamepak;
pub mod gba;
pub mod gpu;
pub mod interrupts;
