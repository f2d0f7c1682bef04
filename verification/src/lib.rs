pub mod bits;
pub mod bitfield;
pub mod arm;
pub mod mmu;
pub mod math;
pub mod interrupts;
pub mod ipc;
pub mod engine3d;
pub mod cartridge;
pub mod gpu;
pub mod arm7;
pub mod dma;
pub mod rtc;
pub mod vram;
pub mod spu;
pub mod spi;
pub mod scheduler;
pub mod engine2d;
pub mod keypad;
pub mod cp15;
pub mod debug_view;
