pub mod bits;
pub mod color;
pub mod address;
pub mod alu;
pub mod register;
pub mod interrupt;
pub mod io_port;
pub mod wram;
pub mod apu;
pub mod rom;
pub mod joypad;
pub mod cgram;
pub mod oam;
pub mod vram;
pub mod ppu;
pub mod registers;
pub mod dma;
pub mod hardware;
pub mod cpu;
pub mod memory_mode;
pub mod accessor;
pub mod instructions;
pub mod stack;
pub mod operations;
pub mod control;
pub mod dispatch;
pub mod layers;
