pub mod chip8;
pub mod cpu;
pub mod display;
pub mod error;
pub mod instructions;
pub mod keyboard;
pub mod memory;
