pub mod apu;
pub mod boot_rom;
pub mod bus;
pub mod busconnection;
pub mod cpu;
pub mod cartridge;
pub mod instructions;
pub mod joypad;
pub mod memory;
pub mod memory_bus;
pub mod ppu;
pub mod registers;
pub mod semantics;
pub mod theorems;
pub mod timer;
