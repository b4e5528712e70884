pub mod cartridge;
pub mod rom_only;
pub mod mbc1;
pub mod mbc2;
pub mod mbc3;
pub mod mbc5;
pub mod mbc;
pub mod io_init;
pub mod interrupt;
pub mod gpu_cycles;
pub mod memory;
