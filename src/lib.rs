//! Game Boy (SM83) emulator core: CPU, bus, cartridge controllers and PPU.
pub mod bus;
pub mod cpu;
pub mod emu;
pub mod joypad;
pub mod mbc;
pub mod ppu;
