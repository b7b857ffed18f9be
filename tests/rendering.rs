use gb23::bus::{Bus, BusDevice, Port};
use gb23::emu::{CpuView, Emu};
use gb23::joypad::Joypad;
use gb23::mbc::{Mbc, Mbc0, Mbc1};

fn machine() -> Emu {
    Emu::new(Vec::new(), Mbc::Mbc0(Mbc0::new(vec![0u8; 0x8000], Vec::new())), Joypad::new())
}

fn blank_screen(view: &mut CpuView) {
    for a in 0x9800u16..0xA000 {
        view.write(a, 0x00);
    }
    for a in 0x8000u16..0x8010 {
        view.write(a, 0x00);
    }
    for a in 0xFE00u16..0xFEA0 {
        view.write(a, 0x00);
    }
    view.write(Port::BGP, 0xE4);
    view.write(Port::OBP0, 0xE4);
    view.write(Port::OBP1, 0x1B);
}

#[test]
fn window_covers_from_wx() {
    let mut emu = machine();
    {
        let (_, view) = emu.cpu_view();
        blank_screen(view);
        // tile 1 is solid color 3; the window map (0x9C00) uses it
        for row in 0..8u16 {
            view.write(0x8010 + 2 * row, 0xFF);
            view.write(0x8011 + 2 * row, 0xFF);
        }
        for a in 0x9C00u16..0xA000 {
            view.write(a, 0x01);
        }
        view.write(Port::WY, 0);
        view.write(Port::WX, 7 + 40);
        view.write(Port::LCDC, 0xF1);
    }
    emu.advance(456);
    let lcd = emu.lcd();
    assert_eq!(lcd[39], 0xFFFFFFFF);
    assert_eq!(lcd[40], 0x000000FF);
    assert_eq!(lcd[159], 0x000000FF);
}

#[test]
fn window_below_wy_is_hidden() {
    let mut emu = machine();
    {
        let (_, view) = emu.cpu_view();
        blank_screen(view);
        for row in 0..8u16 {
            view.write(0x8010 + 2 * row, 0xFF);
            view.write(0x8011 + 2 * row, 0xFF);
        }
        for a in 0x9C00u16..0xA000 {
            view.write(a, 0x01);
        }
        view.write(Port::WY, 10);
        view.write(Port::WX, 7);
        view.write(Port::LCDC, 0xF1);
    }
    emu.advance(456);
    assert_eq!(emu.lcd()[0], 0xFFFFFFFF);
}

#[test]
fn lower_x_object_wins() {
    let mut emu = machine();
    {
        let (_, view) = emu.cpu_view();
        blank_screen(view);
        // tile 2 solid color 1, tile 3 solid color 3
        for row in 0..8u16 {
            view.write(0x8020 + 2 * row, 0xFF);
            view.write(0x8021 + 2 * row, 0x00);
            view.write(0x8030 + 2 * row, 0xFF);
            view.write(0x8031 + 2 * row, 0xFF);
        }
        // object 0: x = 12 (screen 4..12), tile 3
        view.write(0xFE00, 16);
        view.write(0xFE01, 12);
        view.write(0xFE02, 3);
        // object 1: x = 8 (screen 0..8), tile 2; lower X, so it wins where both cover
        view.write(0xFE04, 16);
        view.write(0xFE05, 8);
        view.write(0xFE06, 2);
        view.write(Port::LCDC, 0x93);
    }
    emu.advance(456);
    let lcd = emu.lcd();
    assert_eq!(lcd[0], 0xAAAAAAFF);
    assert_eq!(lcd[5], 0xAAAAAAFF);
    assert_eq!(lcd[8], 0x000000FF);
    assert_eq!(lcd[12], 0xFFFFFFFF);
}

#[test]
fn flipped_object_uses_second_palette() {
    let mut emu = machine();
    {
        let (_, view) = emu.cpu_view();
        blank_screen(view);
        // tile 2: only the leftmost pixel of each row, color 1
        for row in 0..8u16 {
            view.write(0x8020 + 2 * row, 0x80);
            view.write(0x8021 + 2 * row, 0x00);
        }
        // x-flipped object at screen 0..8 using OBP1: pixel lands on column 7
        view.write(0xFE00, 16);
        view.write(0xFE01, 8);
        view.write(0xFE02, 2);
        view.write(0xFE03, 0x30);
        view.write(Port::LCDC, 0x93);
    }
    emu.advance(456);
    let lcd = emu.lcd();
    assert_eq!(lcd[0], 0xFFFFFFFF);
    // OBP1 = 0x1B maps color 1 to shade 2
    assert_eq!(lcd[7], 0x555555FF);
}

#[test]
fn mbc1_mode_one_maps_high_bank_low() {
    let mut rom = vec![0u8; 2 * 1024 * 1024];
    rom[0x20 * 16384] = 0x99;
    rom[0] = 0x11;
    let mut mbc = Mbc1::new(rom, Vec::new());
    mbc.write(0x4000, 0x01);
    assert_eq!(mbc.read(0x0000), 0x11);
    mbc.write(0x6000, 0x01);
    assert_eq!(mbc.read(0x0000), 0x99);
}

#[test]
fn mbc1_bank_write_keeps_only_low_bits() {
    let mut rom = vec![0u8; 2 * 1024 * 1024];
    rom[0x0A * 16384] = 0x0A;
    let mut mbc = Mbc1::new(rom, Vec::new());
    mbc.write(0x2000, 0x2A);
    assert_eq!(mbc.rom_bank, 0x0A);
    assert_eq!(mbc.read(0x4000), 0x0A);
    mbc.write(0x4000, 0x01);
    assert_eq!(mbc.rom_bank, 0x2A);
    mbc.write(0x2000, 0x05);
    assert_eq!(mbc.rom_bank, 0x25);
    mbc.write(0x2000, 0x40);
    assert_eq!(mbc.rom_bank, 0x41);
}

#[test]
fn mbc0_optional_sram() {
    let mut cart = Mbc0::new(vec![0x12; 0x8000], vec![0u8; 0x2000]);
    assert_eq!(cart.read(0x1234), 0x12);
    cart.write(0x1234, 0x99);
    assert_eq!(cart.read(0x1234), 0x12);
    cart.write(0xA000, 0x77);
    cart.write(0xBFFF, 0x66);
    assert_eq!(cart.read(0xA000), 0x77);
    assert_eq!(cart.read(0xBFFF), 0x66);
    let mut none = Mbc0::new(vec![0x12; 0x8000], Vec::new());
    none.write(0xA000, 0x77);
    assert_eq!(none.read(0xA000), 0xFF);
}

#[test]
fn background_disabled_is_white() {
    let mut emu = machine();
    {
        let (_, view) = emu.cpu_view();
        blank_screen(view);
        for row in 0..8u16 {
            view.write(0x8000 + 2 * row, 0xFF);
            view.write(0x8001 + 2 * row, 0xFF);
        }
        view.write(Port::LCDC, 0x90);
    }
    emu.advance(456);
    for x in 0..160 {
        assert_eq!(emu.lcd()[x], 0xFFFFFFFF);
    }
}

#[test]
fn new_screen_is_zero_and_reset_clears_counters() {
    let mut emu = machine();
    assert!(emu.lcd().iter().all(|&p| p == 0));
    emu.advance(300);
    assert_ne!(emu.div_counter, 0);
    emu.reset();
    assert_eq!(emu.div_counter, 0);
    assert_eq!(emu.tima_counter, 0);
}
