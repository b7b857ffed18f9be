use gb23::bus::{Bus, BusDevice, Port};
use gb23::cpu::{Flag, Register, WideRegister};
use gb23::emu::Emu;
use gb23::joypad::{Button, Joypad};
use gb23::mbc::{Mbc, Mbc0, Mbc1};

fn rom_with(code: &[u8], at: usize) -> Vec<u8> {
    let mut rom = vec![0u8; 0x8000];
    rom[at..at + code.len()].copy_from_slice(code);
    rom
}

fn machine(rom: Vec<u8>) -> Emu {
    Emu::new(Vec::new(), Mbc::Mbc0(Mbc0::new(rom, Vec::new())), Joypad::new())
}

#[test]
fn load_then_jump_to_start() {
    let mut emu = machine(rom_with(&[0x3E, 0x42, 0xC3, 0x00, 0x00], 0));
    emu.tick();
    assert_eq!(emu.cpu().register(Register::A), 0x42);
    assert_eq!(emu.cpu().wide_register(WideRegister::PC), 0x0002);
    emu.tick();
    assert_eq!(emu.cpu().wide_register(WideRegister::PC), 0x0000);
    assert_eq!(emu.cpu().register(Register::A), 0x42);
}

#[test]
fn boot_rom_nops_then_halt_and_wake() {
    let mut rom = rom_with(&[0x76, 0x00, 0x76], 0x100);
    rom[0x40] = 0x00;
    let mut emu = Emu::new(vec![0u8; 256], Mbc::Mbc0(Mbc0::new(rom, Vec::new())), Joypad::new());
    for _ in 0..8 {
        emu.tick();
    }
    assert_eq!(emu.cpu().wide_register(WideRegister::PC), 0x0008);
    for _ in 8..256 {
        emu.tick();
    }
    assert_eq!(emu.cpu().wide_register(WideRegister::PC), 0x0100);
    emu.tick();
    assert!(emu.cpu().halted);
    // still halted while nothing is pending
    assert_eq!(emu.tick(), 4);
    assert!(emu.cpu().halted);
    {
        let (cpu, view) = emu.cpu_view();
        cpu.sp = 0xFFFE;
        view.write(Port::IF, 0x01);
        view.write(Port::IE, 0x01);
    }
    // IME clear: HALT ends and the next instruction runs, no jump to the vector
    emu.tick();
    assert!(!emu.cpu().halted);
    assert_eq!(emu.cpu().wide_register(WideRegister::PC), 0x0102);
    emu.tick();
    assert!(emu.cpu().halted);
    emu.cpu_view().0.ime = true;
    emu.tick();
    assert!(!emu.cpu().halted);
    assert_eq!(emu.cpu().wide_register(WideRegister::PC), 0x0040);
}

#[test]
fn mbc1_zero_write_selects_bank_one() {
    let mut rom = vec![0u8; 4 * 16384];
    for bank in 0..4 {
        rom[bank * 16384] = bank as u8 + 0x10;
    }
    let mut mbc = Mbc1::new(rom, Vec::new());
    mbc.write(0x2000, 0xAA);
    mbc.write(0x2000, 0x00);
    assert_eq!(mbc.rom_bank, 1);
    assert_eq!(mbc.read(0x4000), 0x11);
}

#[test]
fn mbc1_shadow_bank_moves_up() {
    let rom = vec![0u8; 2 * 1024 * 1024];
    let mut mbc = Mbc1::new(rom, Vec::new());
    mbc.write(0x2000, 0x20);
    assert_eq!(mbc.rom_bank, 0x21);
    mbc.reset();
    mbc.write(0x2000, 0x00);
    assert_eq!(mbc.rom_bank, 1);
    let small = vec![0u8; 4 * 16384];
    let mut mbc = Mbc1::new(small, Vec::new());
    mbc.write(0x2000, 0x20);
    assert_eq!(mbc.rom_bank, 0x21 & 0x03);
}

#[test]
fn mbc1_high_bits_and_sram_banks() {
    let mut rom = vec![0u8; 2 * 1024 * 1024];
    rom[0x41 * 16384] = 0x77;
    let mut mbc = Mbc1::new(rom, vec![0u8; 4 * 8192]);
    assert_eq!(mbc.sram_banks, 4);
    mbc.write(0x4000, 0x02);
    mbc.write(0x2000, 0x01);
    assert_eq!(mbc.rom_bank, 0x41);
    assert_eq!(mbc.read(0x4000), 0x77);
    mbc.write(0xA000, 0x5A);
    mbc.write(0x6000, 0x01);
    mbc.write(0x4000, 0x03);
    assert_eq!(mbc.sram_bank, 3);
    assert_eq!(mbc.read(0xA000), 0x00);
    mbc.write(0xA000, 0x66);
    mbc.write(0x4000, 0x00);
    assert_eq!(mbc.read(0xA000), 0x5A);
    let no_ram = Mbc1::new(vec![0u8; 32768], Vec::new());
    let mut no_ram = no_ram;
    no_ram.write(0xA000, 0x12);
    assert_eq!(no_ram.read(0xA000), 0xFF);
}

#[test]
fn lcd_on_reaches_vblank_after_144_lines() {
    let mut emu = machine(vec![0u8; 0x8000]);
    emu.cpu_view().1.write(Port::LCDC, 0x91);
    let mut cycles = 0;
    while cycles < 65664 {
        cycles += emu.tick();
        if cycles < 65664 {
            assert!(emu.view.ppu.ly < 144);
        }
    }
    assert_eq!(cycles, 65664);
    assert_eq!(emu.view.ppu.ly, 144);
    assert!(emu.vblanked());
    assert!(!emu.vblanked());
    assert_eq!(emu.view.iflags & 0x01, 0x01);
}

#[test]
fn oam_dma_copies_160_bytes() {
    let mut emu = machine(vec![0u8; 0x8000]);
    {
        let (_, view) = emu.cpu_view();
        for i in 0..160u16 {
            view.write(0xC000 + i, i as u8);
        }
        view.write(Port::DMA, 0xC0);
    }
    let mut cycles = 0;
    while cycles < 160 {
        cycles += emu.tick();
    }
    for i in 0..160 {
        assert_eq!(emu.view.ppu.objs[i], (i % 256) as u8);
    }
}

#[test]
fn joypad_action_row_reads_a_pressed() {
    let mut emu = machine(vec![0u8; 0x8000]);
    emu.cpu_view().1.write(Port::P1, 0x10);
    emu.input_mut().press(Button::A);
    assert_eq!(emu.cpu_view().1.read(Port::P1), 0x1E);
}

#[test]
fn joypad_rows() {
    let mut pad = Joypad::new();
    assert_eq!(pad.read(Port::P1), 0x3F);
    pad.press(Button::Down);
    pad.press(Button::Start);
    pad.write(Port::P1, 0x20);
    assert_eq!(pad.read(Port::P1), 0x27);
    pad.write(Port::P1, 0x10);
    assert_eq!(pad.read(Port::P1), 0x17);
    pad.write(Port::P1, 0x30);
    assert_eq!(pad.read(Port::P1), 0x3F);
    pad.release(Button::Start);
    pad.write(Port::P1, 0x10);
    assert_eq!(pad.read(Port::P1), 0x1F);
}

#[test]
fn interrupts_dispatch_in_priority_order() {
    let mut emu = machine(vec![0u8; 0x8000]);
    {
        let (cpu, view) = emu.cpu_view();
        cpu.sp = 0xFFFE;
        cpu.pc = 0x0200;
        view.write(Port::IF, 0x1F);
        view.write(Port::IE, 0x1F);
    }
    let mut vectors = Vec::new();
    for _ in 0..5 {
        emu.cpu_view().0.ime = true;
        assert_eq!(emu.tick(), 20);
        vectors.push(emu.cpu().wide_register(WideRegister::PC));
        assert!(!emu.cpu().ime);
    }
    assert_eq!(vectors, vec![0x40, 0x48, 0x50, 0x58, 0x60]);
    assert_eq!(emu.cpu_view().1.read(Port::IF), 0xE0);
}

#[test]
fn branch_timing() {
    // JR NZ,+2 ; JR NZ,+0 ; CALL NZ,0x0100 ; CALL 0x0100
    let mut emu = machine(rom_with(&[0x20, 0x02, 0x00, 0x00, 0x20, 0x00, 0xC4, 0x00, 0x01, 0xCD, 0x00, 0x01], 0));
    emu.cpu_view().0.sp = 0xFFFE;
    emu.cpu_view().0.zf = true;
    assert_eq!(emu.tick(), 8);
    assert_eq!(emu.cpu().wide_register(WideRegister::PC), 2);
    emu.cpu_view().0.zf = false;
    emu.cpu_view().0.pc = 4;
    assert_eq!(emu.tick(), 12);
    assert_eq!(emu.cpu().wide_register(WideRegister::PC), 6);
    emu.cpu_view().0.zf = true;
    assert_eq!(emu.tick(), 12);
    assert_eq!(emu.cpu().wide_register(WideRegister::PC), 9);
    assert_eq!(emu.tick(), 24);
    assert_eq!(emu.cpu().wide_register(WideRegister::PC), 0x0100);
    assert_eq!(emu.cpu().wide_register(WideRegister::SP), 0xFFFC);
}

#[test]
fn cb_page_timing() {
    // BIT 0,(HL) ; SET 1,(HL) ; RLC B
    let mut emu = machine(rom_with(&[0xCB, 0x46, 0xCB, 0xCE, 0xCB, 0x00], 0));
    emu.cpu_view().0.set_wide_register(WideRegister::HL, 0xC000);
    assert_eq!(emu.tick(), 12);
    assert_eq!(emu.tick(), 16);
    assert_eq!(emu.tick(), 8);
    assert_eq!(emu.cpu_view().1.read(0xC000), 0xFF);
}

#[test]
fn add_flags() {
    // ADD A,B
    let mut emu = machine(rom_with(&[0x80, 0x80, 0x90, 0xB8, 0xA0], 0));
    emu.cpu_view().0.set_register(Register::A, 0x3A);
    emu.cpu_view().0.set_register(Register::B, 0xC6);
    emu.tick();
    let cpu = emu.cpu();
    assert_eq!(cpu.register(Register::A), 0x00);
    assert!(cpu.flag(Flag::Zero) && cpu.flag(Flag::HalfCarry) && cpu.flag(Flag::Carry));
    assert!(!cpu.flag(Flag::Negative));
    emu.cpu_view().0.set_register(Register::A, 0x0F);
    emu.cpu_view().0.set_register(Register::B, 0x01);
    emu.tick();
    let cpu = emu.cpu();
    assert_eq!(cpu.register(Register::A), 0x10);
    assert!(!cpu.flag(Flag::Zero) && cpu.flag(Flag::HalfCarry) && !cpu.flag(Flag::Carry));
    // SUB B: 0x10 - 0x01
    emu.tick();
    let cpu = emu.cpu();
    assert_eq!(cpu.register(Register::A), 0x0F);
    assert!(cpu.flag(Flag::Negative) && cpu.flag(Flag::HalfCarry) && !cpu.flag(Flag::Carry));
    // CP B: flags of 0x0F - 0x01, A kept
    emu.tick();
    let cpu = emu.cpu();
    assert_eq!(cpu.register(Register::A), 0x0F);
    assert!(cpu.flag(Flag::Negative) && !cpu.flag(Flag::HalfCarry) && !cpu.flag(Flag::Carry));
    // AND B
    emu.tick();
    let cpu = emu.cpu();
    assert_eq!(cpu.register(Register::A), 0x01);
    assert!(cpu.flag(Flag::HalfCarry) && !cpu.flag(Flag::Carry) && !cpu.flag(Flag::Negative));
}

#[test]
fn sub_borrow_flags() {
    // SUB B with A = 0x00, B = 0x01
    let mut emu = machine(rom_with(&[0x90], 0));
    emu.cpu_view().0.set_register(Register::B, 0x01);
    emu.tick();
    let cpu = emu.cpu();
    assert_eq!(cpu.register(Register::A), 0xFF);
    assert!(cpu.flag(Flag::Carry) && cpu.flag(Flag::HalfCarry) && !cpu.flag(Flag::Zero));
}

#[test]
fn push_pop_af_clears_low_nibble() {
    let mut emu = machine(rom_with(&[0xF5, 0xF1], 0));
    emu.cpu_view().0.sp = 0xDFF0;
    emu.cpu_view().0.set_wide_register(WideRegister::AF, 0x12FF);
    assert_eq!(emu.cpu().wide_register(WideRegister::AF), 0x12F0);
    assert_eq!(emu.tick(), 16);
    assert_eq!(emu.tick(), 12);
    assert_eq!(emu.cpu().wide_register(WideRegister::AF), 0x12F0);
    assert_eq!(emu.cpu().wide_register(WideRegister::SP), 0xDFF0);
}

#[test]
fn pop_af_from_memory_masks_flags() {
    let mut emu = machine(rom_with(&[0xF1], 0));
    {
        let (cpu, view) = emu.cpu_view();
        cpu.sp = 0xC000;
        view.write(0xC000, 0xFF);
        view.write(0xC001, 0xAB);
    }
    emu.tick();
    assert_eq!(emu.cpu().wide_register(WideRegister::AF), 0xABF0);
    assert_eq!(emu.cpu().register(Register::F), 0xF0);
}

#[test]
fn daa_after_bcd_add() {
    // ADD A,B ; DAA
    let mut emu = machine(rom_with(&[0x80, 0x27, 0x80, 0x27], 0));
    emu.cpu_view().0.set_register(Register::A, 0x45);
    emu.cpu_view().0.set_register(Register::B, 0x38);
    emu.tick();
    emu.tick();
    assert_eq!(emu.cpu().register(Register::A), 0x83);
    assert!(!emu.cpu().flag(Flag::Carry));
    emu.cpu_view().0.set_register(Register::A, 0x99);
    emu.cpu_view().0.set_register(Register::B, 0x01);
    emu.tick();
    emu.tick();
    assert_eq!(emu.cpu().register(Register::A), 0x00);
    assert!(emu.cpu().flag(Flag::Carry));
    assert!(emu.cpu().flag(Flag::Zero));
}

#[test]
fn daa_after_bcd_sub() {
    // SUB B ; DAA : 0x42 - 0x15 = 0x27 in BCD
    let mut emu = machine(rom_with(&[0x90, 0x27], 0));
    emu.cpu_view().0.set_register(Register::A, 0x42);
    emu.cpu_view().0.set_register(Register::B, 0x15);
    emu.tick();
    emu.tick();
    assert_eq!(emu.cpu().register(Register::A), 0x27);
}

#[test]
fn vblank_once_per_frame() {
    let mut emu = machine(vec![0u8; 0x8000]);
    emu.cpu_view().1.write(Port::LCDC, 0x80);
    emu.advance(1000);
    emu.vblanked();
    let mut seen = 0;
    for _ in 0..70224 {
        emu.advance(1);
        if emu.vblanked() {
            seen += 1;
        }
    }
    assert_eq!(seen, 1);
    assert_eq!(emu.view.ppu.ly as usize * 456 + emu.view.ppu.dot as usize, 1000);
}

#[test]
fn lcd_off_holds_line_zero() {
    let mut emu = machine(vec![0u8; 0x8000]);
    emu.advance(100000);
    assert_eq!(emu.view.ppu.ly, 0);
    assert_eq!(emu.view.ppu.dot, 0);
    assert!(!emu.vblanked());
}

#[test]
fn echo_ram_mirrors_work_ram() {
    let mut emu = machine(vec![0u8; 0x8000]);
    let (_, view) = emu.cpu_view();
    view.write(0xE123, 0x5A);
    assert_eq!(view.read(0xC123), 0x5A);
    view.write(0xD456, 0x77);
    assert_eq!(view.read(0xF456), 0x77);
    view.write(Port::SVBK, 0x03);
    assert_eq!(view.read(0xF456), 0xFF);
    view.write(0xFDFF, 0x11);
    assert_eq!(view.read(0xDDFF), 0x11);
    view.write(Port::SVBK, 0x00);
    assert_eq!(view.read(0xD456), 0x77);
}

#[test]
fn blank_tile_line_is_white() {
    let mut emu = machine(vec![0u8; 0x8000]);
    {
        let (_, view) = emu.cpu_view();
        for a in 0x9800u16..0x9C00 {
            view.write(a, 0x00);
        }
        for a in 0x8000u16..0x8010 {
            view.write(a, 0x00);
        }
        view.write(Port::BGP, 0xE4);
        view.write(Port::SCX, 0);
        view.write(Port::SCY, 0);
        view.write(Port::LCDC, 0x91);
    }
    emu.advance(456);
    let lcd = emu.lcd();
    for x in 0..160 {
        assert_eq!(lcd[x], 0xFFFFFFFF);
    }
}

#[test]
fn background_tile_colors() {
    let mut emu = machine(vec![0u8; 0x8000]);
    {
        let (_, view) = emu.cpu_view();
        for a in 0x9800u16..0x9C00 {
            view.write(a, 0x01);
        }
        // tile 1, every row: colors 3,2,1,0,0,0,0,0
        for row in 0..8u16 {
            view.write(0x8010 + 2 * row, 0b1010_0000);
            view.write(0x8011 + 2 * row, 0b1100_0000);
        }
        view.write(Port::BGP, 0xE4);
        view.write(Port::LCDC, 0x91);
    }
    emu.advance(456);
    let lcd = emu.lcd();
    assert_eq!(lcd[0], 0x000000FF);
    assert_eq!(lcd[1], 0x555555FF);
    assert_eq!(lcd[2], 0xAAAAAAFF);
    assert_eq!(lcd[3], 0xFFFFFFFF);
    assert_eq!(lcd[8], 0x000000FF);
}

#[test]
fn sprite_over_background() {
    let mut emu = machine(vec![0u8; 0x8000]);
    {
        let (_, view) = emu.cpu_view();
        for a in 0x9800u16..0x9C00 {
            view.write(a, 0x00);
        }
        for a in 0x8000u16..0x8010 {
            view.write(a, 0x00);
        }
        // tile 2: first pixel of each row is color 1
        for row in 0..8u16 {
            view.write(0x8020 + 2 * row, 0x80);
            view.write(0x8021 + 2 * row, 0x00);
        }
        for a in 0xFE00u16..0xFEA0 {
            view.write(a, 0x00);
        }
        // object 0 at screen (10, 0), tile 2, palette OBP0
        view.write(0xFE00, 16);
        view.write(0xFE01, 18);
        view.write(0xFE02, 2);
        view.write(0xFE03, 0x00);
        view.write(Port::BGP, 0xE4);
        view.write(Port::OBP0, 0xE4);
        view.write(Port::LCDC, 0x93);
    }
    emu.advance(456);
    let lcd = emu.lcd();
    assert_eq!(lcd[10], 0xAAAAAAFF);
    assert_eq!(lcd[9], 0xFFFFFFFF);
    assert_eq!(lcd[11], 0xFFFFFFFF);
}

#[test]
fn illegal_opcode_stalls() {
    let mut emu = machine(rom_with(&[0xD3, 0xFD], 0));
    let before = *emu.cpu();
    assert_eq!(emu.tick(), 4);
    assert_eq!(emu.cpu().wide_register(WideRegister::PC), 1);
    assert_eq!(emu.cpu().register(Register::A), before.register(Register::A));
    assert_eq!(emu.cpu().wide_register(WideRegister::SP), before.wide_register(WideRegister::SP));
    assert_eq!(emu.tick(), 4);
}

#[test]
fn ei_takes_effect_after_next_instruction() {
    // EI ; NOP ; NOP
    let mut emu = machine(rom_with(&[0xFB, 0x00, 0x00], 0));
    {
        let (cpu, view) = emu.cpu_view();
        cpu.sp = 0xFFFE;
        view.write(Port::IF, 0x04);
        view.write(Port::IE, 0x04);
    }
    emu.tick();
    assert_eq!(emu.cpu().wide_register(WideRegister::PC), 1);
    emu.tick();
    assert_eq!(emu.cpu().wide_register(WideRegister::PC), 2);
    assert_eq!(emu.tick(), 20);
    assert_eq!(emu.cpu().wide_register(WideRegister::PC), 0x50);
}

#[test]
fn divider_and_timer() {
    let mut emu = machine(vec![0u8; 0x8000]);
    emu.advance(256 * 3 + 10);
    assert_eq!(emu.cpu_view().1.read(Port::DIV), 3);
    emu.cpu_view().1.write(Port::DIV, 0x55);
    assert_eq!(emu.cpu_view().1.read(Port::DIV), 0);
    {
        let (_, view) = emu.cpu_view();
        view.write(Port::TMA, 0xF0);
        view.write(Port::TIMA, 0xFE);
        view.write(Port::TAC, 0x05);
    }
    emu.advance(16);
    assert_eq!(emu.view.tima, 0xFF);
    emu.advance(16);
    assert_eq!(emu.view.tima, 0xF0);
    assert_eq!(emu.view.iflags & 0x04, 0x04);
}

#[test]
fn port_masks() {
    let mut emu = machine(vec![0u8; 0x8000]);
    let (_, view) = emu.cpu_view();
    view.write(Port::IF, 0xFF);
    assert_eq!(view.iflags, 0x1F);
    assert_eq!(view.read(Port::IF), 0xFF);
    view.write(Port::TAC, 0xFF);
    assert_eq!(view.read(Port::TAC), 0x07);
    view.write(Port::SC, 0xFF);
    assert_eq!(view.read(Port::SC), 0x03);
    view.write(Port::SVBK, 0xFF);
    assert_eq!(view.read(Port::SVBK), 0x07);
    assert_eq!(view.read(0xFEA0), 0xFF);
    view.write(0xFEA0, 0x12);
    assert_eq!(view.read(0xFEA0), 0xFF);
    view.write(Port::LY, 0x12);
    assert_eq!(view.read(Port::LY), 0x00);
    view.write(0xFF80, 0x9A);
    assert_eq!(view.read(0xFF80), 0x9A);
    view.write(0x8000, 0x42);
    view.write(Port::VBK, 0x01);
    assert_eq!(view.read(0x8000), 0xFF);
    view.write(Port::VBK, 0x00);
    assert_eq!(view.read(0x8000), 0x42);
}

#[test]
fn boot_rom_overlay_is_sticky() {
    let mut rom = vec![0u8; 0x8000];
    rom[0] = 0xAA;
    let mut emu = Emu::new(vec![0x31; 256], Mbc::Mbc0(Mbc0::new(rom, Vec::new())), Joypad::new());
    let (_, view) = emu.cpu_view();
    assert_eq!(view.read(0x0000), 0x31);
    view.write(Port::BIOS, 0x01);
    assert_eq!(view.read(0x0000), 0xAA);
    view.write(Port::BIOS, 0x00);
    assert_eq!(view.read(0x0000), 0xAA);
    assert_eq!(view.read(0x0100), 0x00);
}

#[test]
fn serial_bytes_reach_the_host() {
    // LD A,'h' ; LDH (0x01),A
    let mut emu = machine(rom_with(&[0x3E, b'h', 0xE0, 0x01], 0));
    emu.tick();
    emu.tick();
    assert_eq!(emu.take_serial(), vec![b'h']);
    assert!(emu.take_serial().is_empty());
}

#[test]
fn reset_restores_control_state() {
    let mut emu = machine(vec![0u8; 0x8000]);
    {
        let (cpu, view) = emu.cpu_view();
        cpu.pc = 0x1234;
        cpu.ime = true;
        view.write(Port::LCDC, 0x91);
        view.write(Port::IE, 0x1F);
        view.write(0xC000, 0x12);
    }
    emu.reset();
    assert_eq!(emu.cpu().wide_register(WideRegister::PC), 0);
    assert!(!emu.cpu().ime);
    assert_eq!(emu.view.ppu.lcdc, 0);
    assert_eq!(emu.view.ie, 0);
    assert_eq!(emu.cpu_view().1.read(0xC000), 0x12);
}
