use gb23::bus::{Bus, BusDevice, Port};
use gb23::cpu::{Flag, Register, WideRegister};
use gb23::emu::Emu;
use gb23::joypad::Joypad;
use gb23::mbc::{Mbc, Null};

fn machine(code: &[u8]) -> Emu {
    let mut rom = vec![0u8; 0x8000];
    rom[..code.len()].copy_from_slice(code);
    let mut emu = Emu::new(Vec::new(), Mbc::Null(Null::new(rom, Vec::new())), Joypad::new());
    emu.cpu_view().0.sp = 0xFFFE;
    emu
}

#[test]
fn add_sp_signed_offset() {
    // ADD SP,-2 ; LD HL,SP+0x7F
    let mut emu = machine(&[0xE8, 0xFE, 0xF8, 0x7F]);
    emu.cpu_view().0.sp = 0x00FF;
    assert_eq!(emu.tick(), 16);
    assert_eq!(emu.cpu().wide_register(WideRegister::SP), 0x00FD);
    assert!(emu.cpu().flag(Flag::Carry) && emu.cpu().flag(Flag::HalfCarry));
    assert!(!emu.cpu().flag(Flag::Zero));
    assert_eq!(emu.tick(), 12);
    assert_eq!(emu.cpu().wide_register(WideRegister::HL), 0x017C);
    assert_eq!(emu.cpu().wide_register(WideRegister::SP), 0x00FD);
}

#[test]
fn add_hl_flags() {
    // ADD HL,BC
    let mut emu = machine(&[0x09]);
    emu.cpu_view().0.set_wide_register(WideRegister::HL, 0x8FFF);
    emu.cpu_view().0.set_wide_register(WideRegister::BC, 0x8001);
    emu.cpu_view().0.zf = true;
    assert_eq!(emu.tick(), 8);
    assert_eq!(emu.cpu().wide_register(WideRegister::HL), 0x1000);
    assert!(emu.cpu().flag(Flag::Carry) && emu.cpu().flag(Flag::HalfCarry));
    assert!(emu.cpu().flag(Flag::Zero));
}

#[test]
fn inc_dec_flags() {
    // INC B ; DEC C ; INC BC
    let mut emu = machine(&[0x04, 0x0D, 0x03]);
    emu.cpu_view().0.set_register(Register::B, 0x0F);
    emu.cpu_view().0.set_register(Register::C, 0x01);
    emu.cpu_view().0.cf = true;
    emu.tick();
    assert_eq!(emu.cpu().register(Register::B), 0x10);
    assert!(emu.cpu().flag(Flag::HalfCarry) && emu.cpu().flag(Flag::Carry));
    emu.tick();
    assert_eq!(emu.cpu().register(Register::C), 0x00);
    assert!(emu.cpu().flag(Flag::Zero) && emu.cpu().flag(Flag::Negative));
    assert_eq!(emu.tick(), 8);
    assert_eq!(emu.cpu().wide_register(WideRegister::BC), 0x1001);
}

#[test]
fn rotates_and_shifts() {
    // RLCA ; RRA ; CB SWAP A ; CB SRA A ; CB SRL A
    let mut emu = machine(&[0x07, 0x1F, 0xCB, 0x37, 0xCB, 0x2F, 0xCB, 0x3F]);
    emu.cpu_view().0.set_register(Register::A, 0x85);
    emu.tick();
    assert_eq!(emu.cpu().register(Register::A), 0x0B);
    assert!(emu.cpu().flag(Flag::Carry) && !emu.cpu().flag(Flag::Zero));
    emu.tick();
    assert_eq!(emu.cpu().register(Register::A), 0x85);
    assert!(emu.cpu().flag(Flag::Carry));
    emu.tick();
    assert_eq!(emu.cpu().register(Register::A), 0x58);
    assert!(!emu.cpu().flag(Flag::Carry));
    emu.cpu_view().0.set_register(Register::A, 0x81);
    emu.tick();
    assert_eq!(emu.cpu().register(Register::A), 0xC0);
    assert!(emu.cpu().flag(Flag::Carry));
    emu.tick();
    assert_eq!(emu.cpu().register(Register::A), 0x60);
    assert!(!emu.cpu().flag(Flag::Carry));
}

#[test]
fn bit_res_set() {
    // BIT 7,H ; RES 0,L ; SET 7,L
    let mut emu = machine(&[0xCB, 0x7C, 0xCB, 0x85, 0xCB, 0xFD]);
    emu.cpu_view().0.set_wide_register(WideRegister::HL, 0x7F01);
    emu.cpu_view().0.cf = true;
    emu.tick();
    assert!(emu.cpu().flag(Flag::Zero) && emu.cpu().flag(Flag::HalfCarry) && emu.cpu().flag(Flag::Carry));
    emu.tick();
    assert_eq!(emu.cpu().register(Register::L), 0x00);
    emu.tick();
    assert_eq!(emu.cpu().register(Register::L), 0x80);
}

#[test]
fn scf_ccf_cpl() {
    let mut emu = machine(&[0x37, 0x3F, 0x2F]);
    emu.cpu_view().0.set_register(Register::A, 0x35);
    emu.tick();
    assert!(emu.cpu().flag(Flag::Carry));
    emu.tick();
    assert!(!emu.cpu().flag(Flag::Carry));
    emu.tick();
    assert_eq!(emu.cpu().register(Register::A), 0xCA);
    assert!(emu.cpu().flag(Flag::Negative) && emu.cpu().flag(Flag::HalfCarry));
}

#[test]
fn loads_and_stores() {
    // LD HL,0xC010 ; LD (HL+),A ; LD (HL-),A ; LD A,(HL) ; LD (0xC020),A ; LD (0xC030),SP ; LDH A,(0x80)
    let mut emu = machine(&[
        0x21, 0x10, 0xC0, 0x22, 0x32, 0x7E, 0xEA, 0x20, 0xC0, 0x08, 0x30, 0xC0, 0xF0, 0x80,
    ]);
    emu.cpu_view().0.set_register(Register::A, 0x9C);
    assert_eq!(emu.tick(), 12);
    assert_eq!(emu.tick(), 8);
    assert_eq!(emu.cpu().wide_register(WideRegister::HL), 0xC011);
    emu.tick();
    assert_eq!(emu.cpu().wide_register(WideRegister::HL), 0xC010);
    emu.tick();
    assert_eq!(emu.cpu().register(Register::A), 0x9C);
    assert_eq!(emu.tick(), 16);
    assert_eq!(emu.tick(), 20);
    let (_, view) = emu.cpu_view();
    assert_eq!(view.read(0xC020), 0x9C);
    assert_eq!(view.read(0xC030), 0xFE);
    assert_eq!(view.read(0xC031), 0xFF);
    view.write(0xFF80, 0x44);
    assert_eq!(emu.tick(), 12);
    assert_eq!(emu.cpu().register(Register::A), 0x44);
}

#[test]
fn call_ret_rst_reti() {
    // CALL 0x0010 ; ... at 0x10: RET ; at 3: RST 0x18 ; at 0x18: RETI
    let mut code = vec![0u8; 0x20];
    code[0] = 0xCD;
    code[1] = 0x10;
    code[2] = 0x00;
    code[3] = 0xDF;
    code[0x10] = 0xC9;
    code[0x18] = 0xD9;
    let mut emu = machine(&code);
    assert_eq!(emu.tick(), 24);
    assert_eq!(emu.cpu().wide_register(WideRegister::PC), 0x10);
    assert_eq!(emu.tick(), 16);
    assert_eq!(emu.cpu().wide_register(WideRegister::PC), 0x03);
    assert_eq!(emu.tick(), 16);
    assert_eq!(emu.cpu().wide_register(WideRegister::PC), 0x18);
    assert_eq!(emu.tick(), 16);
    assert_eq!(emu.cpu().wide_register(WideRegister::PC), 0x04);
    assert!(emu.cpu().ime);
    assert_eq!(emu.cpu().wide_register(WideRegister::SP), 0xFFFE);
}

#[test]
fn conditional_ret_timing() {
    // RET Z (not taken) ; RET NZ (taken)
    let mut emu = machine(&[0xC8, 0xC0]);
    {
        let (cpu, view) = emu.cpu_view();
        cpu.sp = 0xC000;
        view.write(0xC000, 0x34);
        view.write(0xC001, 0x12);
    }
    assert_eq!(emu.tick(), 8);
    assert_eq!(emu.tick(), 20);
    assert_eq!(emu.cpu().wide_register(WideRegister::PC), 0x1234);
}

#[test]
fn stop_consumes_next_byte_and_freezes_display() {
    let mut emu = machine(&[0x10, 0x00, 0x00]);
    {
        emu.cpu_view().1.write(Port::LCDC, 0x80);
    }
    assert_eq!(emu.tick(), 4);
    assert!(emu.cpu().stopped);
    assert_eq!(emu.cpu().wide_register(WideRegister::PC), 2);
    let dot = emu.view.ppu.dot;
    assert_eq!(emu.tick(), 4);
    assert_eq!(emu.view.ppu.dot, dot);
}

#[test]
fn null_cartridge_ram() {
    let mut cart = Null::new(vec![0x12; 0x8000], vec![0x34; 16]);
    assert_eq!(cart.read(0x0100), 0x12);
    assert_eq!(cart.read(0xA000), 0x34);
    assert_eq!(cart.read(0xA010), 0xFF);
    cart.write(0xA010, 0x56);
    assert_eq!(cart.read(0xA010), 0x56);
    cart.write(0x0100, 0x00);
    assert_eq!(cart.read(0x0100), 0x12);
}

#[test]
fn alu_helpers_directly() {
    let mut cpu = gb23::cpu::Cpu::new();
    cpu.a = 0x3A;
    cpu.add_value(0xC6, false);
    assert_eq!(cpu.a, 0x00);
    assert!(cpu.zf && cpu.hf && cpu.cf && !cpu.nf);
    cpu.a = 0x10;
    cpu.sub_value(0x01, false);
    assert_eq!(cpu.a, 0x0F);
    assert!(cpu.nf && cpu.hf && !cpu.cf);
    cpu.compare_value(0x20);
    assert_eq!(cpu.a, 0x0F);
    assert!(cpu.cf && !cpu.zf);
    cpu.and_value(0xF0);
    assert_eq!(cpu.a, 0x00);
    assert!(cpu.zf && cpu.hf && !cpu.cf);
    cpu.a = 0x15;
    cpu.add_value(0x27, false);
    assert_eq!(cpu.daa(), 4);
    assert_eq!(cpu.a, 0x42);
}

#[test]
fn timer_overflow_through_tick() {
    let mut emu = machine(&[]);
    {
        let (_, view) = emu.cpu_view();
        view.write(Port::TMA, 0x80);
        view.write(Port::TIMA, 0xFF);
        view.write(Port::TAC, 0x05);
    }
    let mut cycles = 0;
    while cycles < 16 {
        cycles += emu.tick();
    }
    assert_eq!(emu.view.tima, 0x80);
    assert_eq!(emu.view.iflags & 0x04, 0x04);
}
