//! The machine: the CPU's view of the address space and the driver that
//! steps CPU, PPU and timers together.
use vstd::prelude::*;

use crate::bus::{Bus, BusDevice, Port};
use crate::cpu::{cpu_step, lemma_af_load, lemma_flags_byte_masks, off16, peek16, pushed, tick_cycles, Cpu, WideRegister};
use crate::joypad::Joypad;
use crate::mbc::Mbc;
use crate::ppu::{
    dma_phase, ppu_irq, ppu_next, screen_step, timing_iter, timing_next, vblank_at, vblank_count, Ppu,
    PpuView,
};

verus! {

/// Everything the CPU addresses: boot ROM, cartridge, PPU memory and ports,
/// work RAM, high RAM, joypad, serial, timers and interrupt registers.
///
/// CPU accesses are not restricted while OAM DMA runs.
pub struct CpuView {
    pub bios_data: Vec<u8>,
    pub mbc: Mbc,
    pub ppu: Ppu,
    pub input: Joypad,
    /// Eight 4 KiB work RAM banks.
    pub wram: [u8; 32768],
    pub hram: [u8; 127],
    pub iflags: u8,
    /// Nonzero once the boot ROM overlay is disabled.
    pub bios: u8,
    pub svbk: u8,
    /// The last byte written to SB, and whether the host has yet to take it.
    pub sb: u8,
    pub sb_written: bool,
    pub sc: u8,
    pub div: u8,
    pub tima: u8,
    pub tma: u8,
    pub tac: u8,
    pub ie: u8,
}

/// Ports that the PPU decodes.
pub open spec fn is_ppu_port(addr: u16) -> bool {
    (Port::LCDC <= addr <= Port::WX) || addr == Port::VBK || (Port::HMDA1 <= addr <= Port::HMDA5) || (
    Port::BCPS <= addr <= Port::OCPD)
}

impl CpuView {
    /// The work RAM bank at 0xD000-0xDFFF: SVBK's low three bits, zero read as one.
    pub open spec fn wram_bank(self) -> int {
        if self.svbk % 8 == 0 {
            1
        } else {
            (self.svbk % 8) as int
        }
    }

    /// The work RAM offset of an address in 0xC000-0xDFFF.
    pub open spec fn wram_index(self, addr: u16) -> int {
        if addr < 0xD000 {
            addr - 0xC000
        } else {
            self.wram_bank() * 4096 + (addr - 0xD000)
        }
    }

    /// The boot ROM answers `addr`.
    pub open spec fn bios_mapped(self, addr: u16) -> bool {
        addr <= 0x00FF && self.bios == 0 && (addr as int) < self.bios_data@.len()
    }

    /// `addr` with the echo region folded onto work RAM.
    pub open spec fn unecho(addr: u16) -> u16 {
        if 0xE000 <= addr <= 0xFDFF {
            (addr - 0x2000) as u16
        } else {
            addr
        }
    }

    fn wram_offset(&self, addr: u16) -> (r: usize)
        requires
            0xC000 <= addr <= 0xDFFF,
        ensures
            r == self.wram_index(addr),
            r < 32768,
    {
        if addr < 0xD000 {
            (addr - 0xC000) as usize
        } else {
            let bank: usize = if self.svbk % 8 == 0 { 1 } else { (self.svbk % 8) as usize };
            bank * 4096 + (addr - 0xD000) as usize
        }
    }
}


/// Work RAM (0xC000-0xDFFF) or high RAM (0xFF80-0xFFFE).
pub open spec fn is_ram(a: u16) -> bool {
    (0xC000 <= a <= 0xDFFF) || (0xFF80 <= a <= 0xFFFE)
}

/// RAM reads back the byte last written to it, and a write leaves every
/// other RAM address alone.
pub proof fn lemma_ram_read_back(v: CpuView, a: u16, x: u8, c: u16)
    requires
        is_ram(a),
        is_ram(c),
    ensures
        v.poke(a, x).peek(a) == x,
        c != a ==> v.poke(a, x).peek(c) == v.peek(c),
{
}

/// PUSH AF then POP AF: AF holds what was loaded into it, with the low
/// nibble of F cleared, and SP is back where it was. The two stack bytes
/// lie in work RAM or in high RAM.
pub proof fn lemma_push_pop_af(s: Cpu, b: CpuView, v: u16)
    requires
        (0xC002 <= s.sp <= 0xE000) || (0xFF82 <= s.sp <= 0xFFFF),
    ensures
        ({
            let c = s.with_wide(WideRegister::AF, v);
            let after_push = Cpu { sp: off16(c.sp, -2), ..c };
            let b2 = pushed(b, c.sp, c.wide(WideRegister::AF));
            let after_pop = Cpu { sp: off16(after_push.sp, 2), ..after_push }.with_wide(
                WideRegister::AF,
                peek16(b2, after_push.sp),
            );
            &&& after_pop.wide(WideRegister::AF) == v & 0xFFF0
            &&& after_pop == c
        }),
{
    let c = s.with_wide(WideRegister::AF, v);
    let hi_addr = off16(s.sp, -1);
    let lo_addr = off16(s.sp, -2);
    let x0 = c.wide(WideRegister::AF);
    let b1 = b.poke(hi_addr, (x0 / 256) as u8);
    lemma_ram_read_back(b, hi_addr, (x0 / 256) as u8, hi_addr);
    lemma_ram_read_back(b1, lo_addr, (x0 % 256) as u8, lo_addr);
    lemma_ram_read_back(b1, lo_addr, (x0 % 256) as u8, hi_addr);
    assert(off16(lo_addr, 1) == hi_addr);
    assert(off16(off16(s.sp, -2), 2) == s.sp);
    lemma_af_load(s, v);
    let x = c.wide(WideRegister::AF);
    lemma_af_load(c, x);
    let lo = (x % 256) as u8;
    lemma_flags_byte_masks(lo);
    assert(x & 0xFFF0 == x) by (bit_vector)
        requires
            x == v & 0xFFF0,
    ;
    assert(lo & 0xF0 == lo) by (bit_vector)
        requires
            lo == (x % 256) as u8,
            x & 0xFFF0 == x,
    ;
}

/// Echo RAM: every address in 0xE000-0xFDFF reads as the address 0x2000
/// below it, and a write to it is a write to that address.
pub proof fn lemma_echo_ram(v: CpuView, a: u16, value: u8)
    requires
        0xE000 <= a <= 0xFDFF,
    ensures
        v.peek(a) == v.peek((a - 0x2000) as u16),
        v.poke(a, value) == v.poke((a - 0x2000) as u16, value),
{
}

impl Bus for CpuView {
    open spec fn peek(&self, addr: u16) -> u8 {
        let a = CpuView::unecho(addr);
        if self.bios_mapped(a) {
            self.bios_data@[a as int]
        } else if a <= 0x7FFF || (0xA000 <= a <= 0xBFFF) {
            self.mbc.peek(a)
        } else if (0x8000 <= a <= 0x9FFF) || (0xFE00 <= a <= 0xFE9F) || is_ppu_port(a) {
            self.ppu.peek(a)
        } else if 0xC000 <= a <= 0xDFFF {
            self.wram@[self.wram_index(a)]
        } else if 0xFF80 <= a <= 0xFFFE {
            self.hram@[a - 0xFF80]
        } else if a == Port::P1 {
            self.input.peek(a)
        } else if a == Port::SB {
            self.sb
        } else if a == Port::SC {
            self.sc
        } else if a == Port::DIV {
            self.div
        } else if a == Port::TIMA {
            self.tima
        } else if a == Port::TMA {
            self.tma
        } else if a == Port::TAC {
            self.tac
        } else if a == Port::IF {
            self.iflags | 0xE0
        } else if a == Port::BIOS {
            self.bios
        } else if a == Port::SVBK {
            self.svbk
        } else if a == Port::IE {
            self.ie
        } else {
            0xFF
        }
    }

    open spec fn poke(self, addr: u16, value: u8) -> Self {
        let a = CpuView::unecho(addr);
        if a <= 0x7FFF || (0xA000 <= a <= 0xBFFF) {
            CpuView { mbc: self.mbc.poke(a, value), ..self }
        } else if (0x8000 <= a <= 0x9FFF) || (0xFE00 <= a <= 0xFE9F) || is_ppu_port(a) {
            CpuView { ppu: self.ppu.poke(a, value), ..self }
        } else if 0xC000 <= a <= 0xDFFF {
            CpuView { wram: vstd::array::spec_array_update(self.wram, self.wram_index(a), value), ..self }
        } else if 0xFF80 <= a <= 0xFFFE {
            CpuView { hram: vstd::array::spec_array_update(self.hram, a - 0xFF80, value), ..self }
        } else if a == Port::P1 {
            CpuView { input: self.input.poke(a, value), ..self }
        } else if a == Port::SB {
            CpuView { sb: value, sb_written: true, ..self }
        } else if a == Port::SC {
            CpuView { sc: value & 0x03, ..self }
        } else if a == Port::DIV {
            CpuView { div: 0, ..self }
        } else if a == Port::TIMA {
            CpuView { tima: value, ..self }
        } else if a == Port::TMA {
            CpuView { tma: value, ..self }
        } else if a == Port::TAC {
            CpuView { tac: value & 0x07, ..self }
        } else if a == Port::IF {
            CpuView { iflags: value & 0x1F, ..self }
        } else if a == Port::BIOS {
            // once disabled, the boot ROM stays disabled
            CpuView { bios: if self.bios == 0 { value } else { self.bios }, ..self }
        } else if a == Port::SVBK {
            CpuView { svbk: value & 0x07, ..self }
        } else if a == Port::IE {
            CpuView { ie: value & 0x1F, ..self }
        } else {
            self
        }
    }

    fn read(&mut self, addr: u16) -> (r: u8) {
        let a = if 0xE000 <= addr && addr <= 0xFDFF { addr - 0x2000 } else { addr };
        if a <= 0x00FF && self.bios == 0 && (a as usize) < self.bios_data.len() {
            self.bios_data[a as usize]
        } else if a <= 0x7FFF || (0xA000 <= a && a <= 0xBFFF) {
            self.mbc.read(a)
        } else if (0x8000 <= a && a <= 0x9FFF) || (0xFE00 <= a && a <= 0xFE9F) || (Port::LCDC <= a
            && a <= Port::WX) || a == Port::VBK || (Port::HMDA1 <= a && a <= Port::HMDA5) || (
        Port::BCPS <= a && a <= Port::OCPD) {
            self.ppu.read(a)
        } else if 0xC000 <= a && a <= 0xDFFF {
            self.wram[self.wram_offset(a)]
        } else if 0xFF80 <= a && a <= 0xFFFE {
            self.hram[(a - 0xFF80) as usize]
        } else if a == Port::P1 {
            self.input.read(a)
        } else if a == Port::SB {
            self.sb
        } else if a == Port::SC {
            self.sc
        } else if a == Port::DIV {
            self.div
        } else if a == Port::TIMA {
            self.tima
        } else if a == Port::TMA {
            self.tma
        } else if a == Port::TAC {
            self.tac
        } else if a == Port::IF {
            // the three unused bits read as one
            self.iflags | 0xE0
        } else if a == Port::BIOS {
            self.bios
        } else if a == Port::SVBK {
            self.svbk
        } else if a == Port::IE {
            self.ie
        } else {
            0xFF
        }
    }

    fn write(&mut self, addr: u16, value: u8) {
        let a = if 0xE000 <= addr && addr <= 0xFDFF { addr - 0x2000 } else { addr };
        if a <= 0x7FFF || (0xA000 <= a && a <= 0xBFFF) {
            self.mbc.write(a, value);
        } else if (0x8000 <= a && a <= 0x9FFF) || (0xFE00 <= a && a <= 0xFE9F) || (Port::LCDC <= a
            && a <= Port::WX) || a == Port::VBK || (Port::HMDA1 <= a && a <= Port::HMDA5) || (
        Port::BCPS <= a && a <= Port::OCPD) {
            self.ppu.write(a, value);
        } else if 0xC000 <= a && a <= 0xDFFF {
            let i = self.wram_offset(a);
            self.wram[i] = value;
        } else if 0xFF80 <= a && a <= 0xFFFE {
            self.hram[(a - 0xFF80) as usize] = value;
        } else if a == Port::P1 {
            self.input.write(a, value);
        } else if a == Port::SB {
            self.sb = value;
            self.sb_written = true;
        } else if a == Port::SC {
            self.sc = value & 0x03;
        } else if a == Port::DIV {
            self.div = 0;
        } else if a == Port::TIMA {
            self.tima = value;
        } else if a == Port::TMA {
            self.tma = value;
        } else if a == Port::TAC {
            self.tac = value & 0x07;
        } else if a == Port::IF {
            self.iflags = value & 0x1F;
        } else if a == Port::BIOS {
            if self.bios == 0 {
                self.bios = value;
            }
        } else if a == Port::SVBK {
            self.svbk = value & 0x07;
        } else if a == Port::IE {
            self.ie = value & 0x1F;
        }
    }
}

/// The TIMA period in cycles for the clock select in TAC bits 0-1.
pub open spec fn timer_period(tac: u8) -> u16 {
    if tac % 4 == 0 {
        1024
    } else if tac % 4 == 1 {
        16
    } else if tac % 4 == 2 {
        64
    } else {
        256
    }
}

/// TIMA and its cycle counter after one cycle: when the counter reaches the
/// period TIMA counts up, reloading from TMA when it overflows.
pub open spec fn tima_step(tima: u8, tma: u8, counter: u16, period: u16) -> (u8, u16) {
    if counter + 1 >= period {
        if tima == 255 {
            (tma, 0)
        } else {
            ((tima + 1) as u8, 0)
        }
    } else {
        (tima, (counter + 1) as u16)
    }
}

/// TIMA and its cycle counter after `n` cycles.
pub open spec fn tima_run(tima: u8, tma: u8, counter: u16, period: u16, n: nat) -> (u8, u16)
    decreases n,
{
    if n == 0 {
        (tima, counter)
    } else {
        let (t, c) = tima_run(tima, tma, counter, period, (n - 1) as nat);
        tima_step(t, tma, c, period)
    }
}

proof fn lemma_and_self(x: u8)
    ensures
        x & x == x,
{
    assert(x & x == x) by (bit_vector);
}

proof fn lemma_or_keeps(x: u8, y: u8)
    ensures
        (x | y) & x == x,
{
    assert((x | y) & x == x) by (bit_vector);
}

/// Bits kept through two steps are kept through both; the low bit of `f0`
/// stays set the same way.
proof fn lemma_and_chain(g: u8, f0: u8, f1: u8, f2: u8)
    requires
        f1 & f0 == f0,
        f2 & f1 == f1,
    ensures
        f0 & g == g ==> f2 & g == g,
        g == 0x01 && f0 & 0x01 != 0 ==> f2 & 0x01 != 0,
{
    assert(f0 & g == g ==> f2 & g == g) by (bit_vector)
        requires
            f1 & f0 == f0,
            f2 & f1 == f1,
    ;
    assert(f0 & 0x01 != 0 ==> f2 & 0x01 != 0) by (bit_vector)
        requires
            f1 & f0 == f0,
            f2 & f1 == f1,
    ;
}

proof fn lemma_keeps_bit(f0: u8, f1: u8, m: u8)
    requires
        f1 & f0 == f0,
        f0 & m != 0,
    ensures
        f1 & m != 0,
{
    assert(f1 & m != 0) by (bit_vector)
        requires
            f1 & f0 == f0,
            f0 & m != 0,
    ;
}

proof fn lemma_div_step(dc0: int, div0: int, i: int)
    requires
        0 <= dc0 < 256,
        0 <= i,
    ensures
        ((dc0 + i) % 256 == 255 ==> ((dc0 + i + 1) % 256 == 0 && (div0 + (dc0 + i + 1) / 256) % 256
            == ((div0 + (dc0 + i) / 256) % 256 + 1) % 256)),
        ((dc0 + i) % 256 != 255 ==> ((dc0 + i + 1) % 256 == (dc0 + i) % 256 + 1 && (div0 + (dc0 + i
            + 1) / 256) % 256 == (div0 + (dc0 + i) / 256) % 256)),
{
    assert((dc0 + i + 1) / 256 == (dc0 + i) / 256 + if (dc0 + i) % 256 == 255 { 1int } else { 0 });
}

/// Whether TIMA overflows in `n` cycles.
pub open spec fn tima_overflowed(tima: u8, tma: u8, counter: u16, period: u16, n: nat) -> bool
    decreases n,
{
    if n == 0 {
        false
    } else {
        let (t, c) = tima_run(tima, tma, counter, period, (n - 1) as nat);
        tima_overflowed(tima, tma, counter, period, (n - 1) as nat) || (c + 1 >= period && t == 255)
    }
}

/// The machine after the PPU's part of one cycle, the framebuffer aside: a
/// byte of OAM DMA, then one dot, whose interrupt requests are added to IF.
pub open spec fn ppu_phase(e: Emu) -> Emu {
    let p1 = dma_phase(e.view.ppu, e.view.peek(e.view.ppu.dma_source()));
    Emu {
        view: CpuView { ppu: ppu_next(p1), iflags: e.view.iflags | ppu_irq(p1), ..e.view },
        vblanked: e.vblanked || (p1.lcdc & 0x80 != 0 && vblank_at(p1.ly, p1.dot)),
        ..e
    }
}

/// The machine after the timers' part of one cycle: DIV counts every 256
/// cycles; TIMA, when enabled, counts every period and on overflow reloads
/// from TMA and requests the timer interrupt (IF bit 2).
pub open spec fn timer_phase(e: Emu) -> Emu {
    let period = timer_period(e.view.tac);
    let dc: u16 = if e.div_counter == 255 { 0 } else { (e.div_counter + 1) as u16 };
    let dv: u8 = if e.div_counter == 255 { ((e.view.div + 1) % 256) as u8 } else { e.view.div };
    if e.view.tac & 0x04 != 0 {
        let (t, c) = tima_step(e.view.tima, e.view.tma, e.tima_counter, period);
        let overflow = e.tima_counter + 1 >= period && e.view.tima == 255;
        Emu {
            div_counter: dc,
            tima_counter: c,
            view: CpuView {
                div: dv,
                tima: t,
                iflags: if overflow { e.view.iflags | 0x04 } else { e.view.iflags },
                ..e.view
            },
            ..e
        }
    } else {
        Emu { div_counter: dc, view: CpuView { div: dv, ..e.view }, ..e }
    }
}

/// One cycle of the machine from `e` to `e2`: unless the CPU is stopped, the
/// PPU part (with the framebuffer as `screen_step` gives it), then the timers.
pub open spec fn emu_cycle(e: Emu, e2: Emu) -> bool {
    if e.cpu.stopped {
        e2 == timer_phase(e)
    } else {
        &&& e2 == timer_phase(Emu { screen: e2.screen, ..ppu_phase(e) })
        &&& screen_step(dma_phase(e.view.ppu, e.view.peek(e.view.ppu.dma_source())), e.screen, e2.screen)
    }
}

/// `trace` lists the machine states of `n` cycles from `e` to `e2`, each
/// one cycle after the one before.
pub open spec fn is_trace(trace: Seq<Emu>, e: Emu, e2: Emu, n: nat) -> bool {
    &&& trace.len() == n + 1
    &&& trace[0] == e
    &&& trace[n as int] == e2
    &&& forall|k: int| 0 <= k < n ==> #[trigger] emu_cycle(trace[k], trace[k + 1])
}

/// `e2` is `e` after `n` cycles.
pub open spec fn emu_run(e: Emu, e2: Emu, n: nat) -> bool {
    exists|trace: Seq<Emu>| is_trace(trace, e, e2, n)
}

/// The machine state `post` is `pre` advanced by `n` cycles: the CPU is
/// untouched; unless the CPU is stopped, an LCD that is on moves `n` dots on
/// and the VBlank latch and IF bit 0 record whether VBlank began; interrupt
/// requests are only added and a TIMA overflow requests IF bit 2; DIV and
/// TIMA count; outside the PPU's counters, STAT, OAM and DMA counter, IF,
/// DIV and TIMA nothing of the address space changes. `emu_run` gives every
/// cycle exactly.
pub open spec fn advanced(pre: Emu, post: Emu, n: nat) -> bool {
    &&& emu_run(pre, post, n)
    &&& post.view == (CpuView {
        ppu: post.view.ppu,
        iflags: post.view.iflags,
        div: post.view.div,
        tima: post.view.tima,
        ..pre.view
    })
    &&& post.view.ppu == (Ppu {
        ly: post.view.ppu.ly,
        dot: post.view.ppu.dot,
        stat: post.view.ppu.stat,
        objs: post.view.ppu.objs,
        dma_counter: post.view.ppu.dma_counter,
        ..pre.view.ppu
    })
    &&& pre.view.ppu.wf() ==> post.view.ppu.wf()
    &&& pre.view.tac & 0x04 != 0 && tima_overflowed(
        pre.view.tima,
        pre.view.tma,
        pre.tima_counter,
        timer_period(pre.view.tac),
        n,
    ) ==> post.view.iflags & 0x04 != 0
    &&& post.cpu == pre.cpu
    &&& post.view.ppu.lcdc == pre.view.ppu.lcdc
    &&& !pre.cpu.stopped && pre.view.ppu.lcdc & 0x80 != 0 ==> {
        &&& (post.view.ppu.ly, post.view.ppu.dot) == timing_iter(pre.view.ppu.ly, pre.view.ppu.dot, n)
        &&& post.vblanked == (pre.vblanked || vblank_count(pre.view.ppu.ly, pre.view.ppu.dot, n) > 0)
    }
    &&& post.view.iflags & pre.view.iflags == pre.view.iflags
    &&& !pre.cpu.stopped && pre.view.ppu.lcdc & 0x80 != 0 && vblank_count(pre.view.ppu.ly, pre.view.ppu.dot, n)
        > 0 ==> post.view.iflags & 0x01 != 0
    &&& post.div_counter == (pre.div_counter + n) % 256
    &&& post.view.div == (pre.view.div + (pre.div_counter + n) / 256) % 256
    &&& post.view.tac == pre.view.tac
    &&& post.view.tma == pre.view.tma
    &&& pre.view.tac & 0x04 != 0 ==> (post.view.tima, post.tima_counter) == tima_run(
        pre.view.tima,
        pre.view.tma,
        pre.tima_counter,
        timer_period(pre.view.tac),
        n,
    )
    &&& pre.view.tac & 0x04 == 0 ==> post.view.tima == pre.view.tima
        && post.tima_counter == pre.tima_counter
}

/// The whole machine.
pub struct Emu {
    pub cpu: Cpu,
    pub view: CpuView,
    pub screen: PpuView,
    /// Set when VBlank begins; cleared by `vblanked`.
    pub vblanked: bool,
    /// Cycles since DIV last counted up.
    pub div_counter: u16,
    /// Cycles since TIMA last counted up.
    pub tima_counter: u16,
    /// Bytes written to SB that the host has not taken yet.
    pub serial_out: Vec<u8>,
}

impl Emu {
    pub open spec fn wf(self) -> bool {
        self.div_counter < 256 && self.tima_counter < 1024
    }

    /// A machine with the given boot ROM (empty for none), cartridge and joypad.
    pub fn new(bios_data: Vec<u8>, mbc: Mbc, input: Joypad) -> (r: Self)
        ensures
            r.wf(),
            r.cpu == Cpu::initial(),
            r.view.bios_data@ == bios_data@,
            r.view.mbc == mbc,
            r.view.input == input,
            r.view.bios == 0,
            r.view.iflags == 0,
            r.view.ie == 0,
            r.view.ppu.lcdc == 0,
            r.view.ppu.ly == 0,
            r.view.ppu.dot == 0,
            r.view.ppu.dma_counter == 0,
            forall|i: int| 0 <= i < 32768 ==> #[trigger] r.view.wram@[i] == 0xFF,
            forall|i: int| 0 <= i < 23040 ==> #[trigger] r.screen.lcd@[i] == 0,
            !r.vblanked,
            r.serial_out@.len() == 0,
    {
        let view = CpuView {
            bios_data,
            mbc,
            ppu: Ppu::new(),
            input,
            wram: [0xFFu8; 32768],
            hram: [0xFFu8; 127],
            iflags: 0,
            bios: 0,
            svbk: 0,
            sb: 0,
            sb_written: false,
            sc: 0,
            div: 0,
            tima: 0,
            tma: 0,
            tac: 0,
            ie: 0,
        };
        Emu {
            cpu: Cpu::new(),
            view,
            screen: PpuView::new(),
            vblanked: false,
            div_counter: 0,
            tima_counter: 0,
            serial_out: Vec::new(),
        }
    }

    /// Resets the CPU, PPU, cartridge, joypad, timers and interrupt
    /// registers. Memory contents are kept: reset does not scramble RAM.
    pub fn reset(&mut self)
        ensures
            final(self).wf(),
            final(self).div_counter == 0,
            final(self).tima_counter == 0,
            final(self).cpu == (Cpu {
                pc: 0,
                ime: false,
                ei_pending: false,
                halted: false,
                stopped: false,
                ..old(self).cpu
            }),
            final(self).view == (CpuView {
                ppu: old(self).view.ppu.reset_state(),
                mbc: old(self).view.mbc.reset_state(),
                input: old(self).view.input.reset_state(),
                iflags: 0,
                svbk: 0,
                sb_written: false,
                sc: 0,
                div: 0,
                tima: 0,
                tma: 0,
                tac: 0,
                ie: 0,
                ..old(self).view
            }),
            !final(self).vblanked,
            final(self).screen == old(self).screen,
            final(self).serial_out == old(self).serial_out,
    {
        self.cpu.reset();
        self.view.ppu.reset();
        self.view.input.reset();
        self.view.mbc.reset();
        self.vblanked = false;
        self.view.iflags = 0;
        self.view.svbk = 0;
        self.view.sb_written = false;
        self.view.sc = 0;
        self.view.div = 0;
        self.view.tima = 0;
        self.view.tma = 0;
        self.view.tac = 0;
        self.view.ie = 0;
        self.div_counter = 0;
        self.tima_counter = 0;
    }

    /// Runs one CPU step, then advances the PPU and the timers by the
    /// cycles it took, which it returns.
    pub fn tick(&mut self) -> (r: usize)
        requires
            old(self).wf(),
        ensures
            final(self).wf(),
            r == tick_cycles(old(self).cpu, old(self).view),
            exists|c: Cpu, v: CpuView|
                {
                    &&& #[trigger] cpu_step(old(self).cpu, old(self).view, c, v, r)
                    &&& advanced(
                        Emu {
                            cpu: c,
                            view: CpuView { sb_written: false, ..v },
                            serial_out: final(self).serial_out,
                            ..*old(self)
                        },
                        *final(self),
                        r as nat,
                    )
                    &&& final(self).serial_out@ == old(self).serial_out@ + if v.sb_written {
                        seq![v.sb]
                    } else {
                        Seq::empty()
                    }
                },
    {
        let cycles = self.cpu.tick(&mut self.view);
        let ghost c = self.cpu;
        let ghost v = self.view;
        if self.view.sb_written {
            self.serial_out.push(self.view.sb);
            self.view.sb_written = false;
        }
        proof {
            assert(self.serial_out@ =~= old(self).serial_out@ + if v.sb_written {
                seq![v.sb]
            } else {
                Seq::empty()
            });
        }
        let ghost pre = *self;
        self.advance(cycles);
        assert(advanced(pre, *self, cycles as nat));
        assert(cpu_step(old(self).cpu, old(self).view, c, v, cycles));
        cycles
    }

    /// Advances the PPU (unless the CPU is stopped), OAM DMA and the timers
    /// by `cycles` cycles. VBlank sets the `vblanked` latch.
    pub fn advance(&mut self, cycles: usize)
        requires
            old(self).wf(),
        ensures
            final(self).wf(),
            advanced(*old(self), *final(self), cycles as nat),
            final(self).serial_out == old(self).serial_out,
    {
        let ghost ly0 = self.view.ppu.ly;
        let ghost dot0 = self.view.ppu.dot;
        let ghost dc0 = self.div_counter;
        let ghost div0 = self.view.div;
        let ghost tima0 = self.view.tima;
        let ghost tc0 = self.tima_counter;
        let ghost vb0 = self.vblanked;
        let run_ppu = !self.cpu.stopped;
        proof {
            lemma_and_self(self.view.iflags);
        }
        let period: u16 = if self.view.tac % 4 == 0 {
            1024
        } else if self.view.tac % 4 == 1 {
            16
        } else if self.view.tac % 4 == 2 {
            64
        } else {
            256
        };
        let ghost mut trace: Seq<Emu> = seq![*self];
        let mut i: usize = 0;
        while i < cycles
            invariant
                i <= cycles,
                self.wf(),
                self.cpu == old(self).cpu,
                self.serial_out == old(self).serial_out,
                is_trace(trace, *old(self), *self, i as nat),
                self.view == (CpuView {
                    ppu: self.view.ppu,
                    iflags: self.view.iflags,
                    div: self.view.div,
                    tima: self.view.tima,
                    ..old(self).view
                }),
                self.view.ppu == (Ppu {
                    ly: self.view.ppu.ly,
                    dot: self.view.ppu.dot,
                    stat: self.view.ppu.stat,
                    objs: self.view.ppu.objs,
                    dma_counter: self.view.ppu.dma_counter,
                    ..old(self).view.ppu
                }),
                old(self).view.ppu.wf() ==> self.view.ppu.wf(),
                self.view.tac & 0x04 != 0 && tima_overflowed(tima0, self.view.tma, tc0, period, i as nat)
                    ==> self.view.iflags & 0x04 != 0,
                self.view.iflags & old(self).view.iflags == old(self).view.iflags,
                run_ppu && self.view.ppu.lcdc & 0x80 != 0 && vblank_count(ly0, dot0, i as nat) > 0
                    ==> self.view.iflags & 0x01 != 0,
                run_ppu == !self.cpu.stopped,
                self.view.ppu.lcdc == old(self).view.ppu.lcdc,
                self.view.tac == old(self).view.tac,
                self.view.tma == old(self).view.tma,
                period == timer_period(self.view.tac),
                ly0 == old(self).view.ppu.ly,
                dot0 == old(self).view.ppu.dot,
                vb0 == old(self).vblanked,
                dc0 == old(self).div_counter,
                dc0 < 256,
                div0 == old(self).view.div,
                tima0 == old(self).view.tima,
                tc0 == old(self).tima_counter,
                run_ppu && self.view.ppu.lcdc & 0x80 != 0 ==> {
                    &&& (self.view.ppu.ly, self.view.ppu.dot) == timing_iter(ly0, dot0, i as nat)
                    &&& self.vblanked == (vb0 || vblank_count(ly0, dot0, i as nat) > 0)
                },
                self.div_counter == (dc0 + i) % 256,
                self.view.div == (div0 + (dc0 + i) / 256) % 256,
                self.view.tac & 0x04 != 0 ==> (self.view.tima, self.tima_counter) == tima_run(
                    tima0,
                    self.view.tma,
                    tc0,
                    period,
                    i as nat,
                ),
                self.view.tac & 0x04 == 0 ==> self.view.tima == tima0 && self.tima_counter == tc0,
            decreases cycles - i,
        {
            let ghost prev = *self;
            let ghost f0 = self.view.iflags;
            proof {
                lemma_and_self(f0);
            }
            if run_ppu {
                self.ppu_dot();
            }
            let ghost f1 = self.view.iflags;
            self.timer_cycle(period);
            proof {
                let f2 = self.view.iflags;
                let g = old(self).view.iflags;
                lemma_and_chain(g, f0, f1, f2);
                assert(f2 & 0x01 == f1 & 0x01);
                if run_ppu && self.view.ppu.lcdc & 0x80 != 0 && vblank_count(ly0, dot0, i as nat) > 0 {
                    assert(f0 & 0x01 != 0);
                    lemma_and_chain(0x01, f0, f1, f2);
                }
                if self.view.tac & 0x04 != 0 && tima_overflowed(tima0, self.view.tma, tc0, period, i as nat) {
                    lemma_keeps_bit(f0, f1, 0x04);
                }
                assert(emu_cycle(prev, *self));
                let t2 = trace.push(*self);
                assert(emu_cycle(t2[i as int], t2[i + 1]));
                assert(is_trace(t2, *old(self), *self, (i + 1) as nat));
                trace = t2;
            }
            proof {
                lemma_div_step(dc0 as int, div0 as int, i as int);
            }
            i = i + 1;
        }
    }

    /// One PPU dot: a byte of OAM DMA if one is running, then the display
    /// state machine; its interrupt requests go to IF.
    fn ppu_dot(&mut self)
        ensures
            *final(self) == (Emu { screen: final(self).screen, ..ppu_phase(*old(self)) }),
            screen_step(
                dma_phase(old(self).view.ppu, old(self).view.peek(old(self).view.ppu.dma_source())),
                old(self).screen,
                final(self).screen,
            ),
            old(self).view.ppu.wf() ==> final(self).view.ppu.wf(),
            final(self).view.iflags & old(self).view.iflags == old(self).view.iflags,
            old(self).view.ppu.lcdc & 0x80 != 0 && vblank_at(old(self).view.ppu.ly, old(self).view.ppu.dot)
                ==> final(self).view.iflags & 0x01 != 0,
            final(self).cpu == old(self).cpu,
            final(self).serial_out == old(self).serial_out,
            final(self).view.ppu.lcdc == old(self).view.ppu.lcdc,
            final(self).view.tac == old(self).view.tac,
            final(self).view.tma == old(self).view.tma,
            final(self).view.tima == old(self).view.tima,
            final(self).view.div == old(self).view.div,
            final(self).div_counter == old(self).div_counter,
            final(self).tima_counter == old(self).tima_counter,
            old(self).view.ppu.lcdc & 0x80 != 0 ==> {
                &&& (final(self).view.ppu.ly, final(self).view.ppu.dot) == timing_next(
                    old(self).view.ppu.ly,
                    old(self).view.ppu.dot,
                )
                &&& final(self).vblanked == (old(self).vblanked || vblank_at(
                    old(self).view.ppu.ly,
                    old(self).view.ppu.dot,
                ))
            },
    {
        match self.view.ppu.dma_address() {
            Some(a) => {
                let byte = self.view.read(a);
                self.view.ppu.dma_step(byte);
            },
            None => {},
        }
        let (irq, vblank) = self.view.ppu.step(&mut self.screen);
        let ghost before = self.view.iflags;
        self.view.iflags = self.view.iflags | irq;
        proof {
            lemma_or_keeps(before, irq);
            if vblank {
                assert(irq == 1 || irq == 3);
                assert((before | irq) & 0x01 != 0) by (bit_vector)
                    requires
                        irq == 1 || irq == 3,
                ;
            }
        }
        if vblank {
            self.vblanked = true;
        }
    }

    /// One cycle of DIV and TIMA.
    fn timer_cycle(&mut self, period: u16)
        requires
            old(self).wf(),
            period == timer_period(old(self).view.tac),
        ensures
            final(self).wf(),
            *final(self) == timer_phase(*old(self)),
            old(self).view.tac & 0x04 != 0 && old(self).tima_counter + 1 >= period && old(self).view.tima
                == 255 ==> final(self).view.iflags & 0x04 != 0,
            final(self).view.iflags & old(self).view.iflags == old(self).view.iflags,
            final(self).view.iflags & 0x01 == old(self).view.iflags & 0x01,
            final(self).cpu == old(self).cpu,
            final(self).serial_out == old(self).serial_out,
            final(self).view.ppu == old(self).view.ppu,
            final(self).vblanked == old(self).vblanked,
            final(self).view.tac == old(self).view.tac,
            final(self).view.tma == old(self).view.tma,
            final(self).div_counter == if old(self).div_counter == 255 {
                0
            } else {
                old(self).div_counter + 1
            },
            final(self).view.div == if old(self).div_counter == 255 {
                (old(self).view.div + 1) % 256
            } else {
                old(self).view.div as int
            },
            old(self).view.tac & 0x04 != 0 ==> (final(self).view.tima, final(self).tima_counter)
                == tima_step(old(self).view.tima, old(self).view.tma, old(self).tima_counter, period),
            old(self).view.tac & 0x04 == 0 ==> final(self).view.tima == old(self).view.tima
                && final(self).tima_counter == old(self).tima_counter,
    {
        proof {
            lemma_and_self(self.view.iflags);
        }
        // the divider counts up every 256 cycles
        if self.div_counter == 255 {
            self.div_counter = 0;
            self.view.div = self.view.div.wrapping_add(1);
        } else {
            self.div_counter = self.div_counter + 1;
        }
        if self.view.tac & 0x04 != 0 {
            if self.tima_counter + 1 >= period {
                self.tima_counter = 0;
                if self.view.tima == 255 {
                    // overflow: reload and request the timer interrupt
                    self.view.tima = self.view.tma;
                    let ghost before = self.view.iflags;
                    self.view.iflags = self.view.iflags | 0x04;
                    proof {
                        lemma_or_keeps(before, 0x04);
                        assert((before | 0x04) & 0x01 == before & 0x01) by (bit_vector);
                        assert((before | 0x04) & 0x04 != 0) by (bit_vector);
                    }
                } else {
                    self.view.tima = self.view.tima + 1;
                }
            } else {
                self.tima_counter = self.tima_counter + 1;
            }
        }
    }

    /// Whether VBlank began since the last call; clears the latch.
    pub fn vblanked(&mut self) -> (r: bool)
        ensures
            r == old(self).vblanked,
            *final(self) == (Emu { vblanked: false, ..*old(self) }),
    {
        let value = self.vblanked;
        self.vblanked = false;
        value
    }

    /// The framebuffer: 160x144 pixels, row-major.
    pub fn lcd(&self) -> (r: &[u32; 23040])
        ensures
            *r == self.screen.lcd,
    {
        &self.screen.lcd
    }

    pub fn input_mut(&mut self) -> (r: &mut Joypad)
        ensures
            *r == old(self).view.input,
            *final(self) == (Emu { view: CpuView { input: *final(r), ..old(self).view }, ..*old(self) }),
    {
        &mut self.view.input
    }

    pub fn cpu(&self) -> (r: &Cpu)
        ensures
            *r == self.cpu,
    {
        &self.cpu
    }

    /// The CPU and the address space it sees, for a host that inspects or
    /// patches state.
    pub fn cpu_view(&mut self) -> (r: (&mut Cpu, &mut CpuView))
        ensures
            *r.0 == old(self).cpu,
            *r.1 == old(self).view,
            *final(self) == (Emu { cpu: *final(r.0), view: *final(r.1), ..*old(self) }),
    {
        (&mut self.cpu, &mut self.view)
    }

    /// Takes the bytes written to the serial port since the last call.
    pub fn take_serial(&mut self) -> (r: Vec<u8>)
        ensures
            r@ == old(self).serial_out@,
            final(self).serial_out@.len() == 0,
            final(self).cpu == old(self).cpu,
            final(self).view == old(self).view,
            final(self).vblanked == old(self).vblanked,
    {
        let mut out: Vec<u8> = Vec::new();
        std::mem::swap(&mut out, &mut self.serial_out);
        out
    }
}

} // verus!
