//! Cartridge memory bank controllers.
use vstd::prelude::*;

use crate::bus::BusDevice;

verus! {

pub const ROM_BANK_SIZE: usize = 16384;

pub const SRAM_BANK_SIZE: usize = 8192;

/// The byte at `i` of a ROM image, or 0xFF past its end.
pub open spec fn rom_byte(rom: Seq<u8>, i: int) -> u8 {
    if 0 <= i < rom.len() {
        rom[i]
    } else {
        0xFF
    }
}

fn read_rom(rom: &Vec<u8>, i: usize) -> (r: u8)
    ensures
        r == rom_byte(rom@, i as int),
{
    if i < rom.len() {
        rom[i]
    } else {
        0xFF
    }
}

/// Copies the first `N` bytes of `src` (as many as it has) over `dst`.
fn fill_from<const N: usize>(dst: &mut [u8; N], src: &Vec<u8>)
    ensures
        forall|j: int| 0 <= j < N ==> #[trigger] final(dst)@[j] == if j < src@.len() {
            src@[j]
        } else {
            old(dst)@[j]
        },
{
    let n = if src.len() < N { src.len() } else { N };
    let mut i: usize = 0;
    while i < n
        invariant
            i <= n,
            n <= N,
            n <= src@.len(),
            n == N || n == src@.len(),
            forall|j: int| 0 <= j < N ==> #[trigger] dst@[j] == if j < i {
                src@[j]
            } else {
                old(dst)@[j]
            },
        decreases n - i,
    {
        dst[i] = src[i];
        i = i + 1;
    }
}

/// MBC-0, a cartridge without a controller: up to 32 KiB of ROM mapped 1:1
/// and optional SRAM (up to 8 KiB) at 0xA000-0xBFFF.
pub struct Mbc0 {
    pub rom: Vec<u8>,
    pub sram: [u8; 8192],
    /// How many bytes of SRAM the cartridge has; the rest of the window reads 0xFF.
    pub sram_len: u16,
}

impl Mbc0 {
    /// `sram` gives the cartridge RAM (empty for none); bytes past 8 KiB are dropped.
    pub fn new(rom: Vec<u8>, sram: Vec<u8>) -> (r: Self)
        ensures
            r.rom@ == rom@,
            r.sram_len as int == if sram@.len() > 8192 { 8192 } else { sram@.len() },
            forall|j: int| 0 <= j < r.sram_len ==> #[trigger] r.sram@[j] == sram@[j],
    {
        let mut data = [0xFFu8; 8192];
        fill_from(&mut data, &sram);
        let sram_len: u16 = if sram.len() > 8192 { 8192 } else { sram.len() as u16 };
        Mbc0 { rom, sram: data, sram_len }
    }
}

impl BusDevice for Mbc0 {
    open spec fn peek(&self, addr: u16) -> u8 {
        if addr <= 0x7FFF {
            rom_byte(self.rom@, addr as int)
        } else if 0xA000 <= addr <= 0xBFFF && addr - 0xA000 < self.sram_len {
            self.sram@[addr - 0xA000]
        } else {
            0xFF
        }
    }

    open spec fn poke(self, addr: u16, value: u8) -> Self {
        if 0xA000 <= addr <= 0xBFFF && addr - 0xA000 < self.sram_len {
            Mbc0 { sram: vstd::array::spec_array_update(self.sram, addr - 0xA000, value), ..self }
        } else {
            self
        }
    }

    open spec fn reset_state(self) -> Self {
        self
    }

    fn reset(&mut self) {
    }

    fn read(&mut self, addr: u16) -> (r: u8) {
        if addr <= 0x7FFF {
            read_rom(&self.rom, addr as usize)
        } else if 0xA000 <= addr && addr <= 0xBFFF && addr - 0xA000 < self.sram_len {
            self.sram[(addr - 0xA000) as usize]
        } else {
            0xFF
        }
    }

    fn write(&mut self, addr: u16, value: u8) {
        if 0xA000 <= addr && addr <= 0xBFFF && addr - 0xA000 < self.sram_len {
            self.sram[(addr - 0xA000) as usize] = value;
        }
    }
}

/// A cartridge without a controller whose 8 KiB RAM window at
/// 0xA000-0xBFFF is always mapped.
pub struct Null {
    pub rom: Vec<u8>,
    pub ram: [u8; 8192],
}

impl Null {
    /// `ram` gives the initial RAM contents; bytes it lacks read 0xFF.
    pub fn new(rom: Vec<u8>, ram: Vec<u8>) -> (r: Self)
        ensures
            r.rom@ == rom@,
            forall|j: int| 0 <= j < 8192 ==> #[trigger] r.ram@[j] == rom_byte(ram@, j),
    {
        let mut data = [0xFFu8; 8192];
        fill_from(&mut data, &ram);
        Null { rom, ram: data }
    }
}

impl BusDevice for Null {
    open spec fn peek(&self, addr: u16) -> u8 {
        if addr <= 0x7FFF {
            rom_byte(self.rom@, addr as int)
        } else if 0xA000 <= addr <= 0xBFFF {
            self.ram@[addr - 0xA000]
        } else {
            0xFF
        }
    }

    open spec fn poke(self, addr: u16, value: u8) -> Self {
        if 0xA000 <= addr <= 0xBFFF {
            Null { ram: vstd::array::spec_array_update(self.ram, addr - 0xA000, value), ..self }
        } else {
            self
        }
    }

    open spec fn reset_state(self) -> Self {
        self
    }

    fn reset(&mut self) {
    }

    fn read(&mut self, addr: u16) -> (r: u8) {
        if addr <= 0x7FFF {
            read_rom(&self.rom, addr as usize)
        } else if 0xA000 <= addr && addr <= 0xBFFF {
            self.ram[(addr - 0xA000) as usize]
        } else {
            0xFF
        }
    }

    fn write(&mut self, addr: u16, value: u8) {
        if 0xA000 <= addr && addr <= 0xBFFF {
            self.ram[(addr - 0xA000) as usize] = value;
        }
    }
}

/// The ROM bank register after `value` is written to 0x2000-0x3FFF: bits
/// 0-4 become the value's low five bits (zero read as one) and bits 5-6 are
/// kept, except that the shadow values 0x20, 0x40 and 0x60 select the bank
/// one above them.
pub open spec fn low_bank_write(rom_bank: u8, value: u8) -> u8 {
    let v = value & 0x7F;
    if v == 0x20 || v == 0x40 || v == 0x60 {
        (v + 1) as u8
    } else {
        (rom_bank & 0x60) | (if value & 0x1F == 0 { 1u8 } else { value & 0x1F })
    }
}

/// The mask that wraps a bank number into a cartridge of `len` bytes.
pub open spec fn rom_bank_mask(len: nat) -> u8 {
    let banks = len / ROM_BANK_SIZE as nat;
    if banks == 0 {
        0
    } else if banks > 128 {
        0x7F
    } else {
        (banks - 1) as u8
    }
}

/// The mask that wraps an SRAM bank number into `banks` banks.
pub open spec fn sram_bank_mask(banks: u8) -> u8 {
    if banks == 0 {
        0
    } else {
        (banks - 1) as u8
    }
}

/// MBC-1: switchable ROM banks at 0x4000-0x7FFF and up to four 8 KiB SRAM banks.
///
/// `rom_bank` holds the ROM bank number, wrapped to the cartridge's bank
/// count. A write to 0x2000-0x3FFF sets bits 0-4 as `low_bank_write` says
/// (0x00 selects bank 1, 0x20 bank 0x21); a write to 0x4000-0x5FFF in mode 0
/// replaces bits 5-6.
pub struct Mbc1 {
    pub rom: Vec<u8>,
    pub sram: [u8; 32768],
    /// How many 8 KiB SRAM banks the cartridge has (0 to 4).
    pub sram_banks: u8,
    pub rom_bank: u8,
    pub sram_bank: u8,
    pub bank_mode: u8,
}

impl Mbc1 {
    /// `sram` gives the cartridge RAM; its length in whole 8 KiB banks (at
    /// most four) sets how many SRAM banks there are.
    pub fn new(rom: Vec<u8>, sram: Vec<u8>) -> (r: Self)
        ensures
            r.rom@ == rom@,
            r.sram_banks as int == if sram@.len() / 8192 > 4 { 4 } else { sram@.len() / 8192 },
            forall|j: int| 0 <= j < 32768 ==> #[trigger] r.sram@[j] == rom_byte(sram@, j),
            r.rom_bank == 1,
            r.sram_bank == 0,
            r.bank_mode == 0,
    {
        let mut data = [0xFFu8; 32768];
        fill_from(&mut data, &sram);
        let banks = sram.len() / SRAM_BANK_SIZE;
        let sram_banks: u8 = if banks > 4 { 4 } else { banks as u8 };
        Mbc1 { rom, sram: data, sram_banks, rom_bank: 1, sram_bank: 0, bank_mode: 0 }
    }

    pub open spec fn mask(&self) -> u8 {
        rom_bank_mask(self.rom@.len())
    }

    fn bank_mask(&self) -> (r: u8)
        ensures
            r == self.mask(),
    {
        let banks = self.rom.len() / ROM_BANK_SIZE;
        if banks == 0 {
            0
        } else if banks > 128 {
            0x7F
        } else {
            (banks - 1) as u8
        }
    }

    /// The ROM bank mapped at 0x4000-0x7FFF.
    pub open spec fn high_bank(&self) -> int {
        self.rom_bank as int
    }

    /// The ROM bank mapped at 0x0000-0x3FFF.
    pub open spec fn low_bank(&self) -> int {
        if self.bank_mode == 0 {
            0
        } else {
            ((((self.rom_bank / 32) * 32) as u8) & self.mask()) as int
        }
    }

    pub open spec fn sram_present(&self) -> bool {
        self.sram_banks > 0
    }

    /// The SRAM offset of `addr` in 0xA000-0xBFFF.
    pub open spec fn sram_index(&self, addr: u16) -> int {
        (self.sram_bank % 4) as int * 8192 + (addr - 0xA000)
    }
}

impl BusDevice for Mbc1 {
    open spec fn peek(&self, addr: u16) -> u8 {
        if addr <= 0x3FFF {
            rom_byte(self.rom@, self.low_bank() * 16384 + addr)
        } else if addr <= 0x7FFF {
            rom_byte(self.rom@, self.high_bank() * 16384 + (addr - 0x4000))
        } else if 0xA000 <= addr <= 0xBFFF && self.sram_present() {
            self.sram@[self.sram_index(addr)]
        } else {
            0xFF
        }
    }

    open spec fn poke(self, addr: u16, value: u8) -> Self {
        if 0x2000 <= addr <= 0x3FFF {
            Mbc1 {
                rom_bank: low_bank_write(self.rom_bank, value) & self.mask(),
                ..self
            }
        } else if 0x4000 <= addr <= 0x5FFF {
            if self.bank_mode == 0 {
                Mbc1 { rom_bank: ((self.rom_bank & 0x1F) | ((value % 4) * 32) as u8) & self.mask(), ..self }
            } else {
                Mbc1 { sram_bank: (value & 0x03) & sram_bank_mask(self.sram_banks), ..self }
            }
        } else if 0x6000 <= addr <= 0x7FFF {
            Mbc1 { bank_mode: value & 0x01, ..self }
        } else if 0xA000 <= addr <= 0xBFFF && self.sram_present() {
            Mbc1 { sram: vstd::array::spec_array_update(self.sram, self.sram_index(addr), value), ..self }
        } else {
            self
        }
    }

    open spec fn reset_state(self) -> Self {
        Mbc1 { rom_bank: 1, sram_bank: 0, bank_mode: 0, ..self }
    }

    fn reset(&mut self) {
        self.rom_bank = 1;
        self.sram_bank = 0;
        self.bank_mode = 0;
    }

    fn read(&mut self, addr: u16) -> (r: u8) {
        if addr <= 0x3FFF {
            let bank: usize = if self.bank_mode == 0 {
                0
            } else {
                (((self.rom_bank / 32) * 32) & self.bank_mask()) as usize
            };
            read_rom(&self.rom, bank * ROM_BANK_SIZE + addr as usize)
        } else if addr <= 0x7FFF {
            read_rom(&self.rom, self.rom_bank as usize * ROM_BANK_SIZE + (addr - 0x4000) as usize)
        } else if 0xA000 <= addr && addr <= 0xBFFF && self.sram_banks > 0 {
            self.sram[(self.sram_bank % 4) as usize * SRAM_BANK_SIZE + (addr - 0xA000) as usize]
        } else {
            0xFF
        }
    }

    fn write(&mut self, addr: u16, value: u8) {
        if 0x2000 <= addr && addr <= 0x3FFF {
            let v = value & 0x7F;
            let bank = if v == 0x20 || v == 0x40 || v == 0x60 {
                // the shadow values move one bank up
                v + 1
            } else {
                let lo = value & 0x1F;
                (self.rom_bank & 0x60) | (if lo == 0 { 1u8 } else { lo })
            };
            self.rom_bank = bank & self.bank_mask();
        } else if 0x4000 <= addr && addr <= 0x5FFF {
            if self.bank_mode == 0 {
                let hi = (value % 4) * 32;
                self.rom_bank = ((self.rom_bank & 0x1F) | hi) & self.bank_mask();
            } else {
                let mask: u8 = if self.sram_banks == 0 { 0 } else { self.sram_banks - 1 };
                self.sram_bank = (value & 0x03) & mask;
            }
        } else if 0x6000 <= addr && addr <= 0x7FFF {
            self.bank_mode = value & 0x01;
        } else if 0xA000 <= addr && addr <= 0xBFFF && self.sram_banks > 0 {
            self.sram[(self.sram_bank % 4) as usize * SRAM_BANK_SIZE + (addr - 0xA000) as usize] = value;
        }
    }
}


/// A cartridge ROM size: a power of two from 32 KiB to 8 MiB.
pub open spec fn valid_rom_len(len: nat) -> bool {
    len == 0x8000 || len == 0x10000 || len == 0x20000 || len == 0x40000 || len == 0x80000 || len
        == 0x100000 || len == 0x200000 || len == 0x400000 || len == 0x800000
}

/// ROM-bank writes on MBC-1, from a bank register whose high bits are clear
/// (as after reset): 0x00 selects bank 1, and 0x20 selects bank 0x21 on a
/// cartridge of 2 MiB or more, masked to the bank count on a smaller one.
pub proof fn lemma_mbc1_bank_select(m: Mbc1)
    requires
        m.rom_bank < 32,
        valid_rom_len(m.rom@.len()),
    ensures
        m.poke(0x2000, 0x00).high_bank() == 1,
        m.rom@.len() >= 2 * 1024 * 1024 ==> m.poke(0x2000, 0x20).high_bank() == 0x21,
        m.poke(0x2000, 0x20).high_bank() == (0x21u8 & m.mask()) as int,
{
    let mask = m.mask();
    let rb = m.rom_bank;
    assert(mask >= 1);
    assert(rb & 0x60 == 0) by (bit_vector)
        requires
            rb < 32,
    ;
    assert(0x00u8 & 0x7F == 0) by (bit_vector);
    assert(0x00u8 & 0x1F == 0) by (bit_vector);
    assert(0x20u8 & 0x7F == 0x20) by (bit_vector);
    assert(forall|k: u8| (0u8 | k) == k) by (bit_vector);
    assert(mask == 1 || mask == 3 || mask == 7 || mask == 15 || mask == 31 || mask == 63 || mask == 127);
    assert(1u8 & mask == 1) by (bit_vector)
        requires
            mask == 1 || mask == 3 || mask == 7 || mask == 15 || mask == 31 || mask == 63 || mask == 127,
    ;
    if m.rom@.len() >= 2 * 1024 * 1024 {
        assert(mask == 0x7F);
        assert(0x21u8 & 0x7Fu8 == 0x21) by (bit_vector);
    }
}

/// The cartridge controllers, as one tagged variant.
pub enum Mbc {
    Mbc0(Mbc0),
    Mbc1(Mbc1),
    Null(Null),
}

impl BusDevice for Mbc {
    open spec fn peek(&self, addr: u16) -> u8 {
        match self {
            Mbc::Mbc0(m) => m.peek(addr),
            Mbc::Mbc1(m) => m.peek(addr),
            Mbc::Null(m) => m.peek(addr),
        }
    }

    open spec fn poke(self, addr: u16, value: u8) -> Self {
        match self {
            Mbc::Mbc0(m) => Mbc::Mbc0(m.poke(addr, value)),
            Mbc::Mbc1(m) => Mbc::Mbc1(m.poke(addr, value)),
            Mbc::Null(m) => Mbc::Null(m.poke(addr, value)),
        }
    }

    open spec fn reset_state(self) -> Self {
        match self {
            Mbc::Mbc0(m) => Mbc::Mbc0(m.reset_state()),
            Mbc::Mbc1(m) => Mbc::Mbc1(m.reset_state()),
            Mbc::Null(m) => Mbc::Null(m.reset_state()),
        }
    }

    fn reset(&mut self) {
        match self {
            Mbc::Mbc0(m) => m.reset(),
            Mbc::Mbc1(m) => m.reset(),
            Mbc::Null(m) => m.reset(),
        }
    }

    fn read(&mut self, addr: u16) -> (r: u8) {
        match self {
            Mbc::Mbc0(m) => m.read(addr),
            Mbc::Mbc1(m) => m.read(addr),
            Mbc::Null(m) => m.read(addr),
        }
    }

    fn write(&mut self, addr: u16, value: u8) {
        match self {
            Mbc::Mbc0(m) => m.write(addr, value),
            Mbc::Mbc1(m) => m.write(addr, value),
            Mbc::Null(m) => m.write(addr, value),
        }
    }
}

} // verus!
