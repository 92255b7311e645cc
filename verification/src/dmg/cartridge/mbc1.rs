use vstd::prelude::*;
use crate::dmg::busconnection::BusConnection;

verus! {

/// Memory bank controller 1 (max 2MByte ROM and/or 32KByte RAM),
/// see https://gbdev.io/pandocs/#mbc1
pub struct MBC1 {
    pub rom_bank: Vec<u8>,
    pub ram_bank: [u8; 0x8000],
    pub ram_enable: bool,
    pub rom_bank_number: u8,
    pub ram_bank_numer: u8,
    pub mode: BankingMode,
}

/// 00 Simple ROM Banking Mode (default)
/// 01 RAM Banking Mode / Advanced ROM Banking Mode
#[derive(Debug, PartialEq, Eq, Structural, Clone, Copy)]
pub enum BankingMode {
    Rom,
    Ram,
}

pub struct Mbc1View {
    pub rom: Seq<u8>,
    pub ram: Seq<u8>,
    pub ram_enable: bool,
    pub rom_bank_number: u8,
    pub ram_bank_number: u8,
    pub mode: BankingMode,
}

impl View for MBC1 {
    type V = Mbc1View;

    open spec fn view(&self) -> Mbc1View {
        Mbc1View {
            rom: self.rom_bank@,
            ram: self.ram_bank@,
            ram_enable: self.ram_enable,
            rom_bank_number: self.rom_bank_number,
            ram_bank_number: self.ram_bank_numer,
            mode: self.mode,
        }
    }
}

pub open spec fn is_rom_address(address: u16) -> bool {
    address <= 0x7FFF
}

pub open spec fn is_external_ram_address(address: u16) -> bool {
    0xA000 <= address <= 0xBFFF
}

/// The bank mapped at 0x4000..=0x7FFF: bank numbers 0x00, 0x20, 0x40 and 0x60
/// select the bank after them.
pub open spec fn effective_rom_bank(number: u8) -> int {
    if number == 0x00 || number == 0x20 || number == 0x40 || number == 0x60 {
        number + 1
    } else {
        number as int
    }
}

/// The image offset a ROM address reads.
pub open spec fn rom_offset(v: Mbc1View, address: u16) -> int {
    if address <= 0x3FFF {
        address as int
    } else {
        effective_rom_bank(v.rom_bank_number) * 0x4000 + (address - 0x4000)
    }
}

/// The RAM offset an external RAM address reaches.
pub open spec fn ram_offset(v: Mbc1View, address: u16) -> int {
    v.ram_bank_number * 0x2000 + (address - 0xA000)
}

/// The bank register bits a write to 0x4000..=0x5FFF stores in ROM mode (bits 6..5).
pub open spec fn upper_bank_bits(value: u8) -> u8 {
    (((value / 32) % 4) * 32) as u8
}

impl MBC1 {
    pub fn new(data: Vec<u8>) -> (r: MBC1)
        ensures
            r@.rom == data@,
            r@.ram == Seq::new(0x8000, |i: int| 0u8),
            !r@.ram_enable,
            r@.rom_bank_number == 0,
            r@.ram_bank_number == 0,
            r@.mode == BankingMode::Rom,
    {
        let r = MBC1 {
            rom_bank: data,
            ram_bank: [0u8; 0x8000],  // 32KBytes
            ram_enable: false,
            rom_bank_number: 0,
            ram_bank_numer: 0,
            mode: BankingMode::Rom,
        };
        assert(r@.ram =~= Seq::new(0x8000, |i: int| 0u8));
        r
    }
}

impl MBC1 {
    /// The image offset a ROM address reads.
    fn rom_offset(&self, address: u16) -> (r: usize)
        requires
            is_rom_address(address),
        ensures
            r == rom_offset(self@, address),
    {
        if address <= 0x3FFF {
            address as usize
        } else {
            let bank: usize = match self.rom_bank_number {
                0x00 | 0x20 | 0x40 | 0x60 => self.rom_bank_number as usize + 1,
                _ => self.rom_bank_number as usize,
            };
            bank * 0x4000 + (address as usize - 0x4000)
        }
    }

    /// The RAM offset an external RAM address reaches.
    fn ram_offset(&self, address: u16) -> (r: usize)
        requires
            is_external_ram_address(address),
        ensures
            r == ram_offset(self@, address),
    {
        self.ram_bank_numer as usize * 0x2000 + (address as usize - 0xA000)
    }

    /// Whether `read_byte` serves the address.
    pub fn readable(&self, address: u16) -> (r: bool)
        ensures
            r == MBC1::can_read(self@, address),
    {
        if address <= 0x7FFF {
            self.rom_offset(address) < self.rom_bank.len()
        } else if 0xA000 <= address && address <= 0xBFFF {
            !self.ram_enable || self.ram_offset(address) < 0x8000
        } else {
            false
        }
    }

    /// Whether `write_byte` serves the address.
    pub fn writable(&self, address: u16) -> (r: bool)
        ensures
            r == MBC1::can_write(self@, address),
    {
        if address <= 0x7FFF {
            true
        } else if 0xA000 <= address && address <= 0xBFFF {
            !self.ram_enable || self.ram_offset(address) < 0x8000
        } else {
            false
        }
    }
}

impl BusConnection for MBC1 {
    /// ROM reads must land inside the image, enabled RAM reads inside the RAM.
    open spec fn can_read(v: Mbc1View, address: u16) -> bool {
        ||| is_rom_address(address) && rom_offset(v, address) < v.rom.len()
        ||| is_external_ram_address(address) && (v.ram_enable ==> ram_offset(v, address)
            < v.ram.len())
    }

    /// Disabled RAM reads as 0.
    open spec fn read_spec(v: Mbc1View, address: u16) -> u8 {
        if is_rom_address(address) {
            v.rom[rom_offset(v, address)]
        } else if v.ram_enable {
            v.ram[ram_offset(v, address)]
        } else {
            0
        }
    }

    open spec fn can_write(v: Mbc1View, address: u16) -> bool {
        ||| is_rom_address(address)
        ||| is_external_ram_address(address) && (v.ram_enable ==> ram_offset(v, address)
            < v.ram.len())
    }

    /// Writes to ROM addresses set the controller registers: 0x0000..0x1FFF
    /// enables RAM (with 0x0A), 0x2000..0x3FFF sets the low five bank bits,
    /// 0x4000..0x5FFF sets the RAM bank (RAM mode) or bank bits 6..5 (ROM mode),
    /// 0x6000..0x7FFF selects the mode. RAM writes land only while RAM is enabled.
    open spec fn write_spec(v: Mbc1View, address: u16, value: u8) -> Mbc1View {
        if address <= 0x1FFF {
            Mbc1View { ram_enable: value == 0x0A, ..v }
        } else if address <= 0x3FFF {
            Mbc1View { rom_bank_number: value % 32, ..v }
        } else if address <= 0x5FFF {
            if v.mode == BankingMode::Ram {
                Mbc1View { ram_bank_number: value % 4, ..v }
            } else {
                Mbc1View { rom_bank_number: upper_bank_bits(value), ..v }
            }
        } else if address <= 0x7FFF {
            Mbc1View {
                mode: if value % 2 == 0 {
                    BankingMode::Rom
                } else {
                    BankingMode::Ram
                },
                ..v
            }
        } else if v.ram_enable {
            Mbc1View { ram: v.ram.update(ram_offset(v, address), value), ..v }
        } else {
            v
        }
    }

    fn read_byte(&self, address: u16) -> (r: u8) {
        if address <= 0x3FFF {
            self.rom_bank[address as usize]
        } else if address <= 0x7FFF {
            // If the rom bank is 0x00,0x20,0x40,0x60 we add one to the rom
            // bank number, see https://gbdev.io/pandocs/#_4000-7fff-rom-bank-01-7f-read-only
            let rom_bank: usize = match self.rom_bank_number {
                0x00 | 0x20 | 0x40 | 0x60 => self.rom_bank_number as usize + 1,
                _ => self.rom_bank_number as usize,
            };
            self.rom_bank[(rom_bank * 0x4000) + (address as usize - 0x4000)]
        } else if self.ram_enable {
            self.ram_bank[(self.ram_bank_numer as usize * 0x2000) + (address as usize - 0xA000)]
        } else {
            0
        }
    }

    fn write_byte(&mut self, address: u16, value: u8) {
        if address <= 0x1FFF {
            self.ram_enable = value == 0x0A;
        } else if address <= 0x3FFF {
            self.rom_bank_number = value % 32;
        } else if address <= 0x5FFF {
            match self.mode {
                BankingMode::Ram => self.ram_bank_numer = value % 4,
                BankingMode::Rom => self.rom_bank_number = ((value / 32) % 4) * 32,
            }
        } else if address <= 0x7FFF {
            self.mode = if value % 2 == 0 {
                BankingMode::Rom
            } else {
                BankingMode::Ram
            };
        } else if self.ram_enable {
            self.ram_bank[(self.ram_bank_numer as usize * 0x2000) + (address as usize - 0xA000)] =
            value;
        }
    }
}

/// With RAM enabled, a byte written to external RAM reads back.
pub proof fn lemma_ram_read_after_write(v: Mbc1View, address: u16, value: u8)
    requires
        is_external_ram_address(address),
        v.ram_enable,
        0 <= ram_offset(v, address) < v.ram.len(),
    ensures
        MBC1::read_spec(MBC1::write_spec(v, address, value), address) == value,
{
}

/// With RAM disabled, external RAM reads 0 and ignores writes.
pub proof fn lemma_disabled_ram(v: Mbc1View, address: u16, value: u8)
    requires
        is_external_ram_address(address),
        !v.ram_enable,
    ensures
        MBC1::read_spec(v, address) == 0,
        MBC1::write_spec(v, address, value) == v,
{
}

/// A byte written to 0x2000..=0x3FFF selects, by its low five bits, the ROM
/// bank that 0x4000..=0x7FFF reads (selecting bank 0 gives bank 1): a read
/// there returns the image byte at bank * 0x4000 + (address - 0x4000), and
/// is served exactly when that offset lies inside the image. Reads of
/// 0x0000..=0x3FFF are not affected: they return the image's own byte.
pub proof fn lemma_rom_bank_switch(v: Mbc1View, select: u16, value: u8, address: u16)
    requires
        0x2000 <= select <= 0x3FFF,
        address <= 0x7FFF,
    ensures
        ({
            let w = MBC1::write_spec(v, select, value);
            let low_bits = value % 32;
            let bank: int = if low_bits == 0 {
                1
            } else {
                low_bits as int
            };
            let offset: int = if address <= 0x3FFF {
                address as int
            } else {
                bank * 0x4000 + (address - 0x4000)
            };
            &&& MBC1::can_read(w, address) <==> offset < v.rom.len()
            &&& MBC1::read_spec(w, address) == v.rom[offset]
        }),
{
}

} // verus!
