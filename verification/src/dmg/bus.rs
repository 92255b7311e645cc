use vstd::prelude::*;
use crate::dmg::apu::{is_apu_address, Apu};
use crate::dmg::boot_rom::{BootRom, BootRomView};
use crate::dmg::busconnection::BusConnection;
use crate::dmg::cartridge::mbc1::{is_external_ram_address, MBC1};
use crate::dmg::cartridge::{
    cartridge_can_read, cartridge_can_write, cartridge_read, cartridge_write, Cartridge,
    CartridgeView,
};
use crate::dmg::joypad::{joypad_byte, joypad_of_byte, Joypad};
use crate::dmg::memory::{pending_interrupt, physical, Interrupt, Memory};
use crate::dmg::ppu::{is_ppu_address, ppu_read, ppu_step, ppu_write, PpuView, PPU};
use crate::dmg::registers::pair;
use crate::dmg::timer::{is_timer_address, timer_step, Timer};

verus! {

/// Struct for representing the bus which serves as the interface
/// through which the cpu can communicate with other devices
pub struct Bus {
    pub memory: Memory,
    pub timer: Timer,
    pub ppu: PPU,
    pub apu: Apu,
    pub joypad: Joypad,
    pub cartridge: Cartridge,
    pub boot_rom: BootRom,
}

pub struct BusView {
    pub memory: Seq<u8>,
    pub timer: Timer,
    pub ppu: PpuView,
    pub apu: Map<u16, u8>,
    pub joypad: Joypad,
    pub cartridge: CartridgeView,
    pub boot_rom: BootRomView,
}

impl View for Bus {
    type V = BusView;

    open spec fn view(&self) -> BusView {
        BusView {
            memory: self.memory@,
            timer: self.timer,
            ppu: self.ppu@,
            apu: self.apu@,
            joypad: self.joypad,
            cartridge: self.cartridge@,
            boot_rom: self.boot_rom@,
        }
    }
}

pub open spec fn is_cartridge_address(address: u16) -> bool {
    address <= 0x7FFF || 0xA000 <= address <= 0xBFFF
}

pub open spec fn is_unused_address(address: u16) -> bool {
    0xFEA0 <= address <= 0xFEFF
}

/// The addresses that reach the flat memory: everything no device claims.
pub open spec fn is_memory_address(address: u16) -> bool {
    !is_cartridge_address(address) && !is_ppu_address(address) && address != 0xFF00
        && !is_timer_address(address) && !is_apu_address(address) && !is_unused_address(address)
}

/// Reads of 0x0000..=0x00FF come from the boot ROM while 0xFF50 holds zero.
pub open spec fn boot_rom_mapped(b: BusView, address: u16) -> bool {
    address <= 0xFF && b.memory[0xFF50] == 0
}

/// The addresses a read may use: every one but those a device cannot serve
/// (0xFF46, and cartridge addresses outside its image).
#[verifier::opaque]
pub open spec fn bus_can_read(b: BusView, address: u16) -> bool {
    if boot_rom_mapped(b, address) {
        true
    } else if is_cartridge_address(address) {
        cartridge_can_read(b.cartridge, address)
    } else {
        address != 0xFF46
    }
}

/// The byte a read of the bus returns, by the memory map.
#[verifier::opaque]
pub open spec fn bus_read(b: BusView, address: u16) -> u8 {
    if boot_rom_mapped(b, address) {
        b.boot_rom.rom[address as int]
    } else if is_cartridge_address(address) {
        cartridge_read(b.cartridge, address)
    } else if is_ppu_address(address) {
        ppu_read(b.ppu, address)
    } else if address == 0xFF00 {
        joypad_byte(b.joypad)
    } else if is_timer_address(address) {
        Timer::read_spec(b.timer, address)
    } else if is_apu_address(address) {
        b.apu[address]
    } else if is_unused_address(address) {
        0xFF
    } else {
        Memory::read_spec(b.memory, address)
    }
}

/// The addresses a write may use.
#[verifier::opaque]
pub open spec fn bus_can_write(b: BusView, address: u16) -> bool {
    if is_cartridge_address(address) {
        cartridge_can_write(b.cartridge, address)
    } else {
        address != 0xFF46
    }
}

/// The bus after a write, by the memory map; unused memory ignores writes.
#[verifier::opaque]
pub open spec fn bus_write(b: BusView, address: u16, value: u8) -> BusView {
    if is_cartridge_address(address) {
        BusView { cartridge: cartridge_write(b.cartridge, address, value), ..b }
    } else if address == 0xFF00 {
        BusView { joypad: joypad_of_byte(value), ..b }
    } else if is_timer_address(address) {
        BusView { timer: Timer::write_spec(b.timer, address, value), ..b }
    } else if is_apu_address(address) {
        BusView { apu: b.apu.insert(address, value), ..b }
    } else if is_ppu_address(address) {
        BusView { ppu: ppu_write(b.ppu, address, value), ..b }
    } else if is_unused_address(address) {
        b
    } else {
        BusView { memory: Memory::write_spec(b.memory, address, value), ..b }
    }
}

/// The little-endian word at `address`.
pub open spec fn bus_read_word(b: BusView, address: u16) -> u16 {
    pair(bus_read(b, (address + 1) as u16), bus_read(b, address))
}

/// The bus after writing a word, low byte first.
pub open spec fn bus_write_word(b: BusView, address: u16, value: u16) -> BusView {
    bus_write(bus_write(b, address, (value % 256) as u8), (address + 1) as u16, (value / 256) as u8)
}

/// Whether a word may be written: the second address must not pass 0xFFFF.
pub open spec fn bus_can_write_word(b: BusView, address: u16, value: u16) -> bool {
    &&& address < 0xFFFF
    &&& bus_can_write(b, address)
    &&& bus_can_write(bus_write(b, address, (value % 256) as u8), (address + 1) as u16)
}

pub open spec fn bus_can_read_word(b: BusView, address: u16) -> bool {
    &&& address < 0xFFFF
    &&& bus_can_read(b, address)
    &&& bus_can_read(b, (address + 1) as u16)
}

/// The devices after `cycles` CPU cycles: the timer and the PPU run.
#[verifier::opaque]
pub open spec fn bus_step(b: BusView, cycles: u8) -> BusView {
    BusView { timer: timer_step(b.timer, cycles), ppu: ppu_step(b.ppu, cycles), ..b }
}

/// The bus as it starts: every device reset, with the given boot ROM and cartridge.
pub open spec fn initial_bus(boot_rom: BootRomView, cartridge: CartridgeView) -> BusView {
    BusView {
        memory: Seq::new(0x10000, |i: int| 0u8),
        timer: Timer::default_spec(),
        ppu: PPU::default_spec(),
        apu: Map::new(|a: u16| is_apu_address(a), |a: u16| 0u8),
        joypad: joypad_of_byte(0),
        cartridge,
        boot_rom,
    }
}

/// The boot ROM used when none is loaded: enabled, all zeros.
pub open spec fn blank_boot_rom() -> BootRomView {
    BootRomView { rom: Seq::new(0x100, |i: int| 0u8), enabled: true }
}

/// The cartridge used when none is inserted: ROM only, 0xC000 zeros.
pub open spec fn blank_cartridge() -> CartridgeView {
    CartridgeView::RomOnly(Seq::new(0xC000, |i: int| 0u8))
}

impl Default for Bus {
    fn default() -> (r: Bus)
        ensures
            r@ == initial_bus(blank_boot_rom(), blank_cartridge()),
    {
        let r = Bus {
            memory: Memory::default(),
            timer: Timer::default(),
            ppu: PPU::default(),
            apu: Apu::default(),
            joypad: Joypad::default(),
            cartridge: Cartridge::default(),
            boot_rom: BootRom::default(),
        };
        assert(r@.boot_rom == blank_boot_rom());
        r
    }
}

impl Bus {
    /// A bus with the given boot ROM and cartridge and every other device reset.
    pub fn new(boot_rom: BootRom, cartridge: Cartridge) -> (r: Bus)
        ensures
            r@ == initial_bus(boot_rom@, cartridge@),
    {
        Bus {
            memory: Memory::default(),
            timer: Timer::default(),
            ppu: PPU::default(),
            apu: Apu::default(),
            joypad: Joypad::default(),
            cartridge,
            boot_rom,
        }
    }

    pub fn read_byte(&self, address: u16) -> (r: u8)
        requires
            bus_can_read(self@, address),
        ensures
            r == bus_read(self@, address),
    {
        proof {
            reveal(bus_read);
            reveal(bus_can_read);
        }
        if address <= 0xFF && self.memory.read_byte(0xFF50) == 0 {
            return self.boot_rom.read_byte(address);
        }
        match address {
            0x0000..=0x7FFF | 0xA000..=0xBFFF => self.cartridge.read_byte(address),
            0x8000..=0x9FFF | 0xFF40..=0xFF4B | 0xFE00..=0xFE9F => self.ppu.read_byte(address),
            0xFF00 => self.joypad.read_byte(address),
            0xFF04..=0xFF07 => self.timer.read_byte(address),
            0xFF10..=0xFF14 | 0xFF16..=0xFF1E | 0xFF20..=0xFF26 | 0xFF30..=0xFF3F => {
                self.apu.read(address)
            },
            0xFEA0..=0xFEFF => 0xFF,  /* Unused Memory. Return Default value */
            _ => self.memory.read_byte(address),
        }
    }

    pub fn write_byte(&mut self, address: u16, value: u8)
        requires
            bus_can_write(old(self)@, address),
        ensures
            final(self)@ == bus_write(old(self)@, address, value),
    {
        proof {
            reveal(bus_write);
            reveal(bus_can_write);
        }
        match address {
            0x0000..=0x7FFF | 0xA000..=0xBFFF => self.cartridge.write_byte(address, value),
            0xFF00 => self.joypad.write_byte(address, value),
            0xFF04..=0xFF07 => self.timer.write_byte(address, value),
            0xFF10..=0xFF14 | 0xFF16..=0xFF1E | 0xFF20..=0xFF26 | 0xFF30..=0xFF3F => {
                self.apu.write(address, value)
            },
            0x8000..=0x9FFF | 0xFF40..=0xFF4B | 0xFE00..=0xFE9F => {
                self.ppu.write_byte(address, value)
            },
            0xFEA0..=0xFEFF => { /* Unused memory. Do Nothing */
            },
            _ => self.memory.write_byte(address, value),
        };
    }

    /// Whether `read_byte` serves the address.
    pub fn readable(&self, address: u16) -> (r: bool)
        ensures
            r == bus_can_read(self@, address),
    {
        proof {
            reveal(bus_can_read);
        }
        if address <= 0xFF && self.memory.read_byte(0xFF50) == 0 {
            true
        } else if address <= 0x7FFF || (0xA000 <= address && address <= 0xBFFF) {
            self.cartridge.readable(address)
        } else {
            address != 0xFF46
        }
    }

    /// Whether `write_byte` serves the address.
    pub fn writable(&self, address: u16) -> (r: bool)
        ensures
            r == bus_can_write(self@, address),
    {
        proof {
            reveal(bus_can_write);
        }
        if address <= 0x7FFF || (0xA000 <= address && address <= 0xBFFF) {
            self.cartridge.writable(address)
        } else {
            address != 0xFF46
        }
    }

    /// Whether `read_word` serves the address.
    pub fn word_readable(&self, address: u16) -> (r: bool)
        ensures
            r == bus_can_read_word(self@, address),
    {
        address < 0xFFFF && self.readable(address) && self.readable(address + 1)
    }

    /// Whether `write_word` serves the address.
    pub fn word_writable(&self, address: u16, value: u16) -> (r: bool)
        ensures
            r == bus_can_write_word(self@, address, value),
    {
        if address == 0xFFFF || !self.writable(address) {
            return false;
        }
        proof {
            lemma_write_keeps_writable(self@, address, (value % 256) as u8, (address + 1) as u16);
        }
        self.writable(address + 1)
    }

    /// Reads the little-endian word at `address`; the word must not run past 0xFFFF.
    pub fn read_word(&self, address: u16) -> (r: u16)
        requires
            bus_can_read_word(self@, address),
        ensures
            r == bus_read_word(self@, address),
    {
        let l_byte = self.read_byte(address);
        let h_byte = self.read_byte(address + 1);
        (h_byte as u16) * 256 + l_byte as u16
    }

    /// Writes a word low byte first; the word must not run past 0xFFFF.
    pub fn write_word(&mut self, address: u16, value: u16)
        requires
            bus_can_write_word(old(self)@, address, value),
        ensures
            final(self)@ == bus_write_word(old(self)@, address, value),
    {
        let h_byte = (value / 256) as u8;
        let l_byte = (value % 256) as u8;
        self.write_byte(address, l_byte);
        self.write_byte(address + 1, h_byte);
    }

    /// Clears the interrupt flag register (0xFF0F).
    pub fn interrupt_flag_off(&mut self)
        ensures
            final(self)@ == (BusView { memory: old(self)@.memory.update(0xFF0F, 0), ..old(self)@ }),
    {
        self.memory.interrupt_flag_off();
    }

    pub fn return_interrupt(&self) -> (r: Interrupt)
        ensures
            r == pending_interrupt(self@.memory[0xFFFF], self@.memory[0xFF0F]),
    {
        self.memory.return_interrupt()
    }

    pub fn step(&mut self, cycles: u8)
        ensures
            final(self)@ == bus_step(old(self)@, cycles),
    {
        proof {
            reveal(bus_step);
        }
        self.timer.step(cycles);
        self.ppu.step(cycles);
    }
}

/// On the addresses backed by memory, a write followed by a read returns the
/// byte written where both reach the same cell, and leaves every other such
/// address as it was.
pub proof fn lemma_bus_memory_read_after_write(b: BusView, written: u16, value: u8, read: u16)
    requires
        b.memory.len() == 0x10000,
        is_memory_address(written),
        is_memory_address(read),
    ensures
        bus_can_write(b, written),
        bus_can_read(b, read),
        bus_read(bus_write(b, written, value), read) == if physical(read) == physical(written) {
            value
        } else {
            bus_read(b, read)
        },
{
    reveal(bus_read);
    reveal(bus_write);
    reveal(bus_can_read);
    reveal(bus_can_write);
}

/// On memory-backed addresses, a word written reads back as the same word.
pub proof fn lemma_bus_word_roundtrip(b: BusView, address: u16, value: u16)
    requires
        b.memory.len() == 0x10000,
        address < 0xFFFF,
        is_memory_address(address),
        is_memory_address((address + 1) as u16),
    ensures
        bus_can_write_word(b, address, value),
        bus_can_read_word(bus_write_word(b, address, value), address),
        bus_read_word(bus_write_word(b, address, value), address) == value,
{
    reveal(bus_read);
    reveal(bus_write);
    reveal(bus_can_read);
    reveal(bus_can_write);
    let lo = (value % 256) as u8;
    let hi = (value / 256) as u8;
    let b1 = bus_write(b, address, lo);
    lemma_bus_memory_read_after_write(b, address, lo, address);
    lemma_bus_memory_read_after_write(b1, (address + 1) as u16, hi, address);
    lemma_bus_memory_read_after_write(b1, (address + 1) as u16, hi, (address + 1) as u16);
}

/// Unused memory (0xFEA0..=0xFEFF) reads 0xFF and ignores writes.
pub proof fn lemma_unused_memory(b: BusView, address: u16, value: u8)
    requires
        is_unused_address(address),
    ensures
        bus_read(b, address) == 0xFF,
        bus_write(b, address, value) == b,
{
    reveal(bus_read);
    reveal(bus_write);
    reveal(bus_can_read);
    reveal(bus_can_write);
}

/// While 0xFF50 holds zero the boot ROM answers 0x0000..=0x00FF; once a
/// non-zero byte is written there, the cartridge does.
pub proof fn lemma_boot_rom_overlay(b: BusView, address: u16, value: u8)
    requires
        b.memory.len() == 0x10000,
        address <= 0xFF,
        value != 0,
    ensures
        b.memory[0xFF50] == 0 ==> bus_read(b, address) == b.boot_rom.rom[address as int],
        bus_read(bus_write(b, 0xFF50, value), address) == cartridge_read(b.cartridge, address),
{
    reveal(bus_read);
    reveal(bus_write);
    reveal(bus_can_read);
    reveal(bus_can_write);
}

/// A write leaves the writable addresses as they were, except that a write
/// to a cartridge ROM address (a bank register) can change which external
/// RAM addresses are writable.
pub proof fn lemma_write_keeps_writable(b: BusView, written: u16, value: u8, address: u16)
    requires
        bus_can_write(b, written),
        !(written <= 0x7FFF && 0xA000 <= address <= 0xBFFF),
    ensures
        bus_can_write(bus_write(b, written, value), address) == bus_can_write(b, address),
{
    reveal(bus_read);
    reveal(bus_write);
    reveal(bus_can_read);
    reveal(bus_can_write);
    let after = bus_write(b, written, value);
    if is_cartridge_address(written) && is_cartridge_address(address) {
        assert(after.cartridge == cartridge_write(b.cartridge, written, value));
        match b.cartridge {
            CartridgeView::RomOnly(r) => {},
            CartridgeView::Mbc1(m) => {
                let m2 = MBC1::write_spec(m, written, value);
                assert(after.cartridge == CartridgeView::Mbc1(m2));
                if is_external_ram_address(address) {
                    assert(m2.ram_enable == m.ram_enable);
                    assert(m2.ram_bank_number == m.ram_bank_number);
                    assert(m2.ram.len() == m.ram.len());
                }
            },
        }
    } else if !is_cartridge_address(written) {
        assert(after.cartridge == b.cartridge);
    }
}

/// A write to plain memory other than 0xFF50 (which maps the boot ROM)
/// leaves the readable addresses as they were.
pub proof fn lemma_memory_write_keeps_readable(b: BusView, written: u16, value: u8, address: u16)
    requires
        b.memory.len() == 0x10000,
        is_memory_address(written),
        written != 0xFF50,
    ensures
        bus_can_read(bus_write(b, written, value), address) == bus_can_read(b, address),
        bus_write(b, written, value).memory.len() == 0x10000,
{
    reveal(bus_read);
    reveal(bus_write);
    reveal(bus_can_read);
    reveal(bus_can_write);
    assert(physical(written) != 0xFF50);
}

} // verus!
