use vstd::prelude::*;
use crate::dmg::busconnection::BusConnection;

pub mod mbc1;
pub mod rom_only;

use crate::dmg::cartridge::mbc1::{Mbc1View, MBC1};
use crate::dmg::cartridge::rom_only::RomOnly;

verus! {

/// The header byte that names the cartridge type.
pub const CARTRIDGE_TYPE_ADDRESS: usize = 0x147;

/// Complete list of cartridges taken from here: https://gbdev.io/pandocs/#_0147-cartridge-type
#[derive(Debug, PartialEq, Eq, Structural, Clone, Copy)]
pub enum Type {
    RomOnly,
    MBC1,
    Mbc1Ram,
    Mbc1RamBattery,
    MBC2,
    Mbc2Battery,
    RomRam,
    RomRamBattery,
    MMM01,
    Mmm01Ram,
    Mmm01RamBattery,
    Mbc3TimerBattery,
    Mbc3TimerRamBattery,
    MBC3,
    Mbc3Ram,
    Mbc3RamBattery,
    MBC5,
    Mbc5Ram,
    Mbc5RamBattery,
    Mbc5Rumble,
    Mbc5RumbleRam,
    Mbc5RumbleRamBattery,
    MBC6,
    Mbc7SensorRumbleRamBattery,
    PocketCamera,
    BandaiTama5,
    HuC3,
    HuC1RamBattery,
}

/// The cartridge type a header byte names; `None` for bytes that name no type.
pub open spec fn type_of(byte: u8) -> Option<Type> {
    if byte == 0x00 {
        Some(Type::RomOnly)
    } else if byte == 0x01 {
        Some(Type::MBC1)
    } else if byte == 0x02 {
        Some(Type::Mbc1Ram)
    } else if byte == 0x03 {
        Some(Type::Mbc1RamBattery)
    } else if byte == 0x05 {
        Some(Type::MBC2)
    } else if byte == 0x06 {
        Some(Type::Mbc2Battery)
    } else if byte == 0x08 {
        Some(Type::RomRam)
    } else if byte == 0x09 {
        Some(Type::RomRamBattery)
    } else if byte == 0x0B {
        Some(Type::MMM01)
    } else if byte == 0x0C {
        Some(Type::Mmm01Ram)
    } else if byte == 0x0D {
        Some(Type::Mmm01RamBattery)
    } else if byte == 0x0F {
        Some(Type::Mbc3TimerBattery)
    } else if byte == 0x10 {
        Some(Type::Mbc3TimerRamBattery)
    } else if byte == 0x11 {
        Some(Type::MBC3)
    } else if byte == 0x12 {
        Some(Type::Mbc3Ram)
    } else if byte == 0x13 {
        Some(Type::Mbc3RamBattery)
    } else if byte == 0x19 {
        Some(Type::MBC5)
    } else if byte == 0x1A {
        Some(Type::Mbc5Ram)
    } else if byte == 0x1B {
        Some(Type::Mbc5RamBattery)
    } else if byte == 0x1C {
        Some(Type::Mbc5Rumble)
    } else if byte == 0x1D {
        Some(Type::Mbc5RumbleRam)
    } else if byte == 0x1E {
        Some(Type::Mbc5RumbleRamBattery)
    } else if byte == 0x20 {
        Some(Type::MBC6)
    } else if byte == 0x22 {
        Some(Type::Mbc7SensorRumbleRamBattery)
    } else if byte == 0xFC {
        Some(Type::PocketCamera)
    } else if byte == 0xFD {
        Some(Type::BandaiTama5)
    } else if byte == 0xFE {
        Some(Type::HuC3)
    } else if byte == 0xFF {
        Some(Type::HuC1RamBattery)
    } else {
        None
    }
}

impl Type {
    /// The type a header byte names (other bytes name no type).
    pub fn from(byte: u8) -> (r: Type)
        requires
            type_of(byte) is Some,
        ensures
            type_of(byte) == Some(r),
    {
        match byte {
            0x00 => Type::RomOnly,
            0x01 => Type::MBC1,
            0x02 => Type::Mbc1Ram,
            0x03 => Type::Mbc1RamBattery,
            0x05 => Type::MBC2,
            0x06 => Type::Mbc2Battery,
            0x08 => Type::RomRam,
            0x09 => Type::RomRamBattery,
            0x0B => Type::MMM01,
            0x0C => Type::Mmm01Ram,
            0x0D => Type::Mmm01RamBattery,
            0x0F => Type::Mbc3TimerBattery,
            0x10 => Type::Mbc3TimerRamBattery,
            0x11 => Type::MBC3,
            0x12 => Type::Mbc3Ram,
            0x13 => Type::Mbc3RamBattery,
            0x19 => Type::MBC5,
            0x1A => Type::Mbc5Ram,
            0x1B => Type::Mbc5RamBattery,
            0x1C => Type::Mbc5Rumble,
            0x1D => Type::Mbc5RumbleRam,
            0x1E => Type::Mbc5RumbleRamBattery,
            0x20 => Type::MBC6,
            0x22 => Type::Mbc7SensorRumbleRamBattery,
            0xFC => Type::PocketCamera,
            0xFD => Type::BandaiTama5,
            0xFE => Type::HuC3,
            _ => Type::HuC1RamBattery,
        }
    }
}

/// The mapper a cartridge uses; only ROM-only and MBC1 cartridges are implemented.
pub enum Mapper {
    RomOnly(RomOnly),
    Mbc1(MBC1),
}

pub struct Cartridge {
    pub cart: Mapper,
}

pub enum CartridgeView {
    RomOnly(Seq<u8>),
    Mbc1(Mbc1View),
}

impl View for Cartridge {
    type V = CartridgeView;

    open spec fn view(&self) -> CartridgeView {
        match self.cart {
            Mapper::RomOnly(c) => CartridgeView::RomOnly(c@),
            Mapper::Mbc1(c) => CartridgeView::Mbc1(c@),
        }
    }
}

/// Whether an image can be loaded: it holds a header type byte naming a
/// ROM-only or MBC1 cartridge (other types are not implemented).
pub open spec fn loadable(data: Seq<u8>) -> bool {
    data.len() > CARTRIDGE_TYPE_ADDRESS && (type_of(data[CARTRIDGE_TYPE_ADDRESS as int]) == Some(
        Type::RomOnly,
    ) || type_of(data[CARTRIDGE_TYPE_ADDRESS as int]) == Some(Type::MBC1))
}

/// The cartridge an image of the given type loads as.
pub open spec fn loaded(cart_type: Type, data: Seq<u8>) -> CartridgeView {
    if cart_type == Type::RomOnly {
        CartridgeView::RomOnly(data)
    } else {
        CartridgeView::Mbc1(
            Mbc1View {
                rom: data,
                ram: Seq::new(0x8000, |i: int| 0u8),
                ram_enable: false,
                rom_bank_number: 0,
                ram_bank_number: 0,
                mode: crate::dmg::cartridge::mbc1::BankingMode::Rom,
            },
        )
    }
}

impl Default for Cartridge {
    /// The cartridge used when none is inserted: an empty ROM-only image of
    /// 0xC000 zeros, so that every cartridge address can be read.
    fn default() -> (r: Cartridge)
        ensures
            r@ == CartridgeView::RomOnly(Seq::new(0xC000, |i: int| 0u8)),
    {
        let data = vec![0u8; 0xC000];
        assert(data@ =~= Seq::new(0xC000, |i: int| 0u8));
        Cartridge { cart: Mapper::RomOnly(RomOnly::new(data)) }
    }
}

impl Cartridge {
    /// Builds the cartridge that an image's header names.
    pub fn from_rom(data: Vec<u8>) -> (r: Cartridge)
        requires
            loadable(data@),
        ensures
            r@ == loaded(type_of(data@[CARTRIDGE_TYPE_ADDRESS as int])->0, data@),
    {
        let cart_type = Type::from(data[CARTRIDGE_TYPE_ADDRESS]);
        cart(&cart_type, data)
    }

    /// Whether `read_byte` serves the address.
    pub fn readable(&self, address: u16) -> (r: bool)
        ensures
            r == cartridge_can_read(self@, address),
    {
        match &self.cart {
            Mapper::RomOnly(c) => (address as usize) < c.rom.len(),
            Mapper::Mbc1(c) => c.readable(address),
        }
    }

    /// Whether `write_byte` serves the address.
    pub fn writable(&self, address: u16) -> (r: bool)
        ensures
            r == cartridge_can_write(self@, address),
    {
        match &self.cart {
            Mapper::RomOnly(_) => true,
            Mapper::Mbc1(c) => c.writable(address),
        }
    }

    /// Whether `from_rom` accepts the image.
    pub fn is_loadable(data: &Vec<u8>) -> (r: bool)
        ensures
            r == loadable(data@),
    {
        data.len() > CARTRIDGE_TYPE_ADDRESS && (data[CARTRIDGE_TYPE_ADDRESS] == 0x00
            || data[CARTRIDGE_TYPE_ADDRESS] == 0x01)
    }
}

/// The cartridge of an implemented type: only ROM-only and MBC1 cartridges are.
pub fn cart(cart_type: &Type, data: Vec<u8>) -> (r: Cartridge)
    requires
        *cart_type == Type::RomOnly || *cart_type == Type::MBC1,
    ensures
        r@ == loaded(*cart_type, data@),
{
    match cart_type {
        Type::RomOnly => Cartridge { cart: Mapper::RomOnly(RomOnly::new(data)) },
        _ => Cartridge { cart: Mapper::Mbc1(MBC1::new(data)) },
    }
}

/// Whether a cartridge answers reads of the address.
pub open spec fn cartridge_can_read(v: CartridgeView, address: u16) -> bool {
    match v {
        CartridgeView::RomOnly(r) => RomOnly::can_read(r, address),
        CartridgeView::Mbc1(m) => MBC1::can_read(m, address),
    }
}

pub open spec fn cartridge_read(v: CartridgeView, address: u16) -> u8 {
    match v {
        CartridgeView::RomOnly(r) => RomOnly::read_spec(r, address),
        CartridgeView::Mbc1(m) => MBC1::read_spec(m, address),
    }
}

pub open spec fn cartridge_can_write(v: CartridgeView, address: u16) -> bool {
    match v {
        CartridgeView::RomOnly(r) => RomOnly::can_write(r, address),
        CartridgeView::Mbc1(m) => MBC1::can_write(m, address),
    }
}

pub open spec fn cartridge_write(v: CartridgeView, address: u16, value: u8) -> CartridgeView {
    match v {
        CartridgeView::RomOnly(r) => CartridgeView::RomOnly(RomOnly::write_spec(r, address, value)),
        CartridgeView::Mbc1(m) => CartridgeView::Mbc1(MBC1::write_spec(m, address, value)),
    }
}

impl BusConnection for Cartridge {
    open spec fn can_read(v: CartridgeView, address: u16) -> bool {
        cartridge_can_read(v, address)
    }

    open spec fn read_spec(v: CartridgeView, address: u16) -> u8 {
        cartridge_read(v, address)
    }

    open spec fn can_write(v: CartridgeView, address: u16) -> bool {
        cartridge_can_write(v, address)
    }

    open spec fn write_spec(v: CartridgeView, address: u16, value: u8) -> CartridgeView {
        cartridge_write(v, address, value)
    }

    fn read_byte(&self, address: u16) -> (r: u8) {
        match &self.cart {
            Mapper::RomOnly(c) => c.read_byte(address),
            Mapper::Mbc1(c) => c.read_byte(address),
        }
    }

    fn write_byte(&mut self, address: u16, value: u8) {
        match &mut self.cart {
            Mapper::RomOnly(c) => c.write_byte(address, value),
            Mapper::Mbc1(c) => c.write_byte(address, value),
        }
    }
}

/// A ROM-only cartridge ignores every write.
pub proof fn lemma_rom_only_is_read_only(r: Seq<u8>, address: u16, value: u8)
    ensures
        cartridge_write(CartridgeView::RomOnly(r), address, value) == CartridgeView::RomOnly(r),
{
}

} // verus!
