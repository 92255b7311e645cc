use vstd::prelude::*;
use crate::dmg::registers::{
    bit_of, byte_of_bits, lemma_bits_of_byte_of_bits, lemma_byte_of_bits_of_byte, weight,
};

verus! {

pub const LCDC_ENABLED_POS: u8 = 7;

pub const WINDOW_DISPLAY_POS: u8 = 5;

pub const OBJ_DISPLAY_POS: u8 = 1;

/// The LCD control register (0xFF40), one field per bit.
#[derive(Debug, PartialEq, Eq, Structural, Clone, Copy)]
pub struct Lcdc {
    pub lcdc_enabled: bool,  // bit 7
    pub window_tile_map_display_select: TileMap,  // bit 6
    pub window_display: bool,  // bit 5
    pub bg_window_tile_data_select: TileData,  // bit 4
    pub bg_tile_map_data_select: TileMap,  // bit 3
    pub obj_size: ObjSize,  // bit 2
    pub obj_display: bool,  // bit 1
    pub bg_window_display: bool,  // bit 0
}

#[derive(Debug, PartialEq, Eq, Structural, Clone, Copy)]
pub enum ObjSize {
    S8x8,
    S16x16,
}

#[derive(Debug, PartialEq, Eq, Structural, Clone, Copy)]
pub enum TileMap {
    S9800,  // 9800 - 9BFF
    S9C00,  // 9C00 - 9FFF
}

#[derive(Debug, PartialEq, Eq, Structural, Clone, Copy)]
pub enum TileData {
    S8800,  // 8800 - 97FF
    S8000,  // 8000 - 8FFF
}

/// The register byte of an LCDC value.
pub open spec fn lcdc_byte(l: Lcdc) -> u8 {
    byte_of_bits(
        l.lcdc_enabled,
        l.window_tile_map_display_select == TileMap::S9C00,
        l.window_display,
        l.bg_window_tile_data_select == TileData::S8800,
        l.bg_tile_map_data_select == TileMap::S9C00,
        l.obj_size == ObjSize::S16x16,
        l.obj_display,
        l.bg_window_display,
    ) as u8
}

/// The LCDC value a register byte denotes.
pub open spec fn lcdc_of_byte(b: u8) -> Lcdc {
    Lcdc {
        lcdc_enabled: bit_of(b as int, 128),
        window_tile_map_display_select: if bit_of(b as int, 64) {
            TileMap::S9C00
        } else {
            TileMap::S9800
        },
        window_display: bit_of(b as int, 32),
        bg_window_tile_data_select: if bit_of(b as int, 16) {
            TileData::S8800
        } else {
            TileData::S8000
        },
        bg_tile_map_data_select: if bit_of(b as int, 8) {
            TileMap::S9C00
        } else {
            TileMap::S9800
        },
        obj_size: if bit_of(b as int, 4) {
            ObjSize::S16x16
        } else {
            ObjSize::S8x8
        },
        obj_display: bit_of(b as int, 2),
        bg_window_display: bit_of(b as int, 1),
    }
}

impl Default for Lcdc {
    fn default() -> (r: Lcdc)
        ensures
            r == lcdc_of_byte(0),
    {
        Lcdc {
            lcdc_enabled: false,
            window_tile_map_display_select: TileMap::S9800,
            window_display: false,
            bg_window_tile_data_select: TileData::S8000,
            bg_tile_map_data_select: TileMap::S9800,
            obj_size: ObjSize::S8x8,
            obj_display: false,
            bg_window_display: false,
        }
    }
}

impl Lcdc {
    pub fn lcdc_enabled(&self) -> (r: bool)
        ensures
            r == self.lcdc_enabled,
    {
        self.lcdc_enabled
    }

    pub fn bg_window_display(&self) -> (r: bool)
        ensures
            r == self.bg_window_display,
    {
        self.bg_window_display
    }

    pub fn obj_display(&self) -> (r: bool)
        ensures
            r == self.obj_display,
    {
        self.obj_display
    }
}

impl Lcdc {
    /// The register byte of these fields.
    pub fn to_byte(&self) -> (r: u8)
        ensures
            r == lcdc_byte(*self),
    {
        let sum = weight(self.lcdc_enabled, 128) + TileMap::u8_from_window(
            &self.window_tile_map_display_select,
        ) as u32 + weight(self.window_display, 32) + self.bg_window_tile_data_select.to_byte()
            as u32 + TileMap::u8_from_bg(&self.bg_tile_map_data_select) as u32
            + self.obj_size.to_byte() as u32 + weight(self.obj_display, 2) + weight(
            self.bg_window_display,
            1,
        );
        sum as u8
    }

    /// The fields a register byte denotes.
    pub fn from_byte(byte: u8) -> (r: Lcdc)
        ensures
            r == lcdc_of_byte(byte),
    {
        let lcdc_enabled = (byte / 128) % 2 == 1;
        let window_tile_map_display_select = TileMap::from_window(&byte);
        let window_display = (byte / 32) % 2 == 1;
        let bg_window_tile_data_select = TileData::from_byte(byte);
        let bg_tile_map_data_select = TileMap::from_bg(&byte);
        let obj_size = ObjSize::from_byte(byte);
        let obj_display = (byte / 2) % 2 == 1;
        let bg_window_display = byte % 2 == 1;
        Lcdc {
            lcdc_enabled,
            window_tile_map_display_select,
            window_display,
            bg_window_tile_data_select,
            bg_tile_map_data_select,
            obj_size,
            obj_display,
            bg_window_display,
        }
    }
}

impl ObjSize {
    pub fn to_byte(&self) -> (r: u8)
        ensures
            r == (if *self == ObjSize::S16x16 {
                4u8
            } else {
                0u8
            }),
    {
        match self {
            ObjSize::S8x8 => 0,
            ObjSize::S16x16 => 4,
        }
    }

    /// The size selected by bit 2.
    pub fn from_byte(byte: u8) -> (r: ObjSize)
        ensures
            r == (if bit_of(byte as int, 4) {
                ObjSize::S16x16
            } else {
                ObjSize::S8x8
            }),
    {
        if (byte / 4) % 2 == 0 {
            ObjSize::S8x8
        } else {
            ObjSize::S16x16
        }
    }
}

impl TileData {
    pub fn to_byte(&self) -> (r: u8)
        ensures
            r == (if *self == TileData::S8800 {
                16u8
            } else {
                0u8
            }),
    {
        match self {
            TileData::S8000 => 0,
            TileData::S8800 => 16,
        }
    }

    /// The tile data area selected by bit 4.
    pub fn from_byte(byte: u8) -> (r: TileData)
        ensures
            r == (if bit_of(byte as int, 16) {
                TileData::S8800
            } else {
                TileData::S8000
            }),
    {
        if (byte / 16) % 2 == 0 {
            TileData::S8000
        } else {
            TileData::S8800
        }
    }
}

impl<'a> From<&'a Lcdc> for u8 {
    fn from(lcdc: &'a Lcdc) -> (r: u8) {
        lcdc.to_byte()
    }
}

impl<'a> vstd::std_specs::convert::FromSpecImpl<&'a Lcdc> for u8 {
    open spec fn obeys_from_spec() -> bool {
        true
    }

    open spec fn from_spec(lcdc: &'a Lcdc) -> u8 {
        lcdc_byte(*lcdc)
    }
}

impl<'a> From<&'a u8> for Lcdc {
    fn from(byte: &'a u8) -> (r: Lcdc) {
        Lcdc::from_byte(*byte)
    }
}

impl<'a> vstd::std_specs::convert::FromSpecImpl<&'a u8> for Lcdc {
    open spec fn obeys_from_spec() -> bool {
        true
    }

    open spec fn from_spec(byte: &'a u8) -> Lcdc {
        lcdc_of_byte(*byte)
    }
}

impl<'a> From<&'a ObjSize> for u8 {
    fn from(size: &'a ObjSize) -> (r: u8) {
        size.to_byte()
    }
}

impl<'a> vstd::std_specs::convert::FromSpecImpl<&'a ObjSize> for u8 {
    open spec fn obeys_from_spec() -> bool {
        true
    }

    open spec fn from_spec(size: &'a ObjSize) -> u8 {
        if *size == ObjSize::S16x16 {
            4
        } else {
            0
        }
    }
}

impl<'a> From<&'a u8> for ObjSize {
    fn from(byte: &'a u8) -> (r: ObjSize) {
        ObjSize::from_byte(*byte)
    }
}

impl<'a> vstd::std_specs::convert::FromSpecImpl<&'a u8> for ObjSize {
    open spec fn obeys_from_spec() -> bool {
        true
    }

    open spec fn from_spec(byte: &'a u8) -> ObjSize {
        if bit_of(*byte as int, 4) {
            ObjSize::S16x16
        } else {
            ObjSize::S8x8
        }
    }
}

impl<'a> From<&'a TileData> for u8 {
    fn from(data: &'a TileData) -> (r: u8) {
        data.to_byte()
    }
}

impl<'a> vstd::std_specs::convert::FromSpecImpl<&'a TileData> for u8 {
    open spec fn obeys_from_spec() -> bool {
        true
    }

    open spec fn from_spec(data: &'a TileData) -> u8 {
        if *data == TileData::S8800 {
            16
        } else {
            0
        }
    }
}

impl<'a> From<&'a u8> for TileData {
    fn from(byte: &'a u8) -> (r: TileData) {
        TileData::from_byte(*byte)
    }
}

impl<'a> vstd::std_specs::convert::FromSpecImpl<&'a u8> for TileData {
    open spec fn obeys_from_spec() -> bool {
        true
    }

    open spec fn from_spec(byte: &'a u8) -> TileData {
        if bit_of(*byte as int, 16) {
            TileData::S8800
        } else {
            TileData::S8000
        }
    }
}

impl TileMap {
    /// The window tile map selected by bit 6.
    pub fn from_window(byte: &u8) -> (r: TileMap)
        ensures
            r == (if bit_of(*byte as int, 64) {
                TileMap::S9C00
            } else {
                TileMap::S9800
            }),
    {
        if (*byte / 64) % 2 == 0 {
            TileMap::S9800
        } else {
            TileMap::S9C00
        }
    }

    /// The background tile map selected by bit 3.
    pub fn from_bg(byte: &u8) -> (r: TileMap)
        ensures
            r == (if bit_of(*byte as int, 8) {
                TileMap::S9C00
            } else {
                TileMap::S9800
            }),
    {
        if (*byte / 8) % 2 == 0 {
            TileMap::S9800
        } else {
            TileMap::S9C00
        }
    }

    pub fn u8_from_window(tile: &TileMap) -> (r: u8)
        ensures
            r == (if *tile == TileMap::S9C00 {
                64u8
            } else {
                0u8
            }),
    {
        match tile {
            TileMap::S9800 => 0,
            TileMap::S9C00 => 64,
        }
    }

    pub fn u8_from_bg(tile: &TileMap) -> (r: u8)
        ensures
            r == (if *tile == TileMap::S9C00 {
                8u8
            } else {
                0u8
            }),
    {
        match tile {
            TileMap::S9800 => 0,
            TileMap::S9C00 => 8,
        }
    }
}

/// Decoding a byte into LCDC fields and encoding them again gives the byte back.
pub proof fn lemma_lcdc_byte_roundtrip(b: u8)
    ensures
        lcdc_byte(lcdc_of_byte(b)) == b,
{
    lemma_byte_of_bits_of_byte(b);
}

/// Encoding LCDC fields into a byte and decoding it gives the fields back.
pub proof fn lemma_lcdc_fields_roundtrip(l: Lcdc)
    ensures
        lcdc_of_byte(lcdc_byte(l)) == l,
{
    lemma_bits_of_byte_of_bits(
        l.lcdc_enabled,
        l.window_tile_map_display_select == TileMap::S9C00,
        l.window_display,
        l.bg_window_tile_data_select == TileData::S8800,
        l.bg_tile_map_data_select == TileMap::S9C00,
        l.obj_size == ObjSize::S16x16,
        l.obj_display,
        l.bg_window_display,
    );
}

} // verus!
