use vstd::prelude::*;
use crate::dmg::registers::bit_of;

verus! {

pub const OBJ_TO_BG_PRIORITY_POS: u8 = 7;

pub const Y_FLIP_POS: u8 = 6;

pub const X_FLIP_POS: u8 = 5;

pub const PALETTE_NUMBER_POS: u8 = 4;

pub const CGB_TILE_VRAM_BLANK_POS: u8 = 3;

/// One sprite of the object attribute memory.
pub struct OamEntry {
    pub y_pos: u8,
    pub x_pos: u8,
    pub tile_location: u8,
    pub attributes: OamEntryFlag,
}

#[derive(Debug, PartialEq, Eq, Structural, Clone, Copy)]
pub enum Palette {
    Obp0,
    Obp1,
}

/// The attribute byte of a sprite.
#[derive(Debug, PartialEq, Eq, Structural, Clone, Copy)]
pub struct OamEntryFlag {
    pub obj_to_bg_priority: bool,
    pub y_flip: bool,  // vertically mirrored
    pub x_flip: bool,  // horizontally mirrored
    pub palette_number: Palette,
    /// These Flags are only required for use with
    /// the Color Gameboy
    pub _cgb_tile_vram_bank: bool,
    pub _cgb_palette_number: u8,
}

/// The palette selected by bit 4.
pub open spec fn palette_of(byte: u8) -> Palette {
    if bit_of(byte as int, 16) {
        Palette::Obp1
    } else {
        Palette::Obp0
    }
}

/// The attributes an attribute byte denotes.
pub open spec fn oam_flags_of(byte: u8) -> OamEntryFlag {
    OamEntryFlag {
        obj_to_bg_priority: bit_of(byte as int, 128),
        y_flip: bit_of(byte as int, 64),
        x_flip: bit_of(byte as int, 32),
        palette_number: palette_of(byte),
        _cgb_tile_vram_bank: bit_of(byte as int, 8),
        _cgb_palette_number: 0,
    }
}

impl OamEntry {
    /// Reads sprite `sprite` (four bytes) out of OAM; the stored Y is offset by
    /// 16 and X by 8, so a stored coordinate must not lie below its offset.
    pub fn new(oam: [u8; 160], sprite: usize) -> (r: OamEntry)
        requires
            sprite < 40,
            oam@[4 * sprite as int] >= 16,
            oam@[4 * sprite as int + 1] >= 8,
        ensures
            r.y_pos == oam@[4 * sprite as int] - 16,
            r.x_pos == oam@[4 * sprite as int + 1] - 8,
            r.tile_location == oam@[4 * sprite as int + 2],
            r.attributes == oam_flags_of(oam@[4 * sprite as int + 3]),
    {
        let index: usize = sprite * 4;
        OamEntry {
            y_pos: oam[index] - 16,
            x_pos: oam[index + 1] - 8,
            tile_location: oam[index + 2],
            attributes: OamEntryFlag::from(oam[index + 3]),
        }
    }

    pub fn y_pos(self) -> (r: u8)
        ensures
            r == self.y_pos,
    {
        self.y_pos
    }

    pub fn x_pos(self) -> (r: u8)
        ensures
            r == self.x_pos,
    {
        self.x_pos
    }

    pub fn tile_location(self) -> (r: u8)
        ensures
            r == self.tile_location,
    {
        self.tile_location
    }

    pub fn attributes(self) -> (r: OamEntryFlag)
        ensures
            r == self.attributes,
    {
        self.attributes
    }
}

impl OamEntryFlag {
    pub fn obj_to_bg_priority(self) -> (r: bool)
        ensures
            r == self.obj_to_bg_priority,
    {
        self.obj_to_bg_priority
    }

    pub fn y_flip(self) -> (r: bool)
        ensures
            r == self.y_flip,
    {
        self.y_flip
    }

    pub fn x_flip(self) -> (r: bool)
        ensures
            r == self.x_flip,
    {
        self.x_flip
    }

    pub fn palette_number(self) -> (r: Palette)
        ensures
            r == self.palette_number,
    {
        self.palette_number
    }
}

impl From<u8> for OamEntryFlag {
    fn from(byte: u8) -> (r: OamEntryFlag) {
        let obj_to_bg_priority = (byte / 128) % 2 != 0;
        let y_flip = (byte / 64) % 2 != 0;
        let x_flip = (byte / 32) % 2 != 0;
        let palette_number = Palette::from(byte);
        let _cgb_tile_vram_bank = (byte / 8) % 2 != 0;  // Required for CGB only
        let _cgb_palette_number: u8 = 0;  // Required for CGB only
        OamEntryFlag {
            obj_to_bg_priority,
            y_flip,
            x_flip,
            palette_number,
            _cgb_tile_vram_bank,
            _cgb_palette_number,
        }
    }
}

impl vstd::std_specs::convert::FromSpecImpl<u8> for OamEntryFlag {
    open spec fn obeys_from_spec() -> bool {
        true
    }

    open spec fn from_spec(byte: u8) -> OamEntryFlag {
        oam_flags_of(byte)
    }
}

impl From<u8> for Palette {
    fn from(byte: u8) -> (r: Palette) {
        if (byte / 16) % 2 == 0 {
            Palette::Obp0
        } else {
            Palette::Obp1
        }
    }
}

impl vstd::std_specs::convert::FromSpecImpl<u8> for Palette {
    open spec fn obeys_from_spec() -> bool {
        true
    }

    open spec fn from_spec(byte: u8) -> Palette {
        palette_of(byte)
    }
}

} // verus!
