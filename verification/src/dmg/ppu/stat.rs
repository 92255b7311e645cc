use vstd::prelude::*;
use crate::dmg::registers::{
    bit_of, byte_of_bits, lemma_bits_of_byte_of_bits, lemma_byte_of_bits_of_byte, weight,
};

verus! {

pub const COINCIDENCE_SELECTABLE_POS: u8 = 6;

pub const MODE_10_POS: u8 = 5;

pub const MODE_01_POS: u8 = 4;

pub const MODE_00_POS: u8 = 3;

pub const COINCIDENCE_FLAG_POS: u8 = 2;

/// The LCD status register (0xFF41): five flag bits and the mode in bits 1..0.
#[derive(Debug, PartialEq, Eq, Structural, Clone, Copy)]
pub struct Stat {
    pub coincidence_selectable: bool,  // bit 6
    pub mode_10: bool,  // bit 5
    pub mode_01: bool,  // bit 4
    pub mode_00: bool,  // bit 3
    pub coincidence_flag: bool,  // bit 2
    pub mode_flag: LcdMode,  // bits 1..0
}

#[derive(PartialEq, Eq, Structural, Copy, Clone, Debug)]
pub enum LcdMode {
    HBlank,
    VBlank,
    SearchSpriteAttributes,
    TransferingDataToLCDDriver,
}

/// The number of a mode (0..=3).
pub open spec fn mode_number(m: LcdMode) -> u8 {
    match m {
        LcdMode::HBlank => 0,
        LcdMode::VBlank => 1,
        LcdMode::SearchSpriteAttributes => 2,
        LcdMode::TransferingDataToLCDDriver => 3,
    }
}

/// The mode held in the low two bits of a byte.
pub open spec fn mode_of_byte(b: u8) -> LcdMode {
    let m = b % 4;
    if m == 0 {
        LcdMode::HBlank
    } else if m == 1 {
        LcdMode::VBlank
    } else if m == 2 {
        LcdMode::SearchSpriteAttributes
    } else {
        LcdMode::TransferingDataToLCDDriver
    }
}

/// The register byte of a STAT value; bit 7 is always clear.
pub open spec fn stat_byte(s: Stat) -> u8 {
    byte_of_bits(
        false,
        s.coincidence_selectable,
        s.mode_10,
        s.mode_01,
        s.mode_00,
        s.coincidence_flag,
        mode_number(s.mode_flag) / 2 == 1,
        mode_number(s.mode_flag) % 2 == 1,
    ) as u8
}

/// The STAT value a register byte denotes (bit 7 is not kept).
pub open spec fn stat_of_byte(b: u8) -> Stat {
    Stat {
        coincidence_selectable: bit_of(b as int, 64),
        mode_10: bit_of(b as int, 32),
        mode_01: bit_of(b as int, 16),
        mode_00: bit_of(b as int, 8),
        coincidence_flag: bit_of(b as int, 4),
        mode_flag: mode_of_byte(b),
    }
}

impl Default for Stat {
    fn default() -> (r: Stat)
        ensures
            r == stat_of_byte(0),
    {
        Stat {
            coincidence_selectable: false,
            mode_10: false,
            mode_01: false,
            mode_00: false,
            coincidence_flag: false,
            mode_flag: LcdMode::HBlank,
        }
    }
}

impl Stat {
    /// The register byte of these fields.
    pub fn to_byte(&self) -> (r: u8)
        ensures
            r == stat_byte(*self),
    {
        let sum = weight(self.coincidence_selectable, 64) + weight(self.mode_10, 32) + weight(
            self.mode_01,
            16,
        ) + weight(self.mode_00, 8) + weight(self.coincidence_flag, 4) + self.mode_flag.to_byte()
            as u32;
        sum as u8
    }

    /// The fields a register byte denotes.
    pub fn from_byte(byte: u8) -> (r: Stat)
        ensures
            r == stat_of_byte(byte),
    {
        let coincidence_selectable = (byte / 64) % 2 != 0;
        let mode_10 = (byte / 32) % 2 != 0;
        let mode_01 = (byte / 16) % 2 != 0;
        let mode_00 = (byte / 8) % 2 != 0;
        let coincidence_flag = (byte / 4) % 2 != 0;
        let mode_flag = LcdMode::from_byte(byte);
        Stat {
            coincidence_selectable,
            mode_10,
            mode_01,
            mode_00,
            coincidence_flag,
            mode_flag,
        }
    }
}

impl LcdMode {
    pub fn to_byte(&self) -> (r: u8)
        ensures
            r == mode_number(*self),
    {
        match self {
            LcdMode::HBlank => 0b00,
            LcdMode::VBlank => 0b01,
            LcdMode::SearchSpriteAttributes => 0b10,
            LcdMode::TransferingDataToLCDDriver => 0b11,
        }
    }

    /// The mode in the low two bits of a byte.
    pub fn from_byte(byte: u8) -> (r: LcdMode)
        ensures
            r == mode_of_byte(byte),
    {
        match byte % 4 {
            0 => LcdMode::HBlank,
            1 => LcdMode::VBlank,
            2 => LcdMode::SearchSpriteAttributes,
            _ => LcdMode::TransferingDataToLCDDriver,
        }
    }
}

impl<'a> From<&'a Stat> for u8 {
    fn from(stat: &'a Stat) -> (r: u8) {
        stat.to_byte()
    }
}

impl<'a> vstd::std_specs::convert::FromSpecImpl<&'a Stat> for u8 {
    open spec fn obeys_from_spec() -> bool {
        true
    }

    open spec fn from_spec(stat: &'a Stat) -> u8 {
        stat_byte(*stat)
    }
}

impl<'a> From<&'a u8> for Stat {
    fn from(byte: &'a u8) -> (r: Stat) {
        Stat::from_byte(*byte)
    }
}

impl<'a> vstd::std_specs::convert::FromSpecImpl<&'a u8> for Stat {
    open spec fn obeys_from_spec() -> bool {
        true
    }

    open spec fn from_spec(byte: &'a u8) -> Stat {
        stat_of_byte(*byte)
    }
}

impl<'a> From<&'a LcdMode> for u8 {
    fn from(mode: &'a LcdMode) -> (r: u8) {
        mode.to_byte()
    }
}

impl<'a> vstd::std_specs::convert::FromSpecImpl<&'a LcdMode> for u8 {
    open spec fn obeys_from_spec() -> bool {
        true
    }

    open spec fn from_spec(mode: &'a LcdMode) -> u8 {
        mode_number(*mode)
    }
}

impl From<u8> for LcdMode {
    fn from(byte: u8) -> (r: LcdMode) {
        LcdMode::from_byte(byte)
    }
}

impl vstd::std_specs::convert::FromSpecImpl<u8> for LcdMode {
    open spec fn obeys_from_spec() -> bool {
        true
    }

    open spec fn from_spec(byte: u8) -> LcdMode {
        mode_of_byte(byte)
    }
}

/// Decoding a byte into STAT fields and encoding them again gives the byte
/// with bit 7 cleared.
pub proof fn lemma_stat_byte_roundtrip(b: u8)
    ensures
        stat_byte(stat_of_byte(b)) == b % 128,
{
    assert({
        &&& b % 128 == (if (b / 64) % 2 == 1 { 64u8 } else { 0u8 }) + (if (b / 32) % 2 == 1 {
            32u8
        } else {
            0u8
        }) + (if (b / 16) % 2 == 1 { 16u8 } else { 0u8 }) + (if (b / 8) % 2 == 1 {
            8u8
        } else {
            0u8
        }) + (if (b / 4) % 2 == 1 { 4u8 } else { 0u8 }) + (if (b / 2) % 2 == 1 { 2u8 } else { 0u8 })
            + (if b % 2 == 1 { 1u8 } else { 0u8 })
        &&& (b % 4) / 2 == (b / 2) % 2
        &&& (b % 4) % 2 == b % 2
    }) by (bit_vector);
}

/// Encoding STAT fields into a byte and decoding it gives the fields back.
pub proof fn lemma_stat_fields_roundtrip(s: Stat)
    ensures
        stat_of_byte(stat_byte(s)) == s,
{
    lemma_bits_of_byte_of_bits(
        false,
        s.coincidence_selectable,
        s.mode_10,
        s.mode_01,
        s.mode_00,
        s.coincidence_flag,
        mode_number(s.mode_flag) / 2 == 1,
        mode_number(s.mode_flag) % 2 == 1,
    );
}

} // verus!
