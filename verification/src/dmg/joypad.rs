use vstd::prelude::*;
use crate::dmg::busconnection::BusConnection;
use crate::dmg::registers::{bit_of, weight, weight_if, lemma_byte_of_bits_of_byte};

verus! {

/// The joypad register P1 (0xFF00), one flag per bit.
#[derive(Clone, Copy, Debug, PartialEq, Eq, Structural)]
pub struct Joypad {
    pub unused_bit_7: bool,
    pub unused_bit_6: bool,
    pub select_button_keys: bool,  // P15
    pub select_direction_keys: bool,  // P14
    pub down_or_start: bool,  // P13
    pub up_or_select: bool,  // P12
    pub left_or_button_b: bool,  // P11
    pub right_or_button_a: bool,  // P10
}

/// The byte the register holds: bit 7 first, bit 0 last.
pub open spec fn joypad_byte(j: Joypad) -> u8 {
    (weight_if(j.unused_bit_7, 128) + weight_if(j.unused_bit_6, 64) + weight_if(
        j.select_button_keys,
        32,
    ) + weight_if(j.select_direction_keys, 16) + weight_if(j.down_or_start, 8) + weight_if(
        j.up_or_select,
        4,
    ) + weight_if(j.left_or_button_b, 2) + weight_if(j.right_or_button_a, 1)) as u8
}

/// The register contents after writing `value`: every bit is stored.
pub open spec fn joypad_of_byte(value: u8) -> Joypad {
    Joypad {
        unused_bit_7: bit_of(value as int, 128),
        unused_bit_6: bit_of(value as int, 64),
        select_button_keys: bit_of(value as int, 32),
        select_direction_keys: bit_of(value as int, 16),
        down_or_start: bit_of(value as int, 8),
        up_or_select: bit_of(value as int, 4),
        left_or_button_b: bit_of(value as int, 2),
        right_or_button_a: bit_of(value as int, 1),
    }
}

impl Default for Joypad {
    fn default() -> (r: Joypad)
        ensures
            r == joypad_of_byte(0),
    {
        Joypad {
            unused_bit_7: false,
            unused_bit_6: false,
            select_button_keys: false,
            select_direction_keys: false,
            down_or_start: false,
            up_or_select: false,
            left_or_button_b: false,
            right_or_button_a: false,
        }
    }
}

impl View for Joypad {
    type V = Joypad;

    open spec fn view(&self) -> Joypad {
        *self
    }
}

impl BusConnection for Joypad {
    open spec fn can_read(v: Joypad, address: u16) -> bool {
        address == 0xFF00
    }

    open spec fn read_spec(v: Joypad, address: u16) -> u8 {
        joypad_byte(v)
    }

    open spec fn can_write(v: Joypad, address: u16) -> bool {
        address == 0xFF00
    }

    open spec fn write_spec(v: Joypad, address: u16, value: u8) -> Joypad {
        joypad_of_byte(value)
    }

    fn write_byte(&mut self, address: u16, value: u8) {
        self.unused_bit_7 = (value / 128) % 2 == 1;
        self.unused_bit_6 = (value / 64) % 2 == 1;
        self.select_button_keys = (value / 32) % 2 == 1;
        self.select_direction_keys = (value / 16) % 2 == 1;
        self.down_or_start = (value / 8) % 2 == 1;
        self.up_or_select = (value / 4) % 2 == 1;
        self.left_or_button_b = (value / 2) % 2 == 1;
        self.right_or_button_a = value % 2 == 1;
    }

    fn read_byte(&self, address: u16) -> (r: u8) {
        let sum = weight(self.unused_bit_7, 128) + weight(self.unused_bit_6, 64) + weight(
            self.select_button_keys,
            32,
        ) + weight(self.select_direction_keys, 16) + weight(self.down_or_start, 8) + weight(
            self.up_or_select,
            4,
        ) + weight(self.left_or_button_b, 2) + weight(self.right_or_button_a, 1);
        sum as u8
    }
}

/// The joypad register reads back exactly the byte last written to it.
pub proof fn lemma_joypad_read_after_write(j: Joypad, value: u8)
    ensures
        Joypad::read_spec(Joypad::write_spec(j, 0xFF00, value), 0xFF00) == value,
{
    lemma_byte_of_bits_of_byte(value);
}

} // verus!
