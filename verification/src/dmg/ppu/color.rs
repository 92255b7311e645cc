use vstd::prelude::*;

verus! {

#[derive(Debug, PartialEq, Eq, Structural, Copy, Clone)]
pub enum Color {
    White,
    LightGrey,
    DarkGrey,
    Black,
}

/// The shade a 2-bit colour number names.
pub open spec fn color_of(byte: u8) -> Color {
    if byte == 0 {
        Color::White
    } else if byte == 1 {
        Color::LightGrey
    } else if byte == 2 {
        Color::DarkGrey
    } else {
        Color::Black
    }
}

/// The 24-bit RGB value drawn for a shade.
pub open spec fn rgb_of(c: Color) -> u32 {
    match c {
        Color::White => 0x9bbc0f,
        Color::LightGrey => 0x8bac0f,
        Color::DarkGrey => 0x306230,
        Color::Black => 0x0f380f,
    }
}

impl Color {
    pub fn rgb(self) -> (r: u32)
        ensures
            r == rgb_of(self),
    {
        match self {
            Color::White => 0x9bbc0f,
            Color::LightGrey => 0x8bac0f,
            Color::DarkGrey => 0x306230,
            Color::Black => 0x0f380f,
        }
    }

    /// The shade of a colour number (0 to 3; no other number names a shade).
    pub fn from(byte: u8) -> (r: Color)
        requires
            byte < 4,
        ensures
            r == color_of(byte),
    {
        match byte {
            0 => Color::White,
            1 => Color::LightGrey,
            2 => Color::DarkGrey,
            _ => Color::Black,
        }
    }
}

} // verus!
