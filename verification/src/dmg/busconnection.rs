use vstd::prelude::*;
use crate::dmg::registers::pair;

verus! {

/// A device that answers reads and writes on some part of the 16-bit address space.
///
/// Each device is described by its view: `read_spec` gives the byte a read
/// returns and `write_spec` the view after a write. `can_read`/`can_write`
/// hold on the addresses the device serves.
pub trait BusConnection: View + Sized {
    spec fn can_read(v: Self::V, address: u16) -> bool;

    spec fn read_spec(v: Self::V, address: u16) -> u8;

    spec fn can_write(v: Self::V, address: u16) -> bool;

    spec fn write_spec(v: Self::V, address: u16, value: u8) -> Self::V;

    /// Returns a byte at a given address
    fn read_byte(&self, address: u16) -> (r: u8)
        requires
            Self::can_read(self@, address),
        ensures
            r == Self::read_spec(self@, address),
    ;

    /// Writes a byte to a given address
    fn write_byte(&mut self, address: u16, value: u8)
        requires
            Self::can_write(old(self)@, address),
        ensures
            final(self)@ == Self::write_spec(old(self)@, address, value),
    ;

    /// Reads the word from the address; the byte at `address` is the low byte
    /// (little-endian).
    fn read_word(&self, address: u16) -> (r: u16)
        requires
            address < 0xFFFF,
            Self::can_read(self@, address),
            Self::can_read(self@, (address + 1) as u16),
        ensures
            r == pair(Self::read_spec(self@, (address + 1) as u16), Self::read_spec(self@, address)),
    {
        let l_byte = self.read_byte(address);
        let h_byte = self.read_byte(address + 1);
        (h_byte as u16) * 256 + l_byte as u16
    }

    /// Writes the word to the address, low byte first (little-endian).
    fn write_word(&mut self, address: u16, value: u16)
        requires
            address < 0xFFFF,
            Self::can_write(old(self)@, address),
            Self::can_write(
                Self::write_spec(old(self)@, address, (value % 256) as u8),
                (address + 1) as u16,
            ),
        ensures
            final(self)@ == Self::write_spec(
                Self::write_spec(old(self)@, address, (value % 256) as u8),
                (address + 1) as u16,
                (value / 256) as u8,
            ),
    {
        let h_byte = (value / 256) as u8;
        let l_byte = (value % 256) as u8;
        self.write_byte(address, l_byte);
        self.write_byte(address + 1, h_byte);
    }
}

} // verus!
