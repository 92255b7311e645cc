use vstd::prelude::*;
use crate::dmg::busconnection::BusConnection;

verus! {

/// A cartridge with no banking: the image is mapped as is and never changes.
pub struct RomOnly {
    pub rom: Vec<u8>,
}

impl RomOnly {
    pub fn new(data: Vec<u8>) -> (r: RomOnly)
        ensures
            r@ == data@,
    {
        RomOnly { rom: data }
    }
}

impl View for RomOnly {
    type V = Seq<u8>;

    open spec fn view(&self) -> Seq<u8> {
        self.rom@
    }
}

impl BusConnection for RomOnly {
    /// A read indexes the image directly, so it must fall inside it.
    open spec fn can_read(v: Seq<u8>, address: u16) -> bool {
        address < v.len()
    }

    open spec fn read_spec(v: Seq<u8>, address: u16) -> u8 {
        v[address as int]
    }

    open spec fn can_write(v: Seq<u8>, address: u16) -> bool {
        true
    }

    /// Writes do nothing, this is ROM.
    open spec fn write_spec(v: Seq<u8>, address: u16, value: u8) -> Seq<u8> {
        v
    }

    fn read_byte(&self, address: u16) -> (r: u8) {
        self.rom[address as usize]
    }

    fn write_byte(&mut self, _address: u16, _value: u8) {
        /* Do Nothing, this is ROM */
    }
}

} // verus!
