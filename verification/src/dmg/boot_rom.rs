use vstd::prelude::*;
use crate::dmg::busconnection::BusConnection;

verus! {

/// The 256-byte boot ROM, overlaid on 0x0000..=0x00FF while 0xFF50 holds zero.
pub struct BootRom {
    pub rom: [u8; 0x100],
    pub enabled: bool,
}

pub struct BootRomView {
    pub rom: Seq<u8>,
    pub enabled: bool,
}

impl View for BootRom {
    type V = BootRomView;

    open spec fn view(&self) -> BootRomView {
        BootRomView { rom: self.rom@, enabled: self.enabled }
    }
}

impl Default for BootRom {
    /// An enabled boot ROM filled with zeros (the image used when none is loaded).
    fn default() -> (r: BootRom)
        ensures
            r@.rom == Seq::new(0x100, |i: int| 0u8),
            r@.enabled,
    {
        let r = BootRom { rom: [0u8; 0x100], enabled: true };
        assert(r@.rom =~= Seq::new(0x100, |i: int| 0u8));
        r
    }
}

impl BootRom {
    /// An enabled boot ROM holding the given image.
    pub fn new(rom: [u8; 0x100]) -> (r: BootRom)
        ensures
            r@.rom == rom@,
            r@.enabled,
    {
        BootRom { rom, enabled: true }
    }

    pub fn enabled(&self) -> (r: bool)
        ensures
            r == self.enabled,
    {
        self.enabled
    }
}

impl BusConnection for BootRom {
    open spec fn can_read(v: BootRomView, address: u16) -> bool {
        address <= 0xFF
    }

    open spec fn read_spec(v: BootRomView, address: u16) -> u8 {
        v.rom[address as int]
    }

    open spec fn can_write(v: BootRomView, address: u16) -> bool {
        address <= 0xFF || address == 0xFF50
    }

    /// The ROM ignores writes; writing 0xFF50 enables it exactly when the value is zero.
    open spec fn write_spec(v: BootRomView, address: u16, value: u8) -> BootRomView {
        if address == 0xFF50 {
            BootRomView { enabled: value == 0, ..v }
        } else {
            v
        }
    }

    fn read_byte(&self, address: u16) -> (r: u8) {
        self.rom[address as usize]
    }

    fn write_byte(&mut self, address: u16, value: u8) {
        if address == 0xFF50 {
            self.enabled = value == 0;
        }
    }
}

} // verus!
