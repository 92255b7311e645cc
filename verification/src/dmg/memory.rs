use vstd::prelude::*;
use crate::dmg::busconnection::BusConnection;

verus! {

/// These values are taken from the pan docs at https://gbdev.io/pandocs/#memory-map
pub const INTERNAL_RAM_START: u16 = 0xC000;

pub const INTERNAL_RAM_END: u16 = 0xDDFF;

/// Echo RAM mirrors the internal RAM: an access to 0xE000..=0xFDFF lands
/// 0x2000 lower.
pub const ECHO_RAM_START: u16 = 0xE000;

pub const ECHO_RAM_END: u16 = 0xFDFF;

#[derive(Debug, PartialEq, Eq, Structural)]
pub enum Interrupt {
    VBlank,
    LcdStat,
    TimerOverflow,
    SerialLink,
    JoypadPress,
    NONE,
}

/// The cell that an address reaches: echo addresses are folded onto internal RAM.
pub open spec fn physical(address: u16) -> int {
    if ECHO_RAM_START <= address <= ECHO_RAM_END {
        address - ECHO_RAM_START + INTERNAL_RAM_START
    } else {
        address as int
    }
}

/// The flat 64 KiB of memory behind the bus.
pub struct Memory {
    pub memory: [u8; 0x10000],
}

impl View for Memory {
    type V = Seq<u8>;

    open spec fn view(&self) -> Seq<u8> {
        self.memory@
    }
}

impl Default for Memory {
    fn default() -> (r: Memory)
        ensures
            r@ == Seq::new(0x10000, |i: int| 0u8),
    {
        let r = Memory { memory: [0u8; 0x10000] };
        assert(r@ =~= Seq::new(0x10000, |i: int| 0u8));
        r
    }
}

impl BusConnection for Memory {
    open spec fn can_read(v: Seq<u8>, address: u16) -> bool {
        true
    }

    open spec fn read_spec(v: Seq<u8>, address: u16) -> u8 {
        v[physical(address)]
    }

    open spec fn can_write(v: Seq<u8>, address: u16) -> bool {
        true
    }

    open spec fn write_spec(v: Seq<u8>, address: u16, value: u8) -> Seq<u8> {
        v.update(physical(address), value)
    }

    /// Reads a byte; echo RAM reads come from internal RAM.
    fn read_byte(&self, address: u16) -> (r: u8) {
        if ECHO_RAM_START <= address && address <= ECHO_RAM_END {
            self.memory[(address - ECHO_RAM_START + INTERNAL_RAM_START) as usize]
        } else {
            self.memory[address as usize]
        }
    }

    fn write_byte(&mut self, address: u16, value: u8) {
        if ECHO_RAM_START <= address && address <= ECHO_RAM_END {
            self.memory[(address - ECHO_RAM_START + INTERNAL_RAM_START) as usize] = value;
        } else {
            self.memory[address as usize] = value;
        }
    }
}

/// The interrupt that `return_interrupt` reports for the given enable (0xFFFF)
/// and flag (0xFF0F) registers: V-blank when bit 0 is set in both, otherwise none.
pub open spec fn pending_interrupt(enable: u8, flags: u8) -> Interrupt {
    if enable % 2 == 1 && flags % 2 == 1 {
        Interrupt::VBlank
    } else {
        Interrupt::NONE
    }
}

impl Memory {
    pub fn interrupt_enable(&self) -> (r: u8)
        ensures
            r == self@[0xFFFF],
    {
        self.memory[0xFFFF]
    }

    pub fn interrupt_flags(&self) -> (r: u8)
        ensures
            r == self@[0xFF0F],
    {
        self.memory[0xFF0F]
    }

    /// Clears the interrupt flag register.
    pub fn interrupt_flag_off(&mut self)
        ensures
            final(self)@ == old(self)@.update(0xFF0F, 0),
    {
        self.write_byte(0xFF0F, 0);
    }

    /// The interrupt to service. Each source is tested by and-ing the masked
    /// enable and flag registers and comparing with 1, so only the bit-0
    /// (V-blank) test can succeed.
    pub fn return_interrupt(&self) -> (r: Interrupt)
        ensures
            r == pending_interrupt(self@[0xFFFF], self@[0xFF0F]),
    {
        let ie = self.interrupt_enable();
        let fl = self.interrupt_flags();
        assert({
            &&& ((ie & 0x01) & (fl & 0x01) == 1) == (ie % 2 == 1 && fl % 2 == 1)
            &&& (ie & 0x02) & (fl & 0x02) != 1
            &&& (ie & 0x03) & (fl & 0x03) == 1 ==> (ie & 0x01) & (fl & 0x01) == 1
            &&& (ie & 0x04) & (fl & 0x04) != 1
            &&& (ie & 0x05) & (fl & 0x05) == 1 ==> (ie & 0x01) & (fl & 0x01) == 1
        }) by (bit_vector);
        if (ie & 0x01) & (fl & 0x01) == 1 {
            Interrupt::VBlank
        } else if (ie & 0x02) & (fl & 0x02) == 1 {
            Interrupt::LcdStat
        } else if (ie & 0x03) & (fl & 0x03) == 1 {
            Interrupt::TimerOverflow
        } else if (ie & 0x04) & (fl & 0x04) == 1 {
            Interrupt::SerialLink
        } else if (ie & 0x05) & (fl & 0x05) == 1 {
            Interrupt::JoypadPress
        } else {
            Interrupt::NONE
        }
    }
}

/// A byte written to memory reads back at every address that reaches the same
/// cell, and every other address keeps its byte.
pub proof fn lemma_memory_read_after_write(m: Seq<u8>, written: u16, value: u8, read: u16)
    requires
        m.len() == 0x10000,
    ensures
        Memory::read_spec(Memory::write_spec(m, written, value), read) == if physical(read)
            == physical(written) {
            value
        } else {
            Memory::read_spec(m, read)
        },
{
}

/// Echo RAM and the internal RAM it mirrors read the same byte.
pub proof fn lemma_echo_mirrors_internal_ram(m: Seq<u8>, offset: u16)
    requires
        offset <= ECHO_RAM_END - ECHO_RAM_START,
    ensures
        Memory::read_spec(m, (ECHO_RAM_START + offset) as u16) == Memory::read_spec(
            m,
            (INTERNAL_RAM_START + offset) as u16,
        ),
{
}

#[derive(Debug, PartialEq, Eq, Structural)]
pub enum LoadByteTarget {
    A,
    B,
    C,
    D,
    E,
    H,
    L,
    HLI,  // read from the address stored in HL
    BCI,
    DEI,
    HLINC,
    HLDEC,
}

/// The target register of a byte load opcode; `None` for opcodes that name none.
pub open spec fn load_byte_target_of(byte: u8) -> Option<LoadByteTarget> {
    if byte == 0x02 {
        Some(LoadByteTarget::BCI)
    } else if byte == 0x12 {
        Some(LoadByteTarget::DEI)
    } else if byte == 0x22 {
        Some(LoadByteTarget::HLINC)
    } else if byte == 0x32 {
        Some(LoadByteTarget::HLDEC)
    } else if (0x40 <= byte <= 0x7F && byte != 0x76) || (byte < 0x40 && (byte % 8 == 6)) {
        // LD r,r' and LD r,d8: the destination is encoded in bits 5..3.
        Some(register_target(((byte / 8) % 8) as int))
    } else if byte == 0x0A || byte == 0x1A || byte == 0x2A || byte == 0x3A {
        Some(LoadByteTarget::A)
    } else {
        None
    }
}

/// The register named by a 3-bit register field (B C D E H L (HL) A).
pub open spec fn register_target(index: int) -> LoadByteTarget {
    if index == 0 {
        LoadByteTarget::B
    } else if index == 1 {
        LoadByteTarget::C
    } else if index == 2 {
        LoadByteTarget::D
    } else if index == 3 {
        LoadByteTarget::E
    } else if index == 4 {
        LoadByteTarget::H
    } else if index == 5 {
        LoadByteTarget::L
    } else if index == 6 {
        LoadByteTarget::HLI
    } else {
        LoadByteTarget::A
    }
}

impl LoadByteTarget {
    /// The target of a byte load opcode (no other byte names one).
    pub fn from(byte: u8) -> (r: LoadByteTarget)
        requires
            load_byte_target_of(byte) is Some,
        ensures
            load_byte_target_of(byte) == Some(r),
    {
        match byte {
            0x02 => LoadByteTarget::BCI,
            0x12 => LoadByteTarget::DEI,
            0x22 => LoadByteTarget::HLINC,
            0x32 => LoadByteTarget::HLDEC,
            0x40..=0x47 | 0x06 => LoadByteTarget::B,
            0x48..=0x4F | 0x0E => LoadByteTarget::C,
            0x50..=0x57 | 0x16 => LoadByteTarget::D,
            0x58..=0x5F | 0x1E => LoadByteTarget::E,
            0x60..=0x67 | 0x26 => LoadByteTarget::H,
            0x68..=0x6F | 0x2E => LoadByteTarget::L,
            0x70..=0x75 | 0x77 | 0x36 => LoadByteTarget::HLI,
            _ => LoadByteTarget::A,
        }
    }
}

#[derive(Debug, PartialEq, Eq, Structural)]
pub enum LoadByteSource {
    A,
    B,
    C,
    D,
    E,
    H,
    L,
    D8,
    HLI,
    BCI,
    DEI,
    HLINC,
    HLDEC,
}

/// The source operand of a byte load opcode.
pub open spec fn load_byte_source_of(byte: u8) -> LoadByteSource {
    if byte < 0x40 && byte % 8 == 6 {
        LoadByteSource::D8
    } else if byte == 0x02 || byte == 0x12 || byte == 0x22 || byte == 0x32 {
        LoadByteSource::A
    } else if byte == 0x0A {
        LoadByteSource::BCI
    } else if byte == 0x1A {
        LoadByteSource::DEI
    } else if byte == 0x2A {
        LoadByteSource::HLINC
    } else if byte == 0x3A {
        LoadByteSource::HLDEC
    } else {
        // The source register is encoded in bits 2..0.
        let i = byte % 8;
        if i == 0 {
            LoadByteSource::B
        } else if i == 1 {
            LoadByteSource::C
        } else if i == 2 {
            LoadByteSource::D
        } else if i == 3 {
            LoadByteSource::E
        } else if i == 4 {
            LoadByteSource::H
        } else if i == 5 {
            LoadByteSource::L
        } else if i == 6 {
            LoadByteSource::HLI
        } else {
            LoadByteSource::A
        }
    }
}

impl From<u8> for LoadByteSource {
    fn from(byte: u8) -> (r: LoadByteSource) {
        match byte {
            0x06 | 0x16 | 0x26 | 0x36 | 0x0E | 0x1E | 0x2E | 0x3E => LoadByteSource::D8,
            0x02 | 0x12 | 0x22 | 0x32 => LoadByteSource::A,
            0x0A => LoadByteSource::BCI,
            0x1A => LoadByteSource::DEI,
            0x2A => LoadByteSource::HLINC,
            0x3A => LoadByteSource::HLDEC,
            _ => {
                let nibble = byte & 0x0F;
                assert(nibble == byte % 16) by (bit_vector)
                    requires
                        nibble == byte & 0x0F,
                ;
                match nibble {
                    0x0 | 0x8 => LoadByteSource::B,
                    0x1 | 0x9 => LoadByteSource::C,
                    0x2 | 0xA => LoadByteSource::D,
                    0x3 | 0xB => LoadByteSource::E,
                    0x4 | 0xC => LoadByteSource::H,
                    0x5 | 0xD => LoadByteSource::L,
                    0x6 | 0xE => LoadByteSource::HLI,
                    _ => LoadByteSource::A,
                }
            },
        }
    }
}

impl vstd::std_specs::convert::FromSpecImpl<u8> for LoadByteSource {
    open spec fn obeys_from_spec() -> bool {
        true
    }

    open spec fn from_spec(byte: u8) -> LoadByteSource {
        load_byte_source_of(byte)
    }
}

#[derive(Debug, PartialEq, Eq, Structural)]
pub enum LoadWordSource {
    BC,
    DE,
    HL,
    SP,
    D16,  // direct 16 bit value, read the next two bytes
}

#[derive(Debug, PartialEq, Eq, Structural)]
pub enum LoadWordTarget {
    BC,
    DE,
    HL,
    SP,
    D16,  // direct 16 bit value, read the next two bytes
}

#[derive(Debug, PartialEq, Eq, Structural)]
pub enum LoadType {
    Byte(LoadByteTarget, LoadByteSource),
    Word(LoadWordTarget, LoadWordSource),
}

/// The load that an opcode performs; `None` for opcodes that are not loads.
pub open spec fn load_type_of(byte: u8) -> Option<LoadType> {
    if byte == 0x01 {
        Some(LoadType::Word(LoadWordTarget::BC, LoadWordSource::D16))
    } else if byte == 0x11 {
        Some(LoadType::Word(LoadWordTarget::DE, LoadWordSource::D16))
    } else if byte == 0x21 {
        Some(LoadType::Word(LoadWordTarget::HL, LoadWordSource::D16))
    } else if byte == 0x31 {
        Some(LoadType::Word(LoadWordTarget::SP, LoadWordSource::D16))
    } else if byte == 0x08 {
        Some(LoadType::Word(LoadWordTarget::D16, LoadWordSource::SP))
    } else if byte == 0xF9 {
        Some(LoadType::Word(LoadWordTarget::SP, LoadWordSource::HL))
    } else if load_byte_target_of(byte) is Some {
        Some(LoadType::Byte(load_byte_target_of(byte)->0, load_byte_source_of(byte)))
    } else {
        None
    }
}

impl LoadType {
    /// The load of a load opcode (no other byte names one).
    pub fn from(byte: u8) -> (r: LoadType)
        requires
            load_type_of(byte) is Some,
        ensures
            load_type_of(byte) == Some(r),
    {
        match byte {
            0x01 => LoadType::Word(LoadWordTarget::BC, LoadWordSource::D16),
            0x11 => LoadType::Word(LoadWordTarget::DE, LoadWordSource::D16),
            0x21 => LoadType::Word(LoadWordTarget::HL, LoadWordSource::D16),
            0x31 => LoadType::Word(LoadWordTarget::SP, LoadWordSource::D16),
            0x08 => LoadType::Word(LoadWordTarget::D16, LoadWordSource::SP),
            0xF9 => LoadType::Word(LoadWordTarget::SP, LoadWordSource::HL),
            _ => LoadType::Byte(LoadByteTarget::from(byte), LoadByteSource::from(byte)),
        }
    }
}

} // verus!
