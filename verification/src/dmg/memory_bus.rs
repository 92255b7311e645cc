use vstd::prelude::*;
use crate::dmg::registers::pair;

verus! {

/// A plain array of 0xFFFF bytes addressed directly, with no memory map:
/// address 0xFFFF lies outside it.
pub struct MemoryBus {
    pub memory: [u8; 0xFFFF],
}

impl View for MemoryBus {
    type V = Seq<u8>;

    open spec fn view(&self) -> Seq<u8> {
        self.memory@
    }
}

impl Default for MemoryBus {
    fn default() -> (r: MemoryBus)
        ensures
            r@ == Seq::new(0xFFFF, |i: int| 0u8),
    {
        let r = MemoryBus { memory: [0u8; 0xFFFF] };
        assert(r@ =~= Seq::new(0xFFFF, |i: int| 0u8));
        r
    }
}

impl MemoryBus {
    pub fn read_byte(&self, address: u16) -> (r: u8)
        requires
            address < 0xFFFF,
        ensures
            r == self@[address as int],
    {
        self.memory[address as usize]
    }

    pub fn write_byte(&mut self, address: u16, value: u8)
        requires
            address < 0xFFFF,
        ensures
            final(self)@ == old(self)@.update(address as int, value),
    {
        self.memory[address as usize] = value;
    }

    /// The little-endian word at `address`: the byte there is the low byte.
    pub fn read_word(&self, address: u16) -> (r: u16)
        requires
            address < 0xFFFE,
        ensures
            r == pair(self@[address + 1], self@[address as int]),
    {
        let l_byte = self.memory[address as usize];
        let h_byte = self.memory[(address + 1) as usize];
        h_byte as u16 * 256 + l_byte as u16
    }

    /// Writes a word low byte first.
    pub fn write_word(&mut self, address: u16, value: u16)
        requires
            address < 0xFFFE,
        ensures
            final(self)@ == old(self)@.update(address as int, (value % 256) as u8).update(
                address + 1,
                (value / 256) as u8,
            ),
    {
        let h_byte = (value / 256) as u8;
        let l_byte = (value % 256) as u8;
        self.write_byte(address, l_byte);
        self.write_byte(address + 1, h_byte);
    }
}

/// A word written and read back at the same address is the word written.
pub proof fn lemma_memory_bus_word_roundtrip(m: Seq<u8>, address: u16, value: u16)
    requires
        m.len() == 0xFFFF,
        address < 0xFFFE,
    ensures
        ({
            let w = m.update(address as int, (value % 256) as u8).update(
                address + 1,
                (value / 256) as u8,
            );
            pair(w[address + 1], w[address as int]) == value
        }),
{
}

} // verus!
