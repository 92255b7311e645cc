use vstd::prelude::*;

verus! {

/// The four condition flags kept in the upper nibble of the F register.
#[derive(Clone, Copy, Debug, PartialEq, Eq, Structural)]
pub struct Flags {
    pub zero: bool,
    pub negative: bool,
    pub half_carry: bool,
    pub carry: bool,
}

/// The value a bit of the given weight contributes to a byte: the weight
/// when set, zero otherwise.
pub open spec fn weight_if(set: bool, weight: int) -> int {
    if set {
        weight
    } else {
        0
    }
}

/// The value a bit of the given weight contributes to a byte.
pub fn weight(set: bool, w: u32) -> (r: u32)
    ensures
        r == weight_if(set, w as int),
        r <= w,
{
    if set {
        w
    } else {
        0
    }
}

/// The byte that F holds for the given flags (bits 7..4 = Z N H C, low nibble zero).
pub open spec fn flags_byte(f: Flags) -> u8 {
    (weight_if(f.zero, 128) + weight_if(f.negative, 64) + weight_if(f.half_carry, 32)
        + weight_if(f.carry, 16)) as u8
}

/// Whether the bit of the given weight (a power of two) is set in `b`.
pub open spec fn bit_of(b: int, weight: int) -> bool {
    (b / weight) % 2 == 1
}

/// The flags that a byte written into F denotes (its low nibble is dropped).
pub open spec fn flags_of_byte(b: u8) -> Flags {
    Flags {
        zero: bit_of(b as int, 128),
        negative: bit_of(b as int, 64),
        half_carry: bit_of(b as int, 32),
        carry: bit_of(b as int, 16),
    }
}

/// The 16-bit value of a register pair with high byte `hi` and low byte `lo`.
pub open spec fn pair(hi: u8, lo: u8) -> u16 {
    (hi as int * 256 + lo as int) as u16
}

/// The high byte of a 16-bit value.
pub open spec fn high(v: u16) -> u8 {
    (v / 256) as u8
}

/// The low byte of a 16-bit value.
pub open spec fn low(v: u16) -> u8 {
    (v % 256) as u8
}

/// The eight 8-bit registers of the CPU; F is held as its four flags.
#[derive(Clone, Copy, Debug)]
pub struct Registers {
    pub a: u8,
    pub b: u8,
    pub c: u8,
    pub d: u8,
    pub e: u8,
    pub f: Flags,
    pub h: u8,
    pub l: u8,
}

impl Default for Registers {
    fn default() -> (r: Registers)
        ensures
            r == Registers::zeroed(),
    {
        Registers {
            a: 0,
            b: 0,
            c: 0,
            d: 0,
            e: 0,
            f: Flags { zero: false, negative: false, half_carry: false, carry: false },
            h: 0,
            l: 0,
        }
    }
}

impl Registers {
    /// All registers zero and all flags clear.
    pub open spec fn zeroed() -> Registers {
        Registers {
            a: 0,
            b: 0,
            c: 0,
            d: 0,
            e: 0,
            f: Flags { zero: false, negative: false, half_carry: false, carry: false },
            h: 0,
            l: 0,
        }
    }

    pub open spec fn af(self) -> u16 {
        pair(self.a, flags_byte(self.f))
    }

    pub open spec fn bc(self) -> u16 {
        pair(self.b, self.c)
    }

    pub open spec fn de(self) -> u16 {
        pair(self.d, self.e)
    }

    pub open spec fn hl(self) -> u16 {
        pair(self.h, self.l)
    }

    pub open spec fn with_af(self, v: u16) -> Registers {
        Registers { a: high(v), f: flags_of_byte(low(v)), ..self }
    }

    pub open spec fn with_bc(self, v: u16) -> Registers {
        Registers { b: high(v), c: low(v), ..self }
    }

    pub open spec fn with_de(self, v: u16) -> Registers {
        Registers { d: high(v), e: low(v), ..self }
    }

    pub open spec fn with_hl(self, v: u16) -> Registers {
        Registers { h: high(v), l: low(v), ..self }
    }

    pub open spec fn with_flags(self, zero: bool, negative: bool, half_carry: bool, carry: bool) -> Registers {
        Registers { f: Flags { zero, negative, half_carry, carry }, ..self }
    }

    pub fn get_af(&self) -> (r: u16)
        ensures
            r == self.af(),
    {
        let f = weight(self.f.zero, 128) + weight(self.f.negative, 64) + weight(self.f.half_carry, 32)
            + weight(self.f.carry, 16);
        (self.a as u16) * 256 + f as u16
    }

    pub fn get_bc(&self) -> (r: u16)
        ensures
            r == self.bc(),
    {
        (self.b as u16) * 256 + self.c as u16
    }

    pub fn get_de(&self) -> (r: u16)
        ensures
            r == self.de(),
    {
        (self.d as u16) * 256 + self.e as u16
    }

    pub fn get_hl(&self) -> (r: u16)
        ensures
            r == self.hl(),
    {
        (self.h as u16) * 256 + self.l as u16
    }

    /// Writes AF; the low nibble of the value has no flag to land in and is dropped.
    pub fn set_af(&mut self, value: u16)
        ensures
            *final(self) == old(self).with_af(value),
    {
        self.a = (value / 256) as u8;
        let f = (value % 256) as u8;
        self.f = Flags {
            zero: (f / 128) % 2 == 1,
            negative: (f / 64) % 2 == 1,
            half_carry: (f / 32) % 2 == 1,
            carry: (f / 16) % 2 == 1,
        };
    }

    pub fn set_bc(&mut self, value: u16)
        ensures
            *final(self) == old(self).with_bc(value),
    {
        self.b = (value / 256) as u8;
        self.c = (value % 256) as u8;
    }

    pub fn set_de(&mut self, value: u16)
        ensures
            *final(self) == old(self).with_de(value),
    {
        self.d = (value / 256) as u8;
        self.e = (value % 256) as u8;
    }

    pub fn set_hl(&mut self, value: u16)
        ensures
            *final(self) == old(self).with_hl(value),
    {
        self.h = (value / 256) as u8;
        self.l = (value % 256) as u8;
    }

    pub fn zero(&self) -> (r: bool)
        ensures
            r == self.f.zero,
    {
        self.f.zero
    }

    pub fn negative(&self) -> (r: bool)
        ensures
            r == self.f.negative,
    {
        self.f.negative
    }

    pub fn half_carry(&self) -> (r: bool)
        ensures
            r == self.f.half_carry,
    {
        self.f.half_carry
    }

    pub fn carry(&self) -> (r: bool)
        ensures
            r == self.f.carry,
    {
        self.f.carry
    }

    /// Sets all four flags.
    pub fn set_flags(&mut self, zero: bool, negative: bool, half_carry: bool, carry: bool)
        ensures
            *final(self) == old(self).with_flags(zero, negative, half_carry, carry),
    {
        self.f = Flags { zero, negative, half_carry, carry };
    }

    /// Sets every flag but the zero flag, which keeps its value.
    pub fn set_flags_nz(&mut self, negative: bool, half_carry: bool, carry: bool)
        ensures
            *final(self) == old(self).with_flags(old(self).f.zero, negative, half_carry, carry),
    {
        self.f = Flags { zero: self.f.zero, negative, half_carry, carry };
    }

    /// Sets the zero flag alone.
    pub fn set_zero(&mut self, zero: bool)
        ensures
            *final(self) == old(self).with_flags(
                zero,
                old(self).f.negative,
                old(self).f.half_carry,
                old(self).f.carry,
            ),
    {
        self.f.zero = zero;
    }
}

/// Writing a register pair and reading it back gives the value written; AF
/// gives it with the low nibble cleared, since F keeps only the flag bits.
pub proof fn lemma_pair_roundtrip(r: Registers, v: u16)
    ensures
        r.with_bc(v).bc() == v,
        r.with_de(v).de() == v,
        r.with_hl(v).hl() == v,
        r.with_af(v).af() == (v - v % 16) as u16,
{
    let lo = v % 256;
    assert(flags_byte(flags_of_byte(low(v))) == lo - lo % 16) by (nonlinear_arith)
        requires
            lo == v % 256,
            low(v) == lo,
    {
    }
}

/// Writing a register pair with the value it holds changes nothing (F holds
/// only the flag bits, so AF reads back whole).
pub proof fn lemma_pair_self_write(r: Registers)
    ensures
        r.with_af(r.af()) == r,
        r.with_bc(r.bc()) == r,
        r.with_de(r.de()) == r,
        r.with_hl(r.hl()) == r,
{
    lemma_bits_of_byte_of_bits(
        r.f.zero,
        r.f.negative,
        r.f.half_carry,
        r.f.carry,
        false,
        false,
        false,
        false,
    );
    assert(flags_byte(r.f) as int == byte_of_bits(
        r.f.zero,
        r.f.negative,
        r.f.half_carry,
        r.f.carry,
        false,
        false,
        false,
        false,
    ));
}

} // verus!

verus! {

/// The byte whose bits 7..0 are the given flags.
pub open spec fn byte_of_bits(
    b7: bool,
    b6: bool,
    b5: bool,
    b4: bool,
    b3: bool,
    b2: bool,
    b1: bool,
    b0: bool,
) -> int {
    weight_if(b7, 128) + weight_if(b6, 64) + weight_if(b5, 32) + weight_if(b4, 16) + weight_if(b3, 8)
        + weight_if(b2, 4) + weight_if(b1, 2) + weight_if(b0, 1)
}

/// Assembling a byte from eight flags and reading its bits back gives the flags.
pub proof fn lemma_bits_of_byte_of_bits(
    b7: bool,
    b6: bool,
    b5: bool,
    b4: bool,
    b3: bool,
    b2: bool,
    b1: bool,
    b0: bool,
)
    ensures
        0 <= byte_of_bits(b7, b6, b5, b4, b3, b2, b1, b0) < 256,
        bit_of(byte_of_bits(b7, b6, b5, b4, b3, b2, b1, b0), 128) == b7,
        bit_of(byte_of_bits(b7, b6, b5, b4, b3, b2, b1, b0), 64) == b6,
        bit_of(byte_of_bits(b7, b6, b5, b4, b3, b2, b1, b0), 32) == b5,
        bit_of(byte_of_bits(b7, b6, b5, b4, b3, b2, b1, b0), 16) == b4,
        bit_of(byte_of_bits(b7, b6, b5, b4, b3, b2, b1, b0), 8) == b3,
        bit_of(byte_of_bits(b7, b6, b5, b4, b3, b2, b1, b0), 4) == b2,
        bit_of(byte_of_bits(b7, b6, b5, b4, b3, b2, b1, b0), 2) == b1,
        bit_of(byte_of_bits(b7, b6, b5, b4, b3, b2, b1, b0), 1) == b0,
        byte_of_bits(b7, b6, b5, b4, b3, b2, b1, b0) % 4 == weight_if(b1, 2) + weight_if(b0, 1),
{
    let s: u8 = ((if b7 { 128u8 } else { 0u8 }) + (if b6 { 64u8 } else { 0u8 }) + (if b5 {
        32u8
    } else {
        0u8
    }) + (if b4 { 16u8 } else { 0u8 }) + (if b3 { 8u8 } else { 0u8 }) + (if b2 { 4u8 } else { 0u8 })
        + (if b1 { 2u8 } else { 0u8 }) + (if b0 { 1u8 } else { 0u8 })) as u8;
    assert(s == byte_of_bits(b7, b6, b5, b4, b3, b2, b1, b0));
    assert({
        &&& ((s / 128) % 2 == 1) == b7
        &&& ((s / 64) % 2 == 1) == b6
        &&& ((s / 32) % 2 == 1) == b5
        &&& ((s / 16) % 2 == 1) == b4
        &&& ((s / 8) % 2 == 1) == b3
        &&& ((s / 4) % 2 == 1) == b2
        &&& ((s / 2) % 2 == 1) == b1
        &&& (s % 2 == 1) == b0
        &&& s % 4 == (if b1 { 2u8 } else { 0u8 }) + (if b0 { 1u8 } else { 0u8 })
    }) by (bit_vector)
        requires
            s == (if b7 { 128u8 } else { 0u8 }) + (if b6 { 64u8 } else { 0u8 }) + (if b5 {
                32u8
            } else {
                0u8
            }) + (if b4 { 16u8 } else { 0u8 }) + (if b3 { 8u8 } else { 0u8 }) + (if b2 {
                4u8
            } else {
                0u8
            }) + (if b1 { 2u8 } else { 0u8 }) + (if b0 { 1u8 } else { 0u8 }),
    ;
}

/// A byte is the sum of its set bits.
pub proof fn lemma_byte_of_bits_of_byte(b: u8)
    ensures
        b as int == byte_of_bits(
            bit_of(b as int, 128),
            bit_of(b as int, 64),
            bit_of(b as int, 32),
            bit_of(b as int, 16),
            bit_of(b as int, 8),
            bit_of(b as int, 4),
            bit_of(b as int, 2),
            bit_of(b as int, 1),
        ),
{
    assert(b == (if (b / 128) % 2 == 1 { 128u8 } else { 0u8 }) + (if (b / 64) % 2 == 1 {
        64u8
    } else {
        0u8
    }) + (if (b / 32) % 2 == 1 { 32u8 } else { 0u8 }) + (if (b / 16) % 2 == 1 {
        16u8
    } else {
        0u8
    }) + (if (b / 8) % 2 == 1 { 8u8 } else { 0u8 }) + (if (b / 4) % 2 == 1 { 4u8 } else { 0u8 })
        + (if (b / 2) % 2 == 1 { 2u8 } else { 0u8 }) + (if b % 2 == 1 { 1u8 } else { 0u8 }))
        by (bit_vector);
}

} // verus!
