//! The instruction semantics: the CPU state as a mathematical value and what
//! each instruction does to it.

use vstd::prelude::*;
use crate::dmg::bus::{
    bus_can_read, bus_can_read_word, bus_can_write, bus_read, bus_read_word, bus_step, bus_write,
    BusView,
};
use crate::dmg::instructions::{
    decode, restart_address, ArithmeticTarget, Instruction, JumpCond, RestartAddr,
    SixteenBitArithmeticTarget, StackTarget,
};
use crate::dmg::memory::{
    pending_interrupt, Interrupt, LoadByteSource, LoadByteTarget, LoadType, LoadWordSource,
    LoadWordTarget,
};
use crate::dmg::registers::{high, low, pair, Registers};

verus! {

/// The CPU state: registers, program counter, stack pointer, the bus with
/// everything behind it, and the halt and interrupt-enable flags.
pub struct CpuView {
    pub registers: Registers,
    pub pc: u16,
    pub sp: u16,
    pub bus: BusView,
    pub is_halted: bool,
    pub ime: bool,
}

// Interrupt service routine addresses
pub open spec fn isr_address(i: Interrupt) -> u16 {
    match i {
        Interrupt::VBlank => 0x40,
        Interrupt::LcdStat => 0x48,
        Interrupt::TimerOverflow => 0x50,
        Interrupt::SerialLink => 0x58,
        Interrupt::JoypadPress => 0x60,
        Interrupt::NONE => 0,
    }
}

pub open spec fn read_at(s: CpuView, address: u16) -> u8 {
    bus_read(s.bus, address)
}

pub open spec fn can_read(s: CpuView, address: u16) -> bool {
    bus_can_read(s.bus, address)
}

pub open spec fn write_at(s: CpuView, address: u16, value: u8) -> CpuView {
    CpuView { bus: bus_write(s.bus, address, value), ..s }
}

pub open spec fn can_write(s: CpuView, address: u16) -> bool {
    bus_can_write(s.bus, address)
}

pub open spec fn with_registers(s: CpuView, r: Registers) -> CpuView {
    CpuView { registers: r, ..s }
}

pub open spec fn with_flags(s: CpuView, zero: bool, negative: bool, half_carry: bool, carry: bool) -> CpuView {
    with_registers(s, s.registers.with_flags(zero, negative, half_carry, carry))
}

pub open spec fn with_a(s: CpuView, value: u8) -> CpuView {
    with_registers(s, Registers { a: value, ..s.registers })
}

pub open spec fn with_hl(s: CpuView, value: u16) -> CpuView {
    with_registers(s, s.registers.with_hl(value))
}

pub open spec fn with_pc(s: CpuView, pc: u16) -> CpuView {
    CpuView { pc, ..s }
}

pub open spec fn with_sp(s: CpuView, sp: u16) -> CpuView {
    CpuView { sp, ..s }
}

/// The program counter moved onto the next byte.
pub open spec fn advance(s: CpuView) -> CpuView {
    with_pc(s, s.pc.wrapping_add(1))
}

/// The byte after the current one.
pub open spec fn next_byte(s: CpuView) -> u8 {
    read_at(s, s.pc.wrapping_add(1))
}

pub open spec fn next_byte_ok(s: CpuView) -> bool {
    can_read(s, s.pc.wrapping_add(1))
}

/// The little-endian word after the current byte.
pub open spec fn next_word(s: CpuView) -> u16 {
    bus_read_word(s.bus, s.pc.wrapping_add(1))
}

pub open spec fn next_word_ok(s: CpuView) -> bool {
    bus_can_read_word(s.bus, s.pc.wrapping_add(1))
}

/// The program counter moved past a word operand (it ends on its last byte).
pub open spec fn skip_word(s: CpuView) -> CpuView {
    with_pc(s, s.pc.wrapping_add(1).wrapping_add(1))
}

/// The value of an 8-bit operand; D8 is the byte after the opcode.
pub open spec fn operand(s: CpuView, t: ArithmeticTarget) -> u8 {
    match t {
        ArithmeticTarget::A => s.registers.a,
        ArithmeticTarget::B => s.registers.b,
        ArithmeticTarget::C => s.registers.c,
        ArithmeticTarget::D => s.registers.d,
        ArithmeticTarget::E => s.registers.e,
        ArithmeticTarget::H => s.registers.h,
        ArithmeticTarget::L => s.registers.l,
        ArithmeticTarget::HLI => read_at(s, s.registers.hl()),
        ArithmeticTarget::D8 => next_byte(s),
    }
}

/// The state after fetching an operand: reading D8 moves the program counter.
pub open spec fn operand_state(s: CpuView, t: ArithmeticTarget) -> CpuView {
    if t == ArithmeticTarget::D8 {
        advance(s)
    } else {
        s
    }
}

#[verifier::opaque]
pub open spec fn operand_ok(s: CpuView, t: ArithmeticTarget) -> bool {
    match t {
        ArithmeticTarget::HLI => can_read(s, s.registers.hl()),
        ArithmeticTarget::D8 => next_byte_ok(s),
        _ => true,
    }
}

/// Stores into an 8-bit operand; (HL) writes the bus. D8 cannot be stored to.
pub open spec fn store(s: CpuView, t: ArithmeticTarget, v: u8) -> CpuView {
    match t {
        ArithmeticTarget::A => with_registers(s, Registers { a: v, ..s.registers }),
        ArithmeticTarget::B => with_registers(s, Registers { b: v, ..s.registers }),
        ArithmeticTarget::C => with_registers(s, Registers { c: v, ..s.registers }),
        ArithmeticTarget::D => with_registers(s, Registers { d: v, ..s.registers }),
        ArithmeticTarget::E => with_registers(s, Registers { e: v, ..s.registers }),
        ArithmeticTarget::H => with_registers(s, Registers { h: v, ..s.registers }),
        ArithmeticTarget::L => with_registers(s, Registers { l: v, ..s.registers }),
        ArithmeticTarget::HLI => write_at(s, s.registers.hl(), v),
        ArithmeticTarget::D8 => s,
    }
}

pub open spec fn store_ok(s: CpuView, t: ArithmeticTarget) -> bool {
    match t {
        ArithmeticTarget::HLI => can_write(s, s.registers.hl()),
        ArithmeticTarget::D8 => false,
        _ => true,
    }
}

/// Reading an operand and then storing back into it.
#[verifier::opaque]
pub open spec fn read_modify_ok(s: CpuView, t: ArithmeticTarget) -> bool {
    operand_ok(s, t) && store_ok(operand_state(s, t), t)
}

pub open spec fn carry_in(s: CpuView) -> int {
    if s.registers.f.carry {
        1
    } else {
        0
    }
}

// A = A + s; flags Z 0 H C
#[verifier::opaque]
pub open spec fn add_spec(s: CpuView, t: ArithmeticTarget) -> CpuView {
    let v = operand(s, t);
    let s1 = operand_state(s, t);
    let a = s1.registers.a;
    let r = a.wrapping_add(v);
    with_a(with_flags(s1, r == 0, false, a % 16 + v % 16 > 15, a + v > 255), r)
}

// A = A + s + CY; flags Z 0 H C. The carry is that of the last addition made:
// with the carry flag set, A + s is computed first and then 1 is added.
#[verifier::opaque]
pub open spec fn adc_spec(s: CpuView, t: ArithmeticTarget) -> CpuView {
    let v = operand(s, t);
    let s1 = operand_state(s, t);
    let a = s1.registers.a;
    let first = a.wrapping_add(v);
    let r = if s1.registers.f.carry {
        first.wrapping_add(1)
    } else {
        first
    };
    let carry = if s1.registers.f.carry {
        first + 1 > 255
    } else {
        a + v > 255
    };
    with_a(with_flags(s1, r == 0, false, a % 16 + v % 16 + carry_in(s1) > 15, carry), r)
}

// A = A - s; flags Z 1 H C
#[verifier::opaque]
pub open spec fn sub_spec(s: CpuView, t: ArithmeticTarget) -> CpuView {
    let v = operand(s, t);
    let s1 = operand_state(s, t);
    let a = s1.registers.a;
    let r = a.wrapping_sub(v);
    with_a(with_flags(s1, r == 0, true, a % 16 < v % 16, a < v), r)
}

// A = A - s - CY; flags Z 1 H C, the carry being that of the last subtraction made.
#[verifier::opaque]
pub open spec fn sbc_spec(s: CpuView, t: ArithmeticTarget) -> CpuView {
    let v = operand(s, t);
    let s1 = operand_state(s, t);
    let a = s1.registers.a;
    let first = a.wrapping_sub(v);
    let r = if s1.registers.f.carry {
        first.wrapping_sub(1)
    } else {
        first
    };
    let carry = if s1.registers.f.carry {
        first < 1
    } else {
        a < v
    };
    with_a(with_flags(s1, r == 0, true, a % 16 < v % 16 + carry_in(s1), carry), r)
}

// A = A & s; flags Z 0 1 0
#[verifier::opaque]
pub open spec fn and_spec(s: CpuView, t: ArithmeticTarget) -> CpuView {
    let v = operand(s, t);
    let s1 = operand_state(s, t);
    let r = s1.registers.a & v;
    with_a(with_flags(s1, r == 0, false, true, false), r)
}

// A = A | s; flags Z 0 0 0
#[verifier::opaque]
pub open spec fn or_spec(s: CpuView, t: ArithmeticTarget) -> CpuView {
    let v = operand(s, t);
    let s1 = operand_state(s, t);
    let r = s1.registers.a | v;
    with_a(with_flags(s1, r == 0, false, false, false), r)
}

// A = A ^ s; flags Z 0 0 0
#[verifier::opaque]
pub open spec fn xor_spec(s: CpuView, t: ArithmeticTarget) -> CpuView {
    let v = operand(s, t);
    let s1 = operand_state(s, t);
    let r = s1.registers.a ^ v;
    with_a(with_flags(s1, r == 0, false, false, false), r)
}

// Compare A - s; flags Z 1 H C, A unchanged
#[verifier::opaque]
pub open spec fn cp_spec(s: CpuView, t: ArithmeticTarget) -> CpuView {
    let v = operand(s, t);
    let s1 = operand_state(s, t);
    let a = s1.registers.a;
    with_flags(s1, v == a, true, a % 16 < v % 16, a < v)
}

// s = s + 1; flags Z 0 H -
#[verifier::opaque]
pub open spec fn inc_spec(s: CpuView, t: ArithmeticTarget) -> CpuView {
    let v = operand(s, t);
    let s1 = operand_state(s, t);
    let r = v.wrapping_add(1);
    store(with_flags(s1, r == 0, false, v % 16 + 1 > 15, s1.registers.f.carry), t, r)
}

// s = s - 1; flags Z 1 H -
#[verifier::opaque]
pub open spec fn dec_spec(s: CpuView, t: ArithmeticTarget) -> CpuView {
    let v = operand(s, t);
    let s1 = operand_state(s, t);
    let r = v.wrapping_sub(1);
    store(with_flags(s1, r == 0, true, v % 16 < 1, s1.registers.f.carry), t, r)
}

/// The 16-bit register named by a target.
pub open spec fn register16(s: CpuView, t: SixteenBitArithmeticTarget) -> u16 {
    match t {
        SixteenBitArithmeticTarget::AF => s.registers.af(),
        SixteenBitArithmeticTarget::BC => s.registers.bc(),
        SixteenBitArithmeticTarget::DE => s.registers.de(),
        SixteenBitArithmeticTarget::HL => s.registers.hl(),
        SixteenBitArithmeticTarget::SP => s.sp,
    }
}

pub open spec fn set_register16(s: CpuView, t: SixteenBitArithmeticTarget, v: u16) -> CpuView {
    match t {
        SixteenBitArithmeticTarget::AF => with_registers(s, s.registers.with_af(v)),
        SixteenBitArithmeticTarget::BC => with_registers(s, s.registers.with_bc(v)),
        SixteenBitArithmeticTarget::DE => with_registers(s, s.registers.with_de(v)),
        SixteenBitArithmeticTarget::HL => with_registers(s, s.registers.with_hl(v)),
        SixteenBitArithmeticTarget::SP => with_sp(s, v),
    }
}

// HL = HL + ss; flags - 0 H C, H being the carry out of the low byte
#[verifier::opaque]
pub open spec fn addhl_spec(s: CpuView, t: SixteenBitArithmeticTarget) -> CpuView {
    let v = register16(s, t);
    let hl = s.registers.hl();
    let s1 = with_flags(s, s.registers.f.zero, false, hl % 256 + v % 256 > 255, hl + v > 0xFFFF);
    with_hl(s1, hl.wrapping_add(v))
}

/// A byte taken as a signed offset and widened to 16 bits.
pub open spec fn sign_extend(b: u8) -> u16 {
    if b < 128 {
        b as u16
    } else {
        (b + 0xFF00) as u16
    }
}

/// SP plus a signed byte, and the flags 0 0 H C of that addition.
pub open spec fn sp_plus(s: CpuView, b: u8) -> u16 {
    s.sp.wrapping_add(sign_extend(b))
}

pub open spec fn sp_plus_flags(s: CpuView, b: u8) -> CpuView {
    let e = sign_extend(b);
    with_flags(s, false, false, s.sp % 256 + e % 256 > 255, s.sp + e > 0xFFFF)
}

// SP = SP + e; flags 0 0 H C
#[verifier::opaque]
pub open spec fn addsp_spec(s: CpuView) -> CpuView {
    let b = next_byte(s);
    let s1 = advance(s);
    with_sp(sp_plus_flags(s1, b), sp_plus(s1, b))
}

// HL = SP + e; flags 0 0 H C
#[verifier::opaque]
pub open spec fn ldhlsp_spec(s: CpuView) -> CpuView {
    let b = next_byte(s);
    let s1 = advance(s);
    with_hl(sp_plus_flags(s1, b), sp_plus(s1, b))
}

// ss = ss + 1
#[verifier::opaque]
pub open spec fn inc16_spec(s: CpuView, t: SixteenBitArithmeticTarget) -> CpuView {
    set_register16(s, t, register16(s, t).wrapping_add(1))
}

// ss = ss - 1
#[verifier::opaque]
pub open spec fn dec16_spec(s: CpuView, t: SixteenBitArithmeticTarget) -> CpuView {
    set_register16(s, t, register16(s, t).wrapping_sub(1))
}

/// A byte rotated right by one place.
pub open spec fn rotate_right(v: u8) -> u8 {
    (v / 2 + (v % 2) * 128) as u8
}

/// A byte rotated left by one place.
pub open spec fn rotate_left(v: u8) -> u8 {
    ((v * 2) % 256 + v / 128) as u8
}

/// A byte shifted left by one place (the top bit is lost).
pub open spec fn shift_left(v: u8) -> u8 {
    ((v * 2) % 256) as u8
}

// Rotate A right through the carry; flags 0 0 0 C
#[verifier::opaque]
pub open spec fn rra_spec(s: CpuView) -> CpuView {
    let a = s.registers.a;
    with_flags(with_a(s, (carry_in(s) * 128 + a / 2) as u8), false, false, false, a % 2 == 1)
}

// Rotate A left through the carry; flags 0 0 0 C
#[verifier::opaque]
pub open spec fn rla_spec(s: CpuView) -> CpuView {
    let a = s.registers.a;
    with_flags(with_a(s, (carry_in(s) + shift_left(a)) as u8), false, false, false, a >= 128)
}

// Rotate A right; flags 0 0 0 C
#[verifier::opaque]
pub open spec fn rrca_spec(s: CpuView) -> CpuView {
    let a = s.registers.a;
    with_flags(with_a(s, rotate_right(a)), false, false, false, a % 2 == 1)
}

// Rotate A left; flags 0 0 0 C
#[verifier::opaque]
pub open spec fn rlca_spec(s: CpuView) -> CpuView {
    let a = s.registers.a;
    with_flags(with_a(s, rotate_left(a)), false, false, false, a >= 128)
}

// Complement A; flags - 1 1 -
#[verifier::opaque]
pub open spec fn cpl_spec(s: CpuView) -> CpuView {
    with_flags(with_a(s, (255 - s.registers.a) as u8), s.registers.f.zero, true, true, s.registers.f.carry)
}

/// The mask of bit `index`.
pub open spec fn bit_mask(index: u8) -> u8 {
    if index == 0 {
        1
    } else if index == 1 {
        2
    } else if index == 2 {
        4
    } else if index == 3 {
        8
    } else if index == 4 {
        16
    } else if index == 5 {
        32
    } else if index == 6 {
        64
    } else {
        128
    }
}

// Test a bit; flags Z 0 1 -
#[verifier::opaque]
pub open spec fn bit_spec(s: CpuView, index: u8, t: ArithmeticTarget) -> CpuView {
    let v = operand(s, t);
    let s1 = operand_state(s, t);
    with_flags(s1, v & bit_mask(index) == 0, false, true, s1.registers.f.carry)
}

// Clear a bit
#[verifier::opaque]
pub open spec fn reset_spec(s: CpuView, index: u8, t: ArithmeticTarget) -> CpuView {
    let v = operand(s, t);
    store(operand_state(s, t), t, v & !bit_mask(index))
}

// Set a bit
#[verifier::opaque]
pub open spec fn set_spec(s: CpuView, index: u8, t: ArithmeticTarget) -> CpuView {
    let v = operand(s, t);
    store(operand_state(s, t), t, v | bit_mask(index))
}

/// Stores a shift result, then sets flags Z 0 0 C.
pub open spec fn store_then_flags(s: CpuView, t: ArithmeticTarget, r: u8, carry: bool) -> CpuView {
    let s2 = store(s, t, r);
    with_flags(s2, r == 0, false, false, carry)
}

/// Sets flags Z 0 0 C, then stores a shift result.
pub open spec fn flags_then_store(s: CpuView, t: ArithmeticTarget, r: u8, carry: bool) -> CpuView {
    store(with_flags(s, r == 0, false, false, carry), t, r)
}

// Shift right, bit 7 cleared; flags Z 0 0 C
#[verifier::opaque]
pub open spec fn srl_spec(s: CpuView, t: ArithmeticTarget) -> CpuView {
    let v = operand(s, t);
    store_then_flags(operand_state(s, t), t, v / 2, v % 2 == 1)
}

// Rotate right through the carry; flags Z 0 0 C
#[verifier::opaque]
pub open spec fn rr_spec(s: CpuView, t: ArithmeticTarget) -> CpuView {
    let v = operand(s, t);
    store_then_flags(operand_state(s, t), t, (carry_in(s) * 128 + v / 2) as u8, v % 2 == 1)
}

// Rotate left through the carry; flags Z 0 0 C
#[verifier::opaque]
pub open spec fn rl_spec(s: CpuView, t: ArithmeticTarget) -> CpuView {
    let v = operand(s, t);
    store_then_flags(operand_state(s, t), t, (carry_in(s) + shift_left(v)) as u8, v >= 128)
}

// Rotate right; flags Z 0 0 C
#[verifier::opaque]
pub open spec fn rrc_spec(s: CpuView, t: ArithmeticTarget) -> CpuView {
    let v = operand(s, t);
    flags_then_store(operand_state(s, t), t, rotate_right(v), v % 2 == 1)
}

// Rotate left; flags Z 0 0 C
#[verifier::opaque]
pub open spec fn rlc_spec(s: CpuView, t: ArithmeticTarget) -> CpuView {
    let v = operand(s, t);
    flags_then_store(operand_state(s, t), t, rotate_left(v), v >= 128)
}

// Shift right (bit 7 cleared as well); flags Z 0 0 C
#[verifier::opaque]
pub open spec fn sra_spec(s: CpuView, t: ArithmeticTarget) -> CpuView {
    let v = operand(s, t);
    flags_then_store(operand_state(s, t), t, v / 2, v % 2 == 1)
}

// Shift left; flags Z 0 0 C
#[verifier::opaque]
pub open spec fn sla_spec(s: CpuView, t: ArithmeticTarget) -> CpuView {
    let v = operand(s, t);
    flags_then_store(operand_state(s, t), t, shift_left(v), v >= 128)
}

// Swap the nibbles; only the zero flag changes
#[verifier::opaque]
pub open spec fn swap_spec(s: CpuView, t: ArithmeticTarget) -> CpuView {
    let v = operand(s, t);
    let r = ((v % 16) * 16 + v / 16) as u8;
    let s2 = store(operand_state(s, t), t, r);
    with_flags(s2, r == 0, s2.registers.f.negative, s2.registers.f.half_carry, s2.registers.f.carry)
}

pub open spec fn condition_holds(s: CpuView, c: JumpCond) -> bool {
    match c {
        JumpCond::NotZero => !s.registers.f.zero,
        JumpCond::Zero => s.registers.f.zero,
        JumpCond::NotCarry => !s.registers.f.carry,
        JumpCond::Carry => s.registers.f.carry,
        JumpCond::Always => true,
    }
}

/// JP: when taken the program counter becomes the word after the opcode;
/// otherwise it moves onto the word's last byte.
#[verifier::opaque]
pub open spec fn jump_spec(s: CpuView, taken: bool) -> CpuView {
    if taken {
        with_pc(s, pair(read_at(s, s.pc.wrapping_add(2)), read_at(s, s.pc.wrapping_add(1))))
    } else {
        with_pc(s, s.pc.wrapping_add(2))
    }
}

#[verifier::opaque]
pub open spec fn jump_ok(s: CpuView, taken: bool) -> bool {
    taken ==> can_read(s, s.pc.wrapping_add(1)) && can_read(s, s.pc.wrapping_add(2))
}

/// A byte read as a two's-complement signed offset (-128..=127).
pub open spec fn signed_offset(e: u8) -> int {
    if e < 128 {
        e as int
    } else {
        e - 256
    }
}

/// The target of a relative jump whose offset byte `e` sits at `operand`:
/// the address after the two-byte instruction plus the signed offset,
/// wrapping around the 16-bit address space.
pub open spec fn relative_target(operand: u16, e: u8) -> u16 {
    ((operand + 1 + signed_offset(e)) % 0x10000) as u16
}

/// JR: the program counter ends at the jump target, or after the instruction.
#[verifier::opaque]
pub open spec fn jump_relative_spec(s: CpuView, taken: bool) -> CpuView {
    let s1 = advance(s);
    let e = read_at(s1, s1.pc);
    if taken {
        with_pc(s1, relative_target(s1.pc, e))
    } else {
        with_pc(s1, s1.pc.wrapping_add(1))
    }
}

/// The byte a load reads, and the state after reading it.
pub open spec fn byte_source(s: CpuView, src: LoadByteSource) -> u8 {
    match src {
        LoadByteSource::A => s.registers.a,
        LoadByteSource::B => s.registers.b,
        LoadByteSource::C => s.registers.c,
        LoadByteSource::D => s.registers.d,
        LoadByteSource::E => s.registers.e,
        LoadByteSource::H => s.registers.h,
        LoadByteSource::L => s.registers.l,
        LoadByteSource::D8 => next_byte(s),
        LoadByteSource::HLI | LoadByteSource::HLINC | LoadByteSource::HLDEC => read_at(s, s.registers.hl()),
        LoadByteSource::BCI => read_at(s, s.registers.bc()),
        LoadByteSource::DEI => read_at(s, s.registers.de()),
    }
}

pub open spec fn byte_source_state(s: CpuView, src: LoadByteSource) -> CpuView {
    if src == LoadByteSource::D8 {
        advance(s)
    } else {
        s
    }
}

pub open spec fn byte_source_ok(s: CpuView, src: LoadByteSource) -> bool {
    match src {
        LoadByteSource::D8 => next_byte_ok(s),
        LoadByteSource::HLI | LoadByteSource::HLINC | LoadByteSource::HLDEC => can_read(s, s.registers.hl()),
        LoadByteSource::BCI => can_read(s, s.registers.bc()),
        LoadByteSource::DEI => can_read(s, s.registers.de()),
        _ => true,
    }
}

/// Stores a loaded byte; (HL+) and (HL-) step HL after the write.
pub open spec fn byte_target_store(s: CpuView, t: LoadByteTarget, v: u8) -> CpuView {
    match t {
        LoadByteTarget::A => with_registers(s, Registers { a: v, ..s.registers }),
        LoadByteTarget::B => with_registers(s, Registers { b: v, ..s.registers }),
        LoadByteTarget::C => with_registers(s, Registers { c: v, ..s.registers }),
        LoadByteTarget::D => with_registers(s, Registers { d: v, ..s.registers }),
        LoadByteTarget::E => with_registers(s, Registers { e: v, ..s.registers }),
        LoadByteTarget::H => with_registers(s, Registers { h: v, ..s.registers }),
        LoadByteTarget::L => with_registers(s, Registers { l: v, ..s.registers }),
        LoadByteTarget::HLI => write_at(s, s.registers.hl(), v),
        LoadByteTarget::BCI => write_at(s, s.registers.bc(), v),
        LoadByteTarget::DEI => write_at(s, s.registers.de(), v),
        LoadByteTarget::HLINC => {
            let w = write_at(s, s.registers.hl(), v);
            with_hl(w, w.registers.hl().wrapping_add(1))
        },
        LoadByteTarget::HLDEC => {
            let w = write_at(s, s.registers.hl(), v);
            with_hl(w, w.registers.hl().wrapping_sub(1))
        },
    }
}

pub open spec fn byte_target_ok(s: CpuView, t: LoadByteTarget) -> bool {
    match t {
        LoadByteTarget::HLI | LoadByteTarget::HLINC | LoadByteTarget::HLDEC => can_write(s, s.registers.hl()),
        LoadByteTarget::BCI => can_write(s, s.registers.bc()),
        LoadByteTarget::DEI => can_write(s, s.registers.de()),
        _ => true,
    }
}

/// After the store, (HL+) and (HL-) sources step HL.
pub open spec fn byte_source_after(s: CpuView, src: LoadByteSource) -> CpuView {
    match src {
        LoadByteSource::HLINC => with_hl(s, s.registers.hl().wrapping_add(1)),
        LoadByteSource::HLDEC => with_hl(s, s.registers.hl().wrapping_sub(1)),
        _ => s,
    }
}

pub open spec fn load_byte_spec(s: CpuView, t: LoadByteTarget, src: LoadByteSource) -> CpuView {
    let v = byte_source(s, src);
    let s1 = byte_source_state(s, src);
    byte_source_after(byte_target_store(s1, t, v), src)
}

pub open spec fn load_byte_ok(s: CpuView, t: LoadByteTarget, src: LoadByteSource) -> bool {
    byte_source_ok(s, src) && byte_target_ok(byte_source_state(s, src), t)
}

/// The word a load reads, and the state after reading it.
pub open spec fn word_source(s: CpuView, src: LoadWordSource) -> u16 {
    match src {
        LoadWordSource::BC => s.registers.bc(),
        LoadWordSource::DE => s.registers.de(),
        LoadWordSource::HL => s.registers.hl(),
        LoadWordSource::SP => s.sp,
        LoadWordSource::D16 => next_word(s),
    }
}

pub open spec fn word_source_state(s: CpuView, src: LoadWordSource) -> CpuView {
    if src == LoadWordSource::D16 {
        skip_word(s)
    } else {
        s
    }
}

/// Stores a loaded word; the D16 target writes SP at the address after the opcode.
pub open spec fn word_target_store(s: CpuView, t: LoadWordTarget, v: u16) -> CpuView {
    match t {
        LoadWordTarget::BC => with_registers(s, s.registers.with_bc(v)),
        LoadWordTarget::DE => with_registers(s, s.registers.with_de(v)),
        LoadWordTarget::HL => with_registers(s, s.registers.with_hl(v)),
        LoadWordTarget::SP => with_sp(s, v),
        LoadWordTarget::D16 => {
            let s1 = skip_word(s);
            CpuView { bus: write_word_bus(s1.bus, next_word(s), s.sp), ..s1 }
        },
    }
}

pub open spec fn write_word_bus(b: BusView, address: u16, value: u16) -> BusView {
    crate::dmg::bus::bus_write_word(b, address, value)
}

pub open spec fn word_target_ok(s: CpuView, t: LoadWordTarget) -> bool {
    t == LoadWordTarget::D16 ==> next_word_ok(s) && crate::dmg::bus::bus_can_write_word(
        skip_word(s).bus,
        next_word(s),
        s.sp,
    )
}

pub open spec fn load_word_spec(s: CpuView, t: LoadWordTarget, src: LoadWordSource) -> CpuView {
    word_target_store(word_source_state(s, src), t, word_source(s, src))
}

pub open spec fn load_word_ok(s: CpuView, t: LoadWordTarget, src: LoadWordSource) -> bool {
    (src == LoadWordSource::D16 ==> next_word_ok(s)) && word_target_ok(word_source_state(s, src), t)
}

#[verifier::opaque]
pub open spec fn load_spec(s: CpuView, lt: LoadType) -> CpuView {
    match lt {
        LoadType::Byte(t, src) => load_byte_spec(s, t, src),
        LoadType::Word(t, src) => load_word_spec(s, t, src),
    }
}

#[verifier::opaque]
pub open spec fn load_ok(s: CpuView, lt: LoadType) -> bool {
    match lt {
        LoadType::Byte(t, src) => load_byte_ok(s, t, src),
        LoadType::Word(t, src) => load_word_ok(s, t, src),
    }
}

/// The high-page address 0xFF00 + n.
pub open spec fn high_page(n: u8) -> u16 {
    (0xFF00 + n) as u16
}

/// Pushes a word: SP drops by one and the high byte is written, then again for the low byte.
#[verifier::opaque]
pub open spec fn push_spec(s: CpuView, value: u16) -> CpuView {
    let s1 = with_sp(s, s.sp.wrapping_sub(1));
    let s2 = write_at(s1, s1.sp, high(value));
    let s3 = with_sp(s2, s2.sp.wrapping_sub(1));
    write_at(s3, s3.sp, low(value))
}

#[verifier::opaque]
pub open spec fn push_ok(s: CpuView, value: u16) -> bool {
    let s1 = with_sp(s, s.sp.wrapping_sub(1));
    &&& can_write(s1, s1.sp)
    &&& can_write(write_at(s1, s1.sp, high(value)), s1.sp.wrapping_sub(1))
}

/// The word on top of the stack (low byte at SP).
pub open spec fn stack_top(s: CpuView) -> u16 {
    pair(read_at(s, s.sp.wrapping_add(1)), read_at(s, s.sp))
}

/// Pops a word: SP rises by two.
pub open spec fn pop_state(s: CpuView) -> CpuView {
    with_sp(s, s.sp.wrapping_add(1).wrapping_add(1))
}

#[verifier::opaque]
pub open spec fn pop_ok(s: CpuView) -> bool {
    can_read(s, s.sp) && can_read(s, s.sp.wrapping_add(1))
}

pub open spec fn stack_register(s: CpuView, t: StackTarget) -> u16 {
    match t {
        StackTarget::AF => s.registers.af(),
        StackTarget::BC => s.registers.bc(),
        StackTarget::DE => s.registers.de(),
        StackTarget::HL => s.registers.hl(),
    }
}

pub open spec fn set_stack_register(s: CpuView, t: StackTarget, v: u16) -> CpuView {
    match t {
        StackTarget::AF => with_registers(s, s.registers.with_af(v)),
        StackTarget::BC => with_registers(s, s.registers.with_bc(v)),
        StackTarget::DE => with_registers(s, s.registers.with_de(v)),
        StackTarget::HL => with_registers(s, s.registers.with_hl(v)),
    }
}

#[verifier::opaque]
pub open spec fn pop_spec(s: CpuView, t: StackTarget) -> CpuView {
    set_stack_register(pop_state(s), t, stack_top(s))
}

/// CALL: when taken, the address after the instruction is pushed and the
/// program counter becomes the word operand; otherwise it moves past the instruction.
#[verifier::opaque]
pub open spec fn call_spec(s: CpuView, taken: bool) -> CpuView {
    let next_pc = s.pc.wrapping_add(3);
    if taken {
        let s1 = push_spec(s, next_pc);
        with_pc(s1, bus_read_word(s1.bus, s.pc.wrapping_add(1)))
    } else {
        with_pc(s, next_pc)
    }
}

#[verifier::opaque]
pub open spec fn call_ok(s: CpuView, taken: bool) -> bool {
    taken ==> push_ok(s, s.pc.wrapping_add(3)) && bus_can_read_word(
        push_spec(s, s.pc.wrapping_add(3)).bus,
        s.pc.wrapping_add(1),
    )
}

/// RET: when taken, the program counter is popped.
#[verifier::opaque]
pub open spec fn ret_spec(s: CpuView, taken: bool) -> CpuView {
    if taken {
        with_pc(pop_state(s), stack_top(s))
    } else {
        s
    }
}

/// RETI clears the interrupt master enable and pops the program counter.
#[verifier::opaque]
pub open spec fn reti_spec(s: CpuView) -> CpuView {
    let s1 = CpuView { ime: false, ..s };
    with_pc(pop_state(s1), stack_top(s1))
}

/// RST pushes the program counter and jumps to the restart address.
#[verifier::opaque]
pub open spec fn rst_spec(s: CpuView, addr: RestartAddr) -> CpuView {
    with_pc(push_spec(s, s.pc), restart_address(addr))
}

// mem[0xFF00 + n] = A
#[verifier::opaque]
pub open spec fn ldha_spec(s: CpuView) -> CpuView {
    let n = next_byte(s);
    let s1 = advance(s);
    write_at(s1, high_page(n), s1.registers.a)
}

// A = mem[0xFF00 + n]
#[verifier::opaque]
pub open spec fn ldha8_spec(s: CpuView) -> CpuView {
    let n = next_byte(s);
    let s1 = advance(s);
    with_a(s1, read_at(s1, high_page(n)))
}

// mem[nn] = A
#[verifier::opaque]
pub open spec fn ldaby_spec(s: CpuView) -> CpuView {
    let s1 = skip_word(s);
    write_at(s1, next_word(s), s1.registers.a)
}

// A = mem[nn]
#[verifier::opaque]
pub open spec fn lda_spec(s: CpuView) -> CpuView {
    let s1 = skip_word(s);
    with_a(s1, read_at(s1, next_word(s)))
}

/// What an instruction does: the new state, whether the returned program
/// counter is one past the state's, and the cycles taken.
pub open spec fn instruction_effect(s: CpuView, i: Instruction) -> (CpuView, bool, u8) {
    match i {
        Instruction::ADD(t, c) => (add_spec(s, t), true, c),
        Instruction::ADDHL(t, c) => (addhl_spec(s, t), true, c),
        Instruction::ADDSP(c) => (addsp_spec(s), true, c),
        Instruction::INC16(t, c) => (inc16_spec(s, t), true, c),
        Instruction::DEC16(t, c) => (dec16_spec(s, t), true, c),
        Instruction::SUB(t, c) => (sub_spec(s, t), true, c),
        Instruction::ADC(t, c) => (adc_spec(s, t), true, c),
        Instruction::SBC(t, c) => (sbc_spec(s, t), true, c),
        Instruction::AND(t, c) => (and_spec(s, t), true, c),
        Instruction::OR(t, c) => (or_spec(s, t), true, c),
        Instruction::XOR(t, c) => (xor_spec(s, t), true, c),
        Instruction::CP(t, c) => (cp_spec(s, t), true, c),
        Instruction::INC(t, c) => (inc_spec(s, t), true, c),
        Instruction::DEC(t, c) => (dec_spec(s, t), true, c),
        Instruction::CCF(c) => (
            with_flags(s, s.registers.f.zero, false, false, !s.registers.f.carry),
            true,
            c,
        ),
        Instruction::SCF(c) => (with_flags(s, s.registers.f.zero, false, false, true), true, c),
        Instruction::RRA(c) => (rra_spec(s), true, c),
        Instruction::RLA(c) => (rla_spec(s), true, c),
        Instruction::RRCA(c) => (rrca_spec(s), true, c),
        Instruction::RLCA(c) => (rlca_spec(s), true, c),
        Instruction::DAA(c) => (s, true, c),
        Instruction::CPL(c) => (cpl_spec(s), true, c),
        Instruction::BIT(b, t, c) => (bit_spec(s, b, t), true, c),
        Instruction::RESET(b, t, c) => (reset_spec(s, b, t), true, c),
        Instruction::SET(b, t, c) => (set_spec(s, b, t), true, c),
        Instruction::SRL(t, c) => (srl_spec(s, t), true, c),
        Instruction::RL(t, c) => (rl_spec(s, t), true, c),
        Instruction::RR(t, c) => (rr_spec(s, t), true, c),
        Instruction::RRC(t, c) => (rrc_spec(s, t), true, c),
        Instruction::RLC(t, c) => (rlc_spec(s, t), true, c),
        Instruction::SRA(t, c) => (sra_spec(s, t), true, c),
        Instruction::SLA(t, c) => (sla_spec(s, t), true, c),
        Instruction::SWAP(t, c) => (swap_spec(s, t), true, c),
        Instruction::JP(cond, c, taken_c) => {
            let taken = condition_holds(s, cond);
            (jump_spec(s, taken), !taken, if taken { taken_c } else { c })
        },
        Instruction::JPHL(c) => (with_pc(s, s.registers.hl()), true, c),
        Instruction::JR(cond, c, taken_c) => {
            let taken = condition_holds(s, cond);
            (jump_relative_spec(s, taken), false, if taken { taken_c } else { c })
        },
        Instruction::LD(lt, c) => (load_spec(s, lt), true, c),
        Instruction::LDAC(c) => (with_a(s, read_at(s, high_page(s.registers.c))), true, c),
        Instruction::LDCA(c) => (write_at(s, high_page(s.registers.c), s.registers.a), true, c),
        Instruction::HALT(c) => (CpuView { is_halted: true, ..s }, true, c),
        Instruction::NOP(c) => (s, true, c),
        Instruction::STOP(c) => (s, true, c),
        Instruction::PUSH(t, c) => (push_spec(s, stack_register(s, t)), true, c),
        Instruction::POP(t, c) => (pop_spec(s, t), true, c),
        Instruction::CALL(cond, c, taken_c) => {
            let taken = condition_holds(s, cond);
            (call_spec(s, taken), false, if taken { taken_c } else { c })
        },
        Instruction::RET(cond, c, taken_c) => {
            let taken = condition_holds(s, cond);
            (ret_spec(s, taken), !taken, if taken { taken_c } else { c })
        },
        Instruction::RETI(c) => (reti_spec(s), true, c),
        Instruction::RST(addr, c) => (rst_spec(s, addr), true, c),
        Instruction::EI(c) => (CpuView { ime: true, ..s }, true, c),
        Instruction::DI(c) => (CpuView { ime: false, ..s }, true, c),
        Instruction::LDHA(c) => (ldha_spec(s), true, c),
        Instruction::LDHA8(c) => (ldha8_spec(s), true, c),
        Instruction::LDABY(c) => (ldaby_spec(s), true, c),
        Instruction::LDA(c) => (lda_spec(s), true, c),
        Instruction::LDHLSP(c) => (ldhlsp_spec(s), true, c),
    }
}

/// Whether an instruction runs without failing: its bus accesses are
/// served, bit indices are below 8, D8 is not stored to, DAA and STOP (not
/// implemented) are not run, and words are not read or written across 0xFFFF.
pub open spec fn instruction_ok(s: CpuView, i: Instruction) -> bool {
    match i {
        Instruction::ADD(t, _) | Instruction::SUB(t, _) | Instruction::ADC(t, _) | Instruction::SBC(
            t,
            _,
        ) | Instruction::AND(t, _) | Instruction::OR(t, _) | Instruction::XOR(t, _)
        | Instruction::CP(t, _) => operand_ok(s, t),
        Instruction::ADDSP(_) | Instruction::LDHLSP(_) => next_byte_ok(s),
        Instruction::INC(t, _) | Instruction::DEC(t, _) | Instruction::SRL(t, _) | Instruction::RL(
            t,
            _,
        ) | Instruction::RR(t, _) | Instruction::RRC(t, _) | Instruction::RLC(t, _)
        | Instruction::SRA(t, _) | Instruction::SLA(t, _) | Instruction::SWAP(t, _) => read_modify_ok(s, t),
        Instruction::DAA(_) | Instruction::STOP(_) => false,
        Instruction::BIT(b, t, _) => b < 8 && operand_ok(s, t),
        Instruction::RESET(b, t, _) | Instruction::SET(b, t, _) => b < 8 && read_modify_ok(s, t),
        Instruction::JP(cond, _, _) => jump_ok(s, condition_holds(s, cond)),
        Instruction::JR(_, _, _) => next_byte_ok(s),
        Instruction::LD(lt, _) => load_ok(s, lt),
        Instruction::LDAC(_) => can_read(s, high_page(s.registers.c)),
        Instruction::LDCA(_) => can_write(s, high_page(s.registers.c)),
        Instruction::PUSH(t, _) => push_ok(s, stack_register(s, t)),
        Instruction::POP(_, _) | Instruction::RETI(_) => pop_ok(s),
        Instruction::CALL(cond, _, _) => call_ok(s, condition_holds(s, cond)),
        Instruction::RET(cond, _, _) => condition_holds(s, cond) ==> pop_ok(s),
        Instruction::RST(_, _) => push_ok(s, s.pc),
        Instruction::LDHA(_) => next_byte_ok(s) && can_write(advance(s), high_page(next_byte(s))),
        Instruction::LDHA8(_) => next_byte_ok(s) && can_read(advance(s), high_page(next_byte(s))),
        Instruction::LDABY(_) => next_word_ok(s) && can_write(skip_word(s), next_word(s)),
        Instruction::LDA(_) => next_word_ok(s) && can_read(skip_word(s), next_word(s)),
        _ => true,
    }
}

/// `execute`: a halted CPU does nothing and reports the next address and no
/// cycles; otherwise the instruction runs and the result is the address to
/// continue from and the cycles taken.
#[verifier::opaque]
pub open spec fn execute_spec(s: CpuView, i: Instruction) -> (CpuView, (u16, u8)) {
    if s.is_halted {
        (s, (s.pc.wrapping_add(1), 0))
    } else {
        let (s1, inc, cycles) = instruction_effect(s, i);
        (s1, (if inc { s1.pc.wrapping_add(1) } else { s1.pc }, cycles))
    }
}

#[verifier::opaque]
pub open spec fn execute_ok(s: CpuView, i: Instruction) -> bool {
    s.is_halted || instruction_ok(s, i)
}

/// Services an interrupt: the program counter is pushed, the routine entered,
/// the interrupt flags cleared and a halt ended.
pub open spec fn interrupt_spec(s: CpuView, isr: u16) -> CpuView {
    let s1 = with_pc(push_spec(s, s.pc), isr);
    CpuView {
        bus: BusView { memory: s1.bus.memory.update(0xFF0F, 0), ..s1.bus },
        is_halted: false,
        ..s1
    }
}

/// With the master enable set, a pending interrupt is serviced.
pub open spec fn handle_interrupts_spec(s: CpuView) -> CpuView {
    let pending = pending_interrupt(s.bus.memory[0xFFFF], s.bus.memory[0xFF0F]);
    if s.ime && pending != Interrupt::NONE {
        interrupt_spec(s, isr_address(pending))
    } else {
        s
    }
}

pub open spec fn handle_interrupts_ok(s: CpuView) -> bool {
    let pending = pending_interrupt(s.bus.memory[0xFFFF], s.bus.memory[0xFF0F]);
    s.ime && pending != Interrupt::NONE ==> push_ok(s, s.pc)
}

/// The opcode byte at the program counter (after the 0xCB prefix, if any).
pub open spec fn fetched_prefixed(s: CpuView) -> bool {
    read_at(s, s.pc) == 0xCB
}

pub open spec fn fetched_byte(s: CpuView) -> u8 {
    if fetched_prefixed(s) {
        read_at(s, (s.pc + 1) as u16)
    } else {
        read_at(s, s.pc)
    }
}

pub open spec fn fetched_instruction(s: CpuView) -> Instruction {
    decode(fetched_byte(s), fetched_prefixed(s))->0
}

/// The state after the fetched instruction has run, the program counter has
/// moved on (one more after a prefix) and the devices have run for its cycles.
pub open spec fn executed_state(s: CpuView) -> CpuView {
    let (s1, (next_pc, cycles)) = execute_spec(s, fetched_instruction(s));
    let prefix: int = if fetched_prefixed(s) {
        1
    } else {
        0
    };
    let s2 = with_pc(s1, (next_pc + prefix) as u16);
    CpuView { bus: bus_step(s2.bus, cycles), ..s2 }
}

/// One step: fetch, decode, execute, run the devices, service interrupts.
pub open spec fn step_spec(s: CpuView) -> CpuView {
    handle_interrupts_spec(executed_state(s))
}

/// Whether the opcode at the program counter can be fetched and decoded: it
/// can be read (a prefix must not sit at 0xFFFF) and it names an instruction.
pub open spec fn fetch_ok(s: CpuView) -> bool {
    &&& can_read(s, s.pc)
    &&& fetched_prefixed(s) ==> s.pc < 0xFFFF && can_read(s, (s.pc + 1) as u16)
    &&& decode(fetched_byte(s), fetched_prefixed(s)) is Some
}

/// Whether a step runs without failing: the opcode can be read (a prefix
/// must not sit at 0xFFFF), it names an instruction, that instruction runs,
/// the next address does not pass 0xFFFF after a prefix, and a pending
/// interrupt can push the program counter.
pub open spec fn step_ok(s: CpuView) -> bool {
    &&& fetch_ok(s)
    &&& execute_ok(s, fetched_instruction(s))
    &&& fetched_prefixed(s) ==> execute_spec(s, fetched_instruction(s)).1.0 < 0xFFFF
    &&& handle_interrupts_ok(executed_state(s))
}

} // verus!
