use vstd::prelude::*;
use crate::dmg::bus::{
    blank_boot_rom, blank_cartridge, bus_can_write, bus_step, initial_bus,
    lemma_write_keeps_writable, Bus,
};
use crate::dmg::instructions::{
    ArithmeticTarget, Instruction, JumpCond, RestartAddr, SixteenBitArithmeticTarget, StackTarget,
};
use crate::dmg::memory::{
    Interrupt, LoadByteSource, LoadByteTarget, LoadType, LoadWordSource, LoadWordTarget,
};
use crate::dmg::registers::{high, Registers};
use crate::dmg::semantics::{
    advance, next_byte, next_byte_ok, next_word, next_word_ok, skip_word, operand,
    operand_state, operand_ok, store, store_ok, read_modify_ok, add_spec, adc_spec, sub_spec,
    sbc_spec, and_spec, or_spec, xor_spec, cp_spec, inc_spec, dec_spec, register16,
    set_register16, addhl_spec, sp_plus, sp_plus_flags, addsp_spec, ldhlsp_spec, inc16_spec,
    dec16_spec, rra_spec, rla_spec, shift_left, rotate_left, rotate_right, rrca_spec, rlca_spec,
    cpl_spec, bit_mask, bit_spec, reset_spec, set_spec, srl_spec, rr_spec, rl_spec, rrc_spec,
    rlc_spec, sra_spec, sla_spec, swap_spec, condition_holds, jump_spec, jump_ok,
    jump_relative_spec, byte_source, byte_source_state, byte_source_ok, byte_target_ok,
    load_byte_spec, load_byte_ok, word_source, word_source_state, load_word_spec, load_word_ok,
    load_spec, load_ok, high_page, push_spec, push_ok, stack_top, pop_state, pop_ok,
    stack_register, pop_spec, call_spec, call_ok, ret_spec, reti_spec, rst_spec, ldha_spec,
    ldha8_spec, ldaby_spec, lda_spec, instruction_effect, instruction_ok, execute_spec,
    execute_ok, interrupt_spec, handle_interrupts_spec, handle_interrupts_ok, step_spec,
    step_ok, fetch_ok, fetched_instruction, fetched_prefixed, with_pc, with_a, with_flags,
    write_at, read_at, can_read, can_write, CpuView,
};

verus! {

// Interrupt starting addresses
const V_BLANK_ISR: u16 = 0x40;
const LCD_ISR: u16 = 0x48;
const TIMER_ISR: u16 = 0x50;
const SERIAL_ISR: u16 = 0x58;
const JOYPAD_ISR: u16 = 0x60;

pub struct CPU {
    pub registers: Registers,
    pub pc: u16,
    pub sp: u16,
    pub bus: Bus,
    pub is_halted: bool,
    pub ime: bool,  // Interrupt Master Enable
}

impl View for CPU {
    type V = CpuView;

    open spec fn view(&self) -> CpuView {
        CpuView {
            registers: self.registers,
            pc: self.pc,
            sp: self.sp,
            bus: self.bus@,
            is_halted: self.is_halted,
            ime: self.ime,
        }
    }
}

/// The CPU as it powers on, in front of the given bus.
pub open spec fn power_on(bus: crate::dmg::bus::BusView) -> CpuView {
    CpuView {
        registers: Registers::zeroed(),
        pc: 0,
        sp: 0xFFFE,
        bus,
        is_halted: false,
        ime: false,
    }
}

impl Default for CPU {
    fn default() -> (r: CPU)
        ensures
            r@ == power_on(initial_bus(blank_boot_rom(), blank_cartridge())),
    {
        CPU {
            registers: Registers::default(),
            bus: Bus::default(),
            pc: 0,
            sp: 0xFFFE,
            is_halted: false,
            ime: false,
        }
    }
}

/// A byte shifted left by one place; the top bit is lost.
fn shifted_left(v: u8) -> (r: u8)
    ensures
        r == shift_left(v),
        r <= 254,
{
    if v >= 128 {
        (v - 128) * 2
    } else {
        v * 2
    }
}

/// A byte rotated right by one place.
fn rotated_right(v: u8) -> (r: u8)
    ensures
        r == rotate_right(v),
{
    v / 2 + (v % 2) * 128
}

/// A byte rotated left by one place.
fn rotated_left(v: u8) -> (r: u8)
    ensures
        r == rotate_left(v),
{
    shifted_left(v) + v / 128
}

/// The mask of bit `index`.
fn mask_of(index: u8) -> (r: u8)
    ensures
        r == bit_mask(index),
{
    match index {
        0 => 1,
        1 => 2,
        2 => 4,
        3 => 8,
        4 => 16,
        5 => 32,
        6 => 64,
        _ => 128,
    }
}

/// A CALL whose condition holds on a running CPU. Whether it can complete
/// depends on the bus as its push leaves it, so it is checked as it runs.
pub open spec fn taken_call(s: CpuView, i: Instruction) -> bool {
    !s.is_halted && match i {
        Instruction::CALL(c, _, _) => condition_holds(s, c),
        _ => false,
    }
}

impl CPU {
    /// A powered-on CPU in front of the given bus.
    pub fn from_bus(bus: Bus) -> (r: CPU)
        ensures
            r@ == power_on(bus@),
    {
        CPU { registers: Registers::default(), bus, pc: 0, sp: 0xFFFE, is_halted: false, ime: false }
    }

    /// Skips the boot sequence: the boot ROM is unmapped (0xFF50 is set to 1)
    /// and execution starts at the cartridge entry point 0x0100.
    pub fn skip_boot_sequence(&mut self)
        ensures
            final(self)@ == with_pc(write_at(old(self)@, 0xFF50, 1), 0x100),
    {
        proof {
            reveal(bus_can_write);
        }
        self.bus.write_byte(0xFF50, 0x1);
        self.pc = 0x100;
    }

    /// The byte after the program counter, which moves onto it.
    fn read_next_byte(&mut self) -> (r: u8)
        requires
            next_byte_ok(old(self)@),
        ensures
            r == next_byte(old(self)@),
            final(self)@ == advance(old(self)@),
    {
        self.pc = self.pc.wrapping_add(1);
        self.bus.read_byte(self.pc)
    }

    /// The word after the program counter, which moves onto its last byte.
    fn read_next_word(&mut self) -> (r: u16)
        requires
            next_word_ok(old(self)@),
        ensures
            r == next_word(old(self)@),
            final(self)@ == skip_word(old(self)@),
    {
        self.pc = self.pc.wrapping_add(1);
        let word = self.bus.read_word(self.pc);
        self.pc = self.pc.wrapping_add(1);
        word
    }

    /// Helper method for returning the value of an 8bit register; D8 reads
    /// the byte after the program counter and moves onto it.
    pub fn register_value(&mut self, target: &ArithmeticTarget) -> (r: u8)
        requires
            operand_ok(old(self)@, *target),
        ensures
            r == operand(old(self)@, *target),
            final(self)@ == operand_state(old(self)@, *target),
    {
        proof {
            reveal(operand_ok);
        }
        match target {
            ArithmeticTarget::A => self.registers.a,
            ArithmeticTarget::B => self.registers.b,
            ArithmeticTarget::C => self.registers.c,
            ArithmeticTarget::D => self.registers.d,
            ArithmeticTarget::E => self.registers.e,
            ArithmeticTarget::H => self.registers.h,
            ArithmeticTarget::L => self.registers.l,
            ArithmeticTarget::HLI => self.bus.read_byte(self.registers.get_hl()),
            ArithmeticTarget::D8 => self.read_next_byte(),
        }
    }

    fn set_register_by_target(&mut self, target: &ArithmeticTarget, value: u8)
        requires
            store_ok(old(self)@, *target),
        ensures
            final(self)@ == store(old(self)@, *target, value),
    {
        match target {
            ArithmeticTarget::A => self.registers.a = value,
            ArithmeticTarget::B => self.registers.b = value,
            ArithmeticTarget::C => self.registers.c = value,
            ArithmeticTarget::D => self.registers.d = value,
            ArithmeticTarget::E => self.registers.e = value,
            ArithmeticTarget::H => self.registers.h = value,
            ArithmeticTarget::L => self.registers.l = value,
            ArithmeticTarget::HLI => self.bus.write_byte(self.registers.get_hl(), value),
            ArithmeticTarget::D8 => {},
        }
    }

    pub fn sixteen_bit_register_value(&self, target: &SixteenBitArithmeticTarget) -> (r: u16)
        ensures
            r == register16(self@, *target),
    {
        match target {
            SixteenBitArithmeticTarget::AF => self.registers.get_af(),
            SixteenBitArithmeticTarget::BC => self.registers.get_bc(),
            SixteenBitArithmeticTarget::DE => self.registers.get_de(),
            SixteenBitArithmeticTarget::HL => self.registers.get_hl(),
            SixteenBitArithmeticTarget::SP => self.sp,
        }
    }

    fn set_16b_register_by_target(&mut self, value: u16, target: SixteenBitArithmeticTarget)
        ensures
            final(self)@ == set_register16(old(self)@, target, value),
    {
        match target {
            SixteenBitArithmeticTarget::AF => self.registers.set_af(value),
            SixteenBitArithmeticTarget::BC => self.registers.set_bc(value),
            SixteenBitArithmeticTarget::DE => self.registers.set_de(value),
            SixteenBitArithmeticTarget::HL => self.registers.set_hl(value),
            SixteenBitArithmeticTarget::SP => self.sp = value,
        }
    }

    fn should_jump(&self, condition: JumpCond) -> (r: bool)
        ensures
            r == condition_holds(self@, condition),
    {
        match condition {
            JumpCond::NotZero => !self.registers.zero(),
            JumpCond::Zero => self.registers.zero(),
            JumpCond::NotCarry => !self.registers.carry(),
            JumpCond::Carry => self.registers.carry(),
            JumpCond::Always => true,
        }
    }

    // A = A + s
    // * 0 * *
    fn add(&mut self, target: ArithmeticTarget) -> (r: bool)
        requires
            operand_ok(old(self)@, target),
        ensures
            final(self)@ == add_spec(old(self)@, target),
            r,
    {
        proof {
            reveal(add_spec);
        }
        let value = self.register_value(&target);
        let a = self.registers.a;
        let half_carry = a % 16 + value % 16 > 15;
        let new_value = a.wrapping_add(value);
        self.registers.set_flags(new_value == 0, false, half_carry, a as u16 + value as u16 > 255);
        self.registers.a = new_value;
        true
    }

    // A = A - s
    // * 1 * *
    fn sub(&mut self, target: ArithmeticTarget) -> (r: bool)
        requires
            operand_ok(old(self)@, target),
        ensures
            final(self)@ == sub_spec(old(self)@, target),
            r,
    {
        proof {
            reveal(sub_spec);
        }
        let value = self.register_value(&target);
        let a = self.registers.a;
        let new_value = a.wrapping_sub(value);
        let half_carry = a % 16 < value % 16;
        self.registers.set_flags(new_value == 0, true, half_carry, a < value);
        self.registers.a = new_value;
        true
    }

    // A = A + s + CY; the carry flag is that of the last addition made
    // * 0 * *
    fn adc(&mut self, target: ArithmeticTarget) -> (r: bool)
        requires
            operand_ok(old(self)@, target),
        ensures
            final(self)@ == adc_spec(old(self)@, target),
            r,
    {
        proof {
            reveal(adc_spec);
        }
        let value = self.register_value(&target);
        let a = self.registers.a;
        let mut new_value = a.wrapping_add(value);
        let mut did_overflow = a as u16 + value as u16 > 255;
        let carry: u8 = if self.registers.carry() { 1 } else { 0 };
        if self.registers.carry() {
            did_overflow = new_value as u16 + 1 > 255;
            new_value = new_value.wrapping_add(1);
        }
        let half_carry = a % 16 + value % 16 + carry > 15;
        self.registers.set_flags(new_value == 0, false, half_carry, did_overflow);
        self.registers.a = new_value;
        true
    }

    // A = A - s - CY; the carry flag is that of the last subtraction made
    // * 1 * *
    fn sbc(&mut self, target: ArithmeticTarget) -> (r: bool)
        requires
            operand_ok(old(self)@, target),
        ensures
            final(self)@ == sbc_spec(old(self)@, target),
            r,
    {
        proof {
            reveal(sbc_spec);
        }
        let value = self.register_value(&target);
        let a = self.registers.a;
        let mut new_value = a.wrapping_sub(value);
        let mut did_overflow = a < value;
        let carry: u8 = if self.registers.carry() { 1 } else { 0 };
        if self.registers.carry() {
            did_overflow = new_value < 1;
            new_value = new_value.wrapping_sub(1);
        }
        let half_carry = a % 16 < value % 16 + carry;
        self.registers.set_flags(new_value == 0, true, half_carry, did_overflow);
        self.registers.a = new_value;
        true
    }

    // A = A & s
    // * 0 1 0
    fn and(&mut self, target: ArithmeticTarget) -> (r: bool)
        requires
            operand_ok(old(self)@, target),
        ensures
            final(self)@ == and_spec(old(self)@, target),
            r,
    {
        proof {
            reveal(and_spec);
        }
        let value = self.register_value(&target);
        let new_value = self.registers.a & value;
        self.registers.set_flags(new_value == 0, false, true, false);
        self.registers.a = new_value;
        true
    }

    // A = A | s
    // * 0 0 0
    fn or(&mut self, target: ArithmeticTarget) -> (r: bool)
        requires
            operand_ok(old(self)@, target),
        ensures
            final(self)@ == or_spec(old(self)@, target),
            r,
    {
        proof {
            reveal(or_spec);
        }
        let value = self.register_value(&target);
        let new_value = self.registers.a | value;
        self.registers.set_flags(new_value == 0, false, false, false);
        self.registers.a = new_value;
        true
    }

    // A = A ^ s
    // * 0 0 0
    fn xor(&mut self, target: ArithmeticTarget) -> (r: bool)
        requires
            operand_ok(old(self)@, target),
        ensures
            final(self)@ == xor_spec(old(self)@, target),
            r,
    {
        proof {
            reveal(xor_spec);
        }
        let value = self.register_value(&target);
        let new_value = self.registers.a ^ value;
        self.registers.set_flags(new_value == 0, false, false, false);
        self.registers.a = new_value;
        true
    }

    // A - s
    // * 1 * *
    fn cp(&mut self, target: ArithmeticTarget) -> (r: bool)
        requires
            operand_ok(old(self)@, target),
        ensures
            final(self)@ == cp_spec(old(self)@, target),
            r,
    {
        proof {
            reveal(cp_spec);
        }
        let value = self.register_value(&target);
        let a = self.registers.a;
        let zero = value == a;
        let half_carry = a % 16 < value % 16;
        self.registers.set_flags(zero, true, half_carry, a < value);
        true
    }

    // s = s + 1
    // * 0 * -
    fn inc(&mut self, target: ArithmeticTarget) -> (r: bool)
        requires
            read_modify_ok(old(self)@, target),
        ensures
            final(self)@ == inc_spec(old(self)@, target),
            r,
    {
        proof {
            reveal(inc_spec);
            reveal(read_modify_ok);
        }
        let value = self.register_value(&target);
        let new_value = value.wrapping_add(1);
        let half_carry = value % 16 + 1 > 15;
        let carry = self.registers.carry();
        self.registers.set_flags(new_value == 0, false, half_carry, carry);
        self.set_register_by_target(&target, new_value);
        true
    }

    // s = s - 1
    // * 1 * -
    fn dec(&mut self, target: ArithmeticTarget) -> (r: bool)
        requires
            read_modify_ok(old(self)@, target),
        ensures
            final(self)@ == dec_spec(old(self)@, target),
            r,
    {
        proof {
            reveal(dec_spec);
            reveal(read_modify_ok);
        }
        let value = self.register_value(&target);
        let new_value = value.wrapping_sub(1);
        let half_carry = value % 16 < 1;
        let carry = self.registers.carry();
        self.registers.set_flags(new_value == 0, true, half_carry, carry);
        self.set_register_by_target(&target, new_value);
        true
    }

    // HL = HL + ss; BC,DE,HL,SP
    // - 0 * *
    fn addhl(&mut self, target: SixteenBitArithmeticTarget) -> (r: bool)
        ensures
            final(self)@ == addhl_spec(old(self)@, target),
            r,
    {
        proof {
            reveal(addhl_spec);
        }
        let value = self.sixteen_bit_register_value(&target);
        let hl = self.registers.get_hl();
        let new_value = hl.wrapping_add(value);
        let half_carry = hl % 256 + value % 256 > 255;
        self.registers.set_flags_nz(false, half_carry, hl as u32 + value as u32 > 0xFFFF);
        self.registers.set_hl(new_value);
        true
    }

    /// SP plus a signed byte; sets the flags 0 0 H C of that addition.
    fn add_value_to_sp(&mut self, value: u8) -> (r: u16)
        ensures
            r == sp_plus(old(self)@, value),
            final(self)@ == sp_plus_flags(old(self)@, value),
    {
        let signed_val: u16 = if value < 128 { value as u16 } else { value as u16 + 0xFF00 };
        let half_carry = self.sp % 256 + signed_val % 256 > 255;
        let did_overflow = self.sp as u32 + signed_val as u32 > 0xFFFF;
        self.registers.set_flags(false, false, half_carry, did_overflow);
        self.sp.wrapping_add(signed_val)
    }

    // SP = SP + e
    // 0 0 * *
    fn addsp(&mut self) -> (r: bool)
        requires
            next_byte_ok(old(self)@),
        ensures
            final(self)@ == addsp_spec(old(self)@),
            r,
    {
        proof {
            reveal(addsp_spec);
        }
        let value = self.read_next_byte();
        let new_value = self.add_value_to_sp(value);
        self.sp = new_value;
        true
    }

    // HL = SP + e
    // 0 0 H C
    fn ldhlsp(&mut self) -> (r: bool)
        requires
            next_byte_ok(old(self)@),
        ensures
            final(self)@ == ldhlsp_spec(old(self)@),
            r,
    {
        proof {
            reveal(ldhlsp_spec);
        }
        let byte = self.read_next_byte();
        let new_value = self.add_value_to_sp(byte);
        self.registers.set_hl(new_value);
        true
    }

    // ss = ss + 1
    // - - - -
    fn inc_16(&mut self, target: SixteenBitArithmeticTarget) -> (r: bool)
        ensures
            final(self)@ == inc16_spec(old(self)@, target),
            r,
    {
        proof {
            reveal(inc16_spec);
        }
        let value = self.sixteen_bit_register_value(&target).wrapping_add(1);
        self.set_16b_register_by_target(value, target);
        true
    }

    // ss = ss - 1
    // - - - -
    fn dec_16(&mut self, target: SixteenBitArithmeticTarget) -> (r: bool)
        ensures
            final(self)@ == dec16_spec(old(self)@, target),
            r,
    {
        proof {
            reveal(dec16_spec);
        }
        let value = self.sixteen_bit_register_value(&target).wrapping_sub(1);
        self.set_16b_register_by_target(value, target);
        true
    }

    /// Complement the carry flag
    /// - 0 0 *
    fn ccf(&mut self) -> (r: bool)
        ensures
            final(self)@ == with_flags(
                old(self)@,
                old(self)@.registers.f.zero,
                false,
                false,
                !old(self)@.registers.f.carry,
            ),
            r,
    {
        let carry = self.registers.carry();
        self.registers.set_flags_nz(false, false, !carry);
        true
    }

    /// Set the carry flag
    /// - 0 0 1
    fn scf(&mut self) -> (r: bool)
        ensures
            final(self)@ == with_flags(old(self)@, old(self)@.registers.f.zero, false, false, true),
            r,
    {
        self.registers.set_flags_nz(false, false, true);
        true
    }

    // Rotate A right through the carry
    // 0 0 0 *
    fn rra(&mut self) -> (r: bool)
        ensures
            final(self)@ == rra_spec(old(self)@),
            r,
    {
        proof {
            reveal(rra_spec);
        }
        let curr_carry: u8 = if self.registers.carry() { 128 } else { 0 };
        let a = self.registers.a;
        let will_carry = a % 2 == 1;
        self.registers.a = curr_carry + a / 2;
        self.registers.set_flags(false, false, false, will_carry);
        true
    }

    // Rotate A left through the carry
    // 0 0 0 *
    fn rla(&mut self) -> (r: bool)
        ensures
            final(self)@ == rla_spec(old(self)@),
            r,
    {
        proof {
            reveal(rla_spec);
        }
        let curr_carry: u8 = if self.registers.carry() { 1 } else { 0 };
        let a = self.registers.a;
        let will_carry = a >= 128;
        self.registers.a = curr_carry + shifted_left(a);
        self.registers.set_flags(false, false, false, will_carry);
        true
    }

    // Rotate A right
    // 0 0 0 *
    fn rrca(&mut self) -> (r: bool)
        ensures
            final(self)@ == rrca_spec(old(self)@),
            r,
    {
        proof {
            reveal(rrca_spec);
        }
        let a = self.registers.a;
        let carry = a % 2 == 1;
        self.registers.a = rotated_right(a);
        self.registers.set_flags(false, false, false, carry);
        true
    }

    // Rotate A left
    // 0 0 0 *
    fn rlca(&mut self) -> (r: bool)
        ensures
            final(self)@ == rlca_spec(old(self)@),
            r,
    {
        proof {
            reveal(rlca_spec);
        }
        let a = self.registers.a;
        let carry = a >= 128;
        self.registers.a = rotated_left(a);
        self.registers.set_flags(false, false, false, carry);
        true
    }

    // Complement the A register
    // - 1 1 -
    fn cpl(&mut self) -> (r: bool)
        ensures
            final(self)@ == cpl_spec(old(self)@),
            r,
    {
        proof {
            reveal(cpl_spec);
        }
        self.registers.a = 255 - self.registers.a;
        let carry = self.registers.carry();
        self.registers.set_flags_nz(true, true, carry);
        true
    }

    // Test the bit in a register
    // * 0 1 -
    fn bit(&mut self, bit: u8, target: ArithmeticTarget) -> (r: bool)
        requires
            operand_ok(old(self)@, target),
        ensures
            final(self)@ == bit_spec(old(self)@, bit, target),
            r,
    {
        proof {
            reveal(bit_spec);
        }
        let zero = (self.register_value(&target) & mask_of(bit)) == 0;
        let carry = self.registers.carry();
        self.registers.set_flags(zero, false, true, carry);
        true
    }

    // Reset the bit at the given index
    // - - - -
    fn reset(&mut self, bit: u8, target: ArithmeticTarget) -> (r: bool)
        requires
            read_modify_ok(old(self)@, target),
        ensures
            final(self)@ == reset_spec(old(self)@, bit, target),
            r,
    {
        proof {
            reveal(reset_spec);
            reveal(read_modify_ok);
        }
        let value = self.register_value(&target) & !mask_of(bit);
        self.set_register_by_target(&target, value);
        true
    }

    // Set the bit at the given index
    // - - - -
    fn set(&mut self, bit: u8, target: ArithmeticTarget) -> (r: bool)
        requires
            read_modify_ok(old(self)@, target),
        ensures
            final(self)@ == set_spec(old(self)@, bit, target),
            r,
    {
        proof {
            reveal(set_spec);
            reveal(read_modify_ok);
        }
        let value = self.register_value(&target) | mask_of(bit);
        self.set_register_by_target(&target, value);
        true
    }

    // Shift right into the carry, bit 7 cleared
    // * 0 0 *
    fn srl(&mut self, target: ArithmeticTarget) -> (r: bool)
        requires
            read_modify_ok(old(self)@, target),
        ensures
            final(self)@ == srl_spec(old(self)@, target),
            r,
    {
        proof {
            reveal(srl_spec);
            reveal(read_modify_ok);
        }
        let value = self.register_value(&target);
        let new_value = value / 2;
        let carry = value % 2 == 1;
        self.set_register_by_target(&target, new_value);
        self.registers.set_flags(new_value == 0, false, false, carry);
        true
    }

    // Rotate right through the carry
    // * 0 0 *
    fn rr(&mut self, target: ArithmeticTarget) -> (r: bool)
        requires
            read_modify_ok(old(self)@, target),
        ensures
            final(self)@ == rr_spec(old(self)@, target),
            r,
    {
        proof {
            reveal(rr_spec);
            reveal(read_modify_ok);
        }
        let curr_carry: u8 = if self.registers.carry() { 128 } else { 0 };
        let value = self.register_value(&target);
        let new_value = curr_carry + value / 2;
        let carry = value % 2 == 1;
        self.set_register_by_target(&target, new_value);
        self.registers.set_flags(new_value == 0, false, false, carry);
        true
    }

    // Rotate left through the carry
    // * 0 0 *
    fn rl(&mut self, target: ArithmeticTarget) -> (r: bool)
        requires
            read_modify_ok(old(self)@, target),
        ensures
            final(self)@ == rl_spec(old(self)@, target),
            r,
    {
        proof {
            reveal(rl_spec);
            reveal(read_modify_ok);
        }
        let curr_carry: u8 = if self.registers.carry() { 1 } else { 0 };
        let value = self.register_value(&target);
        let new_value = curr_carry + shifted_left(value);
        let carry = value >= 128;
        self.set_register_by_target(&target, new_value);
        self.registers.set_flags(new_value == 0, false, false, carry);
        true
    }

    // Rotate right
    // * 0 0 *
    fn rrc(&mut self, target: ArithmeticTarget) -> (r: bool)
        requires
            read_modify_ok(old(self)@, target),
        ensures
            final(self)@ == rrc_spec(old(self)@, target),
            r,
    {
        proof {
            reveal(rrc_spec);
            reveal(read_modify_ok);
        }
        let value = self.register_value(&target);
        let carry = value % 2 == 1;
        let new_value = rotated_right(value);
        self.registers.set_flags(new_value == 0, false, false, carry);
        self.set_register_by_target(&target, new_value);
        true
    }

    // Rotate left
    // * 0 0 *
    fn rlc(&mut self, target: ArithmeticTarget) -> (r: bool)
        requires
            read_modify_ok(old(self)@, target),
        ensures
            final(self)@ == rlc_spec(old(self)@, target),
            r,
    {
        proof {
            reveal(rlc_spec);
            reveal(read_modify_ok);
        }
        let value = self.register_value(&target);
        let carry = value >= 128;
        let new_value = rotated_left(value);
        self.registers.set_flags(new_value == 0, false, false, carry);
        self.set_register_by_target(&target, new_value);
        true
    }

    // Shift right into the carry (bit 7 is cleared as well)
    // * 0 0 *
    fn sra(&mut self, target: ArithmeticTarget) -> (r: bool)
        requires
            read_modify_ok(old(self)@, target),
        ensures
            final(self)@ == sra_spec(old(self)@, target),
            r,
    {
        proof {
            reveal(sra_spec);
            reveal(read_modify_ok);
        }
        let value = self.register_value(&target);
        let new_value = value / 2;
        let carry = value % 2 == 1;
        self.registers.set_flags(new_value == 0, false, false, carry);
        self.set_register_by_target(&target, new_value);
        true
    }

    // Shift left into the carry
    // * 0 0 *
    fn sla(&mut self, target: ArithmeticTarget) -> (r: bool)
        requires
            read_modify_ok(old(self)@, target),
        ensures
            final(self)@ == sla_spec(old(self)@, target),
            r,
    {
        proof {
            reveal(sla_spec);
            reveal(read_modify_ok);
        }
        let value = self.register_value(&target);
        let new_value = shifted_left(value);
        let carry = value >= 128;
        self.registers.set_flags(new_value == 0, false, false, carry);
        self.set_register_by_target(&target, new_value);
        true
    }

    // Swap upper and lower nibbles of a register
    // * - - -
    fn swap(&mut self, target: ArithmeticTarget) -> (r: bool)
        requires
            read_modify_ok(old(self)@, target),
        ensures
            final(self)@ == swap_spec(old(self)@, target),
            r,
    {
        proof {
            reveal(swap_spec);
            reveal(read_modify_ok);
        }
        let value = self.register_value(&target);
        let swapped = (value % 16) * 16 + value / 16;
        self.set_register_by_target(&target, swapped);
        self.registers.set_zero(swapped == 0);
        true
    }

    /// Jump to the address specified by the next word
    // - - - -
    fn jump(&mut self, should_jump: bool) -> (r: bool)
        requires
            jump_ok(old(self)@, should_jump),
        ensures
            final(self)@ == jump_spec(old(self)@, should_jump),
            r == !should_jump,
    {
        proof {
            reveal(jump_spec);
            reveal(jump_ok);
        }
        if should_jump {
            let least_sig = self.bus.read_byte(self.pc.wrapping_add(1));
            let most_sig = self.bus.read_byte(self.pc.wrapping_add(2));
            self.pc = most_sig as u16 * 256 + least_sig as u16;
            false
        } else {
            self.pc = self.pc.wrapping_add(2);
            true
        }
    }

    /// Add the immediate signed byte to the address after the instruction and
    /// jump there, for every offset (see `relative_target`)
    // - - - -
    fn jump_relative(&mut self, should_jump: bool) -> (r: bool)
        requires
            next_byte_ok(old(self)@),
        ensures
            final(self)@ == jump_relative_spec(old(self)@, should_jump),
            !r,
    {
        proof {
            reveal(jump_relative_spec);
        }
        let next_byte = self.read_next_byte();
        if should_jump {
            if next_byte < 128 {
                self.pc = self.pc.wrapping_add(next_byte as u16 + 1);
            } else {
                let jump_addr = 256 - next_byte as u16;
                self.pc = self.pc.wrapping_sub(jump_addr - 1);
            }
        } else {
            self.pc = self.pc.wrapping_add(1);
        }
        false
    }

    // - - - -
    fn load(&mut self, load_type: LoadType) -> (r: bool)
        requires
            load_ok(old(self)@, load_type),
        ensures
            final(self)@ == load_spec(old(self)@, load_type),
            r,
    {
        proof {
            reveal(load_spec);
            reveal(load_ok);
        }
        match load_type {
            LoadType::Byte(target, source) => self.load_byte_type(target, source),
            LoadType::Word(target, source) => self.load_word_type(target, source),
        }
        true
    }

    fn load_byte_type(&mut self, target: LoadByteTarget, source: LoadByteSource)
        requires
            load_byte_ok(old(self)@, target, source),
        ensures
            final(self)@ == load_byte_spec(old(self)@, target, source),
    {
        let source_value = self.byte_from_lbs(&source);
        match target {
            LoadByteTarget::A => self.registers.a = source_value,
            LoadByteTarget::B => self.registers.b = source_value,
            LoadByteTarget::C => self.registers.c = source_value,
            LoadByteTarget::D => self.registers.d = source_value,
            LoadByteTarget::E => self.registers.e = source_value,
            LoadByteTarget::H => self.registers.h = source_value,
            LoadByteTarget::L => self.registers.l = source_value,
            LoadByteTarget::HLI => self.bus.write_byte(self.registers.get_hl(), source_value),
            LoadByteTarget::BCI => self.bus.write_byte(self.registers.get_bc(), source_value),
            LoadByteTarget::DEI => self.bus.write_byte(self.registers.get_de(), source_value),
            LoadByteTarget::HLINC => {
                self.bus.write_byte(self.registers.get_hl(), source_value);
                let hl = self.registers.get_hl();
                self.registers.set_hl(hl.wrapping_add(1));
            },
            LoadByteTarget::HLDEC => {
                self.bus.write_byte(self.registers.get_hl(), source_value);
                let hl = self.registers.get_hl();
                self.registers.set_hl(hl.wrapping_sub(1));
            },
        }
        match source {
            LoadByteSource::HLINC => {
                let hl = self.registers.get_hl();
                self.registers.set_hl(hl.wrapping_add(1));
            },
            LoadByteSource::HLDEC => {
                let hl = self.registers.get_hl();
                self.registers.set_hl(hl.wrapping_sub(1));
            },
            _ => {},
        }
    }

    fn byte_from_lbs(&mut self, source: &LoadByteSource) -> (r: u8)
        requires
            byte_source_ok(old(self)@, *source),
        ensures
            r == byte_source(old(self)@, *source),
            final(self)@ == byte_source_state(old(self)@, *source),
    {
        match source {
            LoadByteSource::A => self.registers.a,
            LoadByteSource::B => self.registers.b,
            LoadByteSource::C => self.registers.c,
            LoadByteSource::D => self.registers.d,
            LoadByteSource::E => self.registers.e,
            LoadByteSource::H => self.registers.h,
            LoadByteSource::L => self.registers.l,
            LoadByteSource::D8 => self.read_next_byte(),
            LoadByteSource::HLI | LoadByteSource::HLINC | LoadByteSource::HLDEC => {
                self.bus.read_byte(self.registers.get_hl())
            },
            LoadByteSource::BCI => self.bus.read_byte(self.registers.get_bc()),
            LoadByteSource::DEI => self.bus.read_byte(self.registers.get_de()),
        }
    }

    fn load_word_type(&mut self, target: LoadWordTarget, source: LoadWordSource)
        requires
            load_word_ok(old(self)@, target, source),
        ensures
            final(self)@ == load_word_spec(old(self)@, target, source),
    {
        let source_value = self.word_from_lws(&source);
        match target {
            LoadWordTarget::BC => self.registers.set_bc(source_value),
            LoadWordTarget::DE => self.registers.set_de(source_value),
            LoadWordTarget::HL => self.registers.set_hl(source_value),
            LoadWordTarget::SP => self.sp = source_value,
            LoadWordTarget::D16 => {
                let addr = self.read_next_word();
                self.bus.write_word(addr, self.sp);
            },
        }
    }

    fn word_from_lws(&mut self, source: &LoadWordSource) -> (r: u16)
        requires
            *source == LoadWordSource::D16 ==> next_word_ok(old(self)@),
        ensures
            r == word_source(old(self)@, *source),
            final(self)@ == word_source_state(old(self)@, *source),
    {
        match source {
            LoadWordSource::BC => self.registers.get_bc(),
            LoadWordSource::DE => self.registers.get_de(),
            LoadWordSource::HL => self.registers.get_hl(),
            LoadWordSource::SP => self.sp,
            LoadWordSource::D16 => self.read_next_word(),
        }
    }

    // Load A into the address given by the next word
    // - - - -
    fn load_a_into_next_byte(&mut self) -> (r: bool)
        requires
            next_word_ok(old(self)@),
            can_write(skip_word(old(self)@), next_word(old(self)@)),
        ensures
            final(self)@ == ldaby_spec(old(self)@),
            r,
    {
        proof {
            reveal(ldaby_spec);
        }
        let addr = self.read_next_word();
        self.bus.write_byte(addr, self.registers.a);
        true
    }

    // A = mem[nn]; nn = next_word()
    // - - - -
    fn load_byte_at_next_address_into_a(&mut self) -> (r: bool)
        requires
            next_word_ok(old(self)@),
            can_read(skip_word(old(self)@), next_word(old(self)@)),
        ensures
            final(self)@ == lda_spec(old(self)@),
            r,
    {
        proof {
            reveal(lda_spec);
        }
        let addr = self.read_next_word();
        self.registers.a = self.bus.read_byte(addr);
        true
    }

    // A = mem[0xff00 + C]
    // - - - -
    fn ldac(&mut self) -> (r: bool)
        requires
            can_read(old(self)@, high_page(old(self)@.registers.c)),
        ensures
            final(self)@ == with_a(old(self)@, read_at(old(self)@, high_page(old(self)@.registers.c))),
            r,
    {
        let value = self.bus.read_byte(0xFF00 + self.registers.c as u16);
        self.registers.a = value;
        true
    }

    // mem[0xff00 + C] = A
    // - - - -
    fn ldca(&mut self) -> (r: bool)
        requires
            can_write(old(self)@, high_page(old(self)@.registers.c)),
        ensures
            final(self)@ == write_at(old(self)@, high_page(old(self)@.registers.c), old(self)@.registers.a),
            r,
    {
        self.bus.write_byte(0xFF00 + self.registers.c as u16, self.registers.a);
        true
    }

    // put A into memory address $FF00+n
    // - - - -
    fn ldha(&mut self) -> (r: bool)
        requires
            next_byte_ok(old(self)@),
            can_write(advance(old(self)@), high_page(next_byte(old(self)@))),
        ensures
            final(self)@ == ldha_spec(old(self)@),
            r,
    {
        proof {
            reveal(ldha_spec);
        }
        let n = self.read_next_byte();
        self.bus.write_byte(0xFF00 + n as u16, self.registers.a);
        true
    }

    // A = mem[FF00 + n], n = mem.next
    // - - - -
    fn ldha8(&mut self) -> (r: bool)
        requires
            next_byte_ok(old(self)@),
            can_read(advance(old(self)@), high_page(next_byte(old(self)@))),
        ensures
            final(self)@ == ldha8_spec(old(self)@),
            r,
    {
        proof {
            reveal(ldha8_spec);
        }
        let n = self.read_next_byte();
        self.registers.a = self.bus.read_byte(0xFF00 + n as u16);
        true
    }

    /// Halt CPU until an interrupt occurs: a halted CPU runs no instruction,
    /// and servicing an interrupt ends the halt (see `interrupt_spec`).
    /// - - - -
    fn halt(&mut self) -> (r: bool)
        ensures
            final(self)@ == (CpuView { is_halted: true, ..old(self)@ }),
            r,
    {
        self.is_halted = true;
        true
    }

    // (SP-1) = ssh, (SP-2) = ssl, SP = SP-2
    // - - - -
    fn push_from_target(&mut self, target: StackTarget) -> (r: bool)
        requires
            push_ok(old(self)@, stack_register(old(self)@, target)),
        ensures
            final(self)@ == push_spec(old(self)@, stack_register(old(self)@, target)),
            r,
    {
        let value = self.stack_value(target);
        self.push(value)
    }

    // (SP-1) = ssh, (SP-2) = ssl, SP = SP-2
    // - - - -
    fn push(&mut self, value: u16) -> (r: bool)
        requires
            push_ok(old(self)@, value),
        ensures
            final(self)@ == push_spec(old(self)@, value),
            final(self)@.pc == old(self)@.pc,
            final(self)@.registers == old(self)@.registers,
            r,
    {
        proof {
            reveal(push_spec);
            reveal(push_ok);
        }
        self.sp = self.sp.wrapping_sub(1);
        self.bus.write_byte(self.sp, (value / 256) as u8);
        self.sp = self.sp.wrapping_sub(1);
        self.bus.write_byte(self.sp, (value % 256) as u8);
        true
    }

    fn pop_and_store(&mut self, target: StackTarget) -> (r: bool)
        requires
            pop_ok(old(self)@),
        ensures
            final(self)@ == pop_spec(old(self)@, target),
            r,
    {
        proof {
            reveal(pop_spec);
        }
        let result = self.pop();
        match target {
            StackTarget::AF => self.registers.set_af(result),
            StackTarget::BC => self.registers.set_bc(result),
            StackTarget::DE => self.registers.set_de(result),
            StackTarget::HL => self.registers.set_hl(result),
        }
        true
    }

    // ddl == (SP), ddh = (SP+1), SP = SP+2
    fn pop(&mut self) -> (r: u16)
        requires
            pop_ok(old(self)@),
        ensures
            r == stack_top(old(self)@),
            final(self)@ == pop_state(old(self)@),
    {
        proof {
            reveal(pop_ok);
        }
        let lsb = self.bus.read_byte(self.sp);
        self.sp = self.sp.wrapping_add(1);
        let msb = self.bus.read_byte(self.sp);
        self.sp = self.sp.wrapping_add(1);
        msb as u16 * 256 + lsb as u16
    }

    /// Pushes the address of the next instruction onto the stack and jumps
    /// to the word operand
    /// - - - -
    fn call(&mut self, should_jump: bool) -> (r: bool)
        requires
            call_ok(old(self)@, should_jump),
        ensures
            final(self)@ == call_spec(old(self)@, should_jump),
            !r,
    {
        proof {
            reveal(call_spec);
            reveal(call_ok);
        }
        let next_pc = self.pc.wrapping_add(3);
        if should_jump {
            self.push(next_pc);
            self.pc = self.bus.read_word(self.pc.wrapping_add(1));
        } else {
            self.pc = next_pc;
        }
        false
    }

    /// Pops the stack and jumps to that address
    /// - - - -
    fn ret(&mut self, should_jump: bool) -> (r: bool)
        requires
            should_jump ==> pop_ok(old(self)@),
        ensures
            final(self)@ == ret_spec(old(self)@, should_jump),
            r == !should_jump,
    {
        proof {
            reveal(ret_spec);
        }
        if should_jump {
            self.pc = self.pop();
            false
        } else {
            true
        }
    }

    fn reti(&mut self) -> (r: bool)
        requires
            pop_ok(old(self)@),
        ensures
            final(self)@ == reti_spec(old(self)@),
            r,
    {
        proof {
            reveal(reti_spec);
            reveal(pop_ok);
        }
        self.ime = false;
        self.pc = self.pop();
        true
    }

    fn rst(&mut self, addr: RestartAddr) -> (r: bool)
        requires
            push_ok(old(self)@, old(self)@.pc),
        ensures
            final(self)@ == rst_spec(old(self)@, addr),
            r,
    {
        proof {
            reveal(rst_spec);
        }
        self.push(self.pc);
        self.pc = addr.address();
        true
    }

    // - - - -
    fn jump_to_address_hl(&mut self) -> (r: bool)
        ensures
            final(self)@ == with_pc(old(self)@, old(self)@.registers.hl()),
            r,
    {
        self.pc = self.registers.get_hl();
        true
    }

    fn enable_interupts(&mut self) -> (r: bool)
        ensures
            final(self)@ == (CpuView { ime: true, ..old(self)@ }),
            r,
    {
        self.ime = true;
        true
    }

    fn disable_interupts(&mut self) -> (r: bool)
        ensures
            final(self)@ == (CpuView { ime: false, ..old(self)@ }),
            r,
    {
        self.ime = false;
        true
    }

    /// Runs one instruction and returns the address to continue from (the
    /// next byte, unless the instruction set the program counter itself) and
    /// the cycles it took; taken jumps, calls and returns take their longer
    /// count. A halted CPU runs nothing and reports no cycles.
    pub fn execute(&mut self, instruction: Instruction) -> (r: (u16, u8))
        requires
            execute_ok(old(self)@, instruction),
        ensures
            (final(self)@, r) == execute_spec(old(self)@, instruction),
    {
        proof {
            reveal(execute_spec);
            reveal(execute_ok);
        }
        let mut inc_pc = true;
        let mut cycles: u8 = 0;
        if !self.is_halted {
            let (i, c) = self.run(instruction);
            inc_pc = i;
            cycles = c;
        }
        let mut new_pc = self.pc;
        if inc_pc {
            new_pc = self.pc.wrapping_add(1);
        }
        (new_pc, cycles)
    }

    fn run(&mut self, instruction: Instruction) -> (r: (bool, u8))
        requires
            instruction_ok(old(self)@, instruction),
        ensures
            (final(self)@, r.0, r.1) == instruction_effect(old(self)@, instruction),
    {
        match instruction {
            Instruction::ADD(..) | Instruction::ADDHL(..) | Instruction::ADDSP(..) | Instruction::INC16(..) | Instruction::DEC16(..) | Instruction::SUB(..) | Instruction::ADC(..) | Instruction::SBC(..) | Instruction::AND(..) | Instruction::OR(..) | Instruction::XOR(..) | Instruction::CP(..) | Instruction::INC(..) | Instruction::DEC(..) | Instruction::CCF(..) | Instruction::SCF(..) | Instruction::DAA(..) | Instruction::CPL(..) | Instruction::LDHLSP(..) => self.run_arithmetic(instruction),
            Instruction::RRA(..) | Instruction::RLA(..) | Instruction::RRCA(..) | Instruction::RLCA(..) | Instruction::BIT(..) | Instruction::RESET(..) | Instruction::SET(..) | Instruction::SRL(..) | Instruction::RL(..) | Instruction::RR(..) | Instruction::RRC(..) | Instruction::RLC(..) | Instruction::SRA(..) | Instruction::SLA(..) | Instruction::SWAP(..) => self.run_bits(instruction),
            Instruction::JP(..) | Instruction::JPHL(..) | Instruction::JR(..) | Instruction::HALT(..) | Instruction::NOP(..) | Instruction::STOP(..) | Instruction::CALL(..) | Instruction::RET(..) | Instruction::RETI(..) | Instruction::RST(..) | Instruction::EI(..) | Instruction::DI(..) => self.run_control(instruction),
            Instruction::LD(..) | Instruction::LDAC(..) | Instruction::LDCA(..) | Instruction::PUSH(..) | Instruction::POP(..) | Instruction::LDHA(..) | Instruction::LDHA8(..) | Instruction::LDABY(..) | Instruction::LDA(..) => self.run_memory(instruction),
        }
    }

    /// Arithmetic and flag instructions.
    #[verifier::spinoff_prover]
    #[verifier::rlimit(100)]
    fn run_arithmetic(&mut self, instruction: Instruction) -> (r: (bool, u8))
        requires
            instruction_ok(old(self)@, instruction),
            instruction is ADD || instruction is ADDHL || instruction is ADDSP || instruction is INC16 || instruction is DEC16 || instruction is SUB || instruction is ADC || instruction is SBC || instruction is AND || instruction is OR || instruction is XOR || instruction is CP || instruction is INC || instruction is DEC || instruction is CCF || instruction is SCF || instruction is DAA || instruction is CPL || instruction is LDHLSP,
        ensures
            (final(self)@, r.0, r.1) == instruction_effect(old(self)@, instruction),
    {
        match instruction {
            Instruction::ADD(target, cycles) => (self.add(target), cycles),
            Instruction::ADDHL(target, cycles) => (self.addhl(target), cycles),
            Instruction::ADDSP(cycles) => (self.addsp(), cycles),
            Instruction::INC16(target, cycles) => (self.inc_16(target), cycles),
            Instruction::DEC16(target, cycles) => (self.dec_16(target), cycles),
            Instruction::SUB(target, cycles) => (self.sub(target), cycles),
            Instruction::ADC(target, cycles) => (self.adc(target), cycles),
            Instruction::SBC(target, cycles) => (self.sbc(target), cycles),
            Instruction::AND(target, cycles) => (self.and(target), cycles),
            Instruction::OR(target, cycles) => (self.or(target), cycles),
            Instruction::XOR(target, cycles) => (self.xor(target), cycles),
            Instruction::CP(target, cycles) => (self.cp(target), cycles),
            Instruction::INC(target, cycles) => (self.inc(target), cycles),
            Instruction::DEC(target, cycles) => (self.dec(target), cycles),
            Instruction::CCF(cycles) => (self.ccf(), cycles),
            Instruction::SCF(cycles) => (self.scf(), cycles),
            // not implemented: `instruction_ok` rules it out
            Instruction::DAA(cycles) => (true, cycles),
            Instruction::CPL(cycles) => (self.cpl(), cycles),
            Instruction::LDHLSP(cycles) => (self.ldhlsp(), cycles),
            _ => (true, 0),
        }
    }

    /// Rotates, shifts and single-bit instructions.
    #[verifier::spinoff_prover]
    #[verifier::rlimit(100)]
    fn run_bits(&mut self, instruction: Instruction) -> (r: (bool, u8))
        requires
            instruction_ok(old(self)@, instruction),
            instruction is RRA || instruction is RLA || instruction is RRCA || instruction is RLCA || instruction is BIT || instruction is RESET || instruction is SET || instruction is SRL || instruction is RL || instruction is RR || instruction is RRC || instruction is RLC || instruction is SRA || instruction is SLA || instruction is SWAP,
        ensures
            (final(self)@, r.0, r.1) == instruction_effect(old(self)@, instruction),
    {
        match instruction {
            Instruction::RRA(cycles) => (self.rra(), cycles),
            Instruction::RLA(cycles) => (self.rla(), cycles),
            Instruction::RRCA(cycles) => (self.rrca(), cycles),
            Instruction::RLCA(cycles) => (self.rlca(), cycles),
            Instruction::BIT(index, target, cycles) => (self.bit(index, target), cycles),
            Instruction::RESET(index, target, cycles) => (self.reset(index, target), cycles),
            Instruction::SET(index, target, cycles) => (self.set(index, target), cycles),
            Instruction::SRL(target, cycles) => (self.srl(target), cycles),
            Instruction::RL(target, cycles) => (self.rl(target), cycles),
            Instruction::RR(target, cycles) => (self.rr(target), cycles),
            Instruction::RRC(target, cycles) => (self.rrc(target), cycles),
            Instruction::RLC(target, cycles) => (self.rlc(target), cycles),
            Instruction::SRA(target, cycles) => (self.sra(target), cycles),
            Instruction::SLA(target, cycles) => (self.sla(target), cycles),
            Instruction::SWAP(target, cycles) => (self.swap(target), cycles),
            _ => (true, 0),
        }
    }

    /// Jumps, calls, returns and CPU control.
    #[verifier::spinoff_prover]
    #[verifier::rlimit(100)]
    fn run_control(&mut self, instruction: Instruction) -> (r: (bool, u8))
        requires
            instruction_ok(old(self)@, instruction),
            instruction is JP || instruction is JPHL || instruction is JR || instruction is HALT || instruction is NOP || instruction is STOP || instruction is CALL || instruction is RET || instruction is RETI || instruction is RST || instruction is EI || instruction is DI,
        ensures
            (final(self)@, r.0, r.1) == instruction_effect(old(self)@, instruction),
    {
        match instruction {
            Instruction::JP(condition, cycles, taken_cycles) => {
                let taken = self.should_jump(condition);
                (self.jump(taken), if taken { taken_cycles } else { cycles })
            },
            Instruction::JPHL(cycles) => (self.jump_to_address_hl(), cycles),
            Instruction::JR(condition, cycles, taken_cycles) => {
                let taken = self.should_jump(condition);
                (self.jump_relative(taken), if taken { taken_cycles } else { cycles })
            },
            Instruction::HALT(cycles) => (self.halt(), cycles),
            Instruction::NOP(cycles) => (true, cycles),
            // not implemented: `instruction_ok` rules it out
            Instruction::STOP(cycles) => (true, cycles),
            Instruction::CALL(condition, cycles, taken_cycles) => {
                let taken = self.should_jump(condition);
                (self.call(taken), if taken { taken_cycles } else { cycles })
            },
            Instruction::RET(condition, cycles, taken_cycles) => {
                let taken = self.should_jump(condition);
                (self.ret(taken), if taken { taken_cycles } else { cycles })
            },
            Instruction::RETI(cycles) => (self.reti(), cycles),
            Instruction::RST(addr, cycles) => (self.rst(addr), cycles),
            Instruction::EI(cycles) => (self.enable_interupts(), cycles),
            Instruction::DI(cycles) => (self.disable_interupts(), cycles),
            _ => (true, 0),
        }
    }

    /// Loads and the stack.
    #[verifier::spinoff_prover]
    #[verifier::rlimit(100)]
    fn run_memory(&mut self, instruction: Instruction) -> (r: (bool, u8))
        requires
            instruction_ok(old(self)@, instruction),
            instruction is LD || instruction is LDAC || instruction is LDCA || instruction is PUSH || instruction is POP || instruction is LDHA || instruction is LDHA8 || instruction is LDABY || instruction is LDA,
        ensures
            (final(self)@, r.0, r.1) == instruction_effect(old(self)@, instruction),
    {
        match instruction {
            Instruction::LD(load_type, cycles) => (self.load(load_type), cycles),
            Instruction::LDAC(cycles) => (self.ldac(), cycles),
            Instruction::LDCA(cycles) => (self.ldca(), cycles),
            Instruction::PUSH(target, cycles) => (self.push_from_target(target), cycles),
            Instruction::POP(target, cycles) => (self.pop_and_store(target), cycles),
            Instruction::LDHA(cycles) => (self.ldha(), cycles),
            Instruction::LDHA8(cycles) => (self.ldha8(), cycles),
            Instruction::LDABY(cycles) => (self.load_a_into_next_byte(), cycles),
            Instruction::LDA(cycles) => (self.load_byte_at_next_address_into_a(), cycles),
            _ => (true, 0),
        }
    }

    /// One step: fetches the opcode at the program counter (the byte after a
    /// 0xCB prefix for prefixed ones), runs its instruction, moves the program
    /// counter on, lets the devices run for the instruction's cycles, then
    /// services a pending interrupt.
    #[verifier::spinoff_prover]
    #[verifier::rlimit(50)]
    pub fn step(&mut self)
        requires
            step_ok(old(self)@),
        ensures
            final(self)@ == step_spec(old(self)@),
    {
        let (instruction, prefixed) = self.fetch();
        let (next_pc, cycles) = self.execute(instruction);
        self.finish_step(next_pc, cycles, prefixed);
        self.handle_interrupts();
    }

    /// Fetches and decodes the instruction at the program counter, and
    /// whether it came after a 0xCB prefix.
    fn fetch(&self) -> (r: (Instruction, bool))
        requires
            fetch_ok(self@),
        ensures
            r.0 == fetched_instruction(self@),
            r.1 == fetched_prefixed(self@),
    {
        let mut instruction_byte = self.bus.read_byte(self.pc);
        let prefixed = instruction_byte == 0xCB;
        if prefixed {
            instruction_byte = self.bus.read_byte(self.pc + 1);
        }
        match Instruction::from_byte(instruction_byte, prefixed) {
            Some(instruction) => (instruction, prefixed),
            // `fetch_ok` rules this out
            None => (Instruction::NOP(0), prefixed),
        }
    }

    /// Whether the opcode at the program counter can be fetched, and the
    /// fetched instruction and prefix when it can.
    fn try_fetch(&self) -> (r: Option<(Instruction, bool)>)
        ensures
            r is Some <==> fetch_ok(self@),
            r is Some ==> r->0 == (fetched_instruction(self@), fetched_prefixed(self@)),
    {
        if !self.bus.readable(self.pc) {
            return None;
        }
        let mut instruction_byte = self.bus.read_byte(self.pc);
        let prefixed = instruction_byte == 0xCB;
        if prefixed {
            if self.pc == 0xFFFF || !self.bus.readable(self.pc + 1) {
                return None;
            }
            instruction_byte = self.bus.read_byte(self.pc + 1);
        }
        match Instruction::from_byte(instruction_byte, prefixed) {
            Some(instruction) => Some((instruction, prefixed)),
            None => None,
        }
    }

    /// Moves the program counter past the instruction (one more after a
    /// prefix) and lets the devices run for its cycles.
    fn finish_step(&mut self, next_pc: u16, cycles: u8, prefixed: bool)
        requires
            prefixed ==> next_pc < 0xFFFF,
        ensures
            final(self)@ == (CpuView {
                pc: (next_pc + if prefixed { 1int } else { 0int }) as u16,
                bus: bus_step(old(self)@.bus, cycles),
                ..old(self)@
            }),
    {
        let prefix: u16 = if prefixed { 1 } else { 0 };
        self.pc = next_pc + prefix;
        self.bus.step(cycles);
    }

    fn handle_interrupts(&mut self)
        requires
            handle_interrupts_ok(old(self)@),
        ensures
            final(self)@ == handle_interrupts_spec(old(self)@),
    {
        if self.ime {
            match self.bus.return_interrupt() {
                Interrupt::VBlank => self.execute_interrupt(V_BLANK_ISR),
                Interrupt::LcdStat => self.execute_interrupt(LCD_ISR),
                Interrupt::TimerOverflow => self.execute_interrupt(TIMER_ISR),
                Interrupt::SerialLink => self.execute_interrupt(SERIAL_ISR),
                Interrupt::JoypadPress => self.execute_interrupt(JOYPAD_ISR),
                Interrupt::NONE => {},
            }
        }
    }

    fn execute_interrupt(&mut self, isr: u16)
        requires
            push_ok(old(self)@, old(self)@.pc),
        ensures
            final(self)@ == interrupt_spec(old(self)@, isr),
    {
        self.push(self.pc);
        self.pc = isr;
        self.bus.interrupt_flag_off();
        self.is_halted = false;
    }

    fn stack_value(&self, target: StackTarget) -> (r: u16)
        ensures
            r == stack_register(self@, target),
    {
        match target {
            StackTarget::AF => self.registers.get_af(),
            StackTarget::BC => self.registers.get_bc(),
            StackTarget::DE => self.registers.get_de(),
            StackTarget::HL => self.registers.get_hl(),
        }
    }

    /// Whether an 8-bit operand can be read.
    fn operand_readable(&self, target: &ArithmeticTarget) -> (r: bool)
        ensures
            r == operand_ok(self@, *target),
    {
        proof {
            reveal(operand_ok);
        }
        match target {
            ArithmeticTarget::HLI => self.bus.readable(self.registers.get_hl()),
            ArithmeticTarget::D8 => self.bus.readable(self.pc.wrapping_add(1)),
            _ => true,
        }
    }

    /// Whether an 8-bit operand can be read and stored back.
    fn operand_modifiable(&self, target: &ArithmeticTarget) -> (r: bool)
        ensures
            r == read_modify_ok(self@, *target),
    {
        proof {
            reveal(operand_ok);
            reveal(read_modify_ok);
        }
        match target {
            ArithmeticTarget::HLI => {
                let hl = self.registers.get_hl();
                self.bus.readable(hl) && self.bus.writable(hl)
            },
            ArithmeticTarget::D8 => false,
            _ => true,
        }
    }

    /// Whether a word can be pushed.
    fn can_push(&self, value: u16) -> (r: bool)
        ensures
            r == push_ok(self@, value),
    {
        proof {
            reveal(push_ok);
        }
        let first = self.sp.wrapping_sub(1);
        if !self.bus.writable(first) {
            return false;
        }
        proof {
            lemma_write_keeps_writable(self.bus@, first, high(value), first.wrapping_sub(1));
        }
        self.bus.writable(first.wrapping_sub(1))
    }

    /// Whether a word can be popped.
    fn can_pop(&self) -> (r: bool)
        ensures
            r == pop_ok(self@),
    {
        proof {
            reveal(pop_ok);
        }
        self.bus.readable(self.sp) && self.bus.readable(self.sp.wrapping_add(1))
    }

    fn byte_source_readable(&self, source: &LoadByteSource) -> (r: bool)
        ensures
            r == byte_source_ok(self@, *source),
    {
        match source {
            LoadByteSource::D8 => self.bus.readable(self.pc.wrapping_add(1)),
            LoadByteSource::HLI | LoadByteSource::HLINC | LoadByteSource::HLDEC => {
                self.bus.readable(self.registers.get_hl())
            },
            LoadByteSource::BCI => self.bus.readable(self.registers.get_bc()),
            LoadByteSource::DEI => self.bus.readable(self.registers.get_de()),
            _ => true,
        }
    }

    fn byte_target_writable(&self, target: &LoadByteTarget) -> (r: bool)
        ensures
            r == byte_target_ok(self@, *target),
    {
        match target {
            LoadByteTarget::HLI | LoadByteTarget::HLINC | LoadByteTarget::HLDEC => {
                self.bus.writable(self.registers.get_hl())
            },
            LoadByteTarget::BCI => self.bus.writable(self.registers.get_bc()),
            LoadByteTarget::DEI => self.bus.writable(self.registers.get_de()),
            _ => true,
        }
    }

    /// Whether a load can run.
    fn load_can_run(&self, load_type: &LoadType) -> (r: bool)
        ensures
            r == load_ok(self@, *load_type),
    {
        proof {
            reveal(load_ok);
        }
        match load_type {
            LoadType::Byte(target, source) => self.byte_source_readable(source)
                && self.byte_target_writable(target),
            LoadType::Word(target, source) => {
                let mut pc = self.pc;
                let reads_word = match source {
                    LoadWordSource::D16 => true,
                    _ => false,
                };
                if reads_word {
                    if !self.bus.word_readable(pc.wrapping_add(1)) {
                        return false;
                    }
                    pc = pc.wrapping_add(1).wrapping_add(1);
                }
                match target {
                    LoadWordTarget::D16 => {
                        let operand = pc.wrapping_add(1);
                        self.bus.word_readable(operand) && self.bus.word_writable(
                            self.bus.read_word(operand),
                            self.sp,
                        )
                    },
                    _ => true,
                }
            },
        }
    }

    /// Whether `taken_call` holds.
    fn is_taken_call(&self, instruction: &Instruction) -> (r: bool)
        ensures
            r == taken_call(self@, *instruction),
    {
        if self.is_halted {
            return false;
        }
        match instruction {
            Instruction::CALL(condition, _, _) => self.should_jump(*condition),
            _ => false,
        }
    }

    /// Whether `execute` can run the instruction, for every instruction but
    /// a taken CALL (see `taken_call`).
    fn can_execute(&self, instruction: &Instruction) -> (r: bool)
        ensures
            !taken_call(self@, *instruction) ==> r == execute_ok(self@, *instruction),
    {
        proof {
            reveal(execute_ok);
        }
        if self.is_halted {
            return true;
        }
        match instruction {
            Instruction::ADD(..) | Instruction::ADDHL(..) | Instruction::ADDSP(..) | Instruction::INC16(..) | Instruction::DEC16(..) | Instruction::SUB(..) | Instruction::ADC(..) | Instruction::SBC(..) | Instruction::AND(..) | Instruction::OR(..) | Instruction::XOR(..) | Instruction::CP(..) | Instruction::INC(..) | Instruction::DEC(..) | Instruction::CCF(..) | Instruction::SCF(..) | Instruction::DAA(..) | Instruction::CPL(..) | Instruction::LDHLSP(..) => self.can_run_arithmetic(instruction),
            Instruction::RRA(..) | Instruction::RLA(..) | Instruction::RRCA(..) | Instruction::RLCA(..) | Instruction::BIT(..) | Instruction::RESET(..) | Instruction::SET(..) | Instruction::SRL(..) | Instruction::RL(..) | Instruction::RR(..) | Instruction::RRC(..) | Instruction::RLC(..) | Instruction::SRA(..) | Instruction::SLA(..) | Instruction::SWAP(..) => self.can_run_bits(instruction),
            Instruction::JP(..) | Instruction::JPHL(..) | Instruction::JR(..) | Instruction::HALT(..) | Instruction::NOP(..) | Instruction::STOP(..) | Instruction::CALL(..) | Instruction::RET(..) | Instruction::RETI(..) | Instruction::RST(..) | Instruction::EI(..) | Instruction::DI(..) => self.can_run_control(instruction),
            Instruction::LD(..) | Instruction::LDAC(..) | Instruction::LDCA(..) | Instruction::PUSH(..) | Instruction::POP(..) | Instruction::LDHA(..) | Instruction::LDHA8(..) | Instruction::LDABY(..) | Instruction::LDA(..) => self.can_run_memory(instruction),
        }
    }

    /// `can_execute` for the arithmetic and flag instructions.
    #[verifier::spinoff_prover]
    #[verifier::rlimit(100)]
    fn can_run_arithmetic(&self, instruction: &Instruction) -> (r: bool)
        requires
            !self.is_halted,
            *instruction is ADD || *instruction is ADDHL || *instruction is ADDSP || *instruction is INC16 || *instruction is DEC16 || *instruction is SUB || *instruction is ADC || *instruction is SBC || *instruction is AND || *instruction is OR || *instruction is XOR || *instruction is CP || *instruction is INC || *instruction is DEC || *instruction is CCF || *instruction is SCF || *instruction is DAA || *instruction is CPL || *instruction is LDHLSP,
        ensures
            !taken_call(self@, *instruction) ==> r == instruction_ok(self@, *instruction),
    {
        match instruction {
            Instruction::ADD(t, _) | Instruction::SUB(t, _) | Instruction::ADC(t, _)
            | Instruction::SBC(t, _) | Instruction::AND(t, _) | Instruction::OR(t, _)
            | Instruction::XOR(t, _) | Instruction::CP(t, _) => self.operand_readable(t),
            Instruction::ADDSP(_) | Instruction::LDHLSP(_) => self.bus.readable(
                self.pc.wrapping_add(1),
            ),
            Instruction::INC(t, _) | Instruction::DEC(t, _) => self.operand_modifiable(t),
            Instruction::DAA(_) => false,
            _ => true,
        }
    }

    /// `can_execute` for the rotates, shifts and single-bit instructions.
    #[verifier::spinoff_prover]
    #[verifier::rlimit(100)]
    fn can_run_bits(&self, instruction: &Instruction) -> (r: bool)
        requires
            !self.is_halted,
            *instruction is RRA || *instruction is RLA || *instruction is RRCA || *instruction is RLCA || *instruction is BIT || *instruction is RESET || *instruction is SET || *instruction is SRL || *instruction is RL || *instruction is RR || *instruction is RRC || *instruction is RLC || *instruction is SRA || *instruction is SLA || *instruction is SWAP,
        ensures
            !taken_call(self@, *instruction) ==> r == instruction_ok(self@, *instruction),
    {
        match instruction {
            Instruction::SRL(t, _) | Instruction::RL(t, _) | Instruction::RR(t, _) | Instruction::RRC(t, _) | Instruction::RLC(t, _) | Instruction::SRA(t, _) | Instruction::SLA(t, _) | Instruction::SWAP(t, _) => self.operand_modifiable(t),
            Instruction::BIT(index, t, _) => *index < 8 && self.operand_readable(t),
            Instruction::RESET(index, t, _) | Instruction::SET(index, t, _) => *index < 8
                && self.operand_modifiable(t),
            _ => true,
        }
    }

    /// `can_execute` for the jumps, calls, returns and CPU control.
    #[verifier::spinoff_prover]
    #[verifier::rlimit(100)]
    fn can_run_control(&self, instruction: &Instruction) -> (r: bool)
        requires
            !self.is_halted,
            *instruction is JP || *instruction is JPHL || *instruction is JR || *instruction is HALT || *instruction is NOP || *instruction is STOP || *instruction is CALL || *instruction is RET || *instruction is RETI || *instruction is RST || *instruction is EI || *instruction is DI,
        ensures
            !taken_call(self@, *instruction) ==> r == instruction_ok(self@, *instruction),
    {
        match instruction {
            Instruction::STOP(_) => false,
            Instruction::JP(condition, _, _) => {
                proof {
                    reveal(jump_ok);
                }
                !self.should_jump(*condition) || (self.bus.readable(self.pc.wrapping_add(1))
                    && self.bus.readable(self.pc.wrapping_add(2)))
            },
            Instruction::JR(_, _, _) => self.bus.readable(self.pc.wrapping_add(1)),
            Instruction::RETI(_) => self.can_pop(),
            Instruction::CALL(condition, _, _) => {
                proof {
                    reveal(call_ok);
                }
                !self.should_jump(*condition)
            },
            Instruction::RET(condition, _, _) => !self.should_jump(*condition) || self.can_pop(),
            Instruction::RST(_, _) => self.can_push(self.pc),
            _ => true,
        }
    }

    /// `can_execute` for the loads and the stack.
    #[verifier::spinoff_prover]
    #[verifier::rlimit(100)]
    fn can_run_memory(&self, instruction: &Instruction) -> (r: bool)
        requires
            !self.is_halted,
            *instruction is LD || *instruction is LDAC || *instruction is LDCA || *instruction is PUSH || *instruction is POP || *instruction is LDHA || *instruction is LDHA8 || *instruction is LDABY || *instruction is LDA,
        ensures
            !taken_call(self@, *instruction) ==> r == instruction_ok(self@, *instruction),
    {
        match instruction {
            Instruction::LD(load_type, _) => self.load_can_run(load_type),
            Instruction::LDAC(_) => self.bus.readable(0xFF00 + self.registers.c as u16),
            Instruction::LDCA(_) => self.bus.writable(0xFF00 + self.registers.c as u16),
            Instruction::PUSH(t, _) => self.can_push(self.stack_value(*t)),
            Instruction::POP(_, _) => self.can_pop(),
            Instruction::LDHA(_) => {
                let operand = self.pc.wrapping_add(1);
                self.bus.readable(operand) && self.bus.writable(
                    0xFF00 + self.bus.read_byte(operand) as u16,
                )
            },
            Instruction::LDHA8(_) => {
                let operand = self.pc.wrapping_add(1);
                self.bus.readable(operand) && self.bus.readable(
                    0xFF00 + self.bus.read_byte(operand) as u16,
                )
            },
            Instruction::LDABY(_) => {
                let operand = self.pc.wrapping_add(1);
                self.bus.word_readable(operand) && self.bus.writable(self.bus.read_word(operand))
            },
            Instruction::LDA(_) => {
                let operand = self.pc.wrapping_add(1);
                self.bus.word_readable(operand) && self.bus.readable(self.bus.read_word(operand))
            },
            _ => true,
        }
    }

    /// Runs a taken CALL, checking each bus access before it is made: its
    /// target is read after the push, from the bus as the push left it.
    fn run_taken_call(&mut self, instruction: &Instruction) -> (r: Option<(u16, u8)>)
        requires
            taken_call(old(self)@, *instruction),
        ensures
            r is Some <==> execute_ok(old(self)@, *instruction),
            r is Some ==> (final(self)@, r->0) == execute_spec(old(self)@, *instruction),
    {
        proof {
            reveal(call_ok);
            reveal(call_spec);
            reveal(execute_spec);
            reveal(execute_ok);
        }
        let taken_cycles = match instruction {
            Instruction::CALL(_, _, taken_cycles) => *taken_cycles,
            _ => 0,
        };
        let next_pc = self.pc.wrapping_add(3);
        if !self.can_push(next_pc) {
            return None;
        }
        self.push(next_pc);
        if !self.bus.word_readable(self.pc.wrapping_add(1)) {
            return None;
        }
        self.pc = self.bus.read_word(self.pc.wrapping_add(1));
        Some((self.pc, taken_cycles))
    }

    /// Whether servicing interrupts can run.
    fn interrupt_can_run(&self) -> (r: bool)
        ensures
            r == handle_interrupts_ok(self@),
    {
        if !self.ime {
            return true;
        }
        match self.bus.return_interrupt() {
            Interrupt::NONE => true,
            _ => self.can_push(self.pc),
        }
    }

    /// Runs one step when it can run and reports whether it could: a step
    /// fails where an opcode names no instruction, or names DAA or STOP, which
    /// are not emulated, or where a bus access is
    /// not served (see `step_ok`). After a failure the state is unspecified.
    #[verifier::spinoff_prover]
    #[verifier::rlimit(50)]
    pub fn try_step(&mut self) -> (r: bool)
        ensures
            r == step_ok(old(self)@),
            r ==> final(self)@ == step_spec(old(self)@),
    {
        let (instruction, prefixed) = match self.try_fetch() {
            Some(fetched) => fetched,
            None => {
                return false;
            },
        };
        let (next_pc, cycles) = match self.try_execute(instruction) {
            Some(result) => result,
            None => {
                return false;
            },
        };
        if prefixed && next_pc == 0xFFFF {
            return false;
        }
        self.finish_step(next_pc, cycles, prefixed);
        if !self.interrupt_can_run() {
            return false;
        }
        self.handle_interrupts();
        true
    }

    /// Runs an instruction when it can run, and reports its result; after a
    /// failure the state is unspecified.
    fn try_execute(&mut self, instruction: Instruction) -> (r: Option<(u16, u8)>)
        ensures
            r is Some <==> execute_ok(old(self)@, instruction),
            r is Some ==> (final(self)@, r->0) == execute_spec(old(self)@, instruction),
    {
        if self.is_taken_call(&instruction) {
            self.run_taken_call(&instruction)
        } else {
            if !self.can_execute(&instruction) {
                return None;
            }
            Some(self.execute(instruction))
        }
    }
}

} // verus!
