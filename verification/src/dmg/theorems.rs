//! Properties that span several instructions or functions of the CPU.

use vstd::prelude::*;
use crate::dmg::bus::{
    bus_read, bus_write, is_memory_address, lemma_boot_rom_overlay,
    lemma_bus_memory_read_after_write, lemma_memory_write_keeps_readable,
};
use crate::dmg::cartridge::cartridge_read;
use crate::dmg::instructions::{
    decode, is_undefined_opcode, ArithmeticTarget, Instruction, JumpCond, StackTarget,
};
use crate::dmg::memory::{pending_interrupt, physical, Interrupt};
use crate::dmg::registers::{lemma_pair_self_write, Flags, Registers};
use crate::dmg::semantics::{
    add_spec, condition_holds, dec_spec, execute_ok, execute_spec, handle_interrupts_spec,
    inc_spec, operand, operand_ok, pop_ok, pop_spec, push_ok, push_spec, read_at,
    read_modify_ok, stack_register, stack_top, sub_spec, write_at, with_pc, call_spec,
    ret_spec, interrupt_spec, call_ok, can_read, jump_relative_spec, next_byte, next_byte_ok,
    signed_offset, or_spec, and_spec, xor_spec, bit_mask, set_spec, reset_spec, bit_spec,
    rlc_spec, rrc_spec, sla_spec, srl_spec, swap_spec, rlca_spec, rrca_spec, rotate_left,
    rotate_right, shift_left, cp_spec, CpuView,
};

verus! {

/// The two stack bytes below SP lie in plain memory.
pub open spec fn stack_in_memory(s: CpuView) -> bool {
    &&& s.bus.memory.len() == 0x10000
    &&& is_memory_address(s.sp.wrapping_sub(1))
    &&& is_memory_address(s.sp.wrapping_sub(2))
}

/// A word pushed onto a stack in plain memory can be popped, and it is the
/// word on top of the stack; the push moves SP down by two and keeps the
/// registers and program counter.
pub proof fn lemma_push_then_top(s: CpuView, value: u16)
    requires
        stack_in_memory(s),
    ensures
        push_ok(s, value),
        pop_ok(push_spec(s, value)),
        stack_top(push_spec(s, value)) == value,
        push_spec(s, value).sp == s.sp.wrapping_sub(1).wrapping_sub(1),
        push_spec(s, value).registers == s.registers,
        push_spec(s, value).pc == s.pc,
        push_spec(s, value).is_halted == s.is_halted,
        push_spec(s, value).ime == s.ime,
        push_spec(s, value).bus.memory.len() == 0x10000,
{
    reveal(push_spec);
    reveal(push_ok);
    reveal(pop_ok);
    let hi = (value / 256) as u8;
    let lo = (value % 256) as u8;
    let a1 = s.sp.wrapping_sub(1);
    let a2 = a1.wrapping_sub(1);
    let b1 = bus_write(s.bus, a1, hi);
    let b2 = bus_write(b1, a2, lo);
    reveal(bus_write);
    assert(b1.memory.len() == 0x10000);
    assert(b2.memory.len() == 0x10000);
    lemma_bus_memory_read_after_write(s.bus, a1, hi, a2);
    lemma_bus_memory_read_after_write(b1, a2, lo, a2);
    lemma_bus_memory_read_after_write(b1, a2, lo, a1);
    lemma_bus_memory_read_after_write(s.bus, a1, hi, a1);
    lemma_bus_memory_read_after_write(b2, a2, 0, a1);
    lemma_bus_memory_read_after_write(b2, a2, 0, a2);
    assert(physical(a1) != physical(a2));
    assert(a2.wrapping_add(1) == a1);
    assert(push_spec(s, value).bus == b2);
}

/// PUSH followed by POP of the same register pair leaves every register,
/// the stack pointer and the program counter as they were (the stack bytes
/// lie in plain memory).
pub proof fn lemma_push_pop_restores(s: CpuView, t: StackTarget, push_cycles: u8, pop_cycles: u8)
    requires
        stack_in_memory(s),
        !s.is_halted,
    ensures
        execute_ok(s, Instruction::PUSH(t, push_cycles)),
        ({
            let (s1, (pc1, _)) = execute_spec(s, Instruction::PUSH(t, push_cycles));
            let (s2, (pc2, _)) = execute_spec(s1, Instruction::POP(t, pop_cycles));
            &&& execute_ok(s1, Instruction::POP(t, pop_cycles))
            &&& s2.registers == s.registers
            &&& s2.sp == s.sp
            &&& s2.pc == s.pc
            &&& pc1 == pc2
        }),
{
    let v = stack_register(s, t);
    lemma_push_then_top(s, v);
    let push = Instruction::PUSH(t, push_cycles);
    let pop = Instruction::POP(t, pop_cycles);
    let s1 = push_spec(s, v);
    let s2 = pop_spec(s1, t);
    assert(execute_ok(s, push) && execute_ok(s1, pop)) by {
        reveal(execute_ok);
    }
    assert(execute_spec(s, push) == (s1, (s1.pc.wrapping_add(1), push_cycles))) by {
        reveal(execute_spec);
    }
    assert(execute_spec(s1, pop) == (s2, (s2.pc.wrapping_add(1), pop_cycles))) by {
        reveal(execute_spec);
    }
    assert(s2.registers == s.registers && s2.sp == s.sp && s2.pc == s.pc) by {
        reveal(pop_spec);
        lemma_pair_self_write(s.registers);
    }
}

/// A taken CALL followed by a RET under the same condition comes back to
/// the instruction after the CALL, three bytes on, with the stack pointer
/// as it was; between the two the stack holds that return address. The CALL
/// runs where its operand word can be read and its stack bytes lie in plain
/// memory other than 0xFF50.
pub proof fn lemma_call_then_ret(
    s: CpuView,
    cond: JumpCond,
    call_cycles: u8,
    call_taken_cycles: u8,
    ret_cycles: u8,
    ret_taken_cycles: u8,
)
    requires
        stack_in_memory(s),
        s.sp.wrapping_sub(1) != 0xFF50,
        s.sp.wrapping_sub(2) != 0xFF50,
        !s.is_halted,
        condition_holds(s, cond),
        s.pc.wrapping_add(1) < 0xFFFF,
        can_read(s, s.pc.wrapping_add(1)),
        can_read(s, s.pc.wrapping_add(2)),
    ensures
        execute_ok(s, Instruction::CALL(cond, call_cycles, call_taken_cycles)),
        ({
            let (s1, _) = execute_spec(s, Instruction::CALL(cond, call_cycles, call_taken_cycles));
            let (s2, (next_pc, cycles)) = execute_spec(
                s1,
                Instruction::RET(cond, ret_cycles, ret_taken_cycles),
            );
            &&& s1.sp == s.sp.wrapping_sub(1).wrapping_sub(1)
            &&& stack_top(s1) == s.pc.wrapping_add(3)
            &&& execute_ok(s1, Instruction::RET(cond, ret_cycles, ret_taken_cycles))
            &&& next_pc == s.pc.wrapping_add(3)
            &&& s2.sp == s.sp
            &&& cycles == ret_taken_cycles
        }),
{
    reveal(call_spec);
    reveal(ret_spec);
    reveal(pop_ok);
    let next = s.pc.wrapping_add(3);
    lemma_push_then_top(s, next);
    let call = Instruction::CALL(cond, call_cycles, call_taken_cycles);
    let ret = Instruction::RET(cond, ret_cycles, ret_taken_cycles);
    // the push keeps the operand word readable
    let a1 = s.sp.wrapping_sub(1);
    let a2 = a1.wrapping_sub(1);
    let b1 = bus_write(s.bus, a1, (next / 256) as u8);
    let o1 = s.pc.wrapping_add(1);
    let o2 = s.pc.wrapping_add(2);
    lemma_memory_write_keeps_readable(s.bus, a1, (next / 256) as u8, o1);
    lemma_memory_write_keeps_readable(s.bus, a1, (next / 256) as u8, o2);
    lemma_memory_write_keeps_readable(b1, a2, (next % 256) as u8, o1);
    lemma_memory_write_keeps_readable(b1, a2, (next % 256) as u8, o2);
    assert(push_spec(s, next).bus == bus_write(b1, a2, (next % 256) as u8)) by {
        reveal(push_spec);
    }
    assert((o1 + 1) as u16 == o2);
    assert(call_ok(s, true)) by {
        reveal(call_ok);
    }
    assert(execute_ok(s, call)) by {
        reveal(execute_ok);
    }
    let s1 = call_spec(s, true);
    assert(execute_spec(s, call).0 == s1) by {
        reveal(execute_spec);
    }
    assert(s1.registers == s.registers);
    assert(condition_holds(s1, cond));
    assert(stack_top(s1) == next);
    let s2 = ret_spec(s1, true);
    assert(execute_ok(s1, ret)) by {
        reveal(execute_ok);
    }
    assert(execute_spec(s1, ret) == (s2, (s2.pc, ret_taken_cycles))) by {
        reveal(execute_spec);
    }
}

/// JR runs for every offset byte: when taken the program counter becomes the
/// address after the two-byte instruction plus the signed offset (wrapping),
/// otherwise the address of the instruction's last byte, so that execution
/// continues right after it; the reported address is the new one.
pub proof fn lemma_relative_jump(s: CpuView, cond: JumpCond, cycles: u8, taken_cycles: u8)
    requires
        !s.is_halted,
        next_byte_ok(s),
    ensures
        execute_ok(s, Instruction::JR(cond, cycles, taken_cycles)),
        ({
            let (t, (next_pc, _)) = execute_spec(s, Instruction::JR(cond, cycles, taken_cycles));
            &&& next_pc == t.pc
            &&& condition_holds(s, cond) ==> t.pc as int == (s.pc + 2 + signed_offset(
                next_byte(s),
            )) % 0x10000
            &&& !condition_holds(s, cond) ==> t.pc as int == (s.pc + 2) % 0x10000
        }),
{
    reveal(execute_ok);
    reveal(execute_spec);
    reveal(jump_relative_spec);
}

/// A halted CPU runs no instruction: the state is unchanged and execution
/// would continue at the next byte, after no cycles.
pub proof fn lemma_halted_runs_nothing(s: CpuView, i: Instruction)
    requires
        s.is_halted,
    ensures
        execute_ok(s, i),
        execute_spec(s, i) == (s, (s.pc.wrapping_add(1), 0u8)),
{
    reveal(execute_spec);
    reveal(execute_ok);
}

/// Every CB-prefixed opcode names an instruction; an unprefixed opcode names
/// one unless it is one of the eleven undefined opcodes.
pub proof fn lemma_decoder_total(byte: u8)
    ensures
        decode(byte, true) is Some,
        byte != 0xCB ==> (decode(byte, false) is None <==> is_undefined_opcode(byte)),
{
    reveal(decode);
}

/// Skipping the boot sequence unmaps the boot ROM: 0x0000..=0x00FF then read
/// the cartridge.
pub proof fn lemma_skip_unmaps_boot_rom(s: CpuView, address: u16)
    requires
        s.bus.memory.len() == 0x10000,
        address <= 0xFF,
    ensures
        read_at(with_pc(write_at(s, 0xFF50, 1), 0x100), address) == cartridge_read(
            s.bus.cartridge,
            address,
        ),
{
    lemma_boot_rom_overlay(s.bus, address, 1);
}

/// With the master enable set and a V-blank interrupt pending (bit 0 of both
/// 0xFFFF and 0xFF0F), servicing interrupts saves the program counter on the
/// stack, enters 0x0040, clears the flag register and ends a halt (the stack
/// bytes lie in plain memory other than that register).
pub proof fn lemma_vblank_is_serviced(s: CpuView)
    requires
        stack_in_memory(s),
        s.sp.wrapping_sub(1) != 0xFF0F,
        s.sp.wrapping_sub(2) != 0xFF0F,
        s.ime,
        s.bus.memory[0xFFFF] % 2 == 1,
        s.bus.memory[0xFF0F] % 2 == 1,
    ensures
        ({
            let t = handle_interrupts_spec(s);
            &&& t.pc == 0x40
            &&& !t.is_halted
            &&& stack_top(t) == s.pc
            &&& t.sp == s.sp.wrapping_sub(1).wrapping_sub(1)
            &&& t.bus.memory[0xFF0F] == 0
        }),
{
    lemma_push_then_top(s, s.pc);
    let p = push_spec(s, s.pc);
    let t = handle_interrupts_spec(s);
    assert(pending_interrupt(s.bus.memory[0xFFFF], s.bus.memory[0xFF0F]) == Interrupt::VBlank);
    assert(t == interrupt_spec(s, 0x40));
    reveal(bus_read);
    assert(p.sp.wrapping_add(1) == s.sp.wrapping_sub(1));
    assert(physical(p.sp) != 0xFF0F);
    assert(physical(p.sp.wrapping_add(1)) != 0xFF0F);
    assert(stack_top(t) == stack_top(p));
}

/// INC followed by DEC of a register leaves the register as it was.
pub proof fn lemma_inc_then_dec(s: CpuView, t: ArithmeticTarget)
    requires
        t != ArithmeticTarget::HLI,
        t != ArithmeticTarget::D8,
    ensures
        read_modify_ok(s, t),
        read_modify_ok(inc_spec(s, t), t),
        operand(dec_spec(inc_spec(s, t), t), t) == operand(s, t),
{
    reveal(inc_spec);
    reveal(dec_spec);
    reveal(read_modify_ok);
    reveal(operand_ok);
}

/// ADD followed by SUB of the same register (other than A) gives A back.
pub proof fn lemma_add_then_sub(s: CpuView, t: ArithmeticTarget)
    requires
        t != ArithmeticTarget::A,
        t != ArithmeticTarget::HLI,
        t != ArithmeticTarget::D8,
    ensures
        sub_spec(add_spec(s, t), t).registers.a == s.registers.a,
{
    reveal(add_spec);
    reveal(sub_spec);
}

/// Bit `k` of a byte.
pub open spec fn bit(b: u8, k: u8) -> bool {
    (b >> k) & 1 == 1
}

/// OR, AND and XOR act bit by bit.
pub proof fn lemma_bitwise_bits(a: u8, v: u8)
    by (bit_vector)
    ensures
        forall|k: u8| k < 8 ==> (#[trigger] bit(a | v, k) <==> (bit(a, k) || bit(v, k))),
        forall|k: u8| k < 8 ==> (#[trigger] bit(a & v, k) <==> (bit(a, k) && bit(v, k))),
        forall|k: u8| k < 8 ==> (#[trigger] bit(a ^ v, k) <==> (bit(a, k) != bit(v, k))),
{
}

/// OR, AND and XOR combine A with the operand bit by bit: after OR a bit of
/// A is set exactly when it was set in A or in the operand, after AND when it
/// was set in both, after XOR when it was set in exactly one. Z is set exactly
/// when the new A is 0, N and C are cleared, and H is set by AND alone.
pub proof fn lemma_logic_operations(s: CpuView, t: ArithmeticTarget, c: u8)
    requires
        !s.is_halted,
    ensures
        ({
            let a = s.registers.a;
            let v = operand(s, t);
            let or_r = execute_spec(s, Instruction::OR(t, c)).0.registers;
            let and_r = execute_spec(s, Instruction::AND(t, c)).0.registers;
            let xor_r = execute_spec(s, Instruction::XOR(t, c)).0.registers;
            &&& forall|k: u8| k < 8 ==> (#[trigger] bit(or_r.a, k) <==> (bit(a, k) || bit(v, k)))
            &&& forall|k: u8| k < 8 ==> (#[trigger] bit(and_r.a, k) <==> (bit(a, k) && bit(v, k)))
            &&& forall|k: u8| k < 8 ==> (#[trigger] bit(xor_r.a, k) <==> (bit(a, k) != bit(v, k)))
            &&& or_r.f == Flags { zero: or_r.a == 0, negative: false, half_carry: false, carry: false }
            &&& and_r.f == Flags { zero: and_r.a == 0, negative: false, half_carry: true, carry: false }
            &&& xor_r.f == Flags { zero: xor_r.a == 0, negative: false, half_carry: false, carry: false }
        }),
{
    reveal(execute_spec);
    reveal(or_spec);
    reveal(and_spec);
    reveal(xor_spec);
    lemma_bitwise_bits(s.registers.a, operand(s, t));
}

/// ADD and SUB are arithmetic modulo 256 on A: ADD gives (A + v) mod 256 and
/// sets C exactly when A + v passes 255 and H when the low nibbles carry;
/// SUB gives (A - v) mod 256 and sets C exactly when v exceeds A and H when
/// the low nibble of v exceeds that of A. Z is set exactly when the new A is
/// 0; N is cleared by ADD and set by SUB.
pub proof fn lemma_add_sub_arithmetic(s: CpuView, t: ArithmeticTarget, c: u8)
    requires
        !s.is_halted,
    ensures
        ({
            let a = s.registers.a;
            let v = operand(s, t);
            let add_r = execute_spec(s, Instruction::ADD(t, c)).0.registers;
            let sub_r = execute_spec(s, Instruction::SUB(t, c)).0.registers;
            &&& add_r.a as int == (a + v) % 256
            &&& add_r.f == Flags {
                zero: add_r.a == 0,
                negative: false,
                half_carry: a % 16 + v % 16 > 15,
                carry: a + v > 255,
            }
            &&& sub_r.a as int == (a - v) % 256
            &&& sub_r.f == Flags {
                zero: sub_r.a == 0,
                negative: true,
                half_carry: a % 16 < v % 16,
                carry: v > a,
            }
        }),
{
    reveal(execute_spec);
    reveal(add_spec);
    reveal(sub_spec);
}

/// An 8-bit register operand (not memory, not an immediate byte).
pub open spec fn is_register(t: ArithmeticTarget) -> bool {
    t != ArithmeticTarget::HLI && t != ArithmeticTarget::D8
}

/// INC and DEC of a register count it up or down by one modulo 256: Z is set
/// exactly when the new value is 0, H when the low nibble carries (INC from
/// x..F) or borrows (DEC from x..0), N is cleared by INC and set by DEC, and
/// C is left as it was.
pub proof fn lemma_inc_dec_arithmetic(s: CpuView, t: ArithmeticTarget, c: u8)
    requires
        !s.is_halted,
        is_register(t),
    ensures
        ({
            let v = operand(s, t);
            let i = execute_spec(s, Instruction::INC(t, c)).0;
            let d = execute_spec(s, Instruction::DEC(t, c)).0;
            &&& operand(i, t) as int == (v + 1) % 256
            &&& i.registers.f == Flags {
                zero: operand(i, t) == 0,
                negative: false,
                half_carry: v % 16 == 15,
                carry: s.registers.f.carry,
            }
            &&& operand(d, t) as int == (v - 1) % 256
            &&& d.registers.f == Flags {
                zero: operand(d, t) == 0,
                negative: true,
                half_carry: v % 16 == 0,
                carry: s.registers.f.carry,
            }
        }),
{
    let v = operand(s, t);
    let i = inc_spec(s, t);
    let d = dec_spec(s, t);
    assert(execute_spec(s, Instruction::INC(t, c)).0 == i) by {
        reveal(execute_spec);
    }
    assert(execute_spec(s, Instruction::DEC(t, c)).0 == d) by {
        reveal(execute_spec);
    }
    lemma_inc_register(s, t);
    lemma_dec_register(s, t);
}

/// INC of a register, by its definition.
proof fn lemma_inc_register(s: CpuView, t: ArithmeticTarget)
    requires
        is_register(t),
    ensures
        ({
            let v = operand(s, t);
            let i = inc_spec(s, t);
            &&& operand(i, t) as int == (v + 1) % 256
            &&& i.registers.f == Flags {
                zero: operand(i, t) == 0,
                negative: false,
                half_carry: v % 16 == 15,
                carry: s.registers.f.carry,
            }
        }),
{
    reveal(inc_spec);
    let v = operand(s, t);
    let r = v.wrapping_add(1);
    assert(r as int == (v + 1) % 256);
    assert(operand(inc_spec(s, t), t) == r);
}

/// DEC of a register, by its definition.
proof fn lemma_dec_register(s: CpuView, t: ArithmeticTarget)
    requires
        is_register(t),
    ensures
        ({
            let v = operand(s, t);
            let d = dec_spec(s, t);
            &&& operand(d, t) as int == (v - 1) % 256
            &&& d.registers.f == Flags {
                zero: operand(d, t) == 0,
                negative: true,
                half_carry: v % 16 == 0,
                carry: s.registers.f.carry,
            }
        }),
{
    reveal(dec_spec);
    let v = operand(s, t);
    let r = v.wrapping_sub(1);
    assert(r as int == (v - 1) % 256);
    assert(operand(dec_spec(s, t), t) == r);
}

/// The one-bit mask of bit `k` (below 8) is 1 shifted left by `k`.
proof fn lemma_bit_mask_shift(k: u8)
    requires
        k < 8,
    ensures
        bit_mask(k) == 1u8 << k,
{
    assert(1u8 << 0u8 == 1u8) by (bit_vector);
    assert(1u8 << 1u8 == 2u8) by (bit_vector);
    assert(1u8 << 2u8 == 4u8) by (bit_vector);
    assert(1u8 << 3u8 == 8u8) by (bit_vector);
    assert(1u8 << 4u8 == 16u8) by (bit_vector);
    assert(1u8 << 5u8 == 32u8) by (bit_vector);
    assert(1u8 << 6u8 == 64u8) by (bit_vector);
    assert(1u8 << 7u8 == 128u8) by (bit_vector);
}

/// Setting, clearing and testing one bit of a byte.
proof fn lemma_single_bit(v: u8, k: u8)
    by (bit_vector)
    requires
        k < 8,
    ensures
        bit(v | (1u8 << k), k),
        !bit(v & !(1u8 << k), k),
        ((v & (1u8 << k)) == 0) <==> !bit(v, k),
        forall|j: u8| j < 8 && j != k ==> (#[trigger] bit(v | (1u8 << k), j) <==> bit(v, j)),
        forall|j: u8| j < 8 && j != k ==> (#[trigger] bit(v & !(1u8 << k), j) <==> bit(v, j)),
{
}

/// SET and RES of bit `k` of a register change that bit alone (SET sets it,
/// RES clears it) and leave the flags; BIT sets Z exactly when the bit is
/// clear, clears N, sets H and leaves C.
pub proof fn lemma_bit_operations(s: CpuView, k: u8, t: ArithmeticTarget, c: u8)
    requires
        !s.is_halted,
        is_register(t),
        k < 8,
    ensures
        ({
            let v = operand(s, t);
            let set = operand(execute_spec(s, Instruction::SET(k, t, c)).0, t);
            let res = operand(execute_spec(s, Instruction::RESET(k, t, c)).0, t);
            let tested = execute_spec(s, Instruction::BIT(k, t, c)).0.registers.f;
            &&& bit(set, k)
            &&& !bit(res, k)
            &&& forall|j: u8| j < 8 && j != k ==> (#[trigger] bit(set, j) <==> bit(v, j))
            &&& forall|j: u8| j < 8 && j != k ==> (#[trigger] bit(res, j) <==> bit(v, j))
            &&& execute_spec(s, Instruction::SET(k, t, c)).0.registers.f == s.registers.f
            &&& execute_spec(s, Instruction::RESET(k, t, c)).0.registers.f == s.registers.f
            &&& tested == Flags {
                zero: !bit(v, k),
                negative: false,
                half_carry: true,
                carry: s.registers.f.carry,
            }
        }),
{
    let v = operand(s, t);
    let set_s = set_spec(s, k, t);
    let res_s = reset_spec(s, k, t);
    let bit_s = bit_spec(s, k, t);
    assert(execute_spec(s, Instruction::SET(k, t, c)).0 == set_s) by {
        reveal(execute_spec);
    }
    assert(execute_spec(s, Instruction::RESET(k, t, c)).0 == res_s) by {
        reveal(execute_spec);
    }
    assert(execute_spec(s, Instruction::BIT(k, t, c)).0 == bit_s) by {
        reveal(execute_spec);
    }
    lemma_bit_mask_shift(k);
    lemma_single_bit(v, k);
    assert(operand(set_s, t) == v | bit_mask(k) && set_s.registers.f == s.registers.f) by {
        reveal(set_spec);
    }
    assert(operand(res_s, t) == v & !bit_mask(k) && res_s.registers.f == s.registers.f) by {
        reveal(reset_spec);
    }
    assert(bit_s.registers.f == Flags {
        zero: v & bit_mask(k) == 0,
        negative: false,
        half_carry: true,
        carry: s.registers.f.carry,
    }) by {
        reveal(bit_spec);
    }
}

/// The bits of a byte rotated left.
proof fn lemma_byte_rotl(v: u8, r: u8)
    by (bit_vector)
    requires
        r as u16 == (v as u16 * 2) % 256 + v as u16 / 128,
    ensures
        bit(r, 0) == bit(v, 7),
        bit(r, 1) == bit(v, 0),
        bit(r, 2) == bit(v, 1),
        bit(r, 3) == bit(v, 2),
        bit(r, 4) == bit(v, 3),
        bit(r, 5) == bit(v, 4),
        bit(r, 6) == bit(v, 5),
        bit(r, 7) == bit(v, 6),
{
}

/// The bits of a byte rotated right.
proof fn lemma_byte_rotr(v: u8, r: u8)
    by (bit_vector)
    requires
        r as u16 == v as u16 / 2 + (v as u16 % 2) * 128,
    ensures
        bit(r, 0) == bit(v, 1),
        bit(r, 1) == bit(v, 2),
        bit(r, 2) == bit(v, 3),
        bit(r, 3) == bit(v, 4),
        bit(r, 4) == bit(v, 5),
        bit(r, 5) == bit(v, 6),
        bit(r, 6) == bit(v, 7),
        bit(r, 7) == bit(v, 0),
{
}

/// The bits of a byte shifted left.
proof fn lemma_byte_shl(v: u8, r: u8)
    by (bit_vector)
    requires
        r as u16 == (v as u16 * 2) % 256,
    ensures
        bit(r, 0) == false,
        bit(r, 1) == bit(v, 0),
        bit(r, 2) == bit(v, 1),
        bit(r, 3) == bit(v, 2),
        bit(r, 4) == bit(v, 3),
        bit(r, 5) == bit(v, 4),
        bit(r, 6) == bit(v, 5),
        bit(r, 7) == bit(v, 6),
{
}

/// The bits of a byte shifted right.
proof fn lemma_byte_shr(v: u8, r: u8)
    by (bit_vector)
    requires
        r == v / 2,
    ensures
        bit(r, 0) == bit(v, 1),
        bit(r, 1) == bit(v, 2),
        bit(r, 2) == bit(v, 3),
        bit(r, 3) == bit(v, 4),
        bit(r, 4) == bit(v, 5),
        bit(r, 5) == bit(v, 6),
        bit(r, 6) == bit(v, 7),
        bit(r, 7) == false,
{
}

/// The bits of a byte with its nibbles swapped.
proof fn lemma_byte_swap(v: u8, r: u8)
    by (bit_vector)
    requires
        r as u16 == (v as u16 % 16) * 16 + v as u16 / 16,
    ensures
        bit(r, 0) == bit(v, 4),
        bit(r, 1) == bit(v, 5),
        bit(r, 2) == bit(v, 6),
        bit(r, 3) == bit(v, 7),
        bit(r, 4) == bit(v, 0),
        bit(r, 5) == bit(v, 1),
        bit(r, 6) == bit(v, 2),
        bit(r, 7) == bit(v, 3),
{
}

/// The top and bottom bits of a byte.
proof fn lemma_end_bits(v: u8)
    by (bit_vector)
    ensures
        (v >= 128) == bit(v, 7),
        (v % 2 == 1) == bit(v, 0),
{
}

/// How rotating, shifting and swapping nibbles move the bits of a byte.
proof fn lemma_shift_bits(v: u8)
    ensures
        forall|k: u8| k < 8 ==> (#[trigger] bit(rotate_left(v), k) <==> bit(v, ((k + 7) % 8) as u8)),
        forall|k: u8| k < 8 ==> (#[trigger] bit(rotate_right(v), k) <==> bit(v, ((k + 1) % 8) as u8)),
        forall|k: u8| k < 8 ==> (#[trigger] bit(shift_left(v), k) <==> (k > 0 && bit(v, (k - 1) as u8))),
        forall|k: u8| k < 8 ==> (#[trigger] bit(v / 2, k) <==> (k < 7 && bit(v, (k + 1) as u8))),
        forall|k: u8|
            k < 8 ==> (#[trigger] bit(((v % 16) * 16 + v / 16) as u8, k) <==> bit(v, ((k + 4) % 8) as u8)),
        (v >= 128) == bit(v, 7),
        (v % 2 == 1) == bit(v, 0),
{
    lemma_byte_rotl(v, rotate_left(v));
    lemma_byte_rotr(v, rotate_right(v));
    lemma_byte_shl(v, shift_left(v));
    lemma_byte_shr(v, v / 2);
    lemma_byte_swap(v, ((v % 16) * 16 + v / 16) as u8);
    lemma_end_bits(v);
    assert forall|k: u8| k < 8 implies (#[trigger] bit(rotate_left(v), k) <==> bit(
        v,
        ((k + 7) % 8) as u8,
    )) by {
        if k == 0 {} else if k == 1 {} else if k == 2 {} else if k == 3 {} else if k == 4 {} else if k == 5 {} else if k == 6 {} else {}
    }
    assert forall|k: u8| k < 8 implies (#[trigger] bit(rotate_right(v), k) <==> bit(
        v,
        ((k + 1) % 8) as u8,
    )) by {
        if k == 0 {} else if k == 1 {} else if k == 2 {} else if k == 3 {} else if k == 4 {} else if k == 5 {} else if k == 6 {} else {}
    }
    assert forall|k: u8| k < 8 implies (#[trigger] bit(shift_left(v), k) <==> (k > 0 && bit(
        v,
        (k - 1) as u8,
    ))) by {
        if k == 0 {} else if k == 1 {} else if k == 2 {} else if k == 3 {} else if k == 4 {} else if k == 5 {} else if k == 6 {} else {}
    }
    assert forall|k: u8| k < 8 implies (#[trigger] bit(v / 2, k) <==> (k < 7 && bit(
        v,
        (k + 1) as u8,
    ))) by {
        if k == 0 {} else if k == 1 {} else if k == 2 {} else if k == 3 {} else if k == 4 {} else if k == 5 {} else if k == 6 {} else {}
    }
    assert forall|k: u8| k < 8 implies (#[trigger] bit(((v % 16) * 16 + v / 16) as u8, k) <==> bit(
        v,
        ((k + 4) % 8) as u8,
    )) by {
        if k == 0 {} else if k == 1 {} else if k == 2 {} else if k == 3 {} else if k == 4 {} else if k == 5 {} else if k == 6 {} else {}
    }
}

/// RLC rotates a register left: bit k moves to bit k + 1 and bit 7 round to bit 0 and into C.
/// Z is set exactly when the result is 0; N and H are cleared.
pub proof fn lemma_rlc_bits(s: CpuView, t: ArithmeticTarget, c: u8)
    requires
        !s.is_halted,
        is_register(t),
    ensures
        ({
            let v = operand(s, t);
            let n = execute_spec(s, Instruction::RLC(t, c)).0;
            &&& forall|k: u8| k < 8 ==> (#[trigger] bit(operand(n, t), k) <==> bit(v, ((k + 7) % 8) as u8))
            &&& n.registers.f == Flags {
                zero: operand(n, t) == 0,
                negative: false,
                half_carry: false,
                carry: bit(v, 7),
            }
        }),
{
    let v = operand(s, t);
    lemma_shift_bits(v);
    assert(execute_spec(s, Instruction::RLC(t, c)).0 == rlc_spec(s, t)) by {
        reveal(execute_spec);
    }
    assert(operand(rlc_spec(s, t), t) == rotate_left(v) && rlc_spec(s, t).registers.f == Flags {
        zero: rotate_left(v) == 0,
        negative: false,
        half_carry: false,
        carry: v >= 128,
    }) by {
        reveal(rlc_spec);
    }
}

/// RRC rotates a register right: bit k moves to bit k - 1 and bit 0 round to bit 7 and into C.
/// Z is set exactly when the result is 0; N and H are cleared.
pub proof fn lemma_rrc_bits(s: CpuView, t: ArithmeticTarget, c: u8)
    requires
        !s.is_halted,
        is_register(t),
    ensures
        ({
            let v = operand(s, t);
            let n = execute_spec(s, Instruction::RRC(t, c)).0;
            &&& forall|k: u8| k < 8 ==> (#[trigger] bit(operand(n, t), k) <==> bit(v, ((k + 1) % 8) as u8))
            &&& n.registers.f == Flags {
                zero: operand(n, t) == 0,
                negative: false,
                half_carry: false,
                carry: bit(v, 0),
            }
        }),
{
    let v = operand(s, t);
    lemma_shift_bits(v);
    assert(execute_spec(s, Instruction::RRC(t, c)).0 == rrc_spec(s, t)) by {
        reveal(execute_spec);
    }
    assert(operand(rrc_spec(s, t), t) == rotate_right(v) && rrc_spec(s, t).registers.f == Flags {
        zero: rotate_right(v) == 0,
        negative: false,
        half_carry: false,
        carry: v % 2 == 1,
    }) by {
        reveal(rrc_spec);
    }
}

/// SLA shifts a register left: bit k moves to bit k + 1, bit 0 is cleared and bit 7 goes to C.
/// Z is set exactly when the result is 0; N and H are cleared.
pub proof fn lemma_sla_bits(s: CpuView, t: ArithmeticTarget, c: u8)
    requires
        !s.is_halted,
        is_register(t),
    ensures
        ({
            let v = operand(s, t);
            let n = execute_spec(s, Instruction::SLA(t, c)).0;
            &&& forall|k: u8| k < 8 ==> (#[trigger] bit(operand(n, t), k) <==> (k > 0 && bit(v, (k - 1) as u8)))
            &&& n.registers.f == Flags {
                zero: operand(n, t) == 0,
                negative: false,
                half_carry: false,
                carry: bit(v, 7),
            }
        }),
{
    let v = operand(s, t);
    lemma_shift_bits(v);
    assert(execute_spec(s, Instruction::SLA(t, c)).0 == sla_spec(s, t)) by {
        reveal(execute_spec);
    }
    assert(operand(sla_spec(s, t), t) == shift_left(v) && sla_spec(s, t).registers.f == Flags {
        zero: shift_left(v) == 0,
        negative: false,
        half_carry: false,
        carry: v >= 128,
    }) by {
        reveal(sla_spec);
    }
}

/// SRL shifts a register right: bit k moves to bit k - 1, bit 7 is cleared and bit 0 goes to C.
/// Z is set exactly when the result is 0; N and H are cleared.
pub proof fn lemma_srl_bits(s: CpuView, t: ArithmeticTarget, c: u8)
    requires
        !s.is_halted,
        is_register(t),
    ensures
        ({
            let v = operand(s, t);
            let n = execute_spec(s, Instruction::SRL(t, c)).0;
            &&& forall|k: u8| k < 8 ==> (#[trigger] bit(operand(n, t), k) <==> (k < 7 && bit(v, (k + 1) as u8)))
            &&& n.registers.f == Flags {
                zero: operand(n, t) == 0,
                negative: false,
                half_carry: false,
                carry: bit(v, 0),
            }
        }),
{
    let v = operand(s, t);
    lemma_shift_bits(v);
    assert(execute_spec(s, Instruction::SRL(t, c)).0 == srl_spec(s, t)) by {
        reveal(execute_spec);
    }
    assert(operand(srl_spec(s, t), t) == v / 2 && srl_spec(s, t).registers.f == Flags {
        zero: v / 2 == 0,
        negative: false,
        half_carry: false,
        carry: v % 2 == 1,
    }) by {
        reveal(srl_spec);
    }
}

/// SWAP exchanges the nibbles of a register: bit k moves to bit k + 4
/// (mod 8). Z is set exactly when the result is 0; N, H and C are kept.
pub proof fn lemma_swap_bits(s: CpuView, t: ArithmeticTarget, c: u8)
    requires
        !s.is_halted,
        is_register(t),
    ensures
        ({
            let v = operand(s, t);
            let n = execute_spec(s, Instruction::SWAP(t, c)).0;
            &&& forall|k: u8| k < 8 ==> (#[trigger] bit(operand(n, t), k) <==> bit(v, ((k + 4) % 8) as u8))
            &&& n.registers.f == Flags { zero: operand(n, t) == 0, ..s.registers.f }
        }),
{
    let v = operand(s, t);
    lemma_shift_bits(v);
    assert(execute_spec(s, Instruction::SWAP(t, c)).0 == swap_spec(s, t)) by {
        reveal(execute_spec);
    }
    assert(operand(swap_spec(s, t), t) == ((v % 16) * 16 + v / 16) as u8 && swap_spec(
        s,
        t,
    ).registers.f == Flags { zero: ((v % 16) * 16 + v / 16) as u8 == 0, ..s.registers.f }) by {
        reveal(swap_spec);
    }
}

/// RLCA and RRCA rotate A left and right as RLC and RRC do, the bit moved
/// round going to C; they clear Z, N and H.
pub proof fn lemma_rotate_a_bits(s: CpuView, c: u8)
    requires
        !s.is_halted,
    ensures
        ({
            let a = s.registers.a;
            let l = execute_spec(s, Instruction::RLCA(c)).0.registers;
            let r = execute_spec(s, Instruction::RRCA(c)).0.registers;
            &&& forall|k: u8| k < 8 ==> (#[trigger] bit(l.a, k) <==> bit(a, ((k + 7) % 8) as u8))
            &&& forall|k: u8| k < 8 ==> (#[trigger] bit(r.a, k) <==> bit(a, ((k + 1) % 8) as u8))
            &&& l.f == Flags { zero: false, negative: false, half_carry: false, carry: bit(a, 7) }
            &&& r.f == Flags { zero: false, negative: false, half_carry: false, carry: bit(a, 0) }
        }),
{
    let a = s.registers.a;
    lemma_shift_bits(a);
    assert(execute_spec(s, Instruction::RLCA(c)).0 == rlca_spec(s)) by {
        reveal(execute_spec);
    }
    assert(execute_spec(s, Instruction::RRCA(c)).0 == rrca_spec(s)) by {
        reveal(execute_spec);
    }
    assert(rlca_spec(s).registers.a == rotate_left(a) && rlca_spec(s).registers.f == Flags {
        zero: false,
        negative: false,
        half_carry: false,
        carry: a >= 128,
    }) by {
        reveal(rlca_spec);
    }
    assert(rrca_spec(s).registers.a == rotate_right(a) && rrca_spec(s).registers.f == Flags {
        zero: false,
        negative: false,
        half_carry: false,
        carry: a % 2 == 1,
    }) by {
        reveal(rrca_spec);
    }
}

/// CP compares: it sets the flags exactly as SUB of the same operand would
/// and leaves A (and every other register) as it was.
pub proof fn lemma_compare_is_subtraction_without_result(s: CpuView, t: ArithmeticTarget, c: u8)
    requires
        !s.is_halted,
    ensures
        ({
            let cp = execute_spec(s, Instruction::CP(t, c)).0.registers;
            let sub = execute_spec(s, Instruction::SUB(t, c)).0.registers;
            &&& cp.f == sub.f
            &&& cp.a == s.registers.a
            &&& cp == (Registers { f: sub.f, ..s.registers })
        }),
{
    reveal(execute_spec);
    reveal(cp_spec);
    reveal(sub_spec);
}

} // verus!
