use vstd::prelude::*;
use crate::dmg::memory::{load_type_of, LoadType};

verus! {

/// CPU cycles of each CB-prefixed opcode.
pub const PREFIXED_OPERATION_CYCLES: [u8; 256] = [
    8, 8, 8, 8, 8, 8, 16, 8, 8, 8, 8, 8, 8, 8, 16, 8,
    8, 8, 8, 8, 8, 8, 16, 8, 8, 8, 8, 8, 8, 8, 16, 8,
    8, 8, 8, 8, 8, 8, 16, 8, 8, 8, 8, 8, 8, 8, 16, 8,
    8, 8, 8, 8, 8, 8, 16, 8, 8, 8, 8, 8, 8, 8, 16, 8,
    8, 8, 8, 8, 8, 8, 16, 8, 8, 8, 8, 8, 8, 8, 16, 8,
    8, 8, 8, 8, 8, 8, 16, 8, 8, 8, 8, 8, 8, 8, 16, 8,
    8, 8, 8, 8, 8, 8, 16, 8, 8, 8, 8, 8, 8, 8, 16, 8,
    8, 8, 8, 8, 8, 8, 16, 8, 8, 8, 8, 8, 8, 8, 16, 8,
    8, 8, 8, 8, 8, 8, 16, 8, 8, 8, 8, 8, 8, 8, 16, 8,
    8, 8, 8, 8, 8, 8, 16, 8, 8, 8, 8, 8, 8, 8, 16, 8,
    8, 8, 8, 8, 8, 8, 16, 8, 8, 8, 8, 8, 8, 8, 16, 8,
    8, 8, 8, 8, 8, 8, 16, 8, 8, 8, 8, 8, 8, 8, 16, 8,
    8, 8, 8, 8, 8, 8, 16, 8, 8, 8, 8, 8, 8, 8, 16, 8,
    8, 8, 8, 8, 8, 8, 16, 8, 8, 8, 8, 8, 8, 8, 16, 8,
    8, 8, 8, 8, 8, 8, 16, 8, 8, 8, 8, 8, 8, 8, 16, 8,
    8, 8, 8, 8, 8, 8, 16, 8, 8, 8, 8, 8, 8, 8, 16, 8,
];

/// CPU cycles of each unprefixed opcode. Conditional jumps, calls and returns
/// list the cycles when the condition fails; `conditional_cycle` gives those
/// when it holds.
pub const OPERATION_CYCLES: [u8; 256] = [
    4, 12, 8, 8, 4, 4, 8, 4, 20, 8, 8, 8, 4, 4, 8, 4,
    4, 12, 8, 8, 4, 4, 8, 4, 12, 8, 8, 8, 4, 4, 8, 4,
    8, 12, 8, 8, 4, 4, 8, 4, 8, 8, 8, 8, 4, 4, 8, 4,
    8, 12, 8, 8, 12, 12, 12, 4, 8, 8, 8, 8, 4, 4, 8, 4,
    4, 4, 4, 4, 4, 4, 8, 4, 4, 4, 4, 4, 4, 4, 8, 4,
    4, 4, 4, 4, 4, 4, 8, 4, 4, 4, 4, 4, 4, 4, 8, 4,
    4, 4, 4, 4, 4, 4, 8, 4, 4, 4, 4, 4, 4, 4, 8, 4,
    8, 8, 8, 8, 8, 8, 4, 8, 4, 4, 4, 4, 4, 4, 8, 4,
    4, 4, 4, 4, 4, 4, 8, 4, 4, 4, 4, 4, 4, 4, 8, 4,
    4, 4, 4, 4, 4, 4, 8, 4, 4, 4, 4, 4, 4, 4, 8, 4,
    4, 4, 4, 4, 4, 4, 8, 4, 4, 4, 4, 4, 4, 4, 8, 4,
    4, 4, 4, 4, 4, 4, 8, 4, 4, 4, 4, 4, 4, 4, 8, 4,
    8, 12, 12, 16, 12, 16, 8, 16, 8, 16, 12, 4, 12, 24, 8, 16,
    8, 12, 12, 0, 12, 16, 8, 16, 8, 16, 12, 0, 12, 0, 8, 16,
    12, 12, 8, 0, 0, 16, 8, 16, 16, 4, 16, 0, 0, 0, 8, 16,
    12, 12, 8, 4, 0, 16, 8, 16, 12, 8, 16, 4, 0, 0, 8, 16,
];

/// The cycles a conditional instruction takes when its condition holds.
pub open spec fn conditional_cycle_of(byte: u8) -> Option<u8> {
    if byte == 0xE9 {
        Some(4)
    } else if byte == 0x20 || byte == 0x30 || byte == 0x18 || byte == 0x28 || byte == 0x38 {
        Some(12)
    } else if byte == 0xC0 || byte == 0xD0 || byte == 0xC8 || byte == 0xD8 {
        Some(20)
    } else if byte == 0xC2 || byte == 0xD2 || byte == 0xC3 || byte == 0xCA || byte == 0xDA || byte
        == 0xC9 {
        Some(16)
    } else if byte == 0xC4 || byte == 0xD4 || byte == 0xCC || byte == 0xDC || byte == 0xCD {
        Some(24)
    } else {
        None
    }
}

/// The cycles a conditional instruction takes when its condition holds (only
/// conditional opcodes have such a count).
pub fn conditional_cycle(byte: u8) -> (r: u8)
    requires
        conditional_cycle_of(byte) is Some,
    ensures
        conditional_cycle_of(byte) == Some(r),
{
    match byte {
        0xE9 => 4,
        0x20 | 0x30 | 0x18 | 0x28 | 0x38 => 12,
        0xC0 | 0xD0 | 0xC8 | 0xD8 => 20,
        0xC2 | 0xD2 | 0xC3 | 0xCA | 0xDA | 0xC9 => 16,
        _ => 24,
    }
}

/// An instruction with its operands and its cycle counts. Conditional
/// instructions carry the cycles when not taken, then when taken.
#[derive(Debug, PartialEq, Eq, Structural)]
pub enum Instruction {
    ADD(ArithmeticTarget, u8),
    SUB(ArithmeticTarget, u8),
    ADDHL(SixteenBitArithmeticTarget, u8),
    ADDSP(u8),
    INC16(SixteenBitArithmeticTarget, u8),
    DEC16(SixteenBitArithmeticTarget, u8),
    ADC(ArithmeticTarget, u8),
    SBC(ArithmeticTarget, u8),
    AND(ArithmeticTarget, u8),
    OR(ArithmeticTarget, u8),
    XOR(ArithmeticTarget, u8),
    CP(ArithmeticTarget, u8),
    INC(ArithmeticTarget, u8),
    DEC(ArithmeticTarget, u8),
    CCF(u8),
    SCF(u8),
    RRA(u8),
    RLA(u8),
    RRCA(u8),
    RLCA(u8),
    DAA(u8),
    CPL(u8),
    BIT(u8, ArithmeticTarget, u8),
    RESET(u8, ArithmeticTarget, u8),
    SET(u8, ArithmeticTarget, u8),
    SRL(ArithmeticTarget, u8),
    RL(ArithmeticTarget, u8),
    RR(ArithmeticTarget, u8),
    RRC(ArithmeticTarget, u8),
    RLC(ArithmeticTarget, u8),
    SRA(ArithmeticTarget, u8),
    SLA(ArithmeticTarget, u8),
    SWAP(ArithmeticTarget, u8),
    JP(JumpCond, u8, u8),
    JPHL(u8),
    HALT(u8),
    NOP(u8),
    JR(JumpCond, u8, u8),
    STOP(u8),
    LD(LoadType, u8),
    PUSH(StackTarget, u8),
    POP(StackTarget, u8),
    CALL(JumpCond, u8, u8),
    RET(JumpCond, u8, u8),
    RETI(u8),
    RST(RestartAddr, u8),
    EI(u8),
    DI(u8),
    LDHA(u8),
    LDHA8(u8),
    LDABY(u8),
    LDA(u8),
    LDAC(u8),  // Put value at address $FF00 + register C into A.  Same as: LD A,($FF00+C)
    LDCA(u8),  // Put A into address $FF00 + register C.
    LDHLSP(u8),  // Put sp plus n effective address into hl
}

/// The register named by a 3-bit register field (B C D E H L (HL) A).
pub open spec fn register_operand(index: int) -> ArithmeticTarget {
    if index == 0 {
        ArithmeticTarget::B
    } else if index == 1 {
        ArithmeticTarget::C
    } else if index == 2 {
        ArithmeticTarget::D
    } else if index == 3 {
        ArithmeticTarget::E
    } else if index == 4 {
        ArithmeticTarget::H
    } else if index == 5 {
        ArithmeticTarget::L
    } else if index == 6 {
        ArithmeticTarget::HLI
    } else {
        ArithmeticTarget::A
    }
}

/// A CB-prefixed opcode: bits 7..6 pick rotate/shift, BIT, RES or SET; bits
/// 5..3 the shift kind or the bit index; bits 2..0 the register.
pub open spec fn decode_prefixed(byte: u8) -> Instruction {
    let target = register_operand((byte % 8) as int);
    let cycles = PREFIXED_OPERATION_CYCLES@[byte as int];
    let y = ((byte / 8) % 8) as u8;
    if byte < 0x40 {
        if y == 0 {
            Instruction::RLC(target, cycles)
        } else if y == 1 {
            Instruction::RRC(target, cycles)
        } else if y == 2 {
            Instruction::RL(target, cycles)
        } else if y == 3 {
            Instruction::RR(target, cycles)
        } else if y == 4 {
            Instruction::SLA(target, cycles)
        } else if y == 5 {
            Instruction::SRA(target, cycles)
        } else if y == 6 {
            Instruction::SWAP(target, cycles)
        } else {
            Instruction::SRL(target, cycles)
        }
    } else if byte < 0x80 {
        Instruction::BIT(y, target, cycles)
    } else if byte < 0xC0 {
        Instruction::RESET(y, target, cycles)
    } else {
        Instruction::SET(y, target, cycles)
    }
}

/// The eight accumulator operations of 0x80..=0xBF and of the immediate forms
/// 0xC6, 0xCE, ..., 0xFE, selected by bits 5..3.
pub open spec fn alu_instruction(op: int, target: ArithmeticTarget, cycles: u8) -> Instruction {
    if op == 0 {
        Instruction::ADD(target, cycles)
    } else if op == 1 {
        Instruction::ADC(target, cycles)
    } else if op == 2 {
        Instruction::SUB(target, cycles)
    } else if op == 3 {
        Instruction::SBC(target, cycles)
    } else if op == 4 {
        Instruction::AND(target, cycles)
    } else if op == 5 {
        Instruction::XOR(target, cycles)
    } else if op == 6 {
        Instruction::OR(target, cycles)
    } else {
        Instruction::CP(target, cycles)
    }
}

/// The opcodes with no instruction.
pub open spec fn is_undefined_opcode(byte: u8) -> bool {
    byte == 0xD3 || byte == 0xE3 || byte == 0xE4 || byte == 0xF4 || byte == 0xDB || byte == 0xEB
        || byte == 0xEC || byte == 0xFC || byte == 0xDD || byte == 0xED || byte == 0xFD
}

/// The 16-bit register of bits 5..4 (BC DE HL SP).
pub open spec fn pair_operand(byte: u8) -> SixteenBitArithmeticTarget {
    let p = (byte / 16) % 4;
    if p == 0 {
        SixteenBitArithmeticTarget::BC
    } else if p == 1 {
        SixteenBitArithmeticTarget::DE
    } else if p == 2 {
        SixteenBitArithmeticTarget::HL
    } else {
        SixteenBitArithmeticTarget::SP
    }
}

/// The register pair of PUSH/POP, bits 5..4 (BC DE HL AF).
pub open spec fn stack_operand(byte: u8) -> StackTarget {
    let p = (byte / 16) % 4;
    if p == 0 {
        StackTarget::BC
    } else if p == 1 {
        StackTarget::DE
    } else if p == 2 {
        StackTarget::HL
    } else {
        StackTarget::AF
    }
}

/// The condition of a conditional JP/CALL/RET in 0xC0..=0xDF: bits 4..3 (NZ Z NC C).
pub open spec fn condition_operand(byte: u8) -> JumpCond {
    let p = (byte / 8) % 4;
    if p == 0 {
        JumpCond::NotZero
    } else if p == 1 {
        JumpCond::Zero
    } else if p == 2 {
        JumpCond::NotCarry
    } else {
        JumpCond::Carry
    }
}

/// The restart target of an RST opcode, bits 5..3.
pub open spec fn restart_operand(byte: u8) -> RestartAddr {
    let p = (byte / 8) % 8;
    if p == 0 {
        RestartAddr::H00
    } else if p == 1 {
        RestartAddr::H08
    } else if p == 2 {
        RestartAddr::H10
    } else if p == 3 {
        RestartAddr::H18
    } else if p == 4 {
        RestartAddr::H20
    } else if p == 5 {
        RestartAddr::H28
    } else if p == 6 {
        RestartAddr::H30
    } else {
        RestartAddr::H38
    }
}

/// An unprefixed opcode (0xCB, the prefix itself, is excluded).
pub open spec fn decode_unprefixed(byte: u8) -> Option<Instruction> {
    let c = OPERATION_CYCLES@[byte as int];
    if byte == 0x76 {
        Some(Instruction::HALT(c))
    } else if load_type_of(byte) is Some {
        Some(Instruction::LD(load_type_of(byte)->0, c))
    } else if 0x80 <= byte <= 0xBF {
        Some(alu_instruction(((byte / 8) % 8) as int, register_operand((byte % 8) as int), c))
    } else if byte >= 0xC0 && byte % 8 == 6 {
        Some(alu_instruction(((byte / 8) % 8) as int, ArithmeticTarget::D8, c))
    } else if is_undefined_opcode(byte) {
        None
    } else if byte < 0x40 {
        Some(decode_low_block(byte, c))
    } else {
        Some(decode_high_block(byte, c))
    }
}

/// Opcodes 0x00..=0x3F that are not loads.
pub open spec fn decode_low_block(byte: u8, c: u8) -> Instruction {
    let low = byte % 16;
    if byte == 0x00 {
        Instruction::NOP(c)
    } else if byte == 0x10 {
        Instruction::STOP(c)
    } else if byte == 0x18 {
        Instruction::JR(JumpCond::Always, c, 12)
    } else if byte == 0x20 || byte == 0x28 || byte == 0x30 || byte == 0x38 {
        Instruction::JR(condition_operand((byte - 0x20) as u8), c, 12)
    } else if low == 0x3 {
        Instruction::INC16(pair_operand(byte), c)
    } else if low == 0xB {
        Instruction::DEC16(pair_operand(byte), c)
    } else if low == 0x9 {
        Instruction::ADDHL(pair_operand(byte), c)
    } else if byte == 0x25 {
        // 0x25 decodes as DEC L
        Instruction::DEC(ArithmeticTarget::L, c)
    } else if byte % 8 == 4 {
        Instruction::INC(register_operand(((byte / 8) % 8) as int), c)
    } else if byte % 8 == 5 {
        Instruction::DEC(register_operand(((byte / 8) % 8) as int), c)
    } else if byte == 0x07 {
        Instruction::RLCA(c)
    } else if byte == 0x0F {
        Instruction::RRCA(c)
    } else if byte == 0x17 {
        Instruction::RLA(c)
    } else if byte == 0x1F {
        Instruction::RRA(c)
    } else if byte == 0x27 {
        Instruction::DAA(c)
    } else if byte == 0x2F {
        Instruction::CPL(c)
    } else if byte == 0x37 {
        Instruction::SCF(c)
    } else {
        Instruction::CCF(c)
    }
}

/// Opcodes 0xC0..=0xFF that are neither immediate accumulator operations nor undefined.
pub open spec fn decode_high_block(byte: u8, c: u8) -> Instruction {
    let low = byte % 16;
    if byte == 0xC9 {
        Instruction::RET(JumpCond::Always, c, 16)
    } else if byte == 0xD9 {
        Instruction::RETI(c)
    } else if byte == 0xC3 {
        Instruction::JP(JumpCond::Always, c, 16)
    } else if byte == 0xCD {
        Instruction::CALL(JumpCond::Always, c, 24)
    } else if byte == 0xE9 {
        Instruction::JPHL(c)
    } else if byte == 0xE0 {
        Instruction::LDHA(c)
    } else if byte == 0xF0 {
        Instruction::LDHA8(c)
    } else if byte == 0xE2 {
        Instruction::LDCA(c)
    } else if byte == 0xF2 {
        Instruction::LDAC(c)
    } else if byte == 0xE8 {
        Instruction::ADDSP(c)
    } else if byte == 0xF8 {
        Instruction::LDHLSP(c)
    } else if byte == 0xEA {
        Instruction::LDABY(c)
    } else if byte == 0xFA {
        Instruction::LDA(c)
    } else if byte == 0xF3 {
        Instruction::DI(c)
    } else if byte == 0xFB {
        Instruction::EI(c)
    } else if low == 0x1 {
        Instruction::POP(stack_operand(byte), c)
    } else if low == 0x5 {
        Instruction::PUSH(stack_operand(byte), c)
    } else if byte % 8 == 7 {
        Instruction::RST(restart_operand(byte), c)
    } else if byte % 8 == 0 {
        Instruction::RET(condition_operand(byte), c, 20)
    } else if byte % 8 == 2 {
        Instruction::JP(condition_operand(byte), c, 16)
    } else {
        Instruction::CALL(condition_operand(byte), c, 24)
    }
}

/// The instruction of an opcode; prefixed opcodes are those after 0xCB.
#[verifier::opaque]
pub open spec fn decode(byte: u8, prefixed: bool) -> Option<Instruction> {
    if prefixed {
        Some(decode_prefixed(byte))
    } else {
        decode_unprefixed(byte)
    }
}

impl Instruction {
    pub fn from_byte(byte: u8, prefixed: bool) -> (r: Option<Instruction>)
        requires
            prefixed || byte != 0xCB,
        ensures
            r == decode(byte, prefixed),
    {
        proof {
            reveal(decode);
        }
        if prefixed {
            Instruction::from_byte_prefixed(byte)
        } else {
            Instruction::from_byte_not_prefixed(byte)
        }
    }

    /// Decodes a CB-prefixed opcode; every byte names an instruction.
    pub fn from_byte_prefixed(byte: u8) -> (r: Option<Instruction>)
        ensures
            r == Some(decode_prefixed(byte)),
    {
        let l_nib = byte & 0x0F;
        assert(l_nib == byte % 16) by (bit_vector)
            requires
                l_nib == byte & 0x0F,
        ;
        let target = ArithmeticTarget::from(l_nib);
        let cycles = PREFIXED_OPERATION_CYCLES[byte as usize];
        match byte {
            0x00..=0x07 => Some(Instruction::RLC(target, cycles)),
            0x08..=0x0F => Some(Instruction::RRC(target, cycles)),
            0x10..=0x17 => Some(Instruction::RL(target, cycles)),
            0x18..=0x1F => Some(Instruction::RR(target, cycles)),
            0x20..=0x27 => Some(Instruction::SLA(target, cycles)),
            0x28..=0x2F => Some(Instruction::SRA(target, cycles)),
            0x30..=0x37 => Some(Instruction::SWAP(target, cycles)),
            0x38..=0x3F => Some(Instruction::SRL(target, cycles)),
            0x40..=0x7F => Some(Instruction::BIT(from_byte_to_index(byte), target, cycles)),
            0x80..=0xBF => Some(Instruction::RESET(from_byte_to_index(byte), target, cycles)),
            _ => Some(Instruction::SET(from_byte_to_index(byte), target, cycles)),
        }
    }

    /// Takes an byte instruction and returns an optional Instruction
    #[verifier::rlimit(100)]
    #[verifier::spinoff_prover]
    pub fn from_byte_not_prefixed(byte: u8) -> (r: Option<Instruction>)
        requires
            byte != 0xCB,
        ensures
            r == decode_unprefixed(byte),
    {
        let cycles = OPERATION_CYCLES[byte as usize];
        match byte {
            0x00 => Some(Instruction::NOP(cycles)),
            0x10 => Some(Instruction::STOP(cycles)),
            0x20 | 0x30 | 0x18 | 0x28 | 0x38 => Some(
                Instruction::JR(JumpCond::from(byte), cycles, conditional_cycle(byte)),
            ),
            0x76 => Some(Instruction::HALT(cycles)),
            0x40..=0x7F
            | 0x01 | 0x11 | 0x21 | 0x31
            | 0x06 | 0x16 | 0x26 | 0x36
            | 0x02 | 0x12 | 0x22 | 0x32
            | 0x0A | 0x1A | 0x2A | 0x3A
            | 0x0E | 0x1E | 0x2E | 0x3E
            | 0x08 | 0xF9 => Some(Instruction::LD(LoadType::from(byte), cycles)),
            0xE2 => Some(Instruction::LDCA(cycles)),
            0xF2 => Some(Instruction::LDAC(cycles)),
            0x03 => Some(Instruction::INC16(SixteenBitArithmeticTarget::BC, cycles)),
            0x13 => Some(Instruction::INC16(SixteenBitArithmeticTarget::DE, cycles)),
            0x23 => Some(Instruction::INC16(SixteenBitArithmeticTarget::HL, cycles)),
            0x33 => Some(Instruction::INC16(SixteenBitArithmeticTarget::SP, cycles)),
            0x0B => Some(Instruction::DEC16(SixteenBitArithmeticTarget::BC, cycles)),
            0x1B => Some(Instruction::DEC16(SixteenBitArithmeticTarget::DE, cycles)),
            0x2B => Some(Instruction::DEC16(SixteenBitArithmeticTarget::HL, cycles)),
            0x3B => Some(Instruction::DEC16(SixteenBitArithmeticTarget::SP, cycles)),
            0x04 => Some(Instruction::INC(ArithmeticTarget::B, cycles)),
            0x14 => Some(Instruction::INC(ArithmeticTarget::D, cycles)),
            0x24 => Some(Instruction::INC(ArithmeticTarget::H, cycles)),
            0x34 => Some(Instruction::INC(ArithmeticTarget::HLI, cycles)),
            0x05 => Some(Instruction::DEC(ArithmeticTarget::B, cycles)),
            0x15 => Some(Instruction::DEC(ArithmeticTarget::D, cycles)),
            0x25 => Some(Instruction::DEC(ArithmeticTarget::L, cycles)),
            0x35 => Some(Instruction::DEC(ArithmeticTarget::HLI, cycles)),
            0x0C => Some(Instruction::INC(ArithmeticTarget::C, cycles)),
            0x1C => Some(Instruction::INC(ArithmeticTarget::E, cycles)),
            0x2C => Some(Instruction::INC(ArithmeticTarget::L, cycles)),
            0x3C => Some(Instruction::INC(ArithmeticTarget::A, cycles)),
            0x0D => Some(Instruction::DEC(ArithmeticTarget::C, cycles)),
            0x1D => Some(Instruction::DEC(ArithmeticTarget::E, cycles)),
            0x2D => Some(Instruction::DEC(ArithmeticTarget::L, cycles)),
            0x3D => Some(Instruction::DEC(ArithmeticTarget::A, cycles)),
            0x0F => Some(Instruction::RRCA(cycles)),
            0x1F => Some(Instruction::RRA(cycles)),
            0x07 => Some(Instruction::RLCA(cycles)),
            0x17 => Some(Instruction::RLA(cycles)),
            0x27 => Some(Instruction::DAA(cycles)),
            0x37 => Some(Instruction::SCF(cycles)),
            0x2F => Some(Instruction::CPL(cycles)),
            0x3F => Some(Instruction::CCF(cycles)),
            0x80..=0x87 | 0xC6 => Some(Instruction::ADD(ArithmeticTarget::from(byte), cycles)),
            0x88..=0x8F | 0xCE => Some(Instruction::ADC(ArithmeticTarget::from(byte), cycles)),
            0x90..=0x97 | 0xD6 => Some(Instruction::SUB(ArithmeticTarget::from(byte), cycles)),
            0x98..=0x9F | 0xDE => Some(Instruction::SBC(ArithmeticTarget::from(byte), cycles)),
            0xA0..=0xA7 | 0xE6 => Some(Instruction::AND(ArithmeticTarget::from(byte), cycles)),
            0xA8..=0xAF | 0xEE => Some(Instruction::XOR(ArithmeticTarget::from(byte), cycles)),
            0xB0..=0xB7 | 0xF6 => Some(Instruction::OR(ArithmeticTarget::from(byte), cycles)),
            0xB8..=0xBF | 0xFE => Some(Instruction::CP(ArithmeticTarget::from(byte), cycles)),
            0x09 => Some(Instruction::ADDHL(SixteenBitArithmeticTarget::BC, cycles)),
            0x19 => Some(Instruction::ADDHL(SixteenBitArithmeticTarget::DE, cycles)),
            0x29 => Some(Instruction::ADDHL(SixteenBitArithmeticTarget::HL, cycles)),
            0x39 => Some(Instruction::ADDHL(SixteenBitArithmeticTarget::SP, cycles)),
            0xE8 => Some(Instruction::ADDSP(cycles)),
            0xC1 => Some(Instruction::POP(StackTarget::BC, cycles)),
            0xD1 => Some(Instruction::POP(StackTarget::DE, cycles)),
            0xE1 => Some(Instruction::POP(StackTarget::HL, cycles)),
            0xF1 => Some(Instruction::POP(StackTarget::AF, cycles)),
            0xC5 => Some(Instruction::PUSH(StackTarget::BC, cycles)),
            0xD5 => Some(Instruction::PUSH(StackTarget::DE, cycles)),
            0xE5 => Some(Instruction::PUSH(StackTarget::HL, cycles)),
            0xF5 => Some(Instruction::PUSH(StackTarget::AF, cycles)),
            0xC0 => Some(Instruction::RET(JumpCond::NotZero, cycles, conditional_cycle(byte))),
            0xD0 => Some(Instruction::RET(JumpCond::NotCarry, cycles, conditional_cycle(byte))),
            0xC8 => Some(Instruction::RET(JumpCond::Zero, cycles, conditional_cycle(byte))),
            0xD8 => Some(Instruction::RET(JumpCond::Carry, cycles, conditional_cycle(byte))),
            0xC9 => Some(Instruction::RET(JumpCond::Always, cycles, conditional_cycle(byte))),
            0xD9 => Some(Instruction::RETI(cycles)),
            0xC2 => Some(Instruction::JP(JumpCond::NotZero, cycles, conditional_cycle(byte))),
            0xD2 => Some(Instruction::JP(JumpCond::NotCarry, cycles, conditional_cycle(byte))),
            0xC3 => Some(Instruction::JP(JumpCond::Always, cycles, conditional_cycle(byte))),
            0xCA => Some(Instruction::JP(JumpCond::Zero, cycles, conditional_cycle(byte))),
            0xDA => Some(Instruction::JP(JumpCond::Carry, cycles, conditional_cycle(byte))),
            0xE9 => Some(Instruction::JPHL(cycles)),
            0xC4 => Some(Instruction::CALL(JumpCond::NotZero, cycles, conditional_cycle(byte))),
            0xD4 => Some(Instruction::CALL(JumpCond::NotCarry, cycles, conditional_cycle(byte))),
            0xCC => Some(Instruction::CALL(JumpCond::Zero, cycles, conditional_cycle(byte))),
            0xDC => Some(Instruction::CALL(JumpCond::Carry, cycles, conditional_cycle(byte))),
            0xCD => Some(Instruction::CALL(JumpCond::Always, cycles, conditional_cycle(byte))),
            0xC7 => Some(Instruction::RST(RestartAddr::H00, cycles)),
            0xD7 => Some(Instruction::RST(RestartAddr::H10, cycles)),
            0xE7 => Some(Instruction::RST(RestartAddr::H20, cycles)),
            0xF7 => Some(Instruction::RST(RestartAddr::H30, cycles)),
            0xCF => Some(Instruction::RST(RestartAddr::H08, cycles)),
            0xDF => Some(Instruction::RST(RestartAddr::H18, cycles)),
            0xEF => Some(Instruction::RST(RestartAddr::H28, cycles)),
            0xFF => Some(Instruction::RST(RestartAddr::H38, cycles)),
            0xFB => Some(Instruction::EI(cycles)),
            0xF3 => Some(Instruction::DI(cycles)),
            0xEA => Some(Instruction::LDABY(cycles)),
            0xFA => Some(Instruction::LDA(cycles)),
            0xF8 => Some(Instruction::LDHLSP(cycles)),
            0xD3 | 0xE3 | 0xE4 | 0xF4 | 0xDB | 0xEB | 0xEC | 0xFC | 0xDD | 0xED | 0xFD => {
                // undefined opcode
                None
            },
            0xE0 => Some(Instruction::LDHA(cycles)),
            _ => Some(Instruction::LDHA8(cycles)),
        }
    }
}

/// Helper method for returning the index specified by
/// the byte instruction (bits 5..3 of a BIT, RES or SET opcode, 0x40 and up).
pub fn from_byte_to_index(byte: u8) -> (r: u8)
    requires
        byte >= 0x40,
    ensures
        r == (byte / 8) % 8,
{
    match byte {
        0x40..=0x47 | 0x80..=0x87 | 0xC0..=0xC7 => 0,
        0x48..=0x4F | 0x88..=0x8F | 0xC8..=0xCF => 1,
        0x50..=0x57 | 0x90..=0x97 | 0xD0..=0xD7 => 2,
        0x58..=0x5F | 0x98..=0x9F | 0xD8..=0xDF => 3,
        0x60..=0x67 | 0xA0..=0xA7 | 0xE0..=0xE7 => 4,
        0x68..=0x6F | 0xA8..=0xAF | 0xE8..=0xEF => 5,
        0x70..=0x77 | 0xB0..=0xB7 | 0xF0..=0xF7 => 6,
        _ => 7,
    }
}

#[derive(Debug, PartialEq, Eq, Structural, Clone, Copy)]
pub enum JumpCond {
    NotZero,
    Zero,
    NotCarry,
    Carry,
    Always,
}

/// The condition of a relative jump opcode; `None` for other bytes.
pub open spec fn jump_cond_of(byte: u8) -> Option<JumpCond> {
    if byte == 0x18 {
        Some(JumpCond::Always)
    } else if byte == 0x20 {
        Some(JumpCond::NotZero)
    } else if byte == 0x28 {
        Some(JumpCond::Zero)
    } else if byte == 0x30 {
        Some(JumpCond::NotCarry)
    } else if byte == 0x38 {
        Some(JumpCond::Carry)
    } else {
        None
    }
}

impl JumpCond {
    /// The condition of a relative jump opcode (no other byte names one).
    pub fn from(byte: u8) -> (r: JumpCond)
        requires
            jump_cond_of(byte) is Some,
        ensures
            jump_cond_of(byte) == Some(r),
    {
        match byte {
            0x18 => JumpCond::Always,
            0x20 => JumpCond::NotZero,
            0x28 => JumpCond::Zero,
            0x30 => JumpCond::NotCarry,
            _ => JumpCond::Carry,
        }
    }
}

#[derive(Debug, PartialEq, Eq, Structural, Clone, Copy)]
pub enum ArithmeticTarget {
    A,
    B,
    C,
    D,
    E,
    H,
    L,
    HLI,
    D8,
}

/// The operand of an accumulator opcode: the immediate byte for the 0xC6,
/// 0xCE, ..., 0xFE forms, otherwise the register of bits 2..0.
pub open spec fn arithmetic_target_of(byte: u8) -> ArithmeticTarget {
    if byte >= 0xC0 && byte % 8 == 6 {
        ArithmeticTarget::D8
    } else {
        register_operand((byte % 8) as int)
    }
}

impl From<u8> for ArithmeticTarget {
    fn from(byte: u8) -> (r: ArithmeticTarget) {
        match byte {
            0xC6 | 0xD6 | 0xE6 | 0xF6 | 0xCE | 0xDE | 0xEE | 0xFE => ArithmeticTarget::D8,
            _ => {
                let nibble = byte % 16;
                match nibble {
                    0x0 | 0x8 => ArithmeticTarget::B,
                    0x1 | 0x9 => ArithmeticTarget::C,
                    0x2 | 0xA => ArithmeticTarget::D,
                    0x3 | 0xB => ArithmeticTarget::E,
                    0x4 | 0xC => ArithmeticTarget::H,
                    0x5 | 0xD => ArithmeticTarget::L,
                    0x6 | 0xE => ArithmeticTarget::HLI,
                    _ => ArithmeticTarget::A,
                }
            },
        }
    }
}

impl vstd::std_specs::convert::FromSpecImpl<u8> for ArithmeticTarget {
    open spec fn obeys_from_spec() -> bool {
        true
    }

    open spec fn from_spec(byte: u8) -> ArithmeticTarget {
        arithmetic_target_of(byte)
    }
}

#[derive(Debug, PartialEq, Eq, Structural, Clone, Copy)]
pub enum SixteenBitArithmeticTarget {
    AF,
    BC,
    DE,
    HL,
    SP,
}

#[derive(Debug, PartialEq, Eq, Structural, Clone, Copy)]
pub enum StackTarget {
    AF,
    BC,
    DE,
    HL,
}

#[derive(Debug, PartialEq, Eq, Structural, Clone, Copy)]
pub enum RestartAddr {
    H00,
    H08,
    H10,
    H18,
    H20,
    H28,
    H30,
    H38,
}

/// The address an RST jumps to (H08 is mapped to 0x0080).
pub open spec fn restart_address(addr: RestartAddr) -> u16 {
    match addr {
        RestartAddr::H00 => 0x0000,
        RestartAddr::H08 => 0x0080,
        RestartAddr::H10 => 0x0010,
        RestartAddr::H18 => 0x0018,
        RestartAddr::H20 => 0x0020,
        RestartAddr::H28 => 0x0028,
        RestartAddr::H30 => 0x0030,
        RestartAddr::H38 => 0x0038,
    }
}

impl RestartAddr {
    pub fn address(&self) -> (r: u16)
        ensures
            r == restart_address(*self),
    {
        match self {
            RestartAddr::H00 => 0x0000,
            RestartAddr::H08 => 0x0080,
            RestartAddr::H10 => 0x0010,
            RestartAddr::H18 => 0x0018,
            RestartAddr::H20 => 0x0020,
            RestartAddr::H28 => 0x0028,
            RestartAddr::H30 => 0x0030,
            RestartAddr::H38 => 0x0038,
        }
    }
}

impl From<RestartAddr> for u16 {
    fn from(restart: RestartAddr) -> (r: u16) {
        restart.address()
    }
}

impl vstd::std_specs::convert::FromSpecImpl<RestartAddr> for u16 {
    open spec fn obeys_from_spec() -> bool {
        true
    }

    open spec fn from_spec(restart: RestartAddr) -> u16 {
        restart_address(restart)
    }
}

/// The stack opcodes: POP is 0xC1, 0xD1, 0xE1, 0xF1 and PUSH is 0xC5, 0xD5,
/// 0xE5, 0xF5, naming the pairs BC, DE, HL and AF in that order; a POP and
/// the PUSH four opcodes above it name the same pair. POP takes 12 cycles and
/// PUSH 16.
pub proof fn lemma_stack_opcodes()
    ensures
        decode(0xC1, false) == Some(Instruction::POP(StackTarget::BC, 12)),
        decode(0xD1, false) == Some(Instruction::POP(StackTarget::DE, 12)),
        decode(0xE1, false) == Some(Instruction::POP(StackTarget::HL, 12)),
        decode(0xF1, false) == Some(Instruction::POP(StackTarget::AF, 12)),
        decode(0xC5, false) == Some(Instruction::PUSH(StackTarget::BC, 16)),
        decode(0xD5, false) == Some(Instruction::PUSH(StackTarget::DE, 16)),
        decode(0xE5, false) == Some(Instruction::PUSH(StackTarget::HL, 16)),
        decode(0xF5, false) == Some(Instruction::PUSH(StackTarget::AF, 16)),
{
    reveal(decode);
}

/// The conditions of the conditional jumps, calls and returns: bits 4..3 of
/// the opcode select NZ, Z, NC, C in that order (JR at 0x20/0x28/0x30/0x38,
/// RET at 0xC0/0xC8/0xD0/0xD8, JP at 0xC2/.., CALL at 0xC4/..).
pub proof fn lemma_condition_opcodes()
    ensures
        decode(0x20, false) == Some(Instruction::JR(JumpCond::NotZero, 8, 12)),
        decode(0x28, false) == Some(Instruction::JR(JumpCond::Zero, 8, 12)),
        decode(0x30, false) == Some(Instruction::JR(JumpCond::NotCarry, 8, 12)),
        decode(0x38, false) == Some(Instruction::JR(JumpCond::Carry, 8, 12)),
        decode(0xC0, false) == Some(Instruction::RET(JumpCond::NotZero, 8, 20)),
        decode(0xC8, false) == Some(Instruction::RET(JumpCond::Zero, 8, 20)),
        decode(0xD0, false) == Some(Instruction::RET(JumpCond::NotCarry, 8, 20)),
        decode(0xD8, false) == Some(Instruction::RET(JumpCond::Carry, 8, 20)),
        decode(0xC2, false) == Some(Instruction::JP(JumpCond::NotZero, 12, 16)),
        decode(0xCA, false) == Some(Instruction::JP(JumpCond::Zero, 12, 16)),
        decode(0xD2, false) == Some(Instruction::JP(JumpCond::NotCarry, 12, 16)),
        decode(0xDA, false) == Some(Instruction::JP(JumpCond::Carry, 12, 16)),
        decode(0xC4, false) == Some(Instruction::CALL(JumpCond::NotZero, 12, 24)),
        decode(0xCC, false) == Some(Instruction::CALL(JumpCond::Zero, 12, 24)),
        decode(0xD4, false) == Some(Instruction::CALL(JumpCond::NotCarry, 12, 24)),
        decode(0xDC, false) == Some(Instruction::CALL(JumpCond::Carry, 12, 24)),
{
    reveal(decode);
}

/// The accumulator opcodes: in 0x80..=0xBF bits 5..3 select ADD, ADC, SUB,
/// SBC, AND, XOR, OR, CP in that order and bits 2..0 the operand B, C, D, E,
/// H, L, (HL), A; the forms with an immediate byte sit at 0xC6, 0xCE, ...,
/// 0xFE in the same order. Register forms take 4 cycles, the others 8.
pub proof fn lemma_accumulator_opcodes()
    ensures
        decode(0x80, false) == Some(Instruction::ADD(ArithmeticTarget::B, 4)),
        decode(0x88, false) == Some(Instruction::ADC(ArithmeticTarget::B, 4)),
        decode(0x90, false) == Some(Instruction::SUB(ArithmeticTarget::B, 4)),
        decode(0x98, false) == Some(Instruction::SBC(ArithmeticTarget::B, 4)),
        decode(0xA0, false) == Some(Instruction::AND(ArithmeticTarget::B, 4)),
        decode(0xA8, false) == Some(Instruction::XOR(ArithmeticTarget::B, 4)),
        decode(0xB0, false) == Some(Instruction::OR(ArithmeticTarget::B, 4)),
        decode(0xB8, false) == Some(Instruction::CP(ArithmeticTarget::B, 4)),
        decode(0x80, false) == Some(Instruction::ADD(ArithmeticTarget::B, 4)),
        decode(0x81, false) == Some(Instruction::ADD(ArithmeticTarget::C, 4)),
        decode(0x82, false) == Some(Instruction::ADD(ArithmeticTarget::D, 4)),
        decode(0x83, false) == Some(Instruction::ADD(ArithmeticTarget::E, 4)),
        decode(0x84, false) == Some(Instruction::ADD(ArithmeticTarget::H, 4)),
        decode(0x85, false) == Some(Instruction::ADD(ArithmeticTarget::L, 4)),
        decode(0x86, false) == Some(Instruction::ADD(ArithmeticTarget::HLI, 8)),
        decode(0x87, false) == Some(Instruction::ADD(ArithmeticTarget::A, 4)),
        decode(0xC6, false) == Some(Instruction::ADD(ArithmeticTarget::D8, 8)),
        decode(0xCE, false) == Some(Instruction::ADC(ArithmeticTarget::D8, 8)),
        decode(0xD6, false) == Some(Instruction::SUB(ArithmeticTarget::D8, 8)),
        decode(0xDE, false) == Some(Instruction::SBC(ArithmeticTarget::D8, 8)),
        decode(0xE6, false) == Some(Instruction::AND(ArithmeticTarget::D8, 8)),
        decode(0xEE, false) == Some(Instruction::XOR(ArithmeticTarget::D8, 8)),
        decode(0xF6, false) == Some(Instruction::OR(ArithmeticTarget::D8, 8)),
        decode(0xFE, false) == Some(Instruction::CP(ArithmeticTarget::D8, 8)),
{
    reveal(decode);
}

/// The restart opcodes 0xC7, 0xCF, ..., 0xFF name the restarts 0x00, 0x08,
/// ..., 0x38 in order, each taking 16 cycles.
pub proof fn lemma_restart_opcodes()
    ensures
        decode(0xC7, false) == Some(Instruction::RST(RestartAddr::H00, 16)),
        decode(0xCF, false) == Some(Instruction::RST(RestartAddr::H08, 16)),
        decode(0xD7, false) == Some(Instruction::RST(RestartAddr::H10, 16)),
        decode(0xDF, false) == Some(Instruction::RST(RestartAddr::H18, 16)),
        decode(0xE7, false) == Some(Instruction::RST(RestartAddr::H20, 16)),
        decode(0xEF, false) == Some(Instruction::RST(RestartAddr::H28, 16)),
        decode(0xF7, false) == Some(Instruction::RST(RestartAddr::H30, 16)),
        decode(0xFF, false) == Some(Instruction::RST(RestartAddr::H38, 16)),
{
    reveal(decode);
}

} // verus!
