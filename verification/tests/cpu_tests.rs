use oxide_boy::dmg::boot_rom::BootRom;
use oxide_boy::dmg::bus::Bus;
use oxide_boy::dmg::busconnection::BusConnection;
use oxide_boy::dmg::cartridge::Cartridge;
use oxide_boy::dmg::memory_bus::MemoryBus;
use oxide_boy::dmg::ppu::lcdc::Lcdc;
use oxide_boy::dmg::ppu::stat::Stat;
use oxide_boy::{ArithmeticTarget, Instruction, JumpCond, StackTarget, CPU};

/// A CPU whose boot ROM holds `program` from address 0.
fn cpu_running(program: &[u8]) -> CPU {
    let mut image = [0u8; 0x100];
    image[..program.len()].copy_from_slice(program);
    CPU::from_bus(Bus::new(BootRom::new(image), Cartridge::default()))
}

#[test]
fn step_runs_a_load_and_an_add() {
    // LD A,0x42 ; LD B,0x01 ; ADD A,B
    let mut cpu = cpu_running(&[0x3E, 0x42, 0x06, 0x01, 0x80]);
    cpu.step();
    assert_eq!(cpu.registers.a, 0x42);
    assert_eq!(cpu.pc, 2);
    cpu.step();
    assert_eq!(cpu.registers.b, 0x01);
    assert_eq!(cpu.pc, 4);
    cpu.step();
    assert_eq!(cpu.registers.a, 0x43);
    assert_eq!(cpu.pc, 5);
}

#[test]
fn step_runs_a_prefixed_instruction() {
    // LD A,0x12 ; SWAP A
    let mut cpu = cpu_running(&[0x3E, 0x12, 0xCB, 0x37]);
    assert!(cpu.try_step());
    assert!(cpu.try_step());
    assert_eq!(cpu.registers.a, 0x21);
    assert_eq!(cpu.pc, 4);
}

#[test]
fn try_step_refuses_an_undefined_opcode() {
    let mut cpu = cpu_running(&[0xD3]);
    assert!(!cpu.try_step());
}

#[test]
fn try_step_refuses_daa() {
    let mut cpu = cpu_running(&[0x27]);
    assert!(!cpu.try_step());
}

#[test]
fn try_step_refuses_a_read_past_the_cartridge() {
    // LD A,(0xA000): a ROM-only image of 0x8000 bytes has no byte there
    let mut image = [0u8; 0x100];
    image[0] = 0xFA;
    image[1] = 0x00;
    image[2] = 0xA0;
    let cart = Cartridge::from_rom(vec![0u8; 0x8000]);
    let mut cpu = CPU::from_bus(Bus::new(BootRom::new(image), cart));
    assert!(!cpu.try_step());
}

#[test]
fn call_then_ret_comes_back_after_the_call() {
    // CALL 0x0010 ; ... ; at 0x0010: RET
    let mut program = [0u8; 0x11];
    program[0] = 0xCD;
    program[1] = 0x10;
    program[2] = 0x00;
    program[0x10] = 0xC9;
    let mut cpu = cpu_running(&program);
    assert!(cpu.try_step());
    assert_eq!(cpu.pc, 0x10);
    assert_eq!(cpu.sp, 0xFFFC);
    assert!(cpu.try_step());
    assert_eq!(cpu.pc, 0x03);
    assert_eq!(cpu.sp, 0xFFFE);
}

#[test]
fn push_then_pop_restores_the_pair() {
    let mut cpu = CPU::default();
    cpu.registers.b = 0x12;
    cpu.registers.c = 0x34;
    cpu.execute(Instruction::PUSH(StackTarget::BC, 16));
    cpu.registers.b = 0;
    cpu.registers.c = 0;
    cpu.execute(Instruction::POP(StackTarget::BC, 12));
    assert_eq!(cpu.registers.b, 0x12);
    assert_eq!(cpu.registers.c, 0x34);
    assert_eq!(cpu.sp, 0xFFFE);
}

#[test]
fn push_then_pop_af_keeps_the_flags() {
    let mut cpu = CPU::default();
    cpu.registers.a = 0x9A;
    cpu.registers.set_flags(true, false, true, false);
    cpu.execute(Instruction::PUSH(StackTarget::AF, 16));
    cpu.registers.a = 0;
    cpu.registers.set_flags(false, true, false, true);
    cpu.execute(Instruction::POP(StackTarget::AF, 12));
    assert_eq!(cpu.registers.get_af(), 0x9AA0);
}

#[test]
fn halted_cpu_runs_nothing() {
    let mut cpu = CPU::default();
    cpu.execute(Instruction::HALT(4));
    assert!(cpu.is_halted);
    let (next_pc, cycles) = cpu.execute(Instruction::INC(ArithmeticTarget::A, 4));
    assert_eq!(next_pc, 1);
    assert_eq!(cycles, 0);
    assert_eq!(cpu.registers.a, 0);
}

#[test]
fn skip_boot_sequence_unmaps_the_boot_rom() {
    let mut cpu = cpu_running(&[0x31]);
    assert_eq!(cpu.bus.read_byte(0), 0x31);
    cpu.skip_boot_sequence();
    assert_eq!(cpu.pc, 0x100);
    assert_eq!(cpu.bus.read_byte(0), 0);
}

#[test]
fn pending_vblank_is_serviced() {
    // NOP, with interrupts enabled and a V-blank pending
    let mut cpu = cpu_running(&[0x00]);
    cpu.ime = true;
    cpu.bus.write_byte(0xFFFF, 0x01);
    cpu.bus.write_byte(0xFF0F, 0x01);
    assert!(cpu.try_step());
    assert_eq!(cpu.pc, 0x40);
    assert_eq!(cpu.sp, 0xFFFC);
    assert_eq!(cpu.bus.read_word(0xFFFC), 0x0001);
    assert_eq!(cpu.bus.read_byte(0xFF0F), 0);
}

#[test]
fn inc_then_dec_restores_the_register() {
    let mut cpu = CPU::default();
    cpu.registers.d = 0xFF;
    cpu.execute(Instruction::INC(ArithmeticTarget::D, 4));
    assert_eq!(cpu.registers.d, 0);
    cpu.execute(Instruction::DEC(ArithmeticTarget::D, 4));
    assert_eq!(cpu.registers.d, 0xFF);
}

#[test]
fn add_then_sub_restores_a() {
    let mut cpu = CPU::default();
    cpu.registers.a = 0xF0;
    cpu.registers.e = 0x20;
    cpu.execute(Instruction::ADD(ArithmeticTarget::E, 4));
    assert_eq!(cpu.registers.a, 0x10);
    assert!(cpu.registers.carry());
    cpu.execute(Instruction::SUB(ArithmeticTarget::E, 4));
    assert_eq!(cpu.registers.a, 0xF0);
    assert!(cpu.registers.carry());
}

#[test]
fn taken_jump_reports_its_longer_cycles() {
    let mut cpu = cpu_running(&[0xC3, 0x34, 0x12]);
    let (next_pc, cycles) = cpu.execute(Instruction::JP(JumpCond::Always, 12, 16));
    assert_eq!(next_pc, 0x1234);
    assert_eq!(cycles, 16);
}

#[test]
fn decoder_covers_every_opcode_but_the_undefined_ones() {
    let undefined = [0xD3, 0xE3, 0xE4, 0xF4, 0xDB, 0xEB, 0xEC, 0xFC, 0xDD, 0xED, 0xFD];
    for byte in 0..=255u8 {
        assert!(Instruction::from_byte(byte, true).is_some());
        if byte != 0xCB {
            assert_eq!(
                Instruction::from_byte(byte, false).is_none(),
                undefined.contains(&byte),
                "opcode {:#04x}",
                byte
            );
        }
    }
}

#[test]
fn memory_bus_word_roundtrip() {
    let mut bus = MemoryBus::default();
    bus.write_word(0x1234, 0xBEEF);
    assert_eq!(bus.read_byte(0x1234), 0xEF);
    assert_eq!(bus.read_byte(0x1235), 0xBE);
    assert_eq!(bus.read_word(0x1234), 0xBEEF);
}

#[test]
fn bus_refuses_dma_register() {
    let bus = Bus::default();
    assert!(!bus.readable(0xFF46));
    assert!(!bus.writable(0xFF46));
    assert!(bus.readable(0xC000));
    assert!(bus.word_readable(0xC000));
    assert!(!bus.word_readable(0xFFFF));
    assert!(bus.word_writable(0xC000, 0x1234));
    assert!(!bus.word_writable(0xFF45, 0x1234));
}

#[test]
fn cartridge_loads_only_implemented_types() {
    let mut rom = vec![0u8; 0x8000];
    assert!(Cartridge::is_loadable(&rom));
    rom[0x147] = 0x01;
    assert!(Cartridge::is_loadable(&rom));
    rom[0x147] = 0x05;
    assert!(!Cartridge::is_loadable(&rom));
    assert!(!Cartridge::is_loadable(&vec![0u8; 0x100]));
    rom[0x147] = 0x00;
    rom[0x150] = 0x77;
    let cart = Cartridge::from_rom(rom);
    assert_eq!(cart.read_byte(0x150), 0x77);
    assert!(cart.readable(0x7FFF));
    assert!(!cart.readable(0xA000));
}

#[test]
fn lcdc_and_stat_bytes_roundtrip() {
    for byte in 0..=255u8 {
        assert_eq!(u8::from(&Lcdc::from(&byte)), byte);
        assert_eq!(u8::from(&Stat::from(&byte)), byte % 128);
    }
}

#[test]
fn interrupt_ends_a_halt() {
    // HALT, then a V-blank arrives with interrupts enabled
    let mut cpu = cpu_running(&[0x76, 0x00]);
    assert!(cpu.try_step());
    assert!(cpu.is_halted);
    cpu.ime = true;
    cpu.bus.write_byte(0xFFFF, 0x01);
    cpu.bus.write_byte(0xFF0F, 0x01);
    assert!(cpu.try_step());
    assert!(!cpu.is_halted);
    assert_eq!(cpu.pc, 0x40);
    // execution goes on: the routine's first byte (a NOP) runs
    let (next_pc, cycles) = cpu.execute(Instruction::NOP(4));
    assert_eq!(next_pc, 0x41);
    assert_eq!(cycles, 4);
}

#[test]
fn relative_jump_by_zero_lands_after_the_instruction() {
    // JR 0
    let mut cpu = cpu_running(&[0x18, 0x00]);
    assert!(cpu.try_step());
    assert_eq!(cpu.pc, 0x02);
}

#[test]
fn relative_jump_back_by_128() {
    // at 0x90: JR -128
    let mut program = [0u8; 0x92];
    program[0x90] = 0x18;
    program[0x91] = 0x80;
    let mut cpu = cpu_running(&program);
    cpu.pc = 0x90;
    let (next_pc, _) = cpu.execute(Instruction::JR(JumpCond::Always, 8, 12));
    assert_eq!(next_pc, 0x92 - 128);
    assert_eq!(cpu.pc, 0x12);
}
