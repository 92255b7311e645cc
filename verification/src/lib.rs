//! A Game Boy (DMG) emulator core: instruction decoding, the CPU, the memory
//! bus and the devices behind it, each with a contract over a mathematical view.

pub mod command;
pub mod dmg;

pub use command::Command;
pub use dmg::cpu::CPU;
pub use dmg::instructions::{
    ArithmeticTarget, Instruction, JumpCond, RestartAddr, SixteenBitArithmeticTarget, StackTarget,
};
pub use dmg::memory::{
    Interrupt, LoadByteSource, LoadByteTarget, LoadType, LoadWordSource, LoadWordTarget,
};
pub use dmg::registers::Registers;
