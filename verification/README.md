# Oxide Boy

A Game Boy (DMG) emulator core written in Verus. Every function of the
library carries a contract over a mathematical view of the machine and is
proved to meet it.

- `src/dmg/instructions.rs`: the opcode decoder and cycle tables.
- `src/dmg/semantics.rs`: the CPU state as a value (`CpuView`) and what each
  instruction, a step and interrupt servicing do to it.
- `src/dmg/cpu.rs`: the CPU, proved against those semantics; `try_step`
  checks that a step can run before running it.
- `src/dmg/bus.rs` and the device modules (memory, timer, PPU, APU, joypad,
  boot ROM, cartridges): the memory map and each device's reads and writes.
- `src/dmg/theorems.rs`: properties that span several instructions (stack
  round trips, CALL/RET, interrupts, the decoder's coverage).
- `app/main.rs`: the command line, file loading and the run loop.
