# chip8_core

A CHIP-8 interpreter core whose behaviour is specified and proved with Verus.

- `src/state.rs` — the mathematical model of the machine (`MachineState`),
  the built-in font and the power-on state.
- `src/instruction.rs` — the instruction set: `decode` from opcodes to
  `Instruction`, the semantics `step`, when an instruction can run
  (`step_defined`), and one fetch-decode-execute cycle (`tick_step`).
- `src/machine.rs` — the executable `Emulator`, each of whose operations is
  proved to follow the model.
- `src/keypad.rs` — the keyboard-to-keypad layout.
- `src/laws.rs` — properties across instructions (call/return, drawing
  twice, store/load, carries and borrows, the wait-for-key loop, ...).
- `tests/` — runtime tests of the library.
- `app/` — the SDL2 desktop front-end and the browser front-end, which do
  the I/O and drive the library.
