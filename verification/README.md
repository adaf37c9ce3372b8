# chippy8

A CHIP-8 interpreter whose core is verified with Verus.

- `src/state.rs`: the mathematical model of the machine (`CpuState`), the
  meaning of every instruction (`step`), the states on which an instruction
  runs to completion (`step_defined`), the fresh machine and the timer tick.
- `src/cpu.rs`: the machine (`CPU`, `Keyboard`): construction, fetch,
  execution of one instruction, and one full cycle with timers.
- `src/screen.rs`: clearing the screen and drawing sprites.
- `src/ops.rs`: register/memory block transfers and the keypad scan.
- `src/laws.rs`: properties proved of all states and instructions.
- `src/entropy.rs`: the random byte behind `CXNN`.
- `app/main.rs`: the program: reads the ROM, runs the machine on a thread,
  and shows the screen in a glium window.
