# squaregb

The CPU core of a Game Boy emulator, written in Verus.

- `src/registers.rs`: flags, 8- and 16-bit registers and branch conditions,
  with their opcode encodings.
- `src/state.rs`: the model of a machine (`MachineState`) and the reads and
  writes the CPU performs on it.
- `src/machine.rs`: `Machine`, whose accessors are specified over that model.
- `src/instruction.rs`: the instruction set, the decoding table as a spec
  (`decoded`), and `Instruction::decode`, proved to follow it.
- `src/semantics.rs`: what each instruction does (`step`), and when it can be
  carried out (`can_execute`).
- `src/exec.rs`: `Machine::exec`, proved to move the machine to `step`.
- `src/run.rs`: running a loaded program (`eval`, `run_until_pc`), specified
  by `run`, which repeats fetch, decode and `step`.
- `src/laws.rs`: read-after-write laws for registers, flags and memory,
  push/pop and increment/decrement round trips, and laws tying decoding to
  execution.
- `src/bitfield.rs`: the calls into `arbitrary_int` (bit fields and narrow
  carries), each behind a wrapper whose contract states the result.
- `app/lib.rs`: the WebAssembly entry points (`wasm_bindgen`, `web_sys`).
