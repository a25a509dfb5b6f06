# gbcpu

The processor core of a Game Boy style emulator, written in Verus.

- `src/bus.rs` — the 64 KiB memory bus.
- `src/registers.rs` — the register pairs (`AFReg`, `GPReg`), their flags and
  their conversions to and from 16-bit words in the target's byte order.
- `src/cpu.rs` — the processor, its mathematical state (`CpuState`), the
  single instructions and `Cpu::clock`, the fetch/decode/execute step.
- `src/laws.rs` — properties that relate instructions to one another.
- `tests/` — executable tests.
- `app/` — the accumulator/flags pair as a `modular_bitfield` struct, with
  conversions to and from the library's `AFReg`.
