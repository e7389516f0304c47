# sigstep_a64

An AArch64 (A64) instruction decoder and single-step interpreter, parameterized
over register and memory backends, written in Verus with every executable
function verified against its contract.

Layout:

- `src/base/` — bitfield helpers (`bits`), number rendering (`text`), error
  types (`error`), register indices, operands and flags (`reg`), and the
  backend interfaces `RegisterBank` / `MemoryInterface` together with the
  architectural-state model `ArchState` they are specified over (`traits`).
- `src/decode/` — `Instruction`, `Decoder` and the unconditional-branch decoder;
  the specification `decoding` says what every 32-bit word decodes to.
- `src/exec/` — `Interpreter`, whose `step` is specified by `step_outcome`: a
  failed step commits no state change.
- `src/test_utils/` — `VirtualRegs` (a register bank in plain fields) and
  `NoopMem` (memory that faults on every access).
- `tests/` — runtime tests.
