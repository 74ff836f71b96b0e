# r_dna2

A decoder for a small part of the RDNA2 instruction set (the scalar SOP1,
SOP2, SOPC and SOPP encodings and the vector VOP1 encoding) and an emulator
for one wave that runs the scalar instructions, verified with Verus.

- `bits`: bit fields of instruction words.
- `operand`: the operand codes.
- `fmt::*`: one decoder per encoding; `decode`: the scalar decoder.
- `wave`: registers, program counter and SCC of a wave.
- `alu::scalar`, `flow`, `exec`: execution of one instruction.

Every decoder and execution function states its result exactly over spec
functions (`decoded`, `sop2_next`, `step_next`, ...), and the `lemma_*`
proof functions state the laws that hold across them.
