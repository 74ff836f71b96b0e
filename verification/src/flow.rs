//! Execution of the program flow instructions (SOPP).
use vstd::prelude::*;
use crate::fmt::sopp::{Sopp, SoppOp};
use crate::wave::{Wave, WaveState};

verus! {

/// Whether execution goes on after an instruction, or the program has ended.
#[derive(Debug, PartialEq, Eq, Structural, Clone, Copy)]
pub enum Step {
    Continue,
    EndPgm,
}

/// The branch target: the instruction after the branch, plus `simm16` words.
pub open spec fn branch_target(pc: int, simm16: i16) -> int {
    pc + 1 + simm16
}

/// Whether a branch at `pc` by `simm16` lands inside a program of `len` words.
pub open spec fn branch_in_bounds(pc: int, simm16: i16, len: int) -> bool {
    0 <= branch_target(pc, simm16) < len
}

/// Whether the SCC condition of a conditional branch holds.
pub open spec fn branch_taken(op: SoppOp, scc: bool) -> bool {
    match op {
        SoppOp::SBranch => true,
        SoppOp::SCBranchScc0 => !scc,
        SoppOp::SCBranchScc1 => scc,
        _ => false,
    }
}

/// The SOPP instructions the wave executes, with a branch target inside the
/// program and a program counter that does not overflow.
pub open spec fn sopp_supported(s: WaveState, program_len: int, inst: Sopp, len: int) -> bool {
    match inst.op {
        SoppOp::SEndPgm => true,
        SoppOp::SNop => s.pc + len <= usize::MAX,
        SoppOp::SBranch | SoppOp::SCBranchScc0 | SoppOp::SCBranchScc1 => if branch_taken(
            inst.op,
            s.scc,
        ) {
            branch_in_bounds(s.pc, inst.simm16, program_len)
        } else {
            s.pc + len <= usize::MAX
        },
        _ => false,
    }
}

/// The state after a supported SOPP instruction, and whether the program goes on.
pub open spec fn sopp_next(s: WaveState, program_len: int, inst: Sopp, len: int) -> (
    WaveState,
    Step,
) {
    match inst.op {
        SoppOp::SEndPgm => (s, Step::EndPgm),
        _ => if branch_taken(inst.op, s.scc) {
            (WaveState { pc: branch_target(s.pc, inst.simm16), ..s }, Step::Continue)
        } else {
            (WaveState { pc: s.pc + len, ..s }, Step::Continue)
        },
    }
}

/// Executes a SOPP instruction of `len` words.
pub fn exec_sopp(wave: &mut Wave, program: &[u32], inst: &Sopp, len: usize) -> (r: Step)
    requires
        sopp_supported(old(wave)@, program@.len() as int, *inst, len as int),
    ensures
        (final(wave)@, r) == sopp_next(old(wave)@, program@.len() as int, *inst, len as int),
{
    match inst.op {
        SoppOp::SEndPgm => return Step::EndPgm,
        SoppOp::SNop => wave.pc += len,
        SoppOp::SBranch => branch(wave, program, inst.simm16),
        SoppOp::SCBranchScc0 => {
            let taken = !wave.scc;
            cbranch(wave, program, inst.simm16, len, taken)
        },
        SoppOp::SCBranchScc1 => {
            let taken = wave.scc;
            cbranch(wave, program, inst.simm16, len, taken)
        },
        _ => {},
    }
    Step::Continue
}

/// Branches by `simm16` when `taken`, else steps over the `len` words of the
/// instruction.
pub fn cbranch(wave: &mut Wave, program: &[u32], simm16: i16, len: usize, taken: bool)
    requires
        taken ==> branch_in_bounds(old(wave).pc as int, simm16, program@.len() as int),
        !taken ==> old(wave).pc + len <= usize::MAX,
    ensures
        final(wave)@ == (WaveState {
            pc: if taken {
                branch_target(old(wave).pc as int, simm16)
            } else {
                old(wave).pc + len
            },
            ..old(wave)@
        }),
{
    if taken {
        branch(wave, program, simm16);
    } else {
        wave.pc += len;
    }
}

/// Jumps to the instruction after the current one plus `simm16` words.
pub fn branch(wave: &mut Wave, program: &[u32], simm16: i16)
    requires
        branch_in_bounds(old(wave).pc as int, simm16, program@.len() as int),
    ensures
        final(wave)@ == (WaveState { pc: branch_target(old(wave).pc as int, simm16), ..old(wave)@ }),
{
    let program_len = program.len();
    let new_pc: usize = if simm16 >= 0 {
        wave.pc + 1 + simm16 as usize
    } else {
        let back = (-(simm16 as i32)) as usize;
        wave.pc - (back - 1)
    };
    assert(new_pc < program_len);

    wave.pc = new_pc;
}

/// What each SOPP instruction does: `s_endpgm` ends the program and leaves
/// the wave alone; `s_nop` steps over its words; `s_branch` jumps to the
/// instruction after it plus `simm16` words; the conditional branches do so
/// when SCC is clear (`scc0`) or set (`scc1`) and otherwise step over. No SOPP
/// instruction touches a register or SCC.
pub proof fn lemma_sopp_effects(s: WaveState, program_len: int, inst: Sopp, len: int)
    ensures
        sopp_next(s, program_len, inst, len).0.sgpr == s.sgpr,
        sopp_next(s, program_len, inst, len).0.scc == s.scc,
        inst.op == SoppOp::SEndPgm ==> sopp_next(s, program_len, inst, len) == (s, Step::EndPgm),
        inst.op != SoppOp::SEndPgm ==> sopp_next(s, program_len, inst, len).1 == Step::Continue,
        inst.op == SoppOp::SNop ==> sopp_next(s, program_len, inst, len).0.pc == s.pc + len,
        inst.op == SoppOp::SBranch ==> sopp_next(s, program_len, inst, len).0.pc == s.pc + 1 + inst.simm16,
        inst.op == SoppOp::SCBranchScc0 ==> sopp_next(s, program_len, inst, len).0.pc == if s.scc {
            s.pc + len
        } else {
            s.pc + 1 + inst.simm16
        },
        inst.op == SoppOp::SCBranchScc1 ==> sopp_next(s, program_len, inst, len).0.pc == if s.scc {
            s.pc + 1 + inst.simm16
        } else {
            s.pc + len
        },
{
}

/// A branch is relative: moving it by `d` words moves its target by `d`, and
/// an offset of 0 lands on the next instruction.
pub proof fn lemma_branch_relative(pc: int, d: int, simm16: i16)
    ensures
        branch_target(pc + d, simm16) == branch_target(pc, simm16) + d,
        branch_target(pc, 0) == pc + 1,
        branch_target(pc, simm16) - pc == 1 + simm16,
{
}

} // verus!
