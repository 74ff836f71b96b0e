//! Execution of one instruction of a program.
use vstd::prelude::*;
use crate::alu::scalar::{
    exec_sop1, exec_sop2, exec_sopc, sop1_supported, sop2_supported, sopc_supported, sop1_next,
    sop2_next, sopc_next,
};
use crate::decode::{Instruction, decode, decodable, decoded, lemma_decoded_length, lemma_decoded_ignores_rest};
use crate::flow::{Step, exec_sopp, sopp_supported, sopp_next};
use crate::wave::{Wave, WaveState, SGPR_COUNT};

verus! {

/// The words of `program` from the program counter on.
pub open spec fn fetched(s: WaveState, program: Seq<u32>) -> Seq<u32> {
    program.subrange(s.pc, program.len() as int)
}

/// The state `s` with the program counter moved on by `len` words.
pub open spec fn advance(s: WaveState, len: int) -> WaveState {
    WaveState { pc: s.pc + len, ..s }
}

/// The states in which `step` executes an instruction: the program counter
/// lies inside the program (or just past its end), a known instruction stands
/// there, and the wave supports it.
pub open spec fn step_supported(s: WaveState, program: Seq<u32>) -> bool {
    &&& 0 <= s.pc <= program.len()
    &&& decodable(fetched(s, program))
    &&& match decoded(fetched(s, program)) {
        Some((Instruction::Sop1(i), _)) => sop1_supported(i),
        Some((Instruction::Sop2(i), _)) => sop2_supported(i),
        Some((Instruction::Sopc(i), _)) => sopc_supported(i),
        Some((Instruction::Sopp(i), len)) => sopp_supported(s, program.len() as int, i, len as int),
        None => false,
    }
}

/// The state after one instruction, and whether the program goes on.
pub open spec fn step_next(s: WaveState, program: Seq<u32>) -> (WaveState, Step) {
    match decoded(fetched(s, program)) {
        Some((Instruction::Sop1(i), len)) => (advance(sop1_next(s, i), len as int), Step::Continue),
        Some((Instruction::Sop2(i), len)) => (advance(sop2_next(s, i), len as int), Step::Continue),
        Some((Instruction::Sopc(i), len)) => (advance(sopc_next(s, i), len as int), Step::Continue),
        Some((Instruction::Sopp(i), len)) => sopp_next(s, program.len() as int, i, len as int),
        None => (s, Step::EndPgm),
    }
}

/// Decodes and executes the instruction at the program counter.
pub fn step(wave: &mut Wave, program: &[u32]) -> (r: Step)
    requires
        step_supported(old(wave)@, program@),
    ensures
        (final(wave)@, r) == step_next(old(wave)@, program@),
{
    let words = &program[wave.pc..program.len()];
    let (inst, len) = match decode(words) {
        Some(decoded) => decoded,
        None => return Step::EndPgm,
    };
    proof {
        lemma_decoded_length(words@);
    }

    match inst {
        Instruction::Sop1(i) => {
            exec_sop1(wave, &i);
            wave.pc += len;
            Step::Continue
        },
        Instruction::Sop2(i) => {
            exec_sop2(wave, &i);
            wave.pc += len;
            Step::Continue
        },
        Instruction::Sopc(i) => {
            exec_sopc(wave, &i);
            wave.pc += len;
            Step::Continue
        },
        Instruction::Sopp(i) => exec_sopp(wave, program, &i, len),
    }
}

/// A step that goes on leaves the program counter inside the program or just
/// past its end; a step that ends the program leaves the wave as it was. No
/// step changes more than one register.
pub proof fn lemma_step_keeps_wave_well_formed(s: WaveState, program: Seq<u32>)
    requires
        step_supported(s, program),
        s.sgpr.len() == SGPR_COUNT,
    ensures
        step_next(s, program).1 == Step::Continue ==> 0 <= step_next(s, program).0.pc <= program.len(),
        step_next(s, program).1 == Step::EndPgm ==> step_next(s, program).0 == s,
        step_next(s, program).0.sgpr.len() == SGPR_COUNT,
        step_next(s, program).0.sgpr == s.sgpr || exists|k: int|
            0 <= k < SGPR_COUNT && step_next(s, program).0.sgpr == #[trigger] s.sgpr.update(
                k,
                step_next(s, program).0.sgpr[k],
            ),
{
    lemma_decoded_length(fetched(s, program));
    let next = step_next(s, program).0;
    match decoded(fetched(s, program)) {
        Some((Instruction::Sop1(i), _)) => {
            let k = i.sdst->Sgpr_0 as int;
            assert(next.sgpr == s.sgpr.update(k, next.sgpr[k]));
        },
        Some((Instruction::Sop2(i), _)) => {
            let k = i.sdst->Sgpr_0 as int;
            assert(next.sgpr == s.sgpr.update(k, next.sgpr[k]));
        },
        _ => {},
    }
}

/// A step executes the instruction that the words at the program counter
/// encode. After an ALU instruction the program counter moves on by the
/// instruction's length (past a literal dword too) and the wave changes as
/// the instruction says; a SOPP instruction takes one word and does what
/// `sopp_next` says.
pub proof fn lemma_step_effects(s: WaveState, program: Seq<u32>)
    requires
        step_supported(s, program),
    ensures
        decoded(fetched(s, program)) matches Some((inst, len)) ==> {
            &&& decoded(program.subrange(s.pc, s.pc + len)) == Some((inst, len))
            &&& !(inst is Sopp) ==> {
                &&& step_next(s, program).1 == Step::Continue
                &&& step_next(s, program).0.pc == s.pc + len
            }
            &&& inst matches Instruction::Sop1(i) ==> (WaveState { pc: s.pc, ..step_next(s, program).0 })
                == sop1_next(s, i)
            &&& inst matches Instruction::Sop2(i) ==> (WaveState { pc: s.pc, ..step_next(s, program).0 })
                == sop2_next(s, i)
            &&& inst matches Instruction::Sopc(i) ==> (WaveState { pc: s.pc, ..step_next(s, program).0 })
                == sopc_next(s, i)
            &&& inst matches Instruction::Sopp(i) ==> len == 1 && step_next(s, program) == sopp_next(
                s,
                program.len() as int,
                i,
                1,
            )
        },
{
    let words = fetched(s, program);
    lemma_decoded_length(words);
    lemma_decoded_ignores_rest(words, Seq::empty());
    if let Some((inst, len)) = decoded(words) {
        assert(words.take(len as int) + Seq::empty() =~= program.subrange(s.pc, s.pc + len));
    }
}

} // verus!
