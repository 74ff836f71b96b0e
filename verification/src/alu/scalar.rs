//! Execution of the scalar ALU instructions: SOP1, SOP2 and SOPC.
use vstd::prelude::*;
use vstd::arithmetic::power2::{pow2, lemma2_to64, lemma2_to64_rest};
use vstd::bits::{lemma_u32_shr_is_div, lemma_u64_shr_is_div};
use crate::fmt::{sop1, sop2, sopc};
use crate::fmt::sopc::SopcOp;
use crate::wave::{Wave, WaveState, readable, readable64, writable, signed32, lemma_signed32, SGPR_COUNT};

verus! {

/// The SOP1 instructions the wave executes: `s_mov_b32` from a readable
/// operand to a register.
pub open spec fn sop1_supported(inst: sop1::Sop1) -> bool {
    &&& inst.op == sop1::Sop1Op::SMovB32
    &&& readable(inst.ssrc0)
    &&& writable(inst.sdst)
}

/// The state after a supported SOP1 instruction: the source copied to the destination.
pub open spec fn sop1_next(s: WaveState, inst: sop1::Sop1) -> WaveState {
    s.write(inst.sdst, s.read(inst.ssrc0))
}

/// Executes a SOP1 instruction.
pub fn exec_sop1(wave: &mut Wave, inst: &sop1::Sop1)
    requires
        sop1_supported(*inst),
    ensures
        final(wave)@ == sop1_next(old(wave)@, *inst),
{
    match inst.op {
        sop1::Sop1Op::SMovB32 => {
            let value = wave.read(inst.ssrc0);
            wave.write(inst.sdst, value);
        },
        _ => {},
    }
}

/// The SOP2 instructions the wave executes: both sources readable, the
/// destination a register.
pub open spec fn sop2_supported(inst: sop2::Sop2) -> bool {
    &&& readable(inst.ssrc0)
    &&& readable(inst.ssrc1)
    &&& writable(inst.sdst)
}

/// The 32-bit result and the SCC of a SOP2 operation on `s0` and `s1`:
/// the sum with its carry out, or the difference with its borrow.
pub open spec fn sop2_value(op: sop2::Sop2Op, s0: u32, s1: u32) -> (u32, bool) {
    match op {
        sop2::Sop2Op::SAddU32 => (((s0 + s1) % 0x1_0000_0000) as u32, s0 + s1 >= 0x1_0000_0000),
        sop2::Sop2Op::SSubU32 => (((s0 - s1 + 0x1_0000_0000) % 0x1_0000_0000) as u32, s0 < s1),
    }
}

/// The state after a supported SOP2 instruction.
pub open spec fn sop2_next(s: WaveState, inst: sop2::Sop2) -> WaveState {
    let (d, c) = sop2_value(inst.op, s.read(inst.ssrc0), s.read(inst.ssrc1));
    WaveState { scc: c, ..s.write(inst.sdst, d) }
}

/// Executes a SOP2 instruction.
pub fn exec_sop2(wave: &mut Wave, inst: &sop2::Sop2)
    requires
        sop2_supported(*inst),
    ensures
        final(wave)@ == sop2_next(old(wave)@, *inst),
{
    match inst.op {
        sop2::Sop2Op::SAddU32 => {
            let s0 = wave.read(inst.ssrc0);
            let s1 = wave.read(inst.ssrc1);

            let d = s0.wrapping_add(s1);
            let carry = s0 as u64 + s1 as u64 > u32::MAX as u64;

            wave.write(inst.sdst, d);
            wave.scc = carry;
        },
        sop2::Sop2Op::SSubU32 => {
            let s0 = wave.read(inst.ssrc0);
            let s1 = wave.read(inst.ssrc1);

            let d = s0.wrapping_sub(s1);
            let borrow = s0 < s1;

            wave.write(inst.sdst, d);
            wave.scc = borrow;
        },
    }
}

/// Whether the operation reads its first source as 64 bits.
pub open spec fn reads_ssrc0_64(op: SopcOp) -> bool {
    op == SopcOp::SBitCmp0B64 || op == SopcOp::SBitCmp1B64 || op == SopcOp::SCmpEqU64
        || op == SopcOp::SCmpLgU64
}

/// Whether the operation reads its second source as 64 bits.
pub open spec fn reads_ssrc1_64(op: SopcOp) -> bool {
    op == SopcOp::SCmpEqU64 || op == SopcOp::SCmpLgU64
}

/// The SOPC instructions the wave executes: both sources readable as 32 bits,
/// and as 64 bits where the operation needs it.
pub open spec fn sopc_supported(inst: sopc::Sopc) -> bool {
    &&& readable(inst.ssrc0)
    &&& readable(inst.ssrc1)
    &&& reads_ssrc0_64(inst.op) ==> readable64(inst.ssrc0)
    &&& reads_ssrc1_64(inst.op) ==> readable64(inst.ssrc1)
}

/// Bit `n` of `x`.
pub open spec fn bit_of(x: nat, n: nat) -> nat {
    (x / pow2(n)) % 2
}

/// The SCC that a SOPC instruction computes.
pub open spec fn sopc_scc(s: WaveState, inst: sopc::Sopc) -> bool {
    let s0 = s.read(inst.ssrc0);
    let s1 = s.read(inst.ssrc1);
    match inst.op {
        SopcOp::SCmpEqI32 => signed32(s0) == signed32(s1),
        SopcOp::SCmpLgI32 => signed32(s0) != signed32(s1),
        SopcOp::SCmpGtI32 => signed32(s0) > signed32(s1),
        SopcOp::SCmpGeI32 => signed32(s0) >= signed32(s1),
        SopcOp::SCmpLtI32 => signed32(s0) < signed32(s1),
        SopcOp::SCmpLeI32 => signed32(s0) <= signed32(s1),
        SopcOp::SCmpEqU32 => s0 == s1,
        SopcOp::SCmpLgU32 => s0 != s1,
        SopcOp::SCmpGtU32 => s0 > s1,
        SopcOp::SCmpGeU32 => s0 >= s1,
        SopcOp::SCmpLtU32 => s0 < s1,
        SopcOp::SCmpLeU32 => s0 <= s1,
        SopcOp::SBitCmp0B32 => bit_of(s0 as nat, (s1 % 32) as nat) == 0,
        SopcOp::SBitCmp1B32 => bit_of(s0 as nat, (s1 % 32) as nat) == 1,
        SopcOp::SBitCmp0B64 => bit_of(s.read64(inst.ssrc0) as nat, (s1 % 64) as nat) == 0,
        SopcOp::SBitCmp1B64 => bit_of(s.read64(inst.ssrc0) as nat, (s1 % 64) as nat) == 1,
        SopcOp::SCmpEqU64 => s.read64(inst.ssrc0) == s.read64(inst.ssrc1),
        SopcOp::SCmpLgU64 => s.read64(inst.ssrc0) != s.read64(inst.ssrc1),
    }
}

/// The state after a supported SOPC instruction: only SCC changes.
pub open spec fn sopc_next(s: WaveState, inst: sopc::Sopc) -> WaveState {
    WaveState { scc: sopc_scc(s, inst), ..s }
}

/// Executes a SOPC instruction, setting SCC to the result of the compare.
pub fn exec_sopc(wave: &mut Wave, inst: &sopc::Sopc)
    requires
        sopc_supported(*inst),
    ensures
        final(wave)@ == sopc_next(old(wave)@, *inst),
{
    let s0 = wave.read(inst.ssrc0);
    let s1 = wave.read(inst.ssrc1);
    proof {
        lemma_signed32(s0);
        lemma_signed32(s1);
        lemma2_to64();
        lemma2_to64_rest();
        assert(s1 & 31 == s1 % 32) by (bit_vector);
        assert(s1 & 63 == s1 % 64) by (bit_vector);
        lemma_u32_shr_is_div(s0, s1 & 31);
        assert((s0 >> (s1 & 31)) & 1 == (s0 >> (s1 & 31)) % 2) by (bit_vector);
    }

    let scc = match inst.op {
        SopcOp::SCmpEqI32 => (s0 as i32) == (s1 as i32),
        SopcOp::SCmpLgI32 => (s0 as i32) != (s1 as i32),
        SopcOp::SCmpGtI32 => (s0 as i32) > (s1 as i32),
        SopcOp::SCmpGeI32 => (s0 as i32) >= (s1 as i32),
        SopcOp::SCmpLtI32 => (s0 as i32) < (s1 as i32),
        SopcOp::SCmpLeI32 => (s0 as i32) <= (s1 as i32),
        SopcOp::SCmpEqU32 => s0 == s1,
        SopcOp::SCmpLgU32 => s0 != s1,
        SopcOp::SCmpGtU32 => s0 > s1,
        SopcOp::SCmpGeU32 => s0 >= s1,
        SopcOp::SCmpLtU32 => s0 < s1,
        SopcOp::SCmpLeU32 => s0 <= s1,
        SopcOp::SBitCmp0B32 => (s0 >> (s1 & 31)) & 1 == 0,
        SopcOp::SBitCmp1B32 => (s0 >> (s1 & 31)) & 1 == 1,
        SopcOp::SBitCmp0B64 => {
            let v = wave.read64(inst.ssrc0);
            let sh = (s1 & 63) as u64;
            proof {
                lemma_u64_shr_is_div(v, sh);
                assert((v >> sh) & 1 == (v >> sh) % 2) by (bit_vector);
            }
            (v >> sh) & 1 == 0
        },
        SopcOp::SBitCmp1B64 => {
            let v = wave.read64(inst.ssrc0);
            let sh = (s1 & 63) as u64;
            proof {
                lemma_u64_shr_is_div(v, sh);
                assert((v >> sh) & 1 == (v >> sh) % 2) by (bit_vector);
            }
            (v >> sh) & 1 == 1
        },
        SopcOp::SCmpEqU64 => wave.read64(inst.ssrc0) == wave.read64(inst.ssrc1),
        SopcOp::SCmpLgU64 => wave.read64(inst.ssrc0) != wave.read64(inst.ssrc1),
    };
    wave.scc = scc;
}

/// The compare that yields the opposite result.
pub open spec fn negated(op: SopcOp) -> SopcOp {
    match op {
        SopcOp::SCmpEqI32 => SopcOp::SCmpLgI32,
        SopcOp::SCmpLgI32 => SopcOp::SCmpEqI32,
        SopcOp::SCmpGtI32 => SopcOp::SCmpLeI32,
        SopcOp::SCmpLeI32 => SopcOp::SCmpGtI32,
        SopcOp::SCmpGeI32 => SopcOp::SCmpLtI32,
        SopcOp::SCmpLtI32 => SopcOp::SCmpGeI32,
        SopcOp::SCmpEqU32 => SopcOp::SCmpLgU32,
        SopcOp::SCmpLgU32 => SopcOp::SCmpEqU32,
        SopcOp::SCmpGtU32 => SopcOp::SCmpLeU32,
        SopcOp::SCmpLeU32 => SopcOp::SCmpGtU32,
        SopcOp::SCmpGeU32 => SopcOp::SCmpLtU32,
        SopcOp::SCmpLtU32 => SopcOp::SCmpGeU32,
        SopcOp::SBitCmp0B32 => SopcOp::SBitCmp1B32,
        SopcOp::SBitCmp1B32 => SopcOp::SBitCmp0B32,
        SopcOp::SBitCmp0B64 => SopcOp::SBitCmp1B64,
        SopcOp::SBitCmp1B64 => SopcOp::SBitCmp0B64,
        SopcOp::SCmpEqU64 => SopcOp::SCmpLgU64,
        SopcOp::SCmpLgU64 => SopcOp::SCmpEqU64,
    }
}

/// Every compare has a partner on the same operands that sets SCC to the
/// opposite value (equal / not equal, less / greater or equal, bit clear /
/// bit set, ...).
pub proof fn lemma_sopc_negation(s: WaveState, inst: sopc::Sopc)
    ensures
        sopc_scc(s, sopc::Sopc { op: negated(inst.op), ..inst }) == !sopc_scc(s, inst),
        negated(negated(inst.op)) == inst.op,
{
}

/// The unsigned compare with the same relation as a signed one.
pub open spec fn unsigned_of(op: SopcOp) -> SopcOp {
    match op {
        SopcOp::SCmpEqI32 => SopcOp::SCmpEqU32,
        SopcOp::SCmpLgI32 => SopcOp::SCmpLgU32,
        SopcOp::SCmpGtI32 => SopcOp::SCmpGtU32,
        SopcOp::SCmpGeI32 => SopcOp::SCmpGeU32,
        SopcOp::SCmpLtI32 => SopcOp::SCmpLtU32,
        SopcOp::SCmpLeI32 => SopcOp::SCmpLeU32,
        _ => op,
    }
}

/// Signed and unsigned compares agree when neither operand has its sign bit
/// set, and equality is the same relation either way.
pub proof fn lemma_signed_unsigned_agree(s: WaveState, inst: sopc::Sopc)
    requires
        (s.read(inst.ssrc0) < 0x8000_0000 && s.read(inst.ssrc1) < 0x8000_0000)
            || inst.op == SopcOp::SCmpEqI32 || inst.op == SopcOp::SCmpLgI32,
    ensures
        sopc_scc(s, sopc::Sopc { op: unsigned_of(inst.op), ..inst }) == sopc_scc(s, inst),
{
}

/// Subtracting what was added gives back the first operand, and the borrow of
/// the subtraction is the carry of the addition.
pub proof fn lemma_sub_undoes_add(a: u32, b: u32)
    ensures
        sop2_value(sop2::Sop2Op::SSubU32, sop2_value(sop2::Sop2Op::SAddU32, a, b).0, b).0 == a,
        sop2_value(sop2::Sop2Op::SSubU32, sop2_value(sop2::Sop2Op::SAddU32, a, b).0, b).1
            == sop2_value(sop2::Sop2Op::SAddU32, a, b).1,
{
}

/// What each compare sets SCC to, on the 32-bit reads `a` and `b` of its
/// sources: the signed compares are the relations between `a as i32` and
/// `b as i32`, the unsigned ones the relations between `a` and `b`; the bit
/// compares test the bit that `b` indexes (mod 32 or mod 64), and the 64-bit
/// compares the 64-bit reads.
pub proof fn lemma_sopc_relations(s: WaveState, inst: sopc::Sopc)
    ensures
        inst.op == SopcOp::SCmpEqI32 ==> (sopc_scc(s, inst) <==> (s.read(inst.ssrc0) as i32) == (s.read(inst.ssrc1) as i32)),
        inst.op == SopcOp::SCmpLgI32 ==> (sopc_scc(s, inst) <==> (s.read(inst.ssrc0) as i32) != (s.read(inst.ssrc1) as i32)),
        inst.op == SopcOp::SCmpGtI32 ==> (sopc_scc(s, inst) <==> (s.read(inst.ssrc0) as i32) > (s.read(inst.ssrc1) as i32)),
        inst.op == SopcOp::SCmpGeI32 ==> (sopc_scc(s, inst) <==> (s.read(inst.ssrc0) as i32) >= (s.read(inst.ssrc1) as i32)),
        inst.op == SopcOp::SCmpLtI32 ==> (sopc_scc(s, inst) <==> (s.read(inst.ssrc0) as i32) < (s.read(inst.ssrc1) as i32)),
        inst.op == SopcOp::SCmpLeI32 ==> (sopc_scc(s, inst) <==> (s.read(inst.ssrc0) as i32) <= (s.read(inst.ssrc1) as i32)),
        inst.op == SopcOp::SCmpEqU32 ==> (sopc_scc(s, inst) <==> s.read(inst.ssrc0) == s.read(inst.ssrc1)),
        inst.op == SopcOp::SCmpLgU32 ==> (sopc_scc(s, inst) <==> s.read(inst.ssrc0) != s.read(inst.ssrc1)),
        inst.op == SopcOp::SCmpGtU32 ==> (sopc_scc(s, inst) <==> s.read(inst.ssrc0) > s.read(inst.ssrc1)),
        inst.op == SopcOp::SCmpGeU32 ==> (sopc_scc(s, inst) <==> s.read(inst.ssrc0) >= s.read(inst.ssrc1)),
        inst.op == SopcOp::SCmpLtU32 ==> (sopc_scc(s, inst) <==> s.read(inst.ssrc0) < s.read(inst.ssrc1)),
        inst.op == SopcOp::SCmpLeU32 ==> (sopc_scc(s, inst) <==> s.read(inst.ssrc0) <= s.read(inst.ssrc1)),
        inst.op == SopcOp::SBitCmp0B32 ==> (sopc_scc(s, inst) <==> s.read(inst.ssrc0) & (1u32 << (s.read(inst.ssrc1) % 32)) == 0),
        inst.op == SopcOp::SBitCmp1B32 ==> (sopc_scc(s, inst) <==> s.read(inst.ssrc0) & (1u32 << (s.read(inst.ssrc1) % 32)) != 0),
        inst.op == SopcOp::SBitCmp0B64 ==> (sopc_scc(s, inst) <==> s.read64(inst.ssrc0) & (1u64 << ((s.read(inst.ssrc1) % 64) as u64)) == 0),
        inst.op == SopcOp::SBitCmp1B64 ==> (sopc_scc(s, inst) <==> s.read64(inst.ssrc0) & (1u64 << ((s.read(inst.ssrc1) % 64) as u64)) != 0),
        inst.op == SopcOp::SCmpEqU64 ==> (sopc_scc(s, inst) <==> s.read64(inst.ssrc0) == s.read64(inst.ssrc1)),
        inst.op == SopcOp::SCmpLgU64 ==> (sopc_scc(s, inst) <==> s.read64(inst.ssrc0) != s.read64(inst.ssrc1)),
{
    let a = s.read(inst.ssrc0);
    let b = s.read(inst.ssrc1);
    lemma_signed32(a);
    lemma_signed32(b);
    let n = b % 32;
    lemma_u32_shr_is_div(a, n);
    assert((a >> n) % 2 == 0 <==> a & (1u32 << n) == 0) by (bit_vector)
        requires
            n < 32u32,
    ;
    let v = s.read64(inst.ssrc0);
    let m = (b % 64) as u64;
    lemma_u64_shr_is_div(v, m);
    assert((v >> m) % 2 == 0 <==> v & (1u64 << m) == 0) by (bit_vector)
        requires
            m < 64u64,
    ;
}

/// A signed and the matching unsigned compare disagree exactly when the
/// operands differ and exactly one of them has its sign bit set: then the
/// negative one is the smaller as `i32` and the larger as `u32`.
pub proof fn lemma_signed_unsigned_differ(s: WaveState, inst: sopc::Sopc)
    requires
        inst.op == SopcOp::SCmpGtI32 || inst.op == SopcOp::SCmpGeI32 || inst.op == SopcOp::SCmpLtI32
            || inst.op == SopcOp::SCmpLeI32,
        (s.read(inst.ssrc0) >= 0x8000_0000) != (s.read(inst.ssrc1) >= 0x8000_0000),
    ensures
        sopc_scc(s, sopc::Sopc { op: unsigned_of(inst.op), ..inst }) == !sopc_scc(s, inst),
{
}

/// `s_add_u32` leaves the sum with its carry out of bit 31 in SCC, and
/// `s_sub_u32` the difference with the borrow in SCC: the result and SCC
/// together give the exact sum or difference.
pub proof fn lemma_sop2_arithmetic(a: u32, b: u32)
    ensures
        sop2_value(sop2::Sop2Op::SAddU32, a, b).0 + (if sop2_value(sop2::Sop2Op::SAddU32, a, b).1 {
            0x1_0000_0000int
        } else {
            0
        }) == a + b,
        sop2_value(sop2::Sop2Op::SSubU32, a, b).0 + b == a + (if sop2_value(sop2::Sop2Op::SSubU32, a, b).1 {
            0x1_0000_0000int
        } else {
            0
        }),
        sop2_value(sop2::Sop2Op::SAddU32, a, b).1 <==> a as int + b as int > u32::MAX,
        sop2_value(sop2::Sop2Op::SSubU32, a, b).1 <==> a < b,
{
}

/// A SOP2 instruction writes its result to the destination register and its
/// carry or borrow to SCC, and changes nothing else.
pub proof fn lemma_sop2_effects(s: WaveState, inst: sop2::Sop2)
    requires
        sop2_supported(inst),
        s.sgpr.len() == SGPR_COUNT,
    ensures
        sop2_next(s, inst).read(inst.sdst) == sop2_value(inst.op, s.read(inst.ssrc0), s.read(inst.ssrc1)).0,
        sop2_next(s, inst).scc == sop2_value(inst.op, s.read(inst.ssrc0), s.read(inst.ssrc1)).1,
        sop2_next(s, inst).pc == s.pc,
        forall|j: int|
            0 <= j < SGPR_COUNT && j != inst.sdst->Sgpr_0 ==> #[trigger] sop2_next(s, inst).sgpr[j]
                == s.sgpr[j],
        sop2_next(s, inst).sgpr.len() == s.sgpr.len(),
{
}

/// `s_mov_b32` makes the destination read as the source did, and changes
/// nothing else.
pub proof fn lemma_sop1_effects(s: WaveState, inst: sop1::Sop1)
    requires
        sop1_supported(inst),
        s.sgpr.len() == SGPR_COUNT,
    ensures
        sop1_next(s, inst).read(inst.sdst) == s.read(inst.ssrc0),
        sop1_next(s, inst).scc == s.scc,
        sop1_next(s, inst).pc == s.pc,
        forall|j: int|
            0 <= j < SGPR_COUNT && j != inst.sdst->Sgpr_0 ==> #[trigger] sop1_next(s, inst).sgpr[j]
                == s.sgpr[j],
        sop1_next(s, inst).sgpr.len() == s.sgpr.len(),
{
}

/// A SOPC instruction changes only SCC.
pub proof fn lemma_sopc_effects(s: WaveState, inst: sopc::Sopc)
    ensures
        sopc_next(s, inst).scc == sopc_scc(s, inst),
        sopc_next(s, inst).pc == s.pc,
        sopc_next(s, inst).sgpr == s.sgpr,
{
}

} // verus!
