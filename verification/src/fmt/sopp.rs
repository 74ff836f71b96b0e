//! SOPP: program flow instructions with a 16-bit signed immediate.
use vstd::prelude::*;
use crate::bits::{bits, field, lemma_field_facts};

verus! {

/// Bits 31..23 of a word.
pub const MASK: u32 = 0xFF80_0000;
/// Bits 31..23 of a SOPP word: `0b1011_1111_1`.
pub const MAGIC: u32 = 0xBF80_0000;

#[derive(Debug, PartialEq, Eq, Structural, Clone, Copy)]
pub enum SoppOp {
    SNop,
    SEndPgm,
    SBranch,
    SWakeUp,
    SCBranchScc0,
    SCBranchScc1,
    SCBranchVccz,
}

/// The operation that opcode `code` (bits 22..16) names.
pub open spec fn op_of(code: u32) -> Option<SoppOp> {
    match code {
        0x00 => Some(SoppOp::SNop),
        0x01 => Some(SoppOp::SEndPgm),
        0x02 => Some(SoppOp::SBranch),
        0x03 => Some(SoppOp::SWakeUp),
        0x04 => Some(SoppOp::SCBranchScc0),
        0x05 => Some(SoppOp::SCBranchScc1),
        0x06 => Some(SoppOp::SCBranchVccz),
        _ => None,
    }
}

impl SoppOp {
    /// The operation named by opcode `op`.
    pub fn decode(op: u32) -> (r: Option<Self>)
        ensures
            r == op_of(op),
    {
        match op {
            0x00 => Some(Self::SNop),
            0x01 => Some(Self::SEndPgm),
            0x02 => Some(Self::SBranch),
            0x03 => Some(Self::SWakeUp),
            0x04 => Some(Self::SCBranchScc0),
            0x05 => Some(Self::SCBranchScc1),
            0x06 => Some(Self::SCBranchVccz),
            _ => None,
        }
    }
}

#[derive(PartialEq, Eq, Structural, Debug)]
pub struct Sopp {
    pub op: SoppOp,
    pub simm16: i16,
}

/// A 16-bit field read as a two's complement number.
pub open spec fn signed16(f: nat) -> int {
    if f < 0x8000 {
        f as int
    } else {
        f - 0x1_0000
    }
}

/// Whether `word` is a SOPP word with a known opcode.
pub open spec fn is_instruction(word: u32) -> bool {
    &&& field(word, 31, 23) == 0x17F
    &&& op_of(field(word, 22, 16) as u32) is Some
}

/// The SOPP instruction at the start of `words`, and the number of words it takes.
pub open spec fn decoded(words: Seq<u32>) -> Option<(Sopp, usize)> {
    if words.len() == 0 || !is_instruction(words[0]) {
        None
    } else {
        let word = words[0];
        Some((
            Sopp {
                op: op_of(field(word, 22, 16) as u32).unwrap(),
                simm16: signed16(field(word, 15, 0)) as i16,
            },
            1,
        ))
    }
}

/// Decodes the SOPP instruction at the start of `words`.
pub fn decode(words: &[u32]) -> (r: Option<(Sopp, usize)>)
    ensures
        r == decoded(words@),
{
    if words.len() == 0 {
        return None;
    }
    let word = words[0];

    proof {
        lemma_field_facts(word);
        assert((word & 0xFF80_0000 == 0xBF80_0000) == (word >> 23 == 0x17F)) by (bit_vector);
    }
    if word & MASK != MAGIC {
        return None;
    }

    let imm = bits(word, 15, 0);
    let simm16 = imm as u16 as i16;
    proof {
        let h = imm as u16;
        assert(h == imm);
        if h >= 0x8000 {
            assert(h as i16 == h - 0x1_0000) by (bit_vector)
                requires
                    h >= 0x8000u16,
            ;
        }
    }
    let op = match SoppOp::decode(bits(word, 22, 16)) {
        Some(op) => op,
        None => return None,
    };

    Some((Sopp { op, simm16 }, 1))
}

/// The SOPP opcode map: 0 s_nop, 1 s_endpgm, 2 s_branch, 3 s_wakeup,
/// 4 s_cbranch_scc0, 5 s_cbranch_scc1, 6 s_cbranch_vccz; nothing else.
pub proof fn lemma_opcode_map(code: u32)
    ensures
        op_of(0) == Some(SoppOp::SNop),
        op_of(1) == Some(SoppOp::SEndPgm),
        op_of(2) == Some(SoppOp::SBranch),
        op_of(3) == Some(SoppOp::SWakeUp),
        op_of(4) == Some(SoppOp::SCBranchScc0),
        op_of(5) == Some(SoppOp::SCBranchScc1),
        op_of(6) == Some(SoppOp::SCBranchVccz),
        op_of(code) is Some <==> code <= 6,
{
}

/// The immediate of a decoded SOPP instruction has the bit pattern of the
/// word's low 16 bits.
pub proof fn lemma_immediate_bits(words: Seq<u32>)
    ensures
        decoded(words) matches Some((inst, _)) ==> inst.simm16 as u16 == field(words[0], 15, 0),
{
    if let Some((inst, _)) = decoded(words) {
        lemma_field_facts(words[0]);
        let f = field(words[0], 15, 0);
        let k = inst.simm16;
        if f >= 0x8000 {
            assert(k as int == f - 0x1_0000);
            assert(k < 0);
            assert((k as u16) as int == k + 0x1_0000) by (bit_vector)
                requires
                    k < 0i16,
            ;
        }
    }
}

} // verus!
