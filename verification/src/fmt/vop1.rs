//! VOP1: vector instructions with one source operand.
use vstd::prelude::*;
use crate::bits::{bits, field, lemma_field_facts};
use crate::operand::{Operand, operand_of, is_operand_code};

verus! {

/// Bits 31..25 of a word.
pub const MASK: u32 = 0xFE00_0000;
/// Bits 31..25 of a VOP1 word: `0b0111_111`.
pub const MAGIC: u32 = 0x7E00_0000;

#[derive(Debug, PartialEq, Eq, Structural, Clone, Copy)]
pub enum Vop1Op {
    VNop,
    VMovB32,
    VReadFirstLaneB32,
    VCvtI32F64,
    VCvtF64I32,
}

/// The operation that opcode `code` (bits 16..9) names.
pub open spec fn op_of(code: u32) -> Option<Vop1Op> {
    match code {
        0x00 => Some(Vop1Op::VNop),
        0x01 => Some(Vop1Op::VMovB32),
        0x02 => Some(Vop1Op::VReadFirstLaneB32),
        0x03 => Some(Vop1Op::VCvtI32F64),
        0x04 => Some(Vop1Op::VCvtF64I32),
        _ => None,
    }
}

impl Vop1Op {
    /// The operation named by opcode `op`.
    pub fn decode(op: u32) -> (r: Option<Self>)
        ensures
            r == op_of(op),
    {
        match op {
            0x00 => Some(Self::VNop),
            0x01 => Some(Self::VMovB32),
            0x02 => Some(Self::VReadFirstLaneB32),
            0x03 => Some(Self::VCvtI32F64),
            0x04 => Some(Self::VCvtF64I32),
            _ => None,
        }
    }
}

#[derive(PartialEq, Eq, Structural, Debug)]
pub struct Vop1 {
    pub op: Vop1Op,
    pub vdst: u8,
    pub src0: Operand,
}

/// Whether `word` is a VOP1 word with a known opcode.
pub open spec fn is_instruction(word: u32) -> bool {
    &&& field(word, 31, 25) == 0x3F
    &&& op_of(field(word, 16, 9) as u32) is Some
}

/// The words on which `decode` is defined: a VOP1 word with a known opcode
/// names a valid source operand.
pub open spec fn decodable(words: Seq<u32>) -> bool {
    words.len() > 0 && is_instruction(words[0]) ==> is_operand_code(field(words[0], 8, 0) as u32)
}

/// The VOP1 instruction at the start of `words`, and the number of words it takes.
pub open spec fn decoded(words: Seq<u32>) -> Option<(Vop1, usize)> {
    if words.len() == 0 || !is_instruction(words[0]) {
        None
    } else {
        let word = words[0];
        let op = op_of(field(word, 16, 9) as u32).unwrap();
        let vdst = field(word, 24, 17) as u8;
        let src0 = operand_of(field(word, 8, 0) as u32);
        if src0 == Operand::LiteralPending {
            if words.len() < 2 {
                None
            } else {
                Some((Vop1 { op, vdst, src0: Operand::Literal(words[1]) }, 2))
            }
        } else {
            Some((Vop1 { op, vdst, src0 }, 1))
        }
    }
}

/// Decodes the VOP1 instruction at the start of `words`; a literal source
/// operand is read from the second word.
pub fn decode(words: &[u32]) -> (r: Option<(Vop1, usize)>)
    requires
        decodable(words@),
    ensures
        r == decoded(words@),
{
    if words.len() == 0 {
        return None;
    }
    let word = words[0];

    proof {
        lemma_field_facts(word);
        assert((word & 0xFE00_0000 == 0x7E00_0000) == (word >> 25 == 0x3F)) by (bit_vector);
    }
    if word & MASK != MAGIC {
        return None;
    }

    let vdst = bits(word, 24, 17) as u8;
    let op = match Vop1Op::decode(bits(word, 16, 9)) {
        Some(op) => op,
        None => return None,
    };
    let mut src0 = Operand::decode(bits(word, 8, 0));

    let mut len: usize = 1;
    if src0 == Operand::LiteralPending {
        if words.len() < 2 {
            return None;
        }
        let lit = words[1];
        src0 = Operand::Literal(lit);
        len = 2;
    }

    Some((Vop1 { op, vdst, src0 }, len))
}

/// The VOP1 opcode map: 0 v_nop, 1 v_mov_b32, 2 v_readfirstlane_b32,
/// 3 v_cvt_i32_f64, 4 v_cvt_f64_i32; nothing else.
pub proof fn lemma_opcode_map(code: u32)
    ensures
        op_of(0) == Some(Vop1Op::VNop),
        op_of(1) == Some(Vop1Op::VMovB32),
        op_of(2) == Some(Vop1Op::VReadFirstLaneB32),
        op_of(3) == Some(Vop1Op::VCvtI32F64),
        op_of(4) == Some(Vop1Op::VCvtF64I32),
        op_of(code) is Some <==> code <= 4,
{
}

} // verus!
