//! SOP2: scalar instructions with two source operands.
use vstd::prelude::*;
use crate::bits::{bits, field, lemma_field_facts};
use crate::operand::{Operand, operand_of, is_operand_code, with_literal};

verus! {

/// Bits 31..30 of a word.
pub const MASK: u32 = 0xC000_0000;
/// Bits 31..30 of a SOP2 word: `0b10`.
pub const MAGIC: u32 = 0x8000_0000;

#[derive(Debug, PartialEq, Eq, Structural, Clone, Copy)]
pub enum Sop2Op {
    SAddU32,
    SSubU32,
}

/// The operation that opcode `code` (bits 29..23) names.
pub open spec fn op_of(code: u32) -> Option<Sop2Op> {
    match code {
        0x00 => Some(Sop2Op::SAddU32),
        0x01 => Some(Sop2Op::SSubU32),
        _ => None,
    }
}

impl Sop2Op {
    /// The operation named by opcode `op`.
    pub fn decode(op: u32) -> (r: Option<Self>)
        ensures
            r == op_of(op),
    {
        match op {
            0x00 => Some(Self::SAddU32),
            0x01 => Some(Self::SSubU32),
            _ => None,
        }
    }
}

#[derive(PartialEq, Eq, Structural, Debug)]
pub struct Sop2 {
    pub op: Sop2Op,
    pub sdst: Operand,
    pub ssrc0: Operand,
    pub ssrc1: Operand,
}

/// Whether `word` is a SOP2 word with a known opcode.
pub open spec fn is_instruction(word: u32) -> bool {
    &&& field(word, 31, 30) == 2
    &&& op_of(field(word, 29, 23) as u32) is Some
}

/// The words on which `decode` is defined: a SOP2 word with a known opcode
/// names valid source operands.
pub open spec fn decodable(words: Seq<u32>) -> bool {
    words.len() > 0 && is_instruction(words[0]) ==> {
        &&& is_operand_code(field(words[0], 7, 0) as u32)
        &&& is_operand_code(field(words[0], 15, 8) as u32)
    }
}

/// The SOP2 instruction at the start of `words`, and the number of words it takes.
pub open spec fn decoded(words: Seq<u32>) -> Option<(Sop2, usize)> {
    if words.len() == 0 || !is_instruction(words[0]) {
        None
    } else {
        let word = words[0];
        let op = op_of(field(word, 29, 23) as u32).unwrap();
        let sdst = operand_of(field(word, 22, 16) as u32);
        let ssrc0 = operand_of(field(word, 7, 0) as u32);
        let ssrc1 = operand_of(field(word, 15, 8) as u32);
        if ssrc0 == Operand::LiteralPending || ssrc1 == Operand::LiteralPending {
            if words.len() < 2 {
                None
            } else {
                Some((
                    Sop2 {
                        op,
                        sdst,
                        ssrc0: with_literal(ssrc0, words[1]),
                        ssrc1: with_literal(ssrc1, words[1]),
                    },
                    2,
                ))
            }
        } else {
            Some((Sop2 { op, sdst, ssrc0, ssrc1 }, 1))
        }
    }
}

/// Decodes the SOP2 instruction at the start of `words`; a literal source
/// operand is read from the second word (both sources share it).
pub fn decode(words: &[u32]) -> (r: Option<(Sop2, usize)>)
    requires
        decodable(words@),
    ensures
        r == decoded(words@),
{
    if words.len() == 0 {
        return None;
    }
    let word = words[0];

    proof {
        lemma_field_facts(word);
        assert((word & 0xC000_0000 == 0x8000_0000) == (word >> 30 == 2)) by (bit_vector);
    }
    if word & MASK != MAGIC {
        return None;
    }

    let sdst = Operand::decode(bits(word, 22, 16));
    let op = match Sop2Op::decode(bits(word, 29, 23)) {
        Some(op) => op,
        None => return None,
    };
    let mut ssrc0 = Operand::decode(bits(word, 7, 0));
    let mut ssrc1 = Operand::decode(bits(word, 15, 8));

    let mut len: usize = 1;

    if ssrc0 == Operand::LiteralPending || ssrc1 == Operand::LiteralPending {
        if words.len() < 2 {
            return None;
        }
        let lit = words[1];
        len = 2;
        if ssrc0 == Operand::LiteralPending {
            ssrc0 = Operand::Literal(lit);
        }
        if ssrc1 == Operand::LiteralPending {
            ssrc1 = Operand::Literal(lit);
        }
    }

    Some((Sop2 { op, sdst, ssrc0, ssrc1 }, len))
}

/// The SOP2 opcode map: 0 s_add_u32, 1 s_sub_u32; nothing else.
pub proof fn lemma_opcode_map(code: u32)
    ensures
        op_of(0) == Some(Sop2Op::SAddU32),
        op_of(1) == Some(Sop2Op::SSubU32),
        op_of(code) is Some <==> code <= 1,
{
}

} // verus!
