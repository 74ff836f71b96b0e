//! SOPC: scalar compares that set SCC.
use vstd::prelude::*;
use crate::bits::{bits, field, lemma_field_facts};
use crate::operand::{Operand, operand_of, is_operand_code, with_literal};

verus! {

/// Bits 31..23 of a word.
pub const MASK: u32 = 0xFF80_0000;
/// Bits 31..23 of a SOPC word: `0b1011_1111_0`.
pub const MAGIC: u32 = 0xBF00_0000;

#[derive(Debug, PartialEq, Eq, Structural, Clone, Copy)]
pub enum SopcOp {
    SCmpEqI32,
    SCmpLgI32,
    SCmpGtI32,
    SCmpGeI32,
    SCmpLtI32,
    SCmpLeI32,
    SCmpEqU32,
    SCmpLgU32,
    SCmpGtU32,
    SCmpGeU32,
    SCmpLtU32,
    SCmpLeU32,
    SBitCmp0B32,
    SBitCmp1B32,
    SBitCmp0B64,
    SBitCmp1B64,
    SCmpEqU64,
    SCmpLgU64,
}

/// The operation that opcode `code` (bits 22..16) names.
pub open spec fn op_of(code: u32) -> Option<SopcOp> {
    match code {
        0x00 => Some(SopcOp::SCmpEqI32),
        0x01 => Some(SopcOp::SCmpLgI32),
        0x02 => Some(SopcOp::SCmpGtI32),
        0x03 => Some(SopcOp::SCmpGeI32),
        0x04 => Some(SopcOp::SCmpLtI32),
        0x05 => Some(SopcOp::SCmpLeI32),
        0x06 => Some(SopcOp::SCmpEqU32),
        0x07 => Some(SopcOp::SCmpLgU32),
        0x08 => Some(SopcOp::SCmpGtU32),
        0x09 => Some(SopcOp::SCmpGeU32),
        0x0A => Some(SopcOp::SCmpLtU32),
        0x0B => Some(SopcOp::SCmpLeU32),
        0x0C => Some(SopcOp::SBitCmp0B32),
        0x0D => Some(SopcOp::SBitCmp1B32),
        0x0E => Some(SopcOp::SBitCmp0B64),
        0x0F => Some(SopcOp::SBitCmp1B64),
        0x12 => Some(SopcOp::SCmpEqU64),
        0x13 => Some(SopcOp::SCmpLgU64),
        _ => None,
    }
}

impl SopcOp {
    /// The operation named by opcode `op`.
    pub fn decode(op: u32) -> (r: Option<Self>)
        ensures
            r == op_of(op),
    {
        match op {
            0x00 => Some(Self::SCmpEqI32),
            0x01 => Some(Self::SCmpLgI32),
            0x02 => Some(Self::SCmpGtI32),
            0x03 => Some(Self::SCmpGeI32),
            0x04 => Some(Self::SCmpLtI32),
            0x05 => Some(Self::SCmpLeI32),
            0x06 => Some(Self::SCmpEqU32),
            0x07 => Some(Self::SCmpLgU32),
            0x08 => Some(Self::SCmpGtU32),
            0x09 => Some(Self::SCmpGeU32),
            0x0A => Some(Self::SCmpLtU32),
            0x0B => Some(Self::SCmpLeU32),
            0x0C => Some(Self::SBitCmp0B32),
            0x0D => Some(Self::SBitCmp1B32),
            0x0E => Some(Self::SBitCmp0B64),
            0x0F => Some(Self::SBitCmp1B64),
            0x12 => Some(Self::SCmpEqU64),
            0x13 => Some(Self::SCmpLgU64),
            _ => None,
        }
    }
}

#[derive(PartialEq, Eq, Structural, Debug)]
pub struct Sopc {
    pub op: SopcOp,
    pub ssrc0: Operand,
    pub ssrc1: Operand,
}

/// Whether `word` is a SOPC word with a known opcode.
pub open spec fn is_instruction(word: u32) -> bool {
    &&& field(word, 31, 23) == 0x17E
    &&& op_of(field(word, 22, 16) as u32) is Some
}

/// The words on which `decode` is defined: a SOPC word with a known opcode
/// names valid source operands.
pub open spec fn decodable(words: Seq<u32>) -> bool {
    words.len() > 0 && is_instruction(words[0]) ==> {
        &&& is_operand_code(field(words[0], 7, 0) as u32)
        &&& is_operand_code(field(words[0], 15, 8) as u32)
    }
}

/// The SOPC instruction at the start of `words`, and the number of words it takes.
pub open spec fn decoded(words: Seq<u32>) -> Option<(Sopc, usize)> {
    if words.len() == 0 || !is_instruction(words[0]) {
        None
    } else {
        let word = words[0];
        let op = op_of(field(word, 22, 16) as u32).unwrap();
        let ssrc0 = operand_of(field(word, 7, 0) as u32);
        let ssrc1 = operand_of(field(word, 15, 8) as u32);
        if ssrc0 == Operand::LiteralPending || ssrc1 == Operand::LiteralPending {
            if words.len() < 2 {
                None
            } else {
                Some((
                    Sopc {
                        op,
                        ssrc0: with_literal(ssrc0, words[1]),
                        ssrc1: with_literal(ssrc1, words[1]),
                    },
                    2,
                ))
            }
        } else {
            Some((Sopc { op, ssrc0, ssrc1 }, 1))
        }
    }
}

/// Decodes the SOPC instruction at the start of `words`; a literal source
/// operand is read from the second word (both sources share it).
pub fn decode(words: &[u32]) -> (r: Option<(Sopc, usize)>)
    requires
        decodable(words@),
    ensures
        r == decoded(words@),
{
    if words.len() == 0 {
        return None;
    }
    let word = words[0];

    proof {
        lemma_field_facts(word);
        assert((word & 0xFF80_0000 == 0xBF00_0000) == (word >> 23 == 0x17E)) by (bit_vector);
    }
    if word & MASK != MAGIC {
        return None;
    }

    let op = match SopcOp::decode(bits(word, 22, 16)) {
        Some(op) => op,
        None => return None,
    };
    let mut ssrc0 = Operand::decode(bits(word, 7, 0));
    let mut ssrc1 = Operand::decode(bits(word, 15, 8));

    let mut len: usize = 1;

    if ssrc0 == Operand::LiteralPending || ssrc1 == Operand::LiteralPending {
        if words.len() < 2 {
            return None;
        }
        let lit = words[1];
        len = 2;
        if ssrc0 == Operand::LiteralPending {
            ssrc0 = Operand::Literal(lit);
        }
        if ssrc1 == Operand::LiteralPending {
            ssrc1 = Operand::Literal(lit);
        }
    }

    Some((Sopc { op, ssrc0, ssrc1 }, len))
}

/// The SOPC opcode map: 0x00 - 0x05 the signed compares eq, lg, gt, ge, lt,
/// le; 0x06 - 0x0B the same unsigned; 0x0C - 0x0F bit compares (clear, set;
/// 32 then 64 bits); 0x12 and 0x13 the 64-bit eq and lg; nothing else.
pub proof fn lemma_opcode_map(code: u32)
    ensures
        op_of(0x00) == Some(SopcOp::SCmpEqI32),
        op_of(0x01) == Some(SopcOp::SCmpLgI32),
        op_of(0x02) == Some(SopcOp::SCmpGtI32),
        op_of(0x03) == Some(SopcOp::SCmpGeI32),
        op_of(0x04) == Some(SopcOp::SCmpLtI32),
        op_of(0x05) == Some(SopcOp::SCmpLeI32),
        op_of(0x06) == Some(SopcOp::SCmpEqU32),
        op_of(0x07) == Some(SopcOp::SCmpLgU32),
        op_of(0x08) == Some(SopcOp::SCmpGtU32),
        op_of(0x09) == Some(SopcOp::SCmpGeU32),
        op_of(0x0A) == Some(SopcOp::SCmpLtU32),
        op_of(0x0B) == Some(SopcOp::SCmpLeU32),
        op_of(0x0C) == Some(SopcOp::SBitCmp0B32),
        op_of(0x0D) == Some(SopcOp::SBitCmp1B32),
        op_of(0x0E) == Some(SopcOp::SBitCmp0B64),
        op_of(0x0F) == Some(SopcOp::SBitCmp1B64),
        op_of(0x12) == Some(SopcOp::SCmpEqU64),
        op_of(0x13) == Some(SopcOp::SCmpLgU64),
        op_of(code) is Some <==> code <= 0x0F || code == 0x12 || code == 0x13,
        op_of(code) is Some ==> forall|other: u32| #[trigger] op_of(other) == op_of(code) ==> other == code,
{
}

} // verus!
