//! SOP1: scalar instructions with one source operand.
use vstd::prelude::*;
use crate::bits::{bits, field, lemma_field_facts};
use crate::operand::{Operand, operand_of, is_operand_code};

verus! {

#[derive(PartialEq, Eq, Structural, Debug, Clone, Copy)]
pub enum Sop1Op {
    SMovB32,
    SMovB64,
    SCMovB32,
    SCmovB64,
    SNotB32,
    SNotB64,
    SWqmB32,
    SWqmB64,
    SBrevB32,
    SBrevB64,
    SBcnt0i32B32,
    SBcnt0i32B64,
    SBcnt1i32B32,
    SBcnt1i32B64,
    SFF0i32B32,
    SFF0i32B64,
    SFF1i32B32,
    SFF1i32B64,
    SFLBiti32B32,
    SFLBiti32B64,
}

#[derive(PartialEq, Eq, Structural, Debug)]
pub struct Sop1 {
    pub op: Sop1Op,
    pub sdst: Operand,
    pub ssrc0: Operand,
}

/// The value of bits 31..23 that marks a SOP1 word.
pub const ENCODING: u32 = 0b1_0111_1101;

/// The operation that opcode `code` (bits 15..8) names.
pub open spec fn op_of(code: u32) -> Option<Sop1Op> {
    match code {
        0x03 => Some(Sop1Op::SMovB32),
        0x04 => Some(Sop1Op::SMovB64),
        0x05 => Some(Sop1Op::SCMovB32),
        0x06 => Some(Sop1Op::SCmovB64),
        0x07 => Some(Sop1Op::SNotB32),
        0x08 => Some(Sop1Op::SNotB64),
        0x09 => Some(Sop1Op::SWqmB32),
        0x0A => Some(Sop1Op::SWqmB64),
        0x0B => Some(Sop1Op::SBrevB32),
        0x0C => Some(Sop1Op::SBrevB64),
        0x0D => Some(Sop1Op::SBcnt0i32B32),
        0x0E => Some(Sop1Op::SBcnt0i32B64),
        0x0F => Some(Sop1Op::SBcnt1i32B32),
        0x10 => Some(Sop1Op::SBcnt1i32B64),
        0x11 => Some(Sop1Op::SFF0i32B32),
        0x12 => Some(Sop1Op::SFF0i32B64),
        0x13 => Some(Sop1Op::SFF1i32B32),
        0x14 => Some(Sop1Op::SFF1i32B64),
        0x15 => Some(Sop1Op::SFLBiti32B32),
        0x16 => Some(Sop1Op::SFLBiti32B64),
        _ => None,
    }
}

/// Whether `word` is a SOP1 word with a known opcode.
pub open spec fn is_instruction(word: u32) -> bool {
    &&& field(word, 31, 23) == ENCODING
    &&& op_of(field(word, 15, 8) as u32) is Some
}

/// The words on which `decode` is defined: a SOP1 word with a known opcode
/// names a valid source operand.
pub open spec fn decodable(words: Seq<u32>) -> bool {
    words.len() > 0 && is_instruction(words[0]) ==> is_operand_code(field(words[0], 7, 0) as u32)
}

/// The SOP1 instruction at the start of `words`, and the number of words it takes.
pub open spec fn decoded(words: Seq<u32>) -> Option<(Sop1, usize)> {
    if words.len() == 0 || !is_instruction(words[0]) {
        None
    } else {
        let word = words[0];
        let op = op_of(field(word, 15, 8) as u32).unwrap();
        let sdst = operand_of(field(word, 22, 16) as u32);
        let ssrc0 = operand_of(field(word, 7, 0) as u32);
        if ssrc0 == Operand::LiteralPending {
            if words.len() < 2 {
                None
            } else {
                Some((Sop1 { op, sdst, ssrc0: Operand::Literal(words[1]) }, 2))
            }
        } else {
            Some((Sop1 { op, sdst, ssrc0 }, 1))
        }
    }
}

/// Decodes the SOP1 instruction at the start of `words`; a literal source
/// operand is read from the second word.
pub fn decode(words: &[u32]) -> (r: Option<(Sop1, usize)>)
    requires
        decodable(words@),
    ensures
        r == decoded(words@),
{
    if words.len() == 0 {
        return None;
    }
    let word = words[0];

    if bits(word, 31, 23) != ENCODING {
        return None;
    }
    proof {
        lemma_field_facts(word);
    }

    let sdst = Operand::decode(bits(word, 22, 16));

    let op = match bits(word, 15, 8) {
        0x03 => Sop1Op::SMovB32,
        0x04 => Sop1Op::SMovB64,
        0x05 => Sop1Op::SCMovB32,
        0x06 => Sop1Op::SCmovB64,
        0x07 => Sop1Op::SNotB32,
        0x08 => Sop1Op::SNotB64,
        0x09 => Sop1Op::SWqmB32,
        0x0A => Sop1Op::SWqmB64,
        0x0B => Sop1Op::SBrevB32,
        0x0C => Sop1Op::SBrevB64,
        0x0D => Sop1Op::SBcnt0i32B32,
        0x0E => Sop1Op::SBcnt0i32B64,
        0x0F => Sop1Op::SBcnt1i32B32,
        0x10 => Sop1Op::SBcnt1i32B64,
        0x11 => Sop1Op::SFF0i32B32,
        0x12 => Sop1Op::SFF0i32B64,
        0x13 => Sop1Op::SFF1i32B32,
        0x14 => Sop1Op::SFF1i32B64,
        0x15 => Sop1Op::SFLBiti32B32,
        0x16 => Sop1Op::SFLBiti32B64,
        _ => return None,
    };

    let mut ssrc0 = Operand::decode(bits(word, 7, 0));

    let mut len: usize = 1;
    if ssrc0 == Operand::LiteralPending {
        if words.len() < 2 {
            return None;
        }
        let lit = words[1];
        ssrc0 = Operand::Literal(lit);
        len = 2;
    }

    Some((Sop1 { op, sdst, ssrc0 }, len))
}

/// The SOP1 opcode map, 0x03 - 0x16 in the order of `Sop1Op`: s_mov, s_cmov,
/// s_not, s_wqm, s_brev, s_bcnt0, s_bcnt1, s_ff0, s_ff1, s_flbit, each in a
/// 32-bit then a 64-bit form; nothing else.
pub proof fn lemma_opcode_map(code: u32)
    ensures
        op_of(0x03) == Some(Sop1Op::SMovB32),
        op_of(0x04) == Some(Sop1Op::SMovB64),
        op_of(0x05) == Some(Sop1Op::SCMovB32),
        op_of(0x06) == Some(Sop1Op::SCmovB64),
        op_of(0x07) == Some(Sop1Op::SNotB32),
        op_of(0x08) == Some(Sop1Op::SNotB64),
        op_of(0x09) == Some(Sop1Op::SWqmB32),
        op_of(0x0A) == Some(Sop1Op::SWqmB64),
        op_of(0x0B) == Some(Sop1Op::SBrevB32),
        op_of(0x0C) == Some(Sop1Op::SBrevB64),
        op_of(0x0D) == Some(Sop1Op::SBcnt0i32B32),
        op_of(0x0E) == Some(Sop1Op::SBcnt0i32B64),
        op_of(0x0F) == Some(Sop1Op::SBcnt1i32B32),
        op_of(0x10) == Some(Sop1Op::SBcnt1i32B64),
        op_of(0x11) == Some(Sop1Op::SFF0i32B32),
        op_of(0x12) == Some(Sop1Op::SFF0i32B64),
        op_of(0x13) == Some(Sop1Op::SFF1i32B32),
        op_of(0x14) == Some(Sop1Op::SFF1i32B64),
        op_of(0x15) == Some(Sop1Op::SFLBiti32B32),
        op_of(0x16) == Some(Sop1Op::SFLBiti32B64),
        op_of(code) is Some <==> 0x03 <= code <= 0x16,
{
}

} // verus!
