//! Decoding of one scalar instruction of any supported encoding.
use vstd::prelude::*;
use crate::bits::lemma_field_facts;
use crate::fmt::{sop1, sop2, sopc, sopp, vop1};
use crate::operand::Operand;

verus! {

#[derive(Debug, PartialEq, Eq, Structural)]
pub enum Instruction {
    Sop1(sop1::Sop1),
    Sop2(sop2::Sop2),
    Sopc(sopc::Sopc),
    Sopp(sopp::Sopp),
}

/// The words on which `decode` is defined: no encoding that matches the first
/// word names an invalid source operand.
pub open spec fn decodable(words: Seq<u32>) -> bool {
    &&& sop1::decodable(words)
    &&& sopc::decodable(words)
    &&& sop2::decodable(words)
}

/// The scalar instruction at the start of `words`, and the number of words it
/// takes, trying SOP1, SOPC, SOPP and SOP2 in turn.
pub open spec fn decoded(words: Seq<u32>) -> Option<(Instruction, usize)> {
    match sop1::decoded(words) {
        Some((inst, len)) => Some((Instruction::Sop1(inst), len)),
        None => match sopc::decoded(words) {
            Some((inst, len)) => Some((Instruction::Sopc(inst), len)),
            None => match sopp::decoded(words) {
                Some((inst, len)) => Some((Instruction::Sopp(inst), len)),
                None => match sop2::decoded(words) {
                    Some((inst, len)) => Some((Instruction::Sop2(inst), len)),
                    None => None,
                },
            },
        },
    }
}

/// Decodes the scalar instruction at the start of `words`.
pub fn decode(words: &[u32]) -> (r: Option<(Instruction, usize)>)
    requires
        decodable(words@),
    ensures
        r == decoded(words@),
{
    match sop1::decode(words) {
        Some((inst, len)) => return Some((Instruction::Sop1(inst), len)),
        None => {},
    }
    match sopc::decode(words) {
        Some((inst, len)) => return Some((Instruction::Sopc(inst), len)),
        None => {},
    }
    match sopp::decode(words) {
        Some((inst, len)) => return Some((Instruction::Sopp(inst), len)),
        None => {},
    }
    match sop2::decode(words) {
        Some((inst, len)) => Some((Instruction::Sop2(inst), len)),
        None => None,
    }
}

/// A word belongs to at most one encoding: the SOP1, SOPC, SOPP, SOP2 and VOP1
/// words are pairwise distinct, so the order in which `decode` tries the
/// encodings does not change its result.
pub proof fn lemma_encodings_disjoint(word: u32)
    ensures
        sop1::is_instruction(word) ==> !sopc::is_instruction(word) && !sopp::is_instruction(word)
            && !sop2::is_instruction(word) && !vop1::is_instruction(word),
        sopc::is_instruction(word) ==> !sopp::is_instruction(word) && !sop2::is_instruction(word)
            && !vop1::is_instruction(word),
        sopp::is_instruction(word) ==> !sop2::is_instruction(word) && !vop1::is_instruction(word),
        sop2::is_instruction(word) ==> !vop1::is_instruction(word),
{
    lemma_field_facts(word);
    assert((word >> 23 == 0x17D || word >> 23 == 0x17E || word >> 23 == 0x17F) ==> word >> 25
        == 0x5F) by (bit_vector);
    assert(word >> 30 == 2 ==> word >> 25 != 0x3F) by (bit_vector);
}

/// No operand of `inst` waits for a literal.
pub open spec fn literals_resolved(inst: Instruction) -> bool {
    match inst {
        Instruction::Sop1(i) => i.ssrc0 != Operand::LiteralPending,
        Instruction::Sop2(i) => i.ssrc0 != Operand::LiteralPending && i.ssrc1 != Operand::LiteralPending,
        Instruction::Sopc(i) => i.ssrc0 != Operand::LiteralPending && i.ssrc1 != Operand::LiteralPending,
        Instruction::Sopp(_) => true,
    }
}

/// Some operand of `inst` is a literal dword.
pub open spec fn has_literal(inst: Instruction) -> bool {
    match inst {
        Instruction::Sop1(i) => i.ssrc0 is Literal,
        Instruction::Sop2(i) => i.ssrc0 is Literal || i.ssrc1 is Literal,
        Instruction::Sopc(i) => i.ssrc0 is Literal || i.ssrc1 is Literal,
        Instruction::Sopp(_) => false,
    }
}

/// Every literal operand of `inst` holds `lit`.
pub open spec fn literals_are(inst: Instruction, lit: u32) -> bool {
    match inst {
        Instruction::Sop1(i) => i.ssrc0 is Literal ==> i.ssrc0 == Operand::Literal(lit),
        Instruction::Sop2(i) => (i.ssrc0 is Literal ==> i.ssrc0 == Operand::Literal(lit)) && (
        i.ssrc1 is Literal ==> i.ssrc1 == Operand::Literal(lit)),
        Instruction::Sopc(i) => (i.ssrc0 is Literal ==> i.ssrc0 == Operand::Literal(lit)) && (
        i.ssrc1 is Literal ==> i.ssrc1 == Operand::Literal(lit)),
        Instruction::Sopp(_) => true,
    }
}

/// A decoded instruction takes one word, or two when it carries a literal;
/// it never takes more words than there are, and it leaves no operand waiting
/// for a literal; a literal operand holds the word after the instruction word.
pub proof fn lemma_decoded_length(words: Seq<u32>)
    ensures
        decoded(words) matches Some((inst, len)) ==> {
            &&& 1 <= len <= 2
            &&& len <= words.len()
            &&& (len == 2 <==> has_literal(inst))
            &&& literals_resolved(inst)
            &&& len == 2 ==> literals_are(inst, words[1])
        },
{
    if words.len() > 0 {
        lemma_field_facts(words[0]);
    }
}

/// Decoding reads only the words that the instruction takes: the words that
/// follow them do not change the result.
pub proof fn lemma_decoded_ignores_rest(words: Seq<u32>, rest: Seq<u32>)
    ensures
        decoded(words) matches Some((inst, len)) ==> decoded(words.take(len as int) + rest) == Some((inst, len)),
{
    if let Some((inst, len)) = decoded(words) {
        let w2 = words.take(len as int) + rest;
        assert(w2[0] == words[0]);
        if len == 2 {
            assert(w2[1] == words[1]);
        }
        lemma_decoded_length(words);
        lemma_encodings_disjoint(words[0]);
    }
}

} // verus!
