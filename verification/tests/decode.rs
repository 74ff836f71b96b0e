use r_dna2::decode::{decode, Instruction};
use r_dna2::fmt::{sop1, sop2, sopc, sopp, vop1};
use r_dna2::operand::Operand;

#[test]
fn decode_picks_the_encoding() {
    let (inst, len) = decode(&[0xBE800301]).unwrap();
    assert_eq!(len, 1);
    assert_eq!(
        inst,
        Instruction::Sop1(sop1::Sop1 {
            op: sop1::Sop1Op::SMovB32,
            sdst: Operand::Sgpr(0),
            ssrc0: Operand::Sgpr(1)
        })
    );
    let (inst, _) = decode(&[0xBF060100]).unwrap();
    assert!(matches!(inst, Instruction::Sopc(sopc::Sopc { op: sopc::SopcOp::SCmpEqU32, .. })));
    let (inst, _) = decode(&[0xBF810000]).unwrap();
    assert_eq!(inst, Instruction::Sopp(sopp::Sopp { op: sopp::SoppOp::SEndPgm, simm16: 0 }));
    let (inst, _) = decode(&[0x80808100]).unwrap();
    assert!(matches!(inst, Instruction::Sop2(sop2::Sop2 { op: sop2::Sop2Op::SSubU32, .. })));
}

#[test]
fn decode_rejects_unknown_words() {
    assert_eq!(decode(&[]), None);
    // vector words are not scalar instructions
    assert_eq!(decode(&[0x7E060301]), None);
    // unknown SOP1 opcode
    assert_eq!(decode(&[0xBE800201]), None);
    // truncated literal
    assert_eq!(decode(&[0xBE8003FF]), None);
}

#[test]
fn decode_ignores_following_words() {
    let program = [0xBE8003FF, 0x12345678, 0xBE810300, 0xBF810000];
    let (first, len) = decode(&program).unwrap();
    assert_eq!(len, 2);
    assert_eq!(decode(&program[..len]), Some((first, len)));
    let (second, len2) = decode(&program[2..]).unwrap();
    assert_eq!(len2, 1);
    assert_eq!(decode(&program[2..3]), Some((second, 1)));
}

#[test]
fn each_word_belongs_to_one_encoding() {
    let words: [u32; 6] = [0xBE800301, 0xBF060100, 0xBF810000, 0x80808100, 0x80000000, 0x7E060301];
    for w in words {
        let hits = [
            sop1::decode(&[w]).is_some(),
            sopc::decode(&[w]).is_some(),
            sopp::decode(&[w]).is_some(),
            sop2::decode(&[w]).is_some(),
            vop1::decode(&[w]).is_some(),
        ];
        assert_eq!(hits.iter().filter(|&&h| h).count(), 1, "word {:#x}", w);
    }
}
