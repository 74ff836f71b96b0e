use r_dna2::fmt::sop2::{decode, Sop2, Sop2Op};
use r_dna2::operand::Operand;

#[test]
fn decode_s_add_u32() {
    let words = [0x80000000];
    let (sop2, len) = decode(&words).unwrap();
    assert_eq!(len, 1);
    assert_eq!(
        sop2,
        Sop2 {
            op: Sop2Op::SAddU32,
            sdst: Operand::Sgpr(0),
            ssrc0: Operand::Sgpr(0),
            ssrc1: Operand::Sgpr(0),
        }
    );
}

#[test]
fn decode_s_sub_u32() {
    let words = [0x80800000];
    let (sop2, len) = decode(&words).unwrap();
    assert_eq!(len, 1);
    assert_eq!(
        sop2,
        Sop2 {
            op: Sop2Op::SSubU32,
            sdst: Operand::Sgpr(0),
            ssrc0: Operand::Sgpr(0),
            ssrc1: Operand::Sgpr(0),
        }
    );
}

#[test]
fn sop2_rejects_other_encoding() {
    assert_eq!(decode(&[0xBF810000]), None);
}

#[test]
fn sop2_shares_one_literal_between_sources() {
    // s_add_u32 s3, lit, lit
    let (sop2, len) = decode(&[0x8003FFFF, 0xCAFE]).unwrap();
    assert_eq!(len, 2);
    assert_eq!(sop2.sdst, Operand::Sgpr(3));
    assert_eq!(sop2.ssrc0, Operand::Literal(0xCAFE));
    assert_eq!(sop2.ssrc1, Operand::Literal(0xCAFE));
    // s_sub_u32 s0, s0, 1 with s1 = inline 1
    let (sop2, len) = decode(&[0x80808100]).unwrap();
    assert_eq!(len, 1);
    assert_eq!(sop2.ssrc1, Operand::Int(1));
    // literal missing
    assert_eq!(decode(&[0x800300FF]), None);
    // opcode 2 is not known
    assert_eq!(decode(&[0x81000000]), None);
}

#[test]
fn sop2_opcode_table() {
    assert_eq!(Sop2Op::decode(0), Some(Sop2Op::SAddU32));
    assert_eq!(Sop2Op::decode(1), Some(Sop2Op::SSubU32));
    assert_eq!(Sop2Op::decode(2), None);
}
