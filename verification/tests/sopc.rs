use r_dna2::fmt::sopc::{decode, Sopc, SopcOp};
use r_dna2::operand::Operand;

#[test]
fn decode_s_cmp_eq_u32() {
    let (sopc, len) = decode(&[0xBF060100]).unwrap();
    assert_eq!(len, 1);
    assert_eq!(
        sopc,
        Sopc {
            op: SopcOp::SCmpEqU32,
            ssrc0: Operand::Sgpr(0),
            ssrc1: Operand::Sgpr(1),
        }
    );
}

#[test]
fn decode_s_cmp_lg_u32_literal() {
    let (sopc, len) = decode(&[0xBF07FF00, 0x12345678]).unwrap();
    assert_eq!(len, 2);
    assert_eq!(sopc.op, SopcOp::SCmpLgU32);
    assert_eq!(sopc.ssrc1, Operand::Literal(0x12345678));
}

#[test]
fn sopc_rejects_other_encoding() {
    assert_eq!(decode(&[0xBF810000]), None);
}

#[test]
fn sopc_opcode_table() {
    assert_eq!(SopcOp::decode(0x0C), Some(SopcOp::SBitCmp0B32));
    assert_eq!(SopcOp::decode(0x0F), Some(SopcOp::SBitCmp1B64));
    assert_eq!(SopcOp::decode(0x10), None);
    assert_eq!(SopcOp::decode(0x11), None);
    assert_eq!(SopcOp::decode(0x12), Some(SopcOp::SCmpEqU64));
    assert_eq!(SopcOp::decode(0x13), Some(SopcOp::SCmpLgU64));
    assert_eq!(SopcOp::decode(0x14), None);
    // opcode 0x10 in a SOPC word is rejected
    assert_eq!(decode(&[0xBF100100]), None);
    // truncated literal
    assert_eq!(decode(&[0xBF07FF00]), None);
}
