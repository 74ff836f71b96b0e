use r_dna2::fmt::vop1::{decode, Vop1, Vop1Op};
use r_dna2::operand::Operand;

#[test]
fn vop1_rejects_other_encoding() {
    assert_eq!(decode(&[0xBF810000]), None);
}

#[test]
fn decode_v_mov_b32() {
    // v_mov_b32 v3, v1
    let (vop1, len) = decode(&[0x7E060301]).unwrap();
    assert_eq!(len, 1);
    assert_eq!(vop1, Vop1 { op: Vop1Op::VMovB32, vdst: 3, src0: Operand::Vgpr(1) });
    // v_mov_b32 v0, s2
    let (vop1, _) = decode(&[0x7E000202]).unwrap();
    assert_eq!(vop1.src0, Operand::Sgpr(2));
    // v_mov_b32 v0, literal
    let (vop1, len) = decode(&[0x7E0002FF, 42]).unwrap();
    assert_eq!(len, 2);
    assert_eq!(vop1.src0, Operand::Literal(42));
    assert_eq!(decode(&[0x7E0002FF]), None);
    // opcode 5 is not known
    assert_eq!(decode(&[0x7E000A01]), None);
}
