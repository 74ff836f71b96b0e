use r_dna2::fmt::sop1::{decode, Sop1, Sop1Op};
use r_dna2::operand::Operand;

#[test]
fn decode_s_mov_b32() {
    let words = [0xBE800301];
    let (sop1, len) = decode(&words).unwrap();
    assert_eq!(len, 1);
    assert_eq!(
        sop1,
        Sop1 {
            op: Sop1Op::SMovB32,
            sdst: Operand::Sgpr(0),
            ssrc0: Operand::Sgpr(1),
        }
    );
}

#[test]
fn decode_s_mov_b32_literal() {
    let words = [0xBE8003FF, 0x12345678];
    let (sop1, len) = decode(&words).unwrap();

    assert_eq!(len, 2);
    assert_eq!(
        sop1,
        Sop1 {
            op: Sop1Op::SMovB32,
            sdst: Operand::Sgpr(0),
            ssrc0: Operand::Literal(0x12345678),
        }
    );

    assert_eq!(sop1.ssrc0, Operand::Literal(0x12345678));
}

#[test]
fn decode_truncated_literal() {
    assert_eq!(decode(&[0xBE8003FF]), None);
}

#[test]
fn sop1_rejects_unknown_opcode_and_empty_input() {
    // opcode 0x02 is not known
    assert_eq!(decode(&[0xBE800201]), None);
    assert_eq!(decode(&[]), None);
    // SOPC word
    assert_eq!(decode(&[0xBF060100]), None);
}

#[test]
fn sop1_decodes_every_known_opcode() {
    let ops = [
        Sop1Op::SMovB32,
        Sop1Op::SMovB64,
        Sop1Op::SCMovB32,
        Sop1Op::SCmovB64,
        Sop1Op::SNotB32,
        Sop1Op::SNotB64,
        Sop1Op::SWqmB32,
        Sop1Op::SWqmB64,
        Sop1Op::SBrevB32,
        Sop1Op::SBrevB64,
        Sop1Op::SBcnt0i32B32,
        Sop1Op::SBcnt0i32B64,
        Sop1Op::SBcnt1i32B32,
        Sop1Op::SBcnt1i32B64,
        Sop1Op::SFF0i32B32,
        Sop1Op::SFF0i32B64,
        Sop1Op::SFF1i32B32,
        Sop1Op::SFF1i32B64,
        Sop1Op::SFLBiti32B32,
        Sop1Op::SFLBiti32B64,
    ];
    for (i, op) in ops.iter().enumerate() {
        let code = 3 + i as u32;
        // s_<op> s5, 7 with a trailing word that is not read
        let words = [0xBE850087 | (code << 8), 0xFFFF_FFFF];
        let (sop1, len) = decode(&words).unwrap();
        assert_eq!(len, 1);
        assert_eq!(sop1, Sop1 { op: *op, sdst: Operand::Sgpr(5), ssrc0: Operand::Int(7) });
    }
    assert_eq!(decode(&[0xBE801701]), None);
}
