use r_dna2::fmt::sopp::{decode, Sopp, SoppOp};

#[test]
fn decode_s_endpgm() {
    let (sopp, len) = decode(&[0xBF810000]).unwrap();
    assert_eq!(len, 1);
    assert_eq!(
        sopp,
        Sopp {
            op: SoppOp::SEndPgm,
            simm16: 0
        }
    );
}

#[test]
fn decode_s_branch_backwards() {
    let (sopp, _) = decode(&[0xBF82FFFD]).unwrap();
    assert_eq!(
        sopp,
        Sopp {
            op: SoppOp::SBranch,
            simm16: -3
        }
    );
}

#[test]
fn sopp_rejects_other_encoding() {
    assert_eq!(decode(&[0xBE800301]), None);
}

#[test]
fn sopp_immediate_is_signed() {
    assert_eq!(decode(&[0xBF827FFF]).unwrap().0.simm16, 0x7FFF);
    assert_eq!(decode(&[0xBF828000]).unwrap().0.simm16, -0x8000);
    assert_eq!(decode(&[0xBF85FFFD]).unwrap().0, Sopp { op: SoppOp::SCBranchScc1, simm16: -3 });
    assert_eq!(decode(&[0xBF870000]), None);
    assert_eq!(decode(&[]), None);
}
