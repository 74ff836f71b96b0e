use r_dna2::bits::{bit, bits};

// s_mov_b32 s0, s1
const S_MOV_B32_S0_S1: u32 = 0xBE800301;

#[test]
fn extract_sop1_fields() {
    assert_eq!(bits(S_MOV_B32_S0_S1, 31, 23), 0b1011_1110_1);
    assert_eq!(bits(S_MOV_B32_S0_S1, 22, 16), 0); // SDST = s0
    assert_eq!(bits(S_MOV_B32_S0_S1, 15, 8), 3); // OP = s_mov_b32
    assert_eq!(bits(S_MOV_B32_S0_S1, 7, 0), 1); // SSRC0 = s1
}

#[test]
fn misc() {
    assert_eq!(bits(u32::MAX, 31, 0), u32::MAX); // full word
    assert_eq!(bits(0x8000_0000, 31, 31), 1);
    assert!(bit(0b100, 2));
    assert!(!bit(0b100, 1));
}

#[test]
fn field_stays_below_its_width() {
    for (hi, lo) in [(0u32, 0u32), (7, 0), (15, 8), (22, 16), (31, 23), (30, 1)] {
        let width = hi - lo + 1;
        assert!((bits(u32::MAX, hi, lo) as u64) < (1u64 << width));
        assert_eq!(bits(u32::MAX, hi, lo) as u64, (1u64 << width) - 1);
    }
    assert_eq!(bits(0x1234_5678, 31, 0), 0x1234_5678);
}

#[test]
fn field_values() {
    assert_eq!(bits(0xBF82_FFFD, 15, 0), 0xFFFD);
    assert_eq!(bits(0xBF82_FFFD, 22, 16), 2);
    assert_eq!(bits(0xDEAD_BEEF, 19, 12), 0xDB);
    assert_eq!(bits(0x0000_0010, 4, 4), 1);
}

#[test]
fn bit_is_one_bit_field() {
    for word in [0u32, 1, 0b1010, 0x8000_0000, u32::MAX, 0xDEAD_BEEF] {
        for pos in 0..32 {
            assert_eq!(bit(word, pos), bits(word, pos, pos) == 1);
        }
    }
    assert!(bit(0x8000_0000, 31));
    assert!(!bit(0x7FFF_FFFF, 31));
}
