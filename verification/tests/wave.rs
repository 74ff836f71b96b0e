use r_dna2::operand::Operand;
use r_dna2::wave::Wave;

#[test]
fn new_wave_is_zeroed() {
    let wave = Wave::new();
    assert_eq!(wave.pc, 0);
    assert!(!wave.scc);
    assert!(wave.sgpr.iter().all(|&r| r == 0));
}

#[test]
fn read_after_write() {
    let mut wave = Wave::new();
    wave.write(Operand::Sgpr(7), 0xDEAD_BEEF);
    assert_eq!(wave.read(Operand::Sgpr(7)), 0xDEAD_BEEF);
    assert_eq!(wave.read(Operand::Sgpr(6)), 0);
    assert_eq!(wave.read(Operand::Sgpr(8)), 0);
    wave.write(Operand::Sgpr(105), 1);
    assert_eq!(wave.read(Operand::Sgpr(105)), 1);
    assert_eq!(wave.pc, 0);
    assert!(!wave.scc);
}

#[test]
fn read_constants() {
    let wave = Wave::new();
    assert_eq!(wave.read(Operand::Zero), 0);
    assert_eq!(wave.read(Operand::Int(64)), 64);
    assert_eq!(wave.read(Operand::Int(-1)), 0xFFFF_FFFF);
    assert_eq!(wave.read(Operand::Int(-16)), 0xFFFF_FFF0);
    assert_eq!(wave.read(Operand::Literal(0x1234_5678)), 0x1234_5678);
}

#[test]
fn read64_pairs_and_sign_extends() {
    let mut wave = Wave::new();
    wave.write(Operand::Sgpr(2), 0x1111_2222);
    wave.write(Operand::Sgpr(3), 0x3333_4444);
    assert_eq!(wave.read64(Operand::Sgpr(2)), 0x3333_4444_1111_2222);
    assert_eq!(wave.read64(Operand::Sgpr(104)), 0);
    assert_eq!(wave.read64(Operand::Zero), 0);
    assert_eq!(wave.read64(Operand::Int(-2)), 0xFFFF_FFFF_FFFF_FFFE);
    assert_eq!(wave.read64(Operand::Int(5)), 5);
    assert_eq!(wave.read64(Operand::Literal(0x8000_0000)), 0xFFFF_FFFF_8000_0000);
    assert_eq!(wave.read64(Operand::Literal(0x7FFF_FFFF)), 0x7FFF_FFFF);
    // the low half of a 64-bit read is the 32-bit read
    for op in [Operand::Sgpr(2), Operand::Int(-2), Operand::Literal(0x8000_0000)] {
        assert_eq!(wave.read64(op) as u32, wave.read(op));
    }
}
