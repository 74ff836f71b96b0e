use r_dna2::exec::step;
use r_dna2::flow::Step;
use r_dna2::wave::Wave;

fn run(wave: &mut Wave, program: &[u32]) {
    while let Step::Continue = step(wave, program) {}
}

#[test]
fn test_step() {
    // s_mov_b32 s0, 0x12345678  (literal)
    // s_mov_b32 s1, s0
    // s_endpgm
    let program = [0xBE8003FF, 0x12345678, 0xBE810300, 0xBF810000];

    let mut wave = Wave::new();
    run(&mut wave, &program);

    assert_eq!(wave.sgpr[0], 0x12345678);
    assert_eq!(wave.sgpr[1], 0x12345678);
}

#[test]
fn test_sub_branch_loop() {
    // s_mov_b32 s0, 10
    // loop:
    // s_sub_u32 s0, s0, 1
    // s_cbranch_scc0 loop
    // s_endpgm
    let program = [0xBE80038A, 0x80808100, 0xBF84FFFE, 0xBF810000];

    let mut wave = Wave::new();
    run(&mut wave, &program);

    assert_eq!(wave.sgpr[0], 0xFFFF_FFFF);
    assert!(wave.scc);
}

#[test]
fn test_cmp_loop_ends_at_zero() {
    // s_mov_b32 s0, 10
    // loop:
    // s_sub_u32 s0, s0, 1
    // s_cmp_lg_u32 s0, 0      ; SCC = (s0 != 0)
    // s_cbranch_scc1 loop     ; simm16 = 1 - (3+1) = -3 = 0xFFFD
    // s_endpgm
    let program = [0xBE80038A, 0x80808100, 0xBF078000, 0xBF85FFFD, 0xBF810000];

    let mut wave = Wave::new();
    run(&mut wave, &program);

    assert_eq!(wave.sgpr[0], 0);
    assert!(!wave.scc);
}

#[test]
fn test_signed_vs_unsigned_compare() {
    let program = [0xBE8003C1, 0xBF048100, 0xBF810000];
    let mut wave = Wave::new();
    run(&mut wave, &program);
    assert_eq!(wave.sgpr[0], 0xFFFF_FFFF);
    assert!(wave.scc, "-1 < 1 must be true as signed compare");

    let program = [0xBE8003C1, 0xBF0A8100, 0xBF810000];
    let mut wave = Wave::new();
    run(&mut wave, &program);
    assert!(!wave.scc, "0xFFFFFFFF < 1 must be false as u32");
}

#[test]
fn test_bitcmp_is_bit_index_not_mask() {
    let mut wave = Wave::new();
    wave.sgpr[0] = 0b110;
    wave.sgpr[1] = 1;
    run(&mut wave, &[0xBF0D0100, 0xBF810000]);
    assert!(wave.scc);

    let mut wave = Wave::new();
    wave.sgpr[0] = 0b110;
    wave.sgpr[1] = 0;
    run(&mut wave, &[0xBF0D0100, 0xBF810000]);
    assert!(!wave.scc);
}

#[test]
fn test_cmp_u64_uses_register_pair() {
    let mut wave = Wave::new();
    wave.sgpr[0] = 0xDEAD;
    wave.sgpr[1] = 1;
    wave.sgpr[2] = 0xDEAD;
    wave.sgpr[3] = 0;
    run(&mut wave, &[0xBF120200, 0xBF810000]);
    assert!(!wave.scc, "Pair differ in high half");

    let mut wave = Wave::new();
    wave.sgpr[0] = 0xDEAD;
    wave.sgpr[1] = 1;
    wave.sgpr[2] = 0xDEAD;
    wave.sgpr[3] = 1;
    run(&mut wave, &[0xBF120200, 0xBF810000]);
    assert!(wave.scc);
}

#[test]
fn test_bitcmp_b64_reaches_high_half() {
    let mut wave = Wave::new();
    wave.sgpr[0] = 0;
    wave.sgpr[1] = 1;
    wave.sgpr[2] = 32;
    run(&mut wave, &[0xBF0E0200, 0xBF810000]);
    assert!(!wave.scc);
}

#[test]
fn step_reports_end_and_keeps_wave() {
    let mut wave = Wave::new();
    wave.sgpr[4] = 9;
    wave.scc = true;
    assert_eq!(step(&mut wave, &[0xBF810000]), Step::EndPgm);
    assert_eq!(wave.pc, 0);
    assert!(wave.scc);
    assert_eq!(wave.sgpr[4], 9);
}

#[test]
fn step_advances_by_instruction_length() {
    let program = [0xBE8003FF, 0x12345678, 0xBF800000, 0xBF810000];
    let mut wave = Wave::new();
    assert_eq!(step(&mut wave, &program), Step::Continue);
    assert_eq!(wave.pc, 2);
    // s_nop
    assert_eq!(step(&mut wave, &program), Step::Continue);
    assert_eq!(wave.pc, 3);
    assert_eq!(step(&mut wave, &program), Step::EndPgm);
    assert_eq!(wave.pc, 3);
}

#[test]
fn add_sets_carry_and_sub_undoes_it() {
    // s_add_u32 s0, s0, lit ; s_sub_u32 s0, s0, lit ; s_endpgm
    let lit = 0x9000_0000u32;
    let program = [0x8000FF00, lit, 0x8080FF00, lit, 0xBF810000];
    let mut wave = Wave::new();
    wave.sgpr[0] = 0x8000_0001;
    assert_eq!(step(&mut wave, &program), Step::Continue);
    assert_eq!(wave.sgpr[0], 0x1000_0001);
    assert!(wave.scc);
    assert_eq!(step(&mut wave, &program), Step::Continue);
    assert_eq!(wave.sgpr[0], 0x8000_0001);
    assert!(wave.scc);
    assert_eq!(step(&mut wave, &program), Step::EndPgm);
}

#[test]
fn branch_lands_on_next_pc_plus_offset() {
    // s_branch +1 ; s_endpgm ; s_mov_b32 s0, 5 ; s_endpgm
    let program = [0xBF820001, 0xBF810000, 0xBE800385, 0xBF810000];
    let mut wave = Wave::new();
    assert_eq!(step(&mut wave, &program), Step::Continue);
    assert_eq!(wave.pc, 2);
    run(&mut wave, &program);
    assert_eq!(wave.sgpr[0], 5);
    // s_cbranch_scc1 not taken steps over
    let mut wave = Wave::new();
    assert_eq!(step(&mut wave, &[0xBF850001, 0xBF810000]), Step::Continue);
    assert_eq!(wave.pc, 1);
}

fn compare(opcode: u32, s0: u32, s1: u32) -> bool {
    let mut wave = Wave::new();
    wave.sgpr[0] = s0;
    wave.sgpr[1] = s1;
    wave.sgpr[2] = s1;
    // s_cmp_* s0, s1 with opcode in bits 22..16
    let word = 0xBF00_0100 | (opcode << 16);
    assert_eq!(step(&mut wave, &[word, 0xBF810000]), Step::Continue);
    wave.scc
}

#[test]
fn every_compare_has_a_negation() {
    let pairs = [(0x00, 0x01), (0x02, 0x05), (0x03, 0x04), (0x06, 0x07), (0x08, 0x0B), (0x09, 0x0A), (0x0C, 0x0D), (0x0E, 0x0F), (0x12, 0x13)];
    let values = [(0u32, 0u32), (1, 2), (2, 1), (0xFFFF_FFFF, 1), (5, 5), (0b110, 33)];
    for (a, b) in pairs {
        for (s0, s1) in values {
            assert_eq!(compare(a, s0, s1), !compare(b, s0, s1), "ops {:#x}/{:#x} on {} {}", a, b, s0, s1);
        }
    }
}

#[test]
fn signed_and_unsigned_agree_below_sign_bit() {
    for (signed, unsigned) in [(0x00, 0x06), (0x02, 0x08), (0x04, 0x0A), (0x05, 0x0B)] {
        for (s0, s1) in [(1u32, 2u32), (7, 3), (0x7FFF_FFFF, 0), (4, 4)] {
            assert_eq!(compare(signed, s0, s1), compare(unsigned, s0, s1));
        }
    }
    assert_ne!(compare(0x04, 0xFFFF_FFFF, 1), compare(0x0A, 0xFFFF_FFFF, 1));
}
