use dobby_rs::arch::aarch64::{
    encode_b_imm, encode_ldr_literal, imm19_from_word, is_adr, is_adrp, is_b, is_b_cond, is_bl,
    is_cbz_cbnz, is_ldr_literal, is_tbz_tbnz, relocate, sign_extend, OP_BR_X17, OP_LDR_X17_NEXT,
    OP_NOP,
};
use dobby_rs::Error;

#[test]
fn sign_extend_reads_two_complement_field() {
    assert_eq!(sign_extend(0x03FF_FFFF, 26), -1);
    assert_eq!(sign_extend(0x0200_0000, 26), -0x0200_0000);
    assert_eq!(sign_extend(0x01FF_FFFF, 26), 0x01FF_FFFF);
    assert_eq!(sign_extend(5, 26), 5);
    assert_eq!(sign_extend(-1, 64), -1);
    assert_eq!(sign_extend(1, 1), -1);
    assert_eq!(sign_extend(0x7FFFF, 19), -1);
}

#[test]
fn field_encoders_give_exact_words() {
    assert_eq!(encode_b_imm(1), 0x1400_0001);
    assert_eq!(encode_b_imm(-1), 0x17FF_FFFF);
    assert_eq!(encode_b_imm(0), 0x1400_0000);
    assert_eq!(encode_ldr_literal(17, 2, false, 1), 0x5800_0051);
    assert_eq!(encode_ldr_literal(17, 2, false, 1), OP_LDR_X17_NEXT);
    assert_eq!(encode_ldr_literal(0, 1, false, 1), 0x5800_0020);
    assert_eq!(encode_ldr_literal(3, -1, true, 2), 0x9CFF_FFE3);
    assert_eq!(imm19_from_word(0x5800_0020), 1);
    assert_eq!(imm19_from_word(0x9CFF_FFE3), 0x7FFFF);
}

#[test]
fn instruction_classes() {
    assert!(is_adr(0x1000_0000));
    assert!(is_adrp(0x9000_0000));
    assert!(is_b(0x1400_0001));
    assert!(is_bl(0x9400_0001));
    assert!(is_b_cond(0x5400_0040));
    assert!(is_cbz_cbnz(0x3400_0040));
    assert!(is_tbz_tbnz(0x3600_0040));
    assert!(is_ldr_literal(0x5800_0020));
    assert!(!is_b(OP_NOP));
    assert!(!is_bl(OP_NOP));
    assert!(!is_adr(OP_NOP));
    assert!(!is_adrp(OP_NOP));
    assert!(!is_b(0x9400_0001));
    assert!(!is_bl(0x1400_0001));
}

#[test]
fn relocate_nothing_fails() {
    assert_eq!(relocate(&[], 0x1000, 0x2000), Err(Error::RelocationFailed));
}

#[test]
fn relocate_zero_word_becomes_nop() {
    assert_eq!(relocate(&[0, 0], 0x1000, 0x2000), Ok(vec![OP_NOP, OP_NOP]));
}

#[test]
fn relocate_nops_between_any_addresses() {
    let src = [OP_NOP; 7];
    for (from, to) in [
        (0u64, 0u64),
        (0x1000_0000, 0x2000_0000),
        (u64::MAX - 3, 8),
        (0x7000_0000_0000, 0x10),
        (4, u64::MAX - 15),
    ] {
        assert_eq!(relocate(&src, from, to), Ok(src.to_vec()));
    }
}

#[test]
fn relocate_copies_position_dependent_words_it_does_not_rewrite() {
    let words = [0x1000_0000, 0x9000_0000, 0x5400_0040, 0x3400_0040, 0x3600_0040, 0x5800_0020];
    assert_eq!(relocate(&words, 0x1000_0000, 0x9000_0000_0000), Ok(words.to_vec()));
}

#[test]
fn relocate_near_branch_keeps_target() {
    // b +4 at 0x1000 reaches 0x1004; from 0x2000 that is 1023 words back
    assert_eq!(relocate(&[0x1400_0001], 0x1000, 0x2000), Ok(vec![0x17FF_FC01]));
    // bl stays bl
    assert_eq!(relocate(&[0x9400_0001], 0x1000, 0x2000), Ok(vec![0x97FF_FC01]));
    // the second word stands one word further on both sides
    assert_eq!(
        relocate(&[OP_NOP, 0x1400_0001], 0x1000, 0x2000),
        Ok(vec![OP_NOP, 0x17FF_FC01])
    );
}

#[test]
fn relocate_far_branch_loads_target() {
    let out = relocate(&[encode_b_imm(1)], 0x1000_0000, 0x9000_0000_0000).expect("ok");
    assert_eq!(out, vec![OP_LDR_X17_NEXT, OP_BR_X17, 0x1000_0004, 0]);
    let out = relocate(&[encode_b_imm(-1)], 0x1_2345_6780, 0x9000_0000_0000).expect("ok");
    assert_eq!(out, vec![OP_LDR_X17_NEXT, OP_BR_X17, 0x2345_677C, 1]);
}

#[test]
fn relocate_words_after_an_expansion_move_on() {
    // the branch expands to four words, so the second branch lands at dst + 16
    let src = 0x1000_0000u64;
    let dst = 0x1000_0000u64 + 4 * 0x0200_0000 + 4;
    let out = relocate(&[0x1400_0000, 0x1400_0000], src, dst).expect("ok");
    assert_eq!(out.len(), 8);
    assert_eq!(&out[0..4], &[OP_LDR_X17_NEXT, OP_BR_X17, 0x1000_0000, 0]);
    assert_eq!(&out[4..8], &[OP_LDR_X17_NEXT, OP_BR_X17, 0x1000_0004, 0]);
}

#[test]
fn relocate_displacement_at_the_boundary() {
    let src = 0x4000_0000u64;
    // b . : the target is the source address itself
    let b = 0x1400_0000u32;
    // largest positive displacement
    assert_eq!(relocate(&[b], src, src - 4 * 0x01FF_FFFF), Ok(vec![0x15FF_FFFF]));
    // one word beyond
    assert_eq!(
        relocate(&[b], src, src - 4 * 0x0200_0000),
        Ok(vec![OP_LDR_X17_NEXT, OP_BR_X17, 0x4000_0000, 0])
    );
    // smallest negative displacement
    assert_eq!(relocate(&[b], src, src + 4 * 0x0200_0000), Ok(vec![0x1600_0000]));
    // one word beyond
    assert_eq!(
        relocate(&[b], src, src + 4 * 0x0200_0001),
        Ok(vec![OP_LDR_X17_NEXT, OP_BR_X17, 0x4000_0000, 0])
    );
}

#[test]
fn relocate_wraps_addresses() {
    // the branch goes one word back from address 0, which is the last word of the address space
    let out = relocate(&[encode_b_imm(-1)], 0, 0x100).expect("ok");
    // from 0x100 that is 0x41 words back
    assert_eq!(out, vec![0x1400_0000 | (0x0400_0000 - 0x41)]);
}
