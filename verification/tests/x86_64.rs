use dobby_rs::engine::backend::x86_64_common::{
    abs_jmp, assemble_trampoline, build_trampoline, decode_prologue, detour_with_nops,
    extend_stolen, Decoded, Moved, MIN_PATCH_LEN,
};
use dobby_rs::Error;

const PROLOGUE: [u8; 17] = [
    0x55, // push rbp
    0x48, 0x89, 0xE5, // mov rbp, rsp
    0x48, 0x83, 0xEC, 0x20, // sub rsp, 0x20
    0x48, 0x89, 0x7D, 0xF8, // mov [rbp-8], rdi
    0xB8, 0x05, 0x00, 0x00, 0x00, // mov eax, 5
];

fn window(code: &[u8]) -> Vec<u8> {
    let mut out = code.to_vec();
    out.resize(64, 0x90);
    out
}

fn jump(dest: u64) -> Vec<u8> {
    let mut out = vec![0xFF, 0x25, 0, 0, 0, 0];
    out.extend_from_slice(&dest.to_le_bytes());
    out
}

#[test]
fn abs_jmp_is_an_indirect_jump_over_its_operand() {
    assert_eq!(
        abs_jmp(0x1122_3344_5566_7788),
        [0xFF, 0x25, 0, 0, 0, 0, 0x88, 0x77, 0x66, 0x55, 0x44, 0x33, 0x22, 0x11]
    );
    assert_eq!(abs_jmp(0).to_vec(), jump(0));
    assert_eq!(abs_jmp(0).len(), MIN_PATCH_LEN);
}

#[test]
fn prologue_of_single_byte_instructions() {
    assert_eq!(decode_prologue(&[0x90; 64], 0x1000), Ok(14));
}

#[test]
fn prologue_ends_with_a_whole_instruction() {
    // 12 bytes are covered after four instructions; the fifth takes it to 17
    assert_eq!(decode_prologue(&window(&PROLOGUE), 0x40_1000), Ok(17));
    // a ten byte instruction after thirteen single bytes
    let mut code = vec![0x90; 13];
    code.extend_from_slice(&[0x48, 0xB8, 1, 2, 3, 4, 5, 6, 7, 8]); // mov rax, imm64
    assert_eq!(decode_prologue(&window(&code), 0x40_1000), Ok(23));
}

#[test]
fn prologue_with_invalid_instruction_fails() {
    // 0x06 is no instruction in 64-bit code
    let code = window(&[0x90, 0x90, 0x06]);
    assert_eq!(decode_prologue(&code, 0x1000), Err(Error::DecodeFailed));
}

#[test]
fn prologue_that_ends_too_early_fails() {
    assert_eq!(decode_prologue(&[0x90; 13], 0x1000), Err(Error::DecodeFailed));
    assert_eq!(decode_prologue(&[], 0x1000), Err(Error::DecodeFailed));
    // the last instruction is cut off
    assert_eq!(decode_prologue(&PROLOGUE[..16], 0x1000), Err(Error::DecodeFailed));
}

#[test]
fn prologue_of_exactly_enough_bytes() {
    assert_eq!(decode_prologue(&[0x90; 14], 0x1000), Ok(14));
    assert_eq!(decode_prologue(&PROLOGUE, 0x1000), Ok(17));
}

#[test]
fn extend_stolen_adds_a_valid_instruction() {
    assert_eq!(extend_stolen(3, Some(Decoded { invalid: false, len: 5 })), Ok(8));
    assert_eq!(
        extend_stolen(3, Some(Decoded { invalid: true, len: 5 })),
        Err(Error::DecodeFailed)
    );
    assert_eq!(extend_stolen(3, None), Err(Error::DecodeFailed));
}

#[test]
fn trampoline_of_position_independent_code() {
    let mut expected = PROLOGUE.to_vec();
    expected.extend_from_slice(&jump(0x40_1000 + 17));
    assert_eq!(build_trampoline(&PROLOGUE, 0x40_1000, 0x7000_0000_0000, 256), Ok(expected));
}

#[test]
fn trampoline_retargets_a_relative_call() {
    // call 0x1105, then nine single-byte instructions
    let mut stolen = vec![0xE8, 0x00, 0x01, 0x00, 0x00];
    stolen.extend_from_slice(&[0x90; 9]);
    let mut expected = vec![0xE8, 0x00, 0xF1, 0xFF, 0xFF];
    expected.extend_from_slice(&[0x90; 9]);
    expected.extend_from_slice(&jump(0x1000 + 14));
    assert_eq!(build_trampoline(&stolen, 0x1000, 0x2000, 256), Ok(expected));
}

#[test]
fn trampoline_out_of_reach_of_a_rip_relative_operand() {
    // mov rax, [rip+0x10], then seven single-byte instructions
    let mut stolen = vec![0x48, 0x8B, 0x05, 0x10, 0x00, 0x00, 0x00];
    stolen.extend_from_slice(&[0x90; 7]);
    assert_eq!(
        build_trampoline(&stolen, 0x7000_0000_1000, 0x1_0000_0000, 256),
        Err(Error::EncodeFailed)
    );
    // within reach the displacement is recomputed
    let mut expected = vec![0x48, 0x8B, 0x05, 0x10, 0xF0, 0xFF, 0xFF];
    expected.extend_from_slice(&[0x90; 7]);
    expected.extend_from_slice(&jump(0x7000_0000_1000 + 14));
    assert_eq!(build_trampoline(&stolen, 0x7000_0000_1000, 0x7000_0000_2000, 256), Ok(expected));
}

#[test]
fn trampoline_that_does_not_fit_fails() {
    assert_eq!(build_trampoline(&PROLOGUE, 0x1000, 0x2000, 30), Err(Error::EncodeFailed));
    assert!(build_trampoline(&PROLOGUE, 0x1000, 0x2000, 31).is_ok());
}

#[test]
fn assemble_trampoline_for_each_outcome() {
    let mut expected = vec![1, 2, 3];
    expected.extend_from_slice(&jump(0x1010));
    assert_eq!(assemble_trampoline(Moved::Code(vec![1, 2, 3]), 0x1000, 16, 17), Ok(expected));
    assert_eq!(
        assemble_trampoline(Moved::Code(vec![1, 2, 3]), 0x1000, 16, 16),
        Err(Error::EncodeFailed)
    );
    assert_eq!(assemble_trampoline(Moved::OutOfReach, 0x1000, 16, 256), Err(Error::EncodeFailed));
    assert_eq!(assemble_trampoline(Moved::NoDecoder, 0x1000, 16, 256), Err(Error::EncodeFailed));
    // the jump back wraps with the address space
    let mut wrapped = vec![9];
    wrapped.extend_from_slice(&jump(1));
    assert_eq!(assemble_trampoline(Moved::Code(vec![9]), u64::MAX - 14, 16, 256), Ok(wrapped));
}

#[test]
fn detour_is_padded_with_nops() {
    assert_eq!(detour_with_nops(0xDEAD_BEEF, 14), jump(0xDEAD_BEEF));
    let mut expected = jump(0xDEAD_BEEF);
    expected.extend_from_slice(&[0x90; 3]);
    assert_eq!(detour_with_nops(0xDEAD_BEEF, 17), expected);
}
