use dobby_rs::bytes::{
    append_bytes, append_words, u32_from_le, u32_to_le, u64_to_le, words_from_bytes,
};

#[test]
fn little_endian_words() {
    assert_eq!(u32_to_le(0x1234_5678), [0x78, 0x56, 0x34, 0x12]);
    assert_eq!(u64_to_le(0x0102_0304_0506_0708), [8, 7, 6, 5, 4, 3, 2, 1]);
    assert_eq!(u32_from_le(0x78, 0x56, 0x34, 0x12), 0x1234_5678);
    assert_eq!(u32_to_le(0x1234_5678), 0x1234_5678u32.to_le_bytes());
    assert_eq!(u64_to_le(u64::MAX - 1), (u64::MAX - 1).to_le_bytes());
}

#[test]
fn words_from_bytes_leaves_out_a_trailing_part() {
    assert_eq!(words_from_bytes(&[1, 0, 0, 0, 2, 0, 0, 0, 9]), vec![1, 2]);
    assert_eq!(words_from_bytes(&[1, 2, 3]), Vec::<u32>::new());
    assert_eq!(words_from_bytes(&[0x1F, 0x20, 0x03, 0xD5]), vec![0xD503_201F]);
}

#[test]
fn appending_keeps_what_was_there() {
    let mut out = vec![0xAAu8];
    append_words(&mut out, &[0xD503_201F, 1]);
    assert_eq!(out, vec![0xAA, 0x1F, 0x20, 0x03, 0xD5, 1, 0, 0, 0]);
    append_bytes(&mut out, &[7, 8]);
    assert_eq!(out, vec![0xAA, 0x1F, 0x20, 0x03, 0xD5, 1, 0, 0, 0, 7, 8]);
}
