//! Little-endian encoding of machine words.

use vstd::prelude::*;

verus! {

/// The four bytes of `x`, least significant first.
pub open spec fn u32_le(x: u32) -> Seq<u8> {
    seq![
        (x as int % 0x100) as u8,
        (x as int / 0x100 % 0x100) as u8,
        (x as int / 0x1_0000 % 0x100) as u8,
        (x as int / 0x100_0000 % 0x100) as u8,
    ]
}

/// The eight bytes of `x`, least significant first.
pub open spec fn u64_le(x: u64) -> Seq<u8> {
    seq![
        (x as int % 0x100) as u8,
        (x as int / 0x100 % 0x100) as u8,
        (x as int / 0x1_0000 % 0x100) as u8,
        (x as int / 0x100_0000 % 0x100) as u8,
        (x as int / 0x1_0000_0000 % 0x100) as u8,
        (x as int / 0x100_0000_0000 % 0x100) as u8,
        (x as int / 0x1_0000_0000_0000 % 0x100) as u8,
        (x as int / 0x100_0000_0000_0000 % 0x100) as u8,
    ]
}

/// The word whose little-endian bytes are `b0` to `b3`.
pub open spec fn word_of(b0: u8, b1: u8, b2: u8, b3: u8) -> u32 {
    (b0 as int + 0x100 * b1 as int + 0x1_0000 * b2 as int + 0x100_0000 * b3 as int) as u32
}

/// The words that `bytes` hold, four bytes to a word; bytes beyond the last
/// whole word are left out.
pub open spec fn words_of(bytes: Seq<u8>) -> Seq<u32> {
    Seq::new(
        bytes.len() / 4,
        |i: int| word_of(bytes[4 * i], bytes[4 * i + 1], bytes[4 * i + 2], bytes[4 * i + 3]),
    )
}

/// The bytes of `words`, each word least significant byte first.
pub open spec fn bytes_of(words: Seq<u32>) -> Seq<u8> {
    Seq::new(4 * words.len(), |i: int| u32_le(words[i / 4])[i % 4])
}

/// Splits `x` into its little-endian bytes.
pub fn u32_to_le(x: u32) -> (b: [u8; 4])
    ensures
        b@ == u32_le(x),
{
    let b0: u8 = (x & 0xFF) as u8;
    let b1: u8 = ((x >> 8) & 0xFF) as u8;
    let b2: u8 = ((x >> 16) & 0xFF) as u8;
    let b3: u8 = ((x >> 24) & 0xFF) as u8;
    assert(b0 == (x as int % 0x100) as u8 && b1 == (x as int / 0x100 % 0x100) as u8 && b2 == (x as int
        / 0x1_0000 % 0x100) as u8 && b3 == (x as int / 0x100_0000 % 0x100) as u8) by (bit_vector)
        requires
            b0 == (x & 0xFF) as u8,
            b1 == ((x >> 8) & 0xFF) as u8,
            b2 == ((x >> 16) & 0xFF) as u8,
            b3 == ((x >> 24) & 0xFF) as u8,
    ;
    let b: [u8; 4] = [b0, b1, b2, b3];
    assert(b@ =~= u32_le(x));
    b
}

/// Splits `x` into its little-endian bytes.
pub fn u64_to_le(x: u64) -> (b: [u8; 8])
    ensures
        b@ == u64_le(x),
{
    let b0: u8 = (x & 0xFF) as u8;
    let b1: u8 = ((x >> 8) & 0xFF) as u8;
    let b2: u8 = ((x >> 16) & 0xFF) as u8;
    let b3: u8 = ((x >> 24) & 0xFF) as u8;
    let b4: u8 = ((x >> 32) & 0xFF) as u8;
    let b5: u8 = ((x >> 40) & 0xFF) as u8;
    let b6: u8 = ((x >> 48) & 0xFF) as u8;
    let b7: u8 = ((x >> 56) & 0xFF) as u8;
    assert(b0 == (x as int % 0x100) as u8 && b1 == (x as int / 0x100 % 0x100) as u8 && b2 == (x as int
        / 0x1_0000 % 0x100) as u8 && b3 == (x as int / 0x100_0000 % 0x100) as u8 && b4 == (x as int
        / 0x1_0000_0000 % 0x100) as u8 && b5 == (x as int / 0x100_0000_0000 % 0x100) as u8 && b6 == (
    x as int / 0x1_0000_0000_0000 % 0x100) as u8 && b7 == (x as int / 0x100_0000_0000_0000
        % 0x100) as u8) by (bit_vector)
        requires
            b0 == (x & 0xFF) as u8,
            b1 == ((x >> 8) & 0xFF) as u8,
            b2 == ((x >> 16) & 0xFF) as u8,
            b3 == ((x >> 24) & 0xFF) as u8,
            b4 == ((x >> 32) & 0xFF) as u8,
            b5 == ((x >> 40) & 0xFF) as u8,
            b6 == ((x >> 48) & 0xFF) as u8,
            b7 == ((x >> 56) & 0xFF) as u8,
    ;
    let b: [u8; 8] = [b0, b1, b2, b3, b4, b5, b6, b7];
    assert(b@ =~= u64_le(x));
    b
}

/// Joins four little-endian bytes into a word.
pub fn u32_from_le(b0: u8, b1: u8, b2: u8, b3: u8) -> (x: u32)
    ensures
        x == word_of(b0, b1, b2, b3),
        u32_le(x) == seq![b0, b1, b2, b3],
{
    let x: u32 = (b0 as u32) | ((b1 as u32) << 8) | ((b2 as u32) << 16) | ((b3 as u32) << 24);
    assert(x == b0 as int + 0x100 * b1 as int + 0x1_0000 * b2 as int + 0x100_0000 * b3 as int && b0
        == (x as int % 0x100) as u8 && b1 == (x as int / 0x100 % 0x100) as u8 && b2 == (x as int
        / 0x1_0000 % 0x100) as u8 && b3 == (x as int / 0x100_0000 % 0x100) as u8) by (bit_vector)
        requires
            x == (b0 as u32) | ((b1 as u32) << 8) | ((b2 as u32) << 16) | ((b3 as u32) << 24),
    ;
    assert(u32_le(x) =~= seq![b0, b1, b2, b3]);
    x
}

/// Reads `bytes` as little-endian words; a trailing part of fewer than four
/// bytes is left out.
pub fn words_from_bytes(bytes: &[u8]) -> (words: Vec<u32>)
    ensures
        words@ == words_of(bytes@),
{
    let len: usize = bytes.len();
    let count: usize = len / 4;
    let mut words: Vec<u32> = Vec::new();
    let mut i: usize = 0;
    while i < count
        invariant
            len == bytes@.len(),
            count == len / 4,
            i <= count,
            words@.len() == i,
            forall|k: int| 0 <= k < i ==> words@[k] == words_of(bytes@)[k],
        decreases count - i,
    {
        assert(4 * i + 3 < len);
        let at: usize = 4 * i;
        let w: u32 = u32_from_le(bytes[at], bytes[at + 1], bytes[at + 2], bytes[at + 3]);
        words.push(w);
        i += 1;
    }
    assert(words@ =~= words_of(bytes@));
    words
}

/// Appends the little-endian bytes of every word of `words` to `out`.
pub fn append_words(out: &mut Vec<u8>, words: &[u32])
    ensures
        final(out)@ == old(out)@ + bytes_of(words@),
{
    let mut i: usize = 0;
    while i < words.len()
        invariant
            i <= words@.len(),
            out@ == old(out)@ + bytes_of(words@.take(i as int)),
        decreases words@.len() - i,
    {
        let b: [u8; 4] = u32_to_le(words[i]);
        let ghost before = out@;
        out.push(b[0]);
        out.push(b[1]);
        out.push(b[2]);
        out.push(b[3]);
        proof {
            assert(out@ == before + u32_le(words@[i as int]));
            assert(bytes_of(words@.take(i + 1)) =~= bytes_of(words@.take(i as int)) + u32_le(
                words@[i as int],
            ));
        }
        i += 1;
    }
    assert(words@.take(i as int) == words@);
}

/// Appends every byte of `bytes` to `out`.
pub fn append_bytes(out: &mut Vec<u8>, bytes: &[u8])
    ensures
        final(out)@ == old(out)@ + bytes@,
{
    let mut i: usize = 0;
    while i < bytes.len()
        invariant
            i <= bytes@.len(),
            out@ == old(out)@ + bytes@.take(i as int),
        decreases bytes@.len() - i,
    {
        out.push(bytes[i]);
        assert(bytes@.take(i + 1) == bytes@.take(i as int).push(bytes@[i as int]));
        i += 1;
    }
    assert(bytes@.take(i as int) == bytes@);
}

} // verus!
