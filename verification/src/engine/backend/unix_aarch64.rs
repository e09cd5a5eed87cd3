//! The AArch64 part of hook construction.
//!
//! A hook overwrites four instructions with a literal load, an indirect
//! branch and the eight bytes of the destination.

use vstd::prelude::*;
use crate::arch::aarch64::{relocate, relocate_seq, lemma_relocate_seq_len, OP_BR_X17, OP_LDR_X17_NEXT};
use crate::bytes::{
    append_bytes, append_words, bytes_of, u32_le, u32_to_le, u64_le, u64_to_le, words_from_bytes,
    words_of,
};
use crate::error::Error;

verus! {

/// The AArch64 backend on Unix.
#[derive(Clone, Copy, Debug)]
pub struct UnixAarch64;

/// `LDR X17, #8; BR X17`, then the eight bytes of the destination, which the
/// load reads.
pub open spec fn spec_abs_jmp(dest: u64) -> Seq<u8> {
    u32_le(OP_LDR_X17_NEXT) + u32_le(OP_BR_X17) + u64_le(dest)
}

/// The address `offset` bytes after `address`.
pub open spec fn address_at(address: u64, offset: nat) -> u64 {
    ((address + offset) % 0x1_0000_0000_0000_0000) as u64
}

/// The trampoline for a hook at `target`, placed at `trampoline`: the stolen
/// instructions relocated to the trampoline, then an absolute jump back to
/// the first instruction that was not stolen.
pub open spec fn spec_trampoline(stolen: Seq<u8>, target: u64, trampoline: u64) -> Seq<u8> {
    bytes_of(relocate_seq(words_of(stolen), target, trampoline)) + spec_abs_jmp(
        address_at(target, stolen.len()),
    )
}

impl UnixAarch64 {
    /// The length of the absolute jump.
    pub const JMP_STUB_SIZE: usize = 16;

    /// The number of bytes that a hook overwrites.
    pub const PATCH_LEN: usize = 16;

    /// Assembles an absolute jump to `dest`.
    pub fn abs_jmp(dest: u64) -> (b: [u8; 16])
        ensures
            b@ == spec_abs_jmp(dest),
    {
        let ldr_x17_lit_8: u32 = 0x5800_0000 | (2 << 5) | 17;
        let br_x17: u32 = 0xD61F_0000 | (17 << 5);
        assert(ldr_x17_lit_8 == OP_LDR_X17_NEXT && br_x17 == OP_BR_X17) by (bit_vector)
            requires
                ldr_x17_lit_8 == 0x5800_0000u32 | (2u32 << 5) | 17u32,
                br_x17 == 0xD61F_0000u32 | (17u32 << 5),
        ;
        let l: [u8; 4] = u32_to_le(ldr_x17_lit_8);
        let r: [u8; 4] = u32_to_le(br_x17);
        let d: [u8; 8] = u64_to_le(dest);
        let b: [u8; 16] = [
            l[0],
            l[1],
            l[2],
            l[3],
            r[0],
            r[1],
            r[2],
            r[3],
            d[0],
            d[1],
            d[2],
            d[3],
            d[4],
            d[5],
            d[6],
            d[7],
        ];
        assert(b@ =~= spec_abs_jmp(dest));
        b
    }

    /// Builds the trampoline of a block of `capacity` bytes at `trampoline`
    /// for a hook at `target` that steals the instructions `stolen`.
    ///
    /// Fails with `RelocationFailed` where `stolen` holds no whole
    /// instruction, and with `EncodeFailed` where the trampoline does not fit
    /// the block.
    pub fn build_trampoline(stolen: &[u8], target: u64, trampoline: u64, capacity: usize) -> (r:
        Result<Vec<u8>, Error>)
        ensures
            stolen@.len() < 4 ==> r == Err::<Vec<u8>, Error>(Error::RelocationFailed),
            stolen@.len() >= 4 && spec_trampoline(stolen@, target, trampoline).len() > capacity
                ==> r == Err::<Vec<u8>, Error>(Error::EncodeFailed),
            stolen@.len() >= 4 && spec_trampoline(stolen@, target, trampoline).len() <= capacity
                ==> r is Ok && r->Ok_0@ == spec_trampoline(stolen@, target, trampoline),
    {
        let words: Vec<u32> = words_from_bytes(stolen);
        let relocated: Vec<u32> = match relocate(words.as_slice(), target, trampoline) {
            Ok(relocated) => relocated,
            Err(e) => {
                return Err(e);
            },
        };
        proof {
            lemma_relocate_seq_len(words@, target, trampoline);
        }
        if relocated.len() > capacity / 4 || capacity - 4 * relocated.len() < Self::JMP_STUB_SIZE {
            return Err(Error::EncodeFailed);
        }
        let mut image: Vec<u8> = Vec::new();
        append_words(&mut image, relocated.as_slice());
        let back: [u8; 16] = Self::abs_jmp(target.wrapping_add(stolen.len() as u64));
        append_bytes(&mut image, back.as_slice());
        Ok(image)
    }
}

} // verus!
