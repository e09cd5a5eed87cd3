//! The x86-64 part of hook construction, shared by every operating system.
//!
//! Instructions have variable length, so the bytes to steal are found by
//! decoding whole instructions until enough of them are covered, and moving
//! them to the trampoline means encoding them anew for its address. Both are
//! the work of the `iced_x86` decoder and block encoder.

use vstd::prelude::*;
use vstd::slice::slice_subrange;
use iced_x86::{
    BlockEncoder, BlockEncoderOptions, Decoder, DecoderOptions, Instruction, InstructionBlock,
};
use crate::bytes::{append_bytes, u64_le, u64_to_le};
use crate::error::Error;

verus! {

/// The length of the absolute jump, and so the least number of bytes that a
/// hook has to overwrite.
pub const MIN_PATCH_LEN: usize = 14;

/// No instruction is longer than this.
pub const MAX_INSN_LEN: usize = 15;

/// The single-byte no-op.
pub const NOP: u8 = 0x90;

// ---------------------------------------------------------------------------
// The absolute jump
// ---------------------------------------------------------------------------

/// `JMP [RIP+0]` followed by the eight bytes of the destination, which the
/// jump reads as its operand.
pub open spec fn spec_abs_jmp(dest: u64) -> Seq<u8> {
    seq![0xFFu8, 0x25u8, 0u8, 0u8, 0u8, 0u8] + u64_le(dest)
}

/// Assembles an absolute jump to `dest`.
pub fn abs_jmp(dest: u64) -> (b: [u8; 14])
    ensures
        b@ == spec_abs_jmp(dest),
{
    let d: [u8; 8] = u64_to_le(dest);
    let b: [u8; 14] = [0xFF, 0x25, 0, 0, 0, 0, d[0], d[1], d[2], d[3], d[4], d[5], d[6], d[7]];
    assert(b@ =~= spec_abs_jmp(dest));
    b
}

// ---------------------------------------------------------------------------
// Decoding
// ---------------------------------------------------------------------------

/// Whether the 64-bit decoder reports the first instruction of `code`, read
/// at the address `ip`, as invalid.
pub uninterp spec fn first_insn_invalid(code: Seq<u8>, ip: u64) -> bool;

/// The length that the 64-bit decoder reports for the first instruction of
/// `code`, read at the address `ip`.
pub uninterp spec fn first_insn_len(code: Seq<u8>, ip: u64) -> nat;

/// What the decoder said of one instruction.
#[derive(Clone, Copy, Debug)]
pub struct Decoded {
    /// The decoder could not make an instruction of the bytes.
    pub invalid: bool,
    /// The number of bytes that the decoder consumed.
    pub len: usize,
}

/// Decodes the first instruction of `code` at the address `ip`.
///
/// Calls `Decoder::try_with_ip` for 64-bit code without options, then
/// `Decoder::decode` once, and reports `Instruction::is_invalid` and
/// `Instruction::len` of what came back. The decoder never reads beyond
/// `code`, no instruction is longer than 15 bytes, and it consumes at least
/// one byte for an instruction that it accepts. `None` means that the
/// decoder refused the slice itself, which depends on where the slice lies
/// in memory; nothing is claimed of when that happens.
#[verifier::external_body]
fn decode_first(code: &[u8], ip: u64) -> (r: Option<Decoded>)
    ensures
        r matches Some(d) ==> {
            &&& d.invalid == first_insn_invalid(code@, ip)
            &&& d.len == first_insn_len(code@, ip)
            &&& d.len <= code@.len()
            &&& d.len <= MAX_INSN_LEN
            &&& !d.invalid ==> d.len >= 1
        },
{
    match Decoder::try_with_ip(64, code, ip, DecoderOptions::NONE) {
        Ok(mut decoder) => {
            let insn = decoder.decode();
            Some(Decoded { invalid: insn.is_invalid(), len: insn.len() })
        },
        Err(_) => None,
    }
}

/// The address `offset` bytes after `ip`.
pub open spec fn ip_at(ip: u64, offset: nat) -> u64 {
    ((ip + offset) % 0x1_0000_0000_0000_0000) as u64
}

/// The number of bytes to steal from `code`, which stands at `ip`, when
/// `pos` bytes are covered already: whole instructions are added until at
/// least `MIN_PATCH_LEN` bytes are covered. `None` where an instruction on
/// the way is invalid.
pub open spec fn steal_from(code: Seq<u8>, ip: u64, pos: nat) -> Option<nat>
    decreases code.len() - pos,
{
    if pos >= MIN_PATCH_LEN {
        Some(pos)
    } else if pos > code.len() {
        None
    } else {
        let rest = code.skip(pos as int);
        let at = ip_at(ip, pos);
        let len = first_insn_len(rest, at);
        if first_insn_invalid(rest, at) || len == 0 || len > rest.len() {
            None
        } else {
            steal_from(code, ip, pos + len)
        }
    }
}

/// The number of bytes that a hook at `ip` steals from `code`.
pub open spec fn stolen_len(code: Seq<u8>, ip: u64) -> Option<nat> {
    steal_from(code, ip, 0)
}

/// The number of bytes covered after one more instruction: `covered` and the
/// length of `decoded`, unless the decoder was not to be had or found the
/// instruction invalid.
pub fn extend_stolen(covered: usize, decoded: Option<Decoded>) -> (r: Result<usize, Error>)
    requires
        decoded matches Some(d) ==> covered + d.len <= usize::MAX,
    ensures
        match decoded {
            Some(d) if !d.invalid => r == Ok::<usize, Error>((covered + d.len) as usize),
            _ => r == Err::<usize, Error>(Error::DecodeFailed),
        },
{
    match decoded {
        Some(d) => {
            if d.invalid {
                Err(Error::DecodeFailed)
            } else {
                Ok(covered + d.len)
            }
        },
        None => Err(Error::DecodeFailed),
    }
}

/// Finds how many bytes of `code`, which stands at `target_ip`, a hook has to
/// steal: the length of the fewest whole instructions that cover
/// `MIN_PATCH_LEN` bytes.
///
/// The only failure is `DecodeFailed`. It is returned where an instruction in
/// that window is invalid, `code` ending too early included, and where the
/// decoder is not to be had.
pub fn decode_prologue(code: &[u8], target_ip: u64) -> (r: Result<usize, Error>)
    ensures
        r matches Ok(n) ==> stolen_len(code@, target_ip) == Some(n as nat) && MIN_PATCH_LEN <= n
            < MIN_PATCH_LEN + MAX_INSN_LEN && n <= code@.len(),
        r matches Err(e) ==> e == Error::DecodeFailed,
        stolen_len(code@, target_ip) is None ==> r is Err,
{
    let mut covered: usize = 0;
    while covered < MIN_PATCH_LEN
        invariant
            covered <= code@.len(),
            covered < MIN_PATCH_LEN + MAX_INSN_LEN,
            steal_from(code@, target_ip, covered as nat) == stolen_len(code@, target_ip),
        decreases MIN_PATCH_LEN + MAX_INSN_LEN - covered,
    {
        let rest: &[u8] = slice_subrange(code, covered, code.len());
        let at: u64 = target_ip.wrapping_add(covered as u64);
        assert(rest@ == code@.skip(covered as int));
        assert(at == ip_at(target_ip, covered as nat));
        let decoded: Option<Decoded> = decode_first(rest, at);
        match extend_stolen(covered, decoded) {
            Ok(next) => {
                covered = next;
            },
            Err(e) => {
                return Err(e);
            },
        }
    }
    Ok(covered)
}

// ---------------------------------------------------------------------------
// Encoding at the trampoline
// ---------------------------------------------------------------------------

/// The bytes that the block encoder produces when the instructions of
/// `stolen`, decoded at `source_ip`, are encoded for `dest_ip`; `None` where
/// it cannot encode them there.
pub uninterp spec fn reencoded(stolen: Seq<u8>, source_ip: u64, dest_ip: u64) -> Option<Seq<u8>>;

/// How an attempt to move instructions ended.
#[derive(Debug)]
pub enum Moved {
    /// The instructions as they read at the new address.
    Code(Vec<u8>),
    /// The encoder could not encode them for the new address.
    OutOfReach,
    /// The decoder refused the slice itself.
    NoDecoder,
}

/// Moves the instructions of `stolen` from `source_ip` to `dest_ip`.
///
/// Calls `Decoder::try_with_ip` for 64-bit code without options, collects
/// every instruction that the decoder yields, and hands them to
/// `BlockEncoder::encode` as one block at `dest_ip`, without options. `Code`
/// holds the `code_buffer` of the encoder's result and `OutOfReach` stands
/// for its error. `NoDecoder` depends on where the slice lies in memory;
/// nothing is claimed of when it comes.
#[verifier::external_body]
pub(crate) fn move_code(stolen: &[u8], source_ip: u64, dest_ip: u64) -> (r: Moved)
    ensures
        r matches Moved::Code(code) ==> reencoded(stolen@, source_ip, dest_ip) == Some(code@),
        r is OutOfReach ==> reencoded(stolen@, source_ip, dest_ip) is None,
{
    match Decoder::try_with_ip(64, stolen, source_ip, DecoderOptions::NONE) {
        Ok(decoder) => {
            let insns: Vec<Instruction> = decoder.into_iter().collect();
            let block = InstructionBlock::new(&insns, dest_ip);
            match BlockEncoder::encode(64, block, BlockEncoderOptions::NONE) {
                Ok(encoded) => Moved::Code(encoded.code_buffer),
                Err(_) => Moved::OutOfReach,
            }
        },
        Err(_) => Moved::NoDecoder,
    }
}

/// The trampoline for a hook at `target_ip` that stole `stolen_len` bytes:
/// the moved instructions `code`, then an absolute jump back to the first
/// instruction that was not stolen.
pub open spec fn spec_trampoline(code: Seq<u8>, target_ip: u64, stolen_len: nat) -> Seq<u8> {
    code + spec_abs_jmp(ip_at(target_ip, stolen_len))
}

/// What a block of `capacity` bytes holds for a hook at `target_ip`, given
/// how moving the stolen instructions ended: the trampoline, or
/// `EncodeFailed` where the instructions could not be moved or the
/// trampoline does not fit the block.
pub open spec fn spec_assemble(
    moved: Option<Seq<u8>>,
    target_ip: u64,
    stolen_len: nat,
    capacity: nat,
) -> Result<Seq<u8>, Error> {
    match moved {
        Some(code) if code.len() + MIN_PATCH_LEN <= capacity => Ok(
            spec_trampoline(code, target_ip, stolen_len),
        ),
        _ => Err(Error::EncodeFailed),
    }
}

/// The moved code of `moved`, if there is any.
pub open spec fn moved_code(moved: Moved) -> Option<Seq<u8>> {
    match moved {
        Moved::Code(code) => Some(code@),
        _ => None,
    }
}

/// Assembles the trampoline from the outcome of moving the stolen
/// instructions.
pub fn assemble_trampoline(moved: Moved, target_ip: u64, stolen_len: usize, capacity: usize) -> (r:
    Result<Vec<u8>, Error>)
    ensures
        match spec_assemble(moved_code(moved), target_ip, stolen_len as nat, capacity as nat) {
            Ok(image) => r is Ok && r->Ok_0@ == image,
            Err(e) => r == Err::<Vec<u8>, Error>(e),
        },
{
    match moved {
        Moved::Code(code) => {
            if code.len() > capacity || capacity - code.len() < MIN_PATCH_LEN {
                return Err(Error::EncodeFailed);
            }
            let ghost moved_bytes = code@;
            let mut image: Vec<u8> = code;
            let back: [u8; 14] = abs_jmp(target_ip.wrapping_add(stolen_len as u64));
            append_bytes(&mut image, back.as_slice());
            assert(image@ == spec_trampoline(moved_bytes, target_ip, stolen_len as nat));
            Ok(image)
        },
        _ => Err(Error::EncodeFailed),
    }
}

/// Builds the trampoline of a block of `capacity` bytes at `trampoline_ip`
/// for a hook at `target_ip` that steals the instructions `stolen`.
///
/// Where the encoder can move the instructions and the result fits, this is
/// the trampoline, unless the decoder was not to be had. Every failure is
/// `EncodeFailed`.
pub fn build_trampoline(stolen: &[u8], target_ip: u64, trampoline_ip: u64, capacity: usize) -> (r:
    Result<Vec<u8>, Error>)
    ensures
        r matches Ok(image) ==> spec_assemble(
            reencoded(stolen@, target_ip, trampoline_ip),
            target_ip,
            stolen@.len(),
            capacity as nat,
        ) == Ok::<Seq<u8>, Error>(image@),
        r matches Err(e) ==> e == Error::EncodeFailed,
        spec_assemble(
            reencoded(stolen@, target_ip, trampoline_ip),
            target_ip,
            stolen@.len(),
            capacity as nat,
        ) is Err ==> r is Err,
{
    let moved: Moved = move_code(stolen, target_ip, trampoline_ip);
    assemble_trampoline(moved, target_ip, stolen.len(), capacity)
}

// ---------------------------------------------------------------------------
// The detour
// ---------------------------------------------------------------------------

/// What overwrites the `stolen_len` stolen bytes: an absolute jump to
/// `replacement`, then single-byte no-ops, so that no part of an instruction
/// stays behind.
pub open spec fn spec_detour(replacement: u64, stolen_len: nat) -> Seq<u8> {
    spec_abs_jmp(replacement) + Seq::new((stolen_len - MIN_PATCH_LEN) as nat, |i: int| NOP)
}

/// Assembles the detour for a hook that stole `stolen_len` bytes.
pub fn detour_with_nops(replacement: u64, stolen_len: usize) -> (r: Vec<u8>)
    requires
        stolen_len >= MIN_PATCH_LEN,
    ensures
        r@ == spec_detour(replacement, stolen_len as nat),
        r@.len() == stolen_len,
{
    let jump: [u8; 14] = abs_jmp(replacement);
    let mut out: Vec<u8> = Vec::new();
    append_bytes(&mut out, jump.as_slice());
    let mut i: usize = MIN_PATCH_LEN;
    while i < stolen_len
        invariant
            MIN_PATCH_LEN <= i <= stolen_len,
            out@ == spec_abs_jmp(replacement) + Seq::new((i - MIN_PATCH_LEN) as nat, |k: int| NOP),
        decreases stolen_len - i,
    {
        out.push(NOP);
        assert(out@ =~= spec_abs_jmp(replacement) + Seq::new(
            (i + 1 - MIN_PATCH_LEN) as nat,
            |k: int| NOP,
        ));
        i += 1;
    }
    out
}

} // verus!
