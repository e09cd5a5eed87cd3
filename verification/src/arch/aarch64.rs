//! Relocation of AArch64 instructions.
//!
//! Every instruction is one 32-bit word. A word that names its target
//! relative to its own address has to be rewritten when it moves; all
//! arithmetic on addresses is modulo 2^64, as the machine computes it.
//!
//! Only `B` and `BL` are rewritten. Conditional branches, compare-and-branch,
//! test-and-branch, literal loads and the address-forming `ADR` and `ADRP`
//! are copied as they are: they keep their meaning only as long as the new
//! place lies within their reach of what they refer to.

use vstd::prelude::*;
use crate::error::Error;

verus! {

/// The canonical no-op instruction.
pub const OP_NOP: u32 = 0xD503_201F;

/// `LDR X17, #8`: load the doubleword that lies two words ahead.
pub const OP_LDR_X17_NEXT: u32 = 0x5800_0051;

/// `BR X17`: branch to the address in the scratch register.
pub const OP_BR_X17: u32 = 0xD61F_0220;

/// The scratch register that an expanded branch goes through.
pub const SCRATCH_REG: u32 = 17;

// ---------------------------------------------------------------------------
// Instruction classes
// ---------------------------------------------------------------------------

/// `ADR`: form a PC-relative address.
pub open spec fn spec_is_adr(insn: u32) -> bool {
    (insn & 0x9F00_0000) == 0x1000_0000
}

/// `ADRP`: form a PC-relative page address.
pub open spec fn spec_is_adrp(insn: u32) -> bool {
    (insn & 0x9F00_0000) == 0x9000_0000
}

/// `B`: unconditional relative branch.
pub open spec fn spec_is_b(insn: u32) -> bool {
    (insn & 0xFC00_0000) == 0x1400_0000
}

/// `BL`: relative call.
pub open spec fn spec_is_bl(insn: u32) -> bool {
    (insn & 0xFC00_0000) == 0x9400_0000
}

/// `B.cond`: conditional relative branch.
pub open spec fn spec_is_b_cond(insn: u32) -> bool {
    (insn & 0xFF00_0010) == 0x5400_0000
}

/// `CBZ` / `CBNZ`: compare and branch.
pub open spec fn spec_is_cbz_cbnz(insn: u32) -> bool {
    (insn & 0x7E00_0000) == 0x3400_0000
}

/// `TBZ` / `TBNZ`: test bit and branch.
pub open spec fn spec_is_tbz_tbnz(insn: u32) -> bool {
    (insn & 0x7E00_0000) == 0x3600_0000
}

/// `LDR` (literal): PC-relative load.
pub open spec fn spec_is_ldr_literal(insn: u32) -> bool {
    (insn & 0x1F00_0000) == 0x1800_0000
}

#[verifier::when_used_as_spec(spec_is_adr)]
pub fn is_adr(insn: u32) -> (r: bool)
    ensures
        r == spec_is_adr(insn),
{
    (insn & 0x9F00_0000) == 0x1000_0000
}

#[verifier::when_used_as_spec(spec_is_adrp)]
pub fn is_adrp(insn: u32) -> (r: bool)
    ensures
        r == spec_is_adrp(insn),
{
    (insn & 0x9F00_0000) == 0x9000_0000
}

#[verifier::when_used_as_spec(spec_is_b)]
pub fn is_b(insn: u32) -> (r: bool)
    ensures
        r == spec_is_b(insn),
{
    (insn & 0xFC00_0000) == 0x1400_0000
}

#[verifier::when_used_as_spec(spec_is_bl)]
pub fn is_bl(insn: u32) -> (r: bool)
    ensures
        r == spec_is_bl(insn),
{
    (insn & 0xFC00_0000) == 0x9400_0000
}

#[verifier::when_used_as_spec(spec_is_b_cond)]
pub fn is_b_cond(insn: u32) -> (r: bool)
    ensures
        r == spec_is_b_cond(insn),
{
    (insn & 0xFF00_0010) == 0x5400_0000
}

#[verifier::when_used_as_spec(spec_is_cbz_cbnz)]
pub fn is_cbz_cbnz(insn: u32) -> (r: bool)
    ensures
        r == spec_is_cbz_cbnz(insn),
{
    (insn & 0x7E00_0000) == 0x3400_0000
}

#[verifier::when_used_as_spec(spec_is_tbz_tbnz)]
pub fn is_tbz_tbnz(insn: u32) -> (r: bool)
    ensures
        r == spec_is_tbz_tbnz(insn),
{
    (insn & 0x7E00_0000) == 0x3600_0000
}

#[verifier::when_used_as_spec(spec_is_ldr_literal)]
pub fn is_ldr_literal(insn: u32) -> (r: bool)
    ensures
        r == spec_is_ldr_literal(insn),
{
    (insn & 0x1F00_0000) == 0x1800_0000
}

// ---------------------------------------------------------------------------
// Fields
// ---------------------------------------------------------------------------

/// `2^bits`, for `bits` below 64.
spec fn field_modulus(bits: u32) -> int {
    (1u64 << bits) as int
}

/// Whether `r` lies in the range of a two's complement number of `bits` bits
/// and agrees with `value` on those bits.
spec fn is_sign_extension(value: i64, bits: u32, r: i64) -> bool {
    if bits >= 64 {
        r == value
    } else {
        &&& -field_modulus(bits) <= 2 * r < field_modulus(bits)
        &&& (r as u64) & ((1u64 << bits) - 1) as u64 == (value as u64) & ((1u64 << bits) - 1) as u64
    }
}

/// The unsigned 19-bit field at bits 5 to 23.
pub open spec fn spec_imm19(word: u32) -> int {
    (word as int / 32) % 0x8_0000
}

/// `B` with the 26-bit two's complement immediate `imm26`.
pub open spec fn spec_b_imm(imm26: int) -> int {
    0x1400_0000 + imm26 % 0x0400_0000
}

/// The literal load with target register `rt`, word offset `imm19`, the SIMD
/// flag `v` and the size field `opc`; each field is cut to its width.
pub open spec fn spec_ldr_literal(rt: u32, imm19: int, v: bool, opc: u32) -> int {
    (opc as int % 4) * 0x4000_0000 + (if v {
        0x0400_0000int
    } else {
        0int
    }) + 0x1800_0000 + (imm19 % 0x8_0000) * 32 + (rt as int % 32)
}

/// The value of the low `bits` bits of `value`, read as a two's complement
/// number of that width.
pub open spec fn spec_sign_extend(value: int, bits: nat) -> int {
    let modulus = vstd::arithmetic::power2::pow2(bits) as int;
    let low = value % modulus;
    if 2 * low >= modulus {
        low - modulus
    } else {
        low
    }
}

/// A number in the range of a field that agrees with `value` on the bits of
/// the field is the value of the field.
proof fn lemma_sign_extension(value: i64, bits: u32, r: i64)
    requires
        1 <= bits <= 64,
        is_sign_extension(value, bits, r),
    ensures
        r == spec_sign_extend(value as int, bits as nat),
{
    let m = vstd::arithmetic::power2::pow2(bits as nat) as int;
    vstd::arithmetic::power2::lemma2_to64();
    vstd::arithmetic::power2::lemma2_to64_rest();
    if bits < 64 {
        let n = bits as nat;
        let rest = vstd::arithmetic::power2::pow2((64 - bits) as nat) as int;
        let ru = r as u64;
        let vu = value as u64;
        vstd::bits::lemma_u64_pow2_no_overflow(n);
        vstd::arithmetic::power2::lemma_pow2_pos(n);
        vstd::arithmetic::power2::lemma_pow2_pos((64 - bits) as nat);
        vstd::arithmetic::power2::lemma_pow2_adds(n, (64 - bits) as nat);
        assert(m * rest == 0x1_0000_0000_0000_0000);
        vstd::bits::lemma_u64_shl_is_mul(1u64, bits as u64);
        assert((1u64 << bits) == (1u64 << (bits as u64))) by (bit_vector);
        assert((1u64 << bits) == m);
        assert(((1u64 << bits) - 1) as u64 == vstd::bits::low_bits_mask(n) as u64);
        vstd::bits::lemma_u64_low_bits_mask_is_mod(ru, n);
        vstd::bits::lemma_u64_low_bits_mask_is_mod(vu, n);
        assert(ru as int % m == vu as int % m);
        assert(ru as int == r + (if r < 0 {
            0x1_0000_0000_0000_0000int
        } else {
            0int
        }) && vu as int == value + (if value < 0 {
            0x1_0000_0000_0000_0000int
        } else {
            0int
        })) by (bit_vector)
            requires
                ru == r as u64,
                vu == value as u64,
        ;
        vstd::arithmetic::div_mod::lemma_mod_multiples_vanish(rest, r as int, m);
        vstd::arithmetic::div_mod::lemma_mod_multiples_vanish(rest, value as int, m);
        assert(r as int % m == value as int % m);
        if r >= 0 {
            vstd::arithmetic::div_mod::lemma_small_mod(r as nat, m as nat);
        } else {
            vstd::arithmetic::div_mod::lemma_mod_multiples_vanish(1, r as int, m);
            vstd::arithmetic::div_mod::lemma_small_mod((r + m) as nat, m as nat);
        }
    }
}

/// Reads the low `bits` bits of `value` as a signed number.
pub fn sign_extend(value: i64, bits: u32) -> (r: i64)
    requires
        1 <= bits <= 64,
    ensures
        r == spec_sign_extend(value as int, bits as nat),
{
    let shift: u32 = 64 - bits;
    let r: i64 = (value << shift) >> shift;
    proof {
        assert(is_sign_extension(value, bits, r)) by (bit_vector)
            requires
                r == (value << shift) >> shift,
                shift == 64 - bits,
                1 <= bits <= 64,
        ;
        lemma_sign_extension(value, bits, r);
    }
    r
}

/// The 19-bit immediate of a compare-and-branch or literal-load word.
pub fn imm19_from_word(word: u32) -> (r: i32)
    ensures
        r == spec_imm19(word),
{
    let field: u32 = (word >> 5) & 0x7FFFF;
    assert(field == (word / 32) % 0x8_0000 && field < 0x8_0000) by (bit_vector)
        requires
            field == (word >> 5) & 0x7FFFF,
    ;
    field as i32
}

/// Encodes `B` with the immediate `imm26`, cut to 26 bits.
pub fn encode_b_imm(imm26: i32) -> (r: u32)
    ensures
        r == spec_b_imm(imm26 as int),
{
    let r: u32 = 0x1400_0000 | ((imm26 as u32) & 0x03FF_FFFF);
    assert(r == 0x1400_0000 + (imm26 as int) % 0x0400_0000) by (bit_vector)
        requires
            r == 0x1400_0000u32 | ((imm26 as u32) & 0x03FF_FFFF),
    ;
    r
}

/// Encodes a literal load; each field is cut to its width.
pub fn encode_ldr_literal(rt: u32, imm19: i32, v: bool, opc: u32) -> (r: u32)
    ensures
        r == spec_ldr_literal(rt, imm19 as int, v, opc),
{
    let flag: u32 = if v {
        1
    } else {
        0
    };
    let r: u32 = ((opc & 0x3) << 30) | (flag << 26) | (0x18 << 24) | (((imm19 as u32) & 0x7FFFF)
        << 5) | (rt & 0x1F);
    assert(r == (opc as int % 4) * 0x4000_0000 + flag * 0x0400_0000 + 0x1800_0000 + ((imm19 as int)
        % 0x8_0000) * 32 + (rt as int % 32)) by (bit_vector)
        requires
            flag <= 1,
            r == ((opc & 0x3) << 30) | (flag << 26) | (0x18u32 << 24) | (((imm19 as u32) & 0x7FFFF)
                << 5) | (rt & 0x1F),
    ;
    r
}

// ---------------------------------------------------------------------------
// Relocation
// ---------------------------------------------------------------------------

/// `a` reduced to an address: modulo 2^64.
pub open spec fn wrap64(a: int) -> u64 {
    (a % 0x1_0000_0000_0000_0000) as u64
}

/// An address difference read as a signed 64-bit number.
pub open spec fn signed64(a: u64) -> int {
    if a >= 0x8000_0000_0000_0000 {
        a - 0x1_0000_0000_0000_0000
    } else {
        a as int
    }
}

/// The address of the word `index` words after `base`.
pub open spec fn word_pc(base: u64, index: nat) -> u64 {
    wrap64(base + 4 * index)
}

/// The byte offset that a `B` or `BL` word encodes: its 26-bit two's
/// complement immediate, in words, times four.
pub open spec fn branch_offset(word: u32) -> int {
    let imm = word as int % 0x0400_0000;
    if imm >= 0x0200_0000 {
        4 * (imm - 0x0400_0000)
    } else {
        4 * imm
    }
}

/// The absolute address that the branch `word` reaches when it executes at `pc`.
pub open spec fn branch_target(word: u32, pc: u64) -> u64 {
    wrap64(pc + branch_offset(word))
}

/// The displacement, in words, that a branch at `pc` needs to reach `target`.
pub open spec fn displacement(target: u64, pc: u64) -> int {
    signed64(wrap64(target - pc)) / 4
}

/// Whether a displacement in words fits the signed 26-bit immediate.
pub open spec fn fits_imm26(d: int) -> bool {
    -0x0200_0000 <= d <= 0x01FF_FFFF
}

/// `word` with its 26-bit immediate replaced by `d` in two's complement.
pub open spec fn with_imm26(word: u32, d: int) -> u32 {
    ((word as int / 0x0400_0000) * 0x0400_0000 + d % 0x0400_0000) as u32
}

/// The expansion of a branch whose target is out of reach: load the target
/// from the two data words behind the sequence and branch through the
/// scratch register.
pub open spec fn far_branch(target: u64) -> Seq<u32> {
    seq![
        OP_LDR_X17_NEXT,
        OP_BR_X17,
        (target as int % 0x1_0000_0000) as u32,
        (target as int / 0x1_0000_0000) as u32,
    ]
}

/// What the instruction `word`, taken from `src_word_pc`, becomes at
/// `out_word_pc`.
///
/// A zero word is padding and becomes a no-op. A `B` or `BL` keeps its
/// target: it is re-encoded where the new displacement fits and expanded
/// where it does not. Every other word is copied.
pub open spec fn relocate_word(word: u32, src_word_pc: u64, out_word_pc: u64) -> Seq<u32> {
    if word == 0 {
        seq![OP_NOP]
    } else if spec_is_b(word) || spec_is_bl(word) {
        let target = branch_target(word, src_word_pc);
        let d = displacement(target, out_word_pc);
        if fits_imm26(d) {
            seq![with_imm26(word, d)]
        } else {
            far_branch(target)
        }
    } else {
        seq![word]
    }
}

/// The relocation of `instructions`, which stand at `src_pc`, to `dst_pc`:
/// each word in turn, placed behind what the words before it have become.
pub open spec fn relocate_seq(instructions: Seq<u32>, src_pc: u64, dst_pc: u64) -> Seq<u32>
    decreases instructions.len(),
{
    if instructions.len() == 0 {
        Seq::empty()
    } else {
        let head = relocate_seq(instructions.drop_last(), src_pc, dst_pc);
        head + relocate_word(
            instructions.last(),
            word_pc(src_pc, (instructions.len() - 1) as nat),
            word_pc(dst_pc, head.len()),
        )
    }
}

/// Every word becomes at least one and at most four words.
pub proof fn lemma_relocate_seq_len(instructions: Seq<u32>, src_pc: u64, dst_pc: u64)
    ensures
        instructions.len() <= relocate_seq(instructions, src_pc, dst_pc).len() <= 4
            * instructions.len(),
    decreases instructions.len(),
{
    if instructions.len() > 0 {
        lemma_relocate_seq_len(instructions.drop_last(), src_pc, dst_pc);
    }
}

/// The address of a word, computed with wrapping machine arithmetic.
proof fn lemma_word_pc(base: u64, index: u64)
    ensures
        vstd::wrapping::u64_specs::wrapping_add(
            base,
            vstd::wrapping::u64_specs::wrapping_mul(index, 4),
        ) == word_pc(base, index as nat),
{
    let scaled = vstd::wrapping::u64_specs::wrapping_mul(index, 4);
    assert(scaled == (index as nat * 4) % 0x1_0000_0000_0000_0000);
    assert(scaled == (4 * index) % 0x1_0000_0000_0000_0000);
}

/// Relocating one more word appends what that word becomes.
proof fn lemma_relocate_seq_step(instructions: Seq<u32>, idx: int, src_pc: u64, dst_pc: u64)
    requires
        0 <= idx < instructions.len(),
    ensures
        relocate_seq(instructions.take(idx + 1), src_pc, dst_pc) == relocate_seq(
            instructions.take(idx),
            src_pc,
            dst_pc,
        ) + relocate_word(
            instructions[idx],
            word_pc(src_pc, idx as nat),
            word_pc(dst_pc, relocate_seq(instructions.take(idx), src_pc, dst_pc).len()),
        ),
{
    let next = instructions.take(idx + 1);
    assert(next.drop_last() == instructions.take(idx));
    assert(next.last() == instructions[idx]);
}

/// Appends to `out` what `word` becomes when it moves from `src_word_pc` to
/// `out_word_pc`.
fn relocate_into(out: &mut Vec<u32>, word: u32, src_word_pc: u64, out_word_pc: u64)
    ensures
        final(out)@ == old(out)@ + relocate_word(word, src_word_pc, out_word_pc),
{
    if is_adr(word) || is_adrp(word) {
        assert(word != 0 && !spec_is_b(word) && !spec_is_bl(word)) by (bit_vector)
            requires
                (word & 0x9F00_0000) == 0x1000_0000 || (word & 0x9F00_0000) == 0x9000_0000,
        ;
        out.push(word);
        assert(out@ == old(out)@ + seq![word]);
        return ;
    }
    if is_b(word) || is_bl(word) {
        assert(word != 0) by (bit_vector)
            requires
                (word & 0xFC00_0000) == 0x1400_0000 || (word & 0xFC00_0000) == 0x9400_0000,
        ;
        let field: u32 = word & 0x03FF_FFFF;
        let imm26: i64 = sign_extend(field as i64, 26);
        assert(field == word % 0x0400_0000) by (bit_vector)
            requires
                field == word & 0x03FF_FFFF,
        ;
        proof {
            vstd::arithmetic::power2::lemma2_to64();
        }
        assert(imm26 == (if field >= 0x0200_0000 {
            field - 0x0400_0000
        } else {
            field as int
        }));
        let offset: i64 = imm26 * 4;
        let target: u64 = src_word_pc.wrapping_add(offset as u64);
        assert(offset as u64 == wrap64(offset as int)) by (bit_vector);
        assert(target == branch_target(word, src_word_pc));
        let diff: u64 = target.wrapping_sub(out_word_pc);
        let delta: i64 = (diff as i64) >> 2;
        assert(delta == signed64(diff) / 4) by (bit_vector)
            requires
                delta == (diff as i64) >> 2,
        ;
        assert(delta == displacement(target, out_word_pc));
        if -0x0200_0000 <= delta && delta <= 0x01FF_FFFF {
            let moved: u32 = (word & 0xFC00_0000) | ((delta as u32) & 0x03FF_FFFF);
            assert(moved == with_imm26(word, delta as int)) by (bit_vector)
                requires
                    moved == (word & 0xFC00_0000) | ((delta as u32) & 0x03FF_FFFF),
            ;
            out.push(moved);
            assert(out@ == old(out)@ + seq![moved]);
        } else {
            let low: u32 = (target & 0xFFFF_FFFF) as u32;
            let high: u32 = (target >> 32) as u32;
            assert(low == (target as int % 0x1_0000_0000) as u32 && high == (target as int
                / 0x1_0000_0000) as u32) by (bit_vector)
                requires
                    low == (target & 0xFFFF_FFFF) as u32,
                    high == (target >> 32) as u32,
            ;
            let load: u32 = encode_ldr_literal(SCRATCH_REG, 2, false, 1);
            out.push(load);
            out.push(0xD61F_0000 | (SCRATCH_REG << 5));
            out.push(low);
            out.push(high);
            assert(0xD61F_0000u32 | (17u32 << 5) == OP_BR_X17) by (bit_vector);
            assert(out@ == old(out)@ + far_branch(target));
        }
        return ;
    }
    if is_b_cond(word) || is_cbz_cbnz(word) || is_tbz_tbnz(word) || is_ldr_literal(word) {
        assert(word != 0) by (bit_vector)
            requires
                (word & 0xFF00_0010) == 0x5400_0000 || (word & 0x7E00_0000) == 0x3400_0000 || (word
                    & 0x7E00_0000) == 0x3600_0000 || (word & 0x1F00_0000) == 0x1800_0000,
        ;
        out.push(word);
        assert(out@ == old(out)@ + seq![word]);
        return ;
    }
    if word == 0 {
        out.push(OP_NOP);
        assert(out@ == old(out)@ + seq![OP_NOP]);
    } else {
        out.push(word);
        assert(out@ == old(out)@ + seq![word]);
    }
}

/// Rewrites `instructions`, which stand at `src_pc`, so that they behave the
/// same at `dst_pc`.
///
/// Fails with `RelocationFailed` exactly when there is nothing to relocate.
pub fn relocate(instructions: &[u32], src_pc: u64, dst_pc: u64) -> (r: Result<Vec<u32>, Error>)
    ensures
        instructions@.len() == 0 ==> r == Err::<Vec<u32>, Error>(Error::RelocationFailed),
        instructions@.len() > 0 ==> r is Ok && r->Ok_0@ == relocate_seq(
            instructions@,
            src_pc,
            dst_pc,
        ),
{
    let mut out: Vec<u32> = Vec::new();
    let mut idx: usize = 0;
    while idx < instructions.len()
        invariant
            idx <= instructions@.len(),
            out@ == relocate_seq(instructions@.take(idx as int), src_pc, dst_pc),
        decreases instructions@.len() - idx,
    {
        let word: u32 = instructions[idx];
        let src_word_pc: u64 = src_pc.wrapping_add((idx as u64).wrapping_mul(4));
        let out_word_pc: u64 = dst_pc.wrapping_add((out.len() as u64).wrapping_mul(4));
        proof {
            lemma_word_pc(src_pc, idx as u64);
            lemma_word_pc(dst_pc, out.len() as u64);
            lemma_relocate_seq_step(instructions@, idx as int, src_pc, dst_pc);
        }
        relocate_into(&mut out, word, src_word_pc, out_word_pc);
        idx += 1;
    }
    proof {
        assert(instructions@.take(idx as int) == instructions@);
        lemma_relocate_seq_len(instructions@, src_pc, dst_pc);
    }
    if out.len() == 0 {
        return Err(Error::RelocationFailed);
    }
    Ok(out)
}

// ---------------------------------------------------------------------------
// What relocation keeps
// ---------------------------------------------------------------------------

/// A no-op carries no position: relocating a run of no-ops from any address
/// to any other yields the same run.
pub proof fn lemma_relocate_nops(instructions: Seq<u32>, src_pc: u64, dst_pc: u64)
    requires
        forall|i: int| 0 <= i < instructions.len() ==> instructions[i] == OP_NOP,
    ensures
        relocate_seq(instructions, src_pc, dst_pc) == instructions,
    decreases instructions.len(),
{
    if instructions.len() > 0 {
        let head = instructions.drop_last();
        lemma_relocate_nops(head, src_pc, dst_pc);
        assert(!spec_is_b(OP_NOP) && !spec_is_bl(OP_NOP)) by (bit_vector);
        assert(instructions.last() == OP_NOP);
        assert(head + seq![OP_NOP] == instructions);
    }
}

/// A branch whose new displacement is the largest or the smallest that the
/// immediate holds is re-encoded in place, as one word; one word beyond
/// either end it is expanded into the four-word sequence.
pub proof fn lemma_displacement_boundary(word: u32, src_word_pc: u64, out_word_pc: u64)
    requires
        spec_is_b(word) || spec_is_bl(word),
    ensures
        ({
            let target = branch_target(word, src_word_pc);
            let d = displacement(target, out_word_pc);
            let moved = relocate_word(word, src_word_pc, out_word_pc);
            &&& d == 0x01FF_FFFF || d == -0x0200_0000 ==> moved == seq![with_imm26(word, d)]
            &&& d == 0x0200_0000 || d == -0x0200_0001 ==> moved == far_branch(target)
        }),
{
    assert(word != 0) by (bit_vector)
        requires
            (word & 0xFC00_0000) == 0x1400_0000 || (word & 0xFC00_0000) == 0x9400_0000,
    ;
}

/// A branch that is re-encoded in place stays the same kind of branch and
/// still reaches its target, provided target and new address are a whole
/// number of words apart.
pub proof fn lemma_moved_branch_keeps_target(word: u32, src_word_pc: u64, out_word_pc: u64)
    requires
        spec_is_b(word) || spec_is_bl(word),
        fits_imm26(displacement(branch_target(word, src_word_pc), out_word_pc)),
        (branch_target(word, src_word_pc) - out_word_pc) % 4 == 0,
    ensures
        ({
            let target = branch_target(word, src_word_pc);
            let moved = with_imm26(word, displacement(target, out_word_pc));
            &&& relocate_word(word, src_word_pc, out_word_pc) == seq![moved]
            &&& spec_is_b(moved) == spec_is_b(word)
            &&& spec_is_bl(moved) == spec_is_bl(word)
            &&& branch_target(moved, out_word_pc) == target
        }),
{
    let target = branch_target(word, src_word_pc);
    let d = displacement(target, out_word_pc);
    let moved = with_imm26(word, d);
    let field = (d % 0x0400_0000) as u32;
    assert(word != 0) by (bit_vector)
        requires
            (word & 0xFC00_0000) == 0x1400_0000 || (word & 0xFC00_0000) == 0x9400_0000,
    ;
    assert(moved == (word & 0xFC00_0000) | field && (word as int / 0x0400_0000) * 0x0400_0000
        + field <= 0xFFFF_FFFF) by (bit_vector)
        requires
            field < 0x0400_0000,
            moved == ((word as int / 0x0400_0000) * 0x0400_0000 + field) as u32,
    ;
    assert(moved & 0xFC00_0000 == word & 0xFC00_0000 && moved % 0x0400_0000 == field)
        by (bit_vector)
        requires
            field < 0x0400_0000,
            moved == (word & 0xFC00_0000) | field,
    ;
    assert(branch_offset(moved) == 4 * d);
}

} // verus!
