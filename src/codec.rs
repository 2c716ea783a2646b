//! Little-endian integer reads and packed bit-field extraction.
use vstd::arithmetic::div_mod::*;
use vstd::arithmetic::power2::*;
use vstd::bits::*;
use vstd::bytes::*;
use vstd::prelude::*;

use crate::error::ParseError;

verus! {

/// The little-endian `u32` stored in `b[at..at + 4]`.
pub open spec fn u32_at(b: Seq<u8>, at: int) -> u32 {
    spec_u32_from_le_bytes(b.subrange(at, at + 4))
}

/// The little-endian `u64` stored in `b[at..at + 8]`.
pub open spec fn u64_at(b: Seq<u8>, at: int) -> u64 {
    spec_u64_from_le_bytes(b.subrange(at, at + 8))
}

/// The `width`-bit field of `value` that starts at bit `shift`.
pub open spec fn bits_at(value: u32, shift: nat, width: nat) -> nat {
    (value as nat / pow2(shift)) % pow2(width)
}

/// Reads the little-endian `u32` at `*offset` and advances `offset` past it.
/// Fails with `UnexpectedEnd`, leaving `offset` as it was, when fewer than
/// four bytes remain.
pub fn bytes_to_u32(bytes: &[u8], offset: &mut usize) -> (r: Result<u32, ParseError>)
    ensures
        *old(offset) + 4 <= bytes@.len() ==> r == Ok::<u32, ParseError>(u32_at(bytes@, *old(offset) as int))
            && *final(offset) == *old(offset) + 4,
        *old(offset) + 4 > bytes@.len() ==> r == Err::<u32, ParseError>(ParseError::UnexpectedEnd)
            && *final(offset) == *old(offset),
{
    let at = *offset;
    if at > bytes.len() || bytes.len() - at < 4 {
        return Err(ParseError::UnexpectedEnd);
    }
    let v = read_u32(bytes, at);
    *offset = at + 4;
    Ok(v)
}

/// Reads the little-endian `u32` at `at`.
pub fn read_u32(bytes: &[u8], at: usize) -> (r: u32)
    requires
        at + 4 <= bytes@.len(),
    ensures
        r == u32_at(bytes@, at as int),
{
    assert(at + 4 <= bytes.len());
    u32_from_le_bytes(vstd::slice::slice_subrange(bytes, at, at + 4))
}

/// Reads the little-endian `u64` at `at`.
pub fn read_u64(bytes: &[u8], at: usize) -> (r: u64)
    requires
        at + 8 <= bytes@.len(),
    ensures
        r == u64_at(bytes@, at as int),
{
    assert(at + 8 <= bytes.len());
    u64_from_le_bytes(vstd::slice::slice_subrange(bytes, at, at + 8))
}

/// Extracts the `mask`-bit wide field of `value` starting at bit `shift`,
/// that is `(value >> shift) & ((1 << mask) - 1)`.
pub fn shift_and_mask_lower(shift: u32, mask: u32, value: u32) -> (r: u32)
    requires
        shift + mask <= 32,
    ensures
        r as nat == bits_at(value, shift as nat, mask as nat),
        r < pow2(mask as nat),
{
    let v = value as u64;
    proof {
        lemma_u64_pow2_no_overflow(mask as nat);
        lemma_u64_shl_is_mul(1, mask as u64);
        lemma_pow2_pos(mask as nat);
    }
    let low: u64 = (1u64 << mask as u64) - 1;
    let r = (v >> shift as u64) & low;
    proof {
        lemma_u64_shr_is_div(v, shift as u64);
        assert(low == low_bits_mask(mask as nat));
        lemma_u64_low_bits_mask_is_mod(v >> shift as u64, mask as nat);
        lemma_pow2_pos(mask as nat);
        if mask < 32 {
            lemma_pow2_strictly_increases(mask as nat, 32);
        }
        lemma2_to64();
        lemma_mod_bound((v >> shift as u64) as int, pow2(mask as nat) as int);
    }
    r as u32
}

/// Splitting a 32-bit value into the bits below a `width`-bit field at
/// `shift`, the field itself and the bits above it, then putting the three
/// back in place, gives the value again.
pub proof fn lemma_bits_reassemble(value: u32, shift: nat, width: nat)
    requires
        shift + width <= 32,
    ensures
        value as nat == bits_at(value, 0, shift) + bits_at(value, shift, width) * pow2(shift)
            + bits_at(value, shift + width, (32 - shift - width) as nat) * pow2(shift + width),
{
    let v = value as int;
    let rest = (32 - shift - width) as nat;
    let p = pow2(shift) as int;
    let q = pow2(width) as int;
    let r = pow2(rest) as int;
    lemma_pow2_pos(shift);
    lemma_pow2_pos(width);
    lemma_pow2_pos(rest);
    lemma_pow2_adds(shift, width);
    lemma_pow2_adds(shift + width, rest);
    lemma2_to64();
    lemma_div_basics(v);
    let a = v / p;
    lemma_fundamental_div_mod(v, p);
    lemma_fundamental_div_mod(a, q);
    lemma_div_denominator(v, p, q);
    lemma_multiply_divide_lt(v, p * q, r);
    lemma_div_pos_is_pos(v, p * q);
    lemma_small_mod((v / (p * q)) as nat, r as nat);
    assert(v == v % p + (a % q) * p + (a / q) * (p * q)) by (nonlinear_arith)
        requires
            v == p * a + v % p,
            a == q * (a / q) + a % q,
    ;
}

/// Packing a `width`-bit field at `shift` between arbitrary lower and upper
/// bits, then extracting the three parts, gives back each of them.
pub proof fn lemma_bits_pack_extract(low: nat, field: nat, high: nat, shift: nat, width: nat)
    requires
        shift + width <= 32,
        low < pow2(shift),
        field < pow2(width),
        high < pow2((32 - shift - width) as nat),
    ensures
        ({
            let v = low + field * pow2(shift) + high * pow2(shift + width);
            &&& v <= u32::MAX
            &&& bits_at(v as u32, 0, shift) == low
            &&& bits_at(v as u32, shift, width) == field
            &&& bits_at(v as u32, shift + width, (32 - shift - width) as nat) == high
        }),
{
    let rest = (32 - shift - width) as nat;
    let p = pow2(shift) as int;
    let q = pow2(width) as int;
    let r = pow2(rest) as int;
    let v = low + field * p + high * (p * q);
    lemma_pow2_pos(shift);
    lemma_pow2_pos(width);
    lemma_pow2_pos(rest);
    lemma_pow2_adds(shift, width);
    lemma_pow2_adds(shift + width, rest);
    lemma2_to64();
    assert(0 <= v < p * q * r) by (nonlinear_arith)
        requires
            v == low + field * p + high * (p * q),
            0 <= low < p,
            0 <= field < q,
            0 <= high < r,
    ;
    assert(p * q * r == pow2(32)) by (nonlinear_arith)
        requires
            p * q == pow2(shift + width),
            pow2(shift + width) * r == pow2(32),
    ;
    lemma_div_basics(v);
    lemma_small_mod(low, p as nat);
    assert(v == (field + high * q) * p + low) by (nonlinear_arith)
        requires
            v == low + field * p + high * (p * q),
    ;
    lemma_fundamental_div_mod_converse(v, p, field + high * q, low as int);
    lemma_fundamental_div_mod_converse(field + high * q, q, high as int, field as int);
    lemma_div_denominator(v, p, q);
    lemma_small_mod(high, r as nat);
}

} // verus!
