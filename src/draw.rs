//! Drawing a winner's index from the clock.
//!
//! The draw is derived from the timestamp and the slot and is therefore
//! predictable by anyone who can predict those two values: it is kept as it
//! is so that draws agree with records that already exist.
use vstd::prelude::*;

use crate::clock::Clock;

verus! {

/// `usize::MAX / 100` on a 64-bit target: what is taken off the hash first.
pub const HASH_BIAS: u64 = 184467440737095516;

/// `u32::MAX`: the divisor of the normalised hash and the modulus of the seed.
pub const SEED_MODULUS: u64 = 4294967295;

/// The SHA-256 digest of `data`.
pub uninterp spec fn sha256_of(data: Seq<u8>) -> Seq<u8>;

/// Relies on `solana_program::hash::hash` (re-exported by anchor_lang): it
/// returns the SHA-256 digest of its input, which depends on the input alone.
#[verifier::external_body]
pub(crate) fn sha256(data: &[u8; 8]) -> (r: [u8; 32])
    ensures
        r@ == sha256_of(data@),
{
    anchor_lang::solana_program::hash::hash(data).to_bytes()
}

/// The eight bytes of `t`, most significant first.
pub open spec fn be_bytes_of(t: i64) -> Seq<u8> {
    let u = t as u64;
    seq![
        (u >> 56u64) as u8,
        (u >> 48u64) as u8,
        (u >> 40u64) as u8,
        (u >> 32u64) as u8,
        (u >> 24u64) as u8,
        (u >> 16u64) as u8,
        (u >> 8u64) as u8,
        u as u8,
    ]
}

/// The integer whose little-endian encoding is the first eight bytes of `b`.
pub open spec fn le_u64_of(b: Seq<u8>) -> u64
    recommends
        b.len() >= 8,
{
    (b[0] as u64) | ((b[1] as u64) << 8u64) | ((b[2] as u64) << 16u64) | ((b[3] as u64)
        << 24u64) | ((b[4] as u64) << 32u64) | ((b[5] as u64) << 40u64) | ((b[6] as u64)
        << 48u64) | ((b[7] as u64) << 56u64)
}

/// The index drawn from the 64-bit hash value `h`, the slot and the number of
/// candidates `modulus`; `None` only where there is no candidate. The bias is
/// taken off modulo 2^64. For any `modulus` that fits in 32 bits the seed is
/// reduced exactly as a 32-bit remainder would reduce it.
pub open spec fn draw_of(h: u64, slot: u64, modulus: u64) -> Option<u64> {
    if modulus == 0 {
        None
    } else {
        let n = h.wrapping_sub(HASH_BIAS) as int / SEED_MODULUS as int;
        let seed = (n * slot as int) % SEED_MODULUS as int;
        Some((seed % modulus as int) as u64)
    }
}

/// The index drawn at `clock` among `modulus` candidates.
pub open spec fn random_mod_of(modulus: u64, clock: Clock) -> Option<u64> {
    draw_of(le_u64_of(sha256_of(be_bytes_of(clock.unix_timestamp))), clock.slot, modulus)
}

/// The timestamp as eight bytes, most significant first.
pub fn timestamp_be_bytes(t: i64) -> (r: [u8; 8])
    ensures
        r@ == be_bytes_of(t),
{
    let u = t as u64;
    let r = [
        (u >> 56u64) as u8,
        (u >> 48u64) as u8,
        (u >> 40u64) as u8,
        (u >> 32u64) as u8,
        (u >> 24u64) as u8,
        (u >> 16u64) as u8,
        (u >> 8u64) as u8,
        u as u8,
    ];
    assert(r@ =~= be_bytes_of(t));
    r
}

/// The integer whose little-endian encoding is the first eight bytes of `digest`.
pub fn digest_prefix_u64(digest: &[u8; 32]) -> (r: u64)
    ensures
        r == le_u64_of(digest@),
{
    (digest[0] as u64) | ((digest[1] as u64) << 8u64) | ((digest[2] as u64) << 16u64) | ((
    digest[3] as u64) << 24u64) | ((digest[4] as u64) << 32u64) | ((digest[5] as u64) << 40u64)
        | ((digest[6] as u64) << 48u64) | ((digest[7] as u64) << 56u64)
}

/// Draws an index among `modulus` candidates from a digest and a slot.
pub fn draw_from_digest(digest: &[u8; 32], slot: u64, modulus: u64) -> (r: Option<u64>)
    ensures
        r == draw_of(le_u64_of(digest@), slot, modulus),
        modulus != 0 ==> r is Some,
        r matches Some(i) ==> i < modulus,
{
    if modulus == 0 {
        return None;
    }
    let h = digest_prefix_u64(digest);
    let n: u64 = h.wrapping_sub(HASH_BIAS) / SEED_MODULUS;
    assert((n as u128) * (slot as u128) <= u128::MAX) by (nonlinear_arith)
        requires
            n <= u64::MAX,
            slot <= u64::MAX,
    ;
    let product: u128 = (n as u128) * (slot as u128);
    let seed: u64 = (product % (SEED_MODULUS as u128)) as u64;
    let index: u64 = seed % modulus;
    Some(index)
}

} // verus!
