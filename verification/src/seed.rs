use vstd::prelude::*;

verus! {

/// The SHA-256 digest of a byte sequence. Stating the compression rounds
/// here would serve nobody; the digest is named and the external hasher is
/// relied on to compute it.
pub uninterp spec fn sha256_of(input: Seq<u8>) -> Seq<u8>;

/// Relies on `anchor_lang::solana_program::hash::hash`: a SHA-256 digest,
/// a function of the input bytes alone, 32 bytes long.
#[verifier::external_body]
fn sha256(input: &Vec<u8>) -> (r: Vec<u8>)
    ensures
        r@ == sha256_of(input@),
        r@.len() == 32,
{
    let digest = anchor_lang::solana_program::hash::hash(input.as_slice());
    digest.to_bytes().to_vec()
}

/// Byte `i` of the little-endian encoding of a 64-bit value.
pub open spec fn le_byte(x: u64, i: int) -> u8 {
    ((x >> (8 * i) as u64) & 0xff) as u8
}

/// The eight little-endian bytes of a 64-bit value.
pub open spec fn le_bytes_of(x: u64) -> Seq<u8> {
    Seq::new(8, |i: int| le_byte(x, i))
}

/// The little-endian encoding of a 64-bit value, lowest byte first.
pub fn u64_le_bytes(x: u64) -> (r: Vec<u8>)
    ensures
        r@ == le_bytes_of(x),
{
    let mut v: Vec<u8> = Vec::new();
    v.push(((x >> 0u64) & 0xff) as u8);
    v.push(((x >> 8u64) & 0xff) as u8);
    v.push(((x >> 16u64) & 0xff) as u8);
    v.push(((x >> 24u64) & 0xff) as u8);
    v.push(((x >> 32u64) & 0xff) as u8);
    v.push(((x >> 40u64) & 0xff) as u8);
    v.push(((x >> 48u64) & 0xff) as u8);
    v.push(((x >> 56u64) & 0xff) as u8);
    proof {
        assert((8 * 0) as u64 == 0u64 && (8 * 1) as u64 == 8u64 && (8 * 2) as u64 == 16u64 && (8
            * 3) as u64 == 24u64 && (8 * 4) as u64 == 32u64 && (8 * 5) as u64 == 40u64 && (8
            * 6) as u64 == 48u64 && (8 * 7) as u64 == 56u64);
        assert(v@ =~= le_bytes_of(x));
    }
    v
}

/// Derives the legacy selection seed: the digest of the platform clock
/// value's little-endian bytes.
///
/// A clock tick is coarse, predictable and producer-influenceable, so this
/// seed must never be the sole randomness source for anything adversarial;
/// the oracle-resolved value is the production seed. This path is kept for
/// the low-stakes draws that predate the commitment protocol.
pub fn derive_clock_seed(timestamp: i64) -> (r: Vec<u8>)
    ensures
        r@ == sha256_of(le_bytes_of(timestamp as u64)),
        r@.len() == 32,
{
    let bytes = u64_le_bytes(timestamp as u64);
    sha256(&bytes)
}

} // verus!
