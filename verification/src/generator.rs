//! Reproducible byte-payload generation.
//!
//! Key payloads are a pure function of a logical index: the index seeds a
//! small PRNG whose stream fills the key bytes, so one index always maps to
//! one fixed key, no matter when or where it is derived. Value payloads come
//! from a per-generator stream that is deliberately not reseeded between
//! calls, so successive values are independent.

use vstd::prelude::*;
use rand::RngCore;
use rand::SeedableRng;
use rand::Rng;

verus! {

#[verifier::external_type_specification]
#[verifier::external_body]
pub struct ExSmallRng(rand::rngs::SmallRng);

/// The byte sequence of length `len` that a small PRNG seeded with `seed`
/// produces as its first output. A pure function of `seed` and `len`.
pub uninterp spec fn seeded_bytes(seed: u64, len: nat) -> Seq<u8>;

/// The byte sequence of length `len` that the same seeded PRNG produces
/// right after having filled `skip` bytes. A pure function of its arguments.
pub uninterp spec fn seeded_tail_bytes(seed: u64, skip: nat, len: nat) -> Seq<u8>;

/// Relies on rand's `SmallRng::seed_from_u64` and `RngCore::fill_bytes`:
/// seeding is deterministic in the seed, and filling is deterministic in the
/// generator state, so the bytes are a pure function of `seed` and `len`.
#[verifier::external_body]
fn seeded_fill(seed: u64, len: usize) -> (r: Vec<u8>)
    ensures
        r@ == seeded_bytes(seed, len as nat),
        r@.len() == len,
{
    let mut buf = vec![0u8; len];
    rand::rngs::SmallRng::seed_from_u64(seed).fill_bytes(&mut buf);
    buf
}

/// Relies on the same rand items as `seeded_fill`: one seeded generator
/// fills the first buffer and then the second, so both are pure functions
/// of the seed and the two lengths, and the first fill equals a lone fill.
#[verifier::external_body]
fn seeded_fill_pair(seed: u64, klen: usize, vlen: usize) -> (r: (Vec<u8>, Vec<u8>))
    ensures
        r.0@ == seeded_bytes(seed, klen as nat),
        r.0@.len() == klen,
        r.1@ == seeded_tail_bytes(seed, klen as nat, vlen as nat),
        r.1@.len() == vlen,
{
    let mut rng = rand::rngs::SmallRng::seed_from_u64(seed);
    let mut k = vec![0u8; klen];
    rng.fill_bytes(&mut k);
    let mut v = vec![0u8; vlen];
    rng.fill_bytes(&mut v);
    (k, v)
}

/// Relies on rand's `SmallRng::seed_from_u64`.
#[verifier::external_body]
pub(crate) fn rng_from_seed(seed: u64) -> rand::rngs::SmallRng {
    rand::rngs::SmallRng::seed_from_u64(seed)
}

/// Relies on rand's `Rng::random_range`: for a non-empty range `0..bound`
/// it returns a value inside the range and does not panic.
#[verifier::external_body]
pub(crate) fn random_below(rng: &mut rand::rngs::SmallRng, bound: u64) -> (r: u64)
    requires
        bound >= 1,
    ensures
        r < bound,
{
    rng.random_range(0..bound)
}

/// Relies on rand's `RngCore::fill_bytes`: it fills exactly `len` bytes.
#[verifier::external_body]
fn fill_from(rng: &mut rand::rngs::SmallRng, len: usize) -> (r: Vec<u8>)
    ensures
        r@.len() == len,
{
    let mut buf = vec![0u8; len];
    rng.fill_bytes(&mut buf);
    buf
}

/// Byte-payload generator. Key bytes are derived statelessly from a logical
/// key index; value bytes advance this generator's own stream.
pub struct ByteGen {
    rng: rand::rngs::SmallRng,
}

impl ByteGen {
    /// A generator whose value-byte stream starts from `seed`.
    pub fn new(seed: u64) -> ByteGen {
        ByteGen { rng: rng_from_seed(seed) }
    }

    /// The fixed key payload of logical key index `idx`: `size` bytes of the
    /// stream seeded with `idx`. Deterministic: the result is pinned to a
    /// function of `idx` and `size` alone.
    pub fn get_key_bytes(idx: u64, size: usize) -> (r: Vec<u8>)
        ensures
            r@ == seeded_bytes(idx, size as nat),
            r@.len() == size,
    {
        seeded_fill(idx, size)
    }

    /// The key and value payload written for load index `i`: the key is the
    /// fixed key of index `i`, the value continues the same seeded stream.
    pub fn get_load_pair(i: u64, key_size: usize, value_size: usize) -> (r: (Vec<u8>, Vec<u8>))
        ensures
            r.0@ == seeded_bytes(i, key_size as nat),
            r.0@.len() == key_size,
            r.1@ == seeded_tail_bytes(i, key_size as nat, value_size as nat),
            r.1@.len() == value_size,
    {
        seeded_fill_pair(i, key_size, value_size)
    }

    /// `size` fresh value bytes from this generator's own stream. Not
    /// reseeded: successive calls continue the stream.
    pub fn get_value_bytes(&mut self, size: usize) -> (r: Vec<u8>)
        ensures
            r@.len() == size,
    {
        fill_from(&mut self.rng, size)
    }
}

/// Two key payloads derived for the same index and size are identical,
/// whenever each was derived and on whatever thread.
pub proof fn lemma_key_bytes_deterministic(idx: u64, size: usize, a: Seq<u8>, b: Seq<u8>)
    requires
        a == seeded_bytes(idx, size as nat),
        b == seeded_bytes(idx, size as nat),
    ensures
        a == b,
{
}

} // verus!
