//! The proof-of-work engine: a challenge of random bytes, a target derived
//! from the difficulty, and the verification of a claimed nonce against
//! the digest engine.

use vstd::prelude::*;

verus! {

use vstd::bytes::spec_u128_to_le_bytes;
use vstd::bytes::u128_to_le_bytes;
use vstd::slice::slice_to_vec;
use crate::hash::MAX_INPUT_LEN;
use crate::hash::digest;
use crate::hash::spec_digest;

/// Difficulty settings: the challenge byte count and the number of leading
/// zero bits the digest must show.
#[derive(Clone, Copy, Debug)]
pub struct PoWConfig {
    pub length: usize,
    pub zeroes: u8,
}

#[verifier::external_type_specification]
#[verifier::external_body]
pub struct ExInstant(std::time::Instant);

/// Relies on `std::time::Instant::now` for the creation timestamp; the
/// value depends on the clock, so nothing is promised of it.
pub assume_specification[ std::time::Instant::now ]() -> std::time::Instant;

/// Relies on `std::time::Instant::elapsed` for observability; the value
/// depends on the clock, so nothing is promised of it.
pub assume_specification[ std::time::Instant::elapsed ](
    i: &std::time::Instant,
) -> core::time::Duration;

/// Relies on `rand::thread_rng` and `rand::RngCore::fill_bytes`: the buffer
/// is filled in place, keeping its length; nothing is promised of the
/// drawn bytes.
#[verifier::external_body]
fn random_bytes(len: usize) -> (r: Vec<u8>)
    ensures
        r@.len() == len,
{
    let mut buf = vec![0u8; len];
    rand::RngCore::fill_bytes(&mut rand::thread_rng(), &mut buf);
    buf
}

/// One puzzle instance: the challenge bytes, the target bound, and the
/// creation time.
pub struct PoW {
    challenge: Vec<u8>,
    target: u128,
    ts: std::time::Instant,
}

impl PoW {
    /// The stored challenge bytes.
    pub closed spec fn challenge_spec(&self) -> Seq<u8> {
        self.challenge@
    }

    /// The stored target.
    pub closed spec fn target_spec(&self) -> u128 {
        self.target
    }

    /// The challenge leaves room for a nonce under the digest input bound.
    pub open spec fn wf(&self) -> bool {
        self.challenge_spec().len() + 16 <= MAX_INPUT_LEN
    }

    /// The target of a difficulty: the all-ones value shifted right by the
    /// zero-bit count, saturating at zero once the difficulty reaches 128.
    pub open spec fn spec_target(zeroes: u8) -> u128 {
        if zeroes >= 128 {
            0
        } else {
            u128::MAX >> (zeroes as u128)
        }
    }

    /// Whether a nonce answers a challenge: the digest of the challenge
    /// bytes followed by the nonce's little-endian bytes is at most the
    /// target.
    pub open spec fn spec_verified(challenge: Seq<u8>, target: u128, nonce: u128) -> bool {
        spec_digest(challenge + spec_u128_to_le_bytes(nonce)) <= target
    }

    /// Draws a fresh challenge of `length` random bytes and fixes the
    /// target for the configured difficulty.
    pub fn new(conf: &PoWConfig) -> (p: PoW)
        requires
            conf.length + 16 <= MAX_INPUT_LEN,
        ensures
            p.wf(),
            p.challenge_spec().len() == conf.length,
            p.target_spec() == PoW::spec_target(conf.zeroes),
    {
        let challenge = random_bytes(conf.length);
        let target: u128 = if conf.zeroes >= 128 {
            0
        } else {
            u128::MAX >> (conf.zeroes as u128)
        };
        let ts = std::time::Instant::now();
        PoW { challenge, target, ts }
    }

    /// A copy of the challenge string, for sending to the client.
    pub fn challenge(&self) -> (r: Vec<u8>)
        ensures
            r@ == self.challenge_spec(),
    {
        slice_to_vec(self.challenge.as_slice())
    }

    /// The target, for sending to the client.
    pub fn target(&self) -> (r: u128)
        ensures
            r == self.target_spec(),
    {
        self.target
    }

    /// Time since this puzzle was created, for observability; the value
    /// depends on the clock.
    pub fn elapsed(&self) -> core::time::Duration {
        self.ts.elapsed()
    }

    /// Checks a claimed nonce.  The stored challenge is read, never
    /// changed: verification is idempotent and repeatable.
    pub fn verify(&self, nonce: u128) -> (ok: bool)
        requires
            self.wf(),
        ensures
            ok == PoW::spec_verified(self.challenge_spec(), self.target_spec(), nonce),
    {
        let mut buf = slice_to_vec(self.challenge.as_slice());
        let mut nb = u128_to_le_bytes(nonce);
        buf.append(&mut nb);
        let d = digest(buf.as_slice());
        d <= self.target
    }
}

/// Target monotonicity: a higher difficulty never raises the target, and
/// difficulty zero admits every digest value.
pub proof fn lemma_target_monotonic(z1: u8, z2: u8)
    requires
        z1 < z2,
    ensures
        PoW::spec_target(z1) >= PoW::spec_target(z2),
        PoW::spec_target(0) == u128::MAX,
{
    assert(u128::MAX >> (0u8 as u128) == u128::MAX) by (bit_vector);
    if z2 < 128 {
        assert(u128::MAX >> (z1 as u128) >= u128::MAX >> (z2 as u128)) by (bit_vector)
            requires
                z1 < z2,
                z2 < 128,
        ;
    }
}

/// Zero-difficulty liveness: under difficulty zero every nonce answers
/// every challenge, so the first attempt always succeeds.
pub proof fn lemma_zero_difficulty(challenge: Seq<u8>, nonce: u128)
    ensures
        PoW::spec_verified(challenge, PoW::spec_target(0), nonce),
{
    assert(u128::MAX >> (0u8 as u128) == u128::MAX) by (bit_vector);
}

} // verus!
