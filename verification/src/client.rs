//! The client's nonce search.
//!
//! The 128-bit nonce space is split into interleaved residue classes, one
//! per worker: worker `c` of `T` tries `c`, `c + T`, `c + 2T`, and so on.
//! `solve` runs one worker's bounded stretch of that search; the caller
//! spawns one per thread and adopts the first answer.

use vstd::prelude::*;

verus! {

use vstd::arithmetic::mul::lemma_mul_inequality;
use vstd::bytes::u128_to_le_bytes;
use vstd::slice::slice_to_vec;
use crate::hash::MAX_INPUT_LEN;
use crate::hash::digest;
use crate::pow::PoW;

/// Client startup parameters.
#[derive(Debug)]
pub struct Params {
    /// address and port where server is listening
    pub server_addr: String,
    /// number of threads to use to compute hash digest for challenge
    pub threads: u8,
    /// maximum number of request bytes to keep in temporary buffer
    pub memlimit: usize,
    /// quote number to request
    pub quote: Option<usize>,
}

/// Tries the first `attempts` nonces of the residue class `start`,
/// `start + stride`, `start + 2 * stride`, ... against the challenge.
/// Returns the first nonce of the class whose digest meets the target, or
/// nothing if every tried nonce fails.
pub fn solve(challenge: &Vec<u8>, target: u128, start: u128, stride: u128, attempts: u64) -> (r:
    Option<u128>)
    requires
        challenge@.len() + 16 <= MAX_INPUT_LEN,
        stride >= 1,
        attempts >= 1 ==> start + (attempts - 1) * stride <= u128::MAX,
    ensures
        r matches Some(n) ==> PoW::spec_verified(challenge@, target, n) && (exists|j: int|
            0 <= j < attempts && n == start + #[trigger] (j * stride)),
        r is None ==> forall|j: int|
            0 <= j < attempts ==> !PoW::spec_verified(
                challenge@,
                target,
                (start + #[trigger] (j * stride)) as u128,
            ),
{
    let len = challenge.len();
    let mut buf = slice_to_vec(challenge.as_slice());
    let mut j: u64 = 0;
    while j < attempts
        invariant
            j <= attempts,
            buf@ == challenge@,
            len == challenge@.len(),
            challenge@.len() + 16 <= MAX_INPUT_LEN,
            stride >= 1,
            attempts >= 1 ==> start + (attempts - 1) * stride <= u128::MAX,
            forall|t: int|
                0 <= t < j ==> !PoW::spec_verified(
                    challenge@,
                    target,
                    (start + #[trigger] (t * stride)) as u128,
                ),
        decreases attempts - j,
    {
        proof {
            lemma_mul_inequality(j as int, attempts - 1, stride as int);
        }
        let nonce: u128 = start + (j as u128) * stride;
        let mut nb = u128_to_le_bytes(nonce);
        buf.append(&mut nb);
        let d = digest(buf.as_slice());
        buf.truncate(len);
        assert(buf@ =~= challenge@);
        if d <= target {
            return Some(nonce);
        }
        j += 1;
    }
    None
}

} // verus!
