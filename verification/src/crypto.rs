//! The host's hash function.

use soroban_sdk::{Bytes, Env};
use vstd::prelude::*;

verus! {

/// The SHA-256 hash of `data`, as the host computes it.
pub uninterp spec fn sha256_digest(data: Seq<u8>) -> Seq<u8>;

/// The longest data that is hashed here, in bytes.
pub const HASH_INPUT_LIMIT: usize = 256;

/// Hashes `data` with `soroban_sdk::crypto::Crypto::sha256`, on a host of its
/// own. Taken on trust: the hash depends on the bytes of `data` alone. The host
/// meters the work and traps where its budget is spent; the limit on the length
/// stays far below that.
#[verifier::external_body]
pub(crate) fn sha256(data: &Vec<u8>) -> (digest: [u8; 32])
    requires
        data@.len() <= HASH_INPUT_LIMIT,
    ensures
        digest@ == sha256_digest(data@),
{
    let env = Env::default();
    env.crypto().sha256(&Bytes::from_slice(&env, data.as_slice())).to_array()
}

} // verus!
