//! SHA-256 as the Soroban host computes it.
use vstd::prelude::*;

verus! {

/// The Soroban environment, which carries the host that hashes.
#[verifier::external_type_specification]
#[verifier::external_body]
pub struct ExEnv(soroban_sdk::Env);

/// The SHA-256 digest of `data`, as `soroban_sdk::crypto::Crypto::sha256`
/// computes it.
pub uninterp spec fn sha256_digest(data: Seq<u8>) -> Seq<u8>;

/// Calls `soroban_sdk::crypto::Crypto::sha256` on a copy of `data`.
/// Trusted: the digest is the named function of the input bytes, and it has
/// the 32 bytes of the returned `Hash<32>`.
#[verifier::external_body]
pub(crate) fn sha256(env: &soroban_sdk::Env, data: &Vec<u8>) -> (digest: Vec<u8>)
    ensures
        digest@ == sha256_digest(data@),
        digest@.len() == 32,
{
    let bytes = soroban_sdk::Bytes::from_slice(env, data.as_slice());
    env.crypto().sha256(&bytes).to_array().to_vec()
}

} // verus!
