//! The hash function behind the challenges.

use sha2::{Digest, Sha256};
use vstd::prelude::*;

verus! {

/// The SHA-256 digest of `data`.
pub uninterp spec fn sha256(data: Seq<u8>) -> Seq<u8>;

/// Trusted: the SHA-256 digest of `data`, computed by `sha2`'s
/// `Sha256::digest`. The contract claims only that the digest is a function
/// of the bytes hashed; it gives that function the name `sha256`.
#[verifier::external_body]
pub(crate) fn sha256_digest(data: &[u8]) -> (r: Vec<u8>)
    ensures
        r@ == sha256(data@),
{
    Sha256::digest(data).to_vec()
}

} // verus!
