//! SHA-256 digests of journals and expectation keys.

use sha2::Digest;
use vstd::prelude::*;

verus! {

/// The SHA-256 digest of a byte sequence.
///
/// The digest itself is left abstract: nothing in this crate states what its
/// bytes are on a given input, only that equal inputs give equal digests.
pub uninterp spec fn sha256_of(bytes: Seq<u8>) -> Seq<u8>;

/// Relies on `sha2::Sha256` (through the `sha2::Digest` trait): the digest is
/// a function of the input bytes alone, and is always 32 bytes long.
#[verifier::external_body]
pub(crate) fn sha256_digest(bytes: &[u8]) -> (digest: Vec<u8>)
    ensures
        digest@ == sha256_of(bytes@),
        digest@.len() == 32,
{
    sha2::Sha256::digest(bytes).to_vec()
}

} // verus!
