//! The trusted boundary to the prover backend's verifier.
//!
//! A receipt's seal is the backend's own serialized proof material; this
//! crate never interprets it.  The one question the core asks of it—does this
//! seal cryptographically attest to this image id?—is answered here.

use vstd::prelude::*;

verus! {

/// Whether the backend accepts `seal` as a valid proof for the program with
/// the given 32-byte image id: the seal deserializes to a backend receipt
/// that verifies against that id (seal integrity, claim consistency, image id
/// match and successful exit).
///
/// The outcome is left abstract: it is a fixed function of the seal bytes and
/// the image id.
pub uninterp spec fn seal_verifies(seal: Seq<u8>, image_id: Seq<u8>) -> bool;

/// Relies on `bincode::deserialize` to reconstruct the backend receipt from
/// the seal bytes, and on `risc0_zkvm::Receipt::verify_with_context` with a
/// default verifier context and dev mode disabled, so that the outcome is a
/// function of the seal bytes and the image id alone.
#[verifier::external_body]
pub(crate) fn backend_seal_check(seal: &[u8], image_id: &[u8]) -> (r: bool)
    requires
        image_id@.len() == 32,
    ensures
        r == seal_verifies(seal@, image_id@),
{
    let receipt: risc0_zkvm::Receipt = match bincode::deserialize(seal) {
        Ok(receipt) => receipt,
        Err(_) => return false,
    };
    let mut id = [0u8; 32];
    id.copy_from_slice(image_id);
    let ctx = risc0_zkvm::VerifierContext::default().with_dev_mode(false);
    receipt.verify_with_context(&ctx, risc0_zkvm::sha::Digest::from_bytes(id)).is_ok()
}

} // verus!
