//! Host-side proof-composition core for a RISC-V zero-knowledge virtual
//! machine.
//!
//! A zkVM guest program runs inside a prover that emits a cryptographic
//! *receipt*: an opaque seal together with a *claim* naming the program's
//! 32-byte image id, the public *journal* the guest committed, and its exit
//! status.  Guests may in turn rely on other receipts, which a host must
//! discharge when composing proofs.  This crate models the host side of that
//! workflow: the receipt data model, the binary input framing handed to a
//! guest, and the composer state machine that collects assumptions, checks
//! them against the guest's expected verification calls, and prepares a
//! proving request for the backend.
//!
//! The prover backend itself (proof generation and compression) is an
//! external service; this crate prepares its inputs, interprets its outputs,
//! and verifies receipts against trusted image ids.

pub mod backend;
pub mod bytesutil;
pub mod claim;
pub mod codec;
pub mod composer;
pub mod digest;
pub mod errors;
pub mod executor_env;
pub mod hexutil;
pub mod image;
pub mod input_builder;
pub mod merkle;
pub mod receipt;
pub mod strutil;
pub mod verifier_context;

use crate::bytesutil::bytes_eq;
use crate::digest::{sha256_digest, sha256_of};
use crate::errors::CompressError;
use crate::receipt::{Receipt, ReceiptKind};
use crate::strutil::{contains_sub, spec_contains_sub};
use vstd::prelude::*;

verus! {

/// Validate a request to compress a receipt to succinct form.
///
/// A receipt that is already succinct is refused.  A composite receipt that
/// still carries unresolved assumptions needs them supplied, and every
/// supplied assumption must itself be unconditional; everything else may go
/// to the backend.
pub fn compress_request(receipt: &Receipt, assumptions: &Option<Vec<Receipt>>) -> (r: Result<
    (),
    CompressError,
>)
    ensures
        r matches Err(e) ==> (e is AlreadySuccinct <==> receipt.receipt_kind
            == ReceiptKind::Succinct),
        r matches Err(e) ==> (e is UnresolvedAssumptions <==> (receipt.receipt_kind
            == ReceiptKind::Composite && receipt.unresolved > 0 && assumptions is None)),
        r matches Err(e) ==> (e is ConditionalAssumption <==> (receipt.receipt_kind
            == ReceiptKind::Composite && receipt.unresolved > 0 && (
        assumptions matches Some(supplied) && exists|i: int|
            0 <= i < supplied@.len() && (#[trigger] supplied@[i]).receipt_kind
                == ReceiptKind::Composite))),
        (r is Ok) <==> (receipt.receipt_kind != ReceiptKind::Succinct && !(receipt.receipt_kind
            == ReceiptKind::Composite && receipt.unresolved > 0 && (assumptions is None || (
        assumptions matches Some(supplied) && exists|i: int|
            0 <= i < supplied@.len() && (#[trigger] supplied@[i]).receipt_kind
                == ReceiptKind::Composite)))),
{
    if receipt.is_succinct() {
        return Err(CompressError::AlreadySuccinct);
    }
    if receipt.kind() == ReceiptKind::Composite && receipt.assumption_count() > 0 {
        match assumptions {
            None => {
                return Err(CompressError::UnresolvedAssumptions);
            },
            Some(supplied) => {
                let n: usize = supplied.len();
                let mut i: usize = 0;
                while i < n
                    invariant
                        receipt.receipt_kind == ReceiptKind::Composite,
                        receipt.unresolved > 0,
                        (assumptions matches Some(s) && s == *supplied),
                        n == supplied@.len(),
                        i <= n,
                        forall|j: int|
                            0 <= j < i ==> (#[trigger] supplied@[j]).receipt_kind
                                != ReceiptKind::Composite,
                    decreases n - i,
                {
                    if !supplied[i].is_unconditional() {
                        return Err(CompressError::ConditionalAssumption);
                    }
                    i += 1;
                }
            },
        }
    }
    Ok(())
}

/// Classify a backend failure during compression: a message that mentions
/// assumptions means the receipt's assumptions were not resolved; anything
/// else is reported as it stands.
pub fn classify_compress_error(msg: String) -> (e: CompressError)
    ensures
        (e is UnresolvedAssumptions) <==> spec_contains_sub(msg@, "assumption"@),
        e matches CompressError::CompressFailed(m) ==> m == msg,
        (e is UnresolvedAssumptions) || (e is CompressFailed),
{
    if contains_sub(msg.as_str(), "assumption") {
        CompressError::UnresolvedAssumptions
    } else {
        CompressError::CompressFailed(msg)
    }
}

/// Accept what the backend returned for a compression, enforcing
/// unconditional closure: the result is kept only if it is succinct—hence
/// unconditional—and proves the same claim key (image id and journal
/// digest) as the receipt that was compressed.
pub fn accept_compressed(original: &Receipt, outcome: Receipt) -> (r: Result<
    Receipt,
    CompressError,
>)
    requires
        outcome.wf(),
    ensures
        r matches Ok(c) ==> c.receipt_kind == ReceiptKind::Succinct && c.spec_unconditional()
            && c.unresolved == 0 && (original.claim_info matches Some(oci)
            && c.claim_info matches Some(cci) && cci.image_id@ == oci.image_id@) && sha256_of(
            c.journal@,
        ) == sha256_of(original.journal@) && c == outcome,
        (r is Ok) <==> (outcome.receipt_kind == ReceiptKind::Succinct && (
        original.claim_info matches Some(oci) && outcome.claim_info matches Some(cci)
            && cci.image_id@ == oci.image_id@) && sha256_of(outcome.journal@) == sha256_of(
            original.journal@,
        )),
        r matches Err(e) ==> e is CompressFailed,
{
    if outcome.kind() != ReceiptKind::Succinct {
        return Err(
            CompressError::CompressFailed("backend returned a receipt that is not succinct".to_owned()),
        );
    }
    let ids_match: bool = match (&original.claim_info, &outcome.claim_info) {
        (Some(oci), Some(cci)) => bytes_eq(cci.image_id.as_slice(), oci.image_id.as_slice()),
        _ => false,
    };
    if !ids_match {
        return Err(
            CompressError::CompressFailed("compressed receipt names another image id".to_owned()),
        );
    }
    let original_digest = sha256_digest(original.journal.as_slice());
    let outcome_digest = sha256_digest(outcome.journal.as_slice());
    if !bytes_eq(outcome_digest.as_slice(), original_digest.as_slice()) {
        return Err(
            CompressError::CompressFailed("compressed receipt carries another journal".to_owned()),
        );
    }
    Ok(outcome)
}

} // verus!
