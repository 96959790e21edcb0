//! A context for batch verification of receipts.
//!
//! The backend exposes no reusable verification state yet, so the context
//! carries none and the context-taking operations behave exactly like their
//! plain counterparts.

use crate::errors::ReceiptError;
use crate::receipt::Receipt;
use vstd::prelude::*;

verus! {

/// A (for now stateless) context for verifying several receipts.
pub struct VerifierContext {
    /// Nothing is cached yet.
    pub reserved: (),
}

impl VerifierContext {
    /// A fresh context.
    pub fn new() -> (c: VerifierContext) {
        VerifierContext { reserved: () }
    }

    /// Drop any cached state.  Nothing is cached yet, so this does nothing.
    pub fn clear(&mut self)
        ensures
            *final(self) == *old(self),
    {
    }
}

impl Receipt {
    /// Verify against a trusted image id, sharing a context across calls.
    /// Behaves exactly like [`Receipt::verify`].
    pub fn verify_with_context(&self, image_id: &[u8], _context: &VerifierContext) -> (r: Result<
        (),
        ReceiptError,
    >)
        ensures
            (r is Ok) <==> self.spec_verify_ok(image_id@),
            r matches Err(e) ==> ((e == ReceiptError::InvalidLength) <==> image_id@.len() != 32),
            r matches Err(e) ==> e == ReceiptError::InvalidLength || e
                == ReceiptError::VerificationFailed,
    {
        self.verify(image_id)
    }

    /// Check claim wellformedness, sharing a context across calls.  Behaves
    /// exactly like [`Receipt::verify_integrity`].
    pub fn verify_integrity_with_context(&self, _context: &VerifierContext) -> (r: Result<
        (),
        ReceiptError,
    >)
        ensures
            (r is Ok) <==> (self.claim_info is Some),
            r matches Err(e) ==> e == ReceiptError::IntegrityFailed,
    {
        self.verify_integrity()
    }
}

} // verus!
