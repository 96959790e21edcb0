//! The claim a receipt proves: which program ran, what it committed, and how
//! it exited.

use crate::digest::{sha256_digest, sha256_of};
use crate::errors::ReceiptError;
use crate::hexutil::{hex_encode, hex_str_of};
use vstd::prelude::*;

verus! {

/// What a receipt attests to: a program identified by a 32-byte image id ran,
/// committed `journal`, and exited with `exit_code`.
///
/// The pair `(image_id, journal_digest)` is the claim key used for
/// deduplication and preflight matching.
#[derive(Clone)]
pub struct Claim {
    /// The 32-byte image id of the program that was executed.
    pub image_id: Vec<u8>,
    /// The raw journal bytes committed during execution.
    pub journal: Vec<u8>,
    /// The SHA-256 digest of the journal (32 bytes).
    pub journal_digest: Vec<u8>,
    /// The exit code of the execution; zero means success.
    pub exit_code: u32,
}

impl Claim {
    /// The claim invariant: a 32-byte image id, and a journal digest that is
    /// the SHA-256 of the journal.
    pub open spec fn wf(&self) -> bool {
        &&& self.image_id@.len() == 32
        &&& self.journal_digest@ == sha256_of(self.journal@)
        &&& self.journal_digest@.len() == 32
    }

    /// Build a claim from its parts, computing the journal digest.
    ///
    /// Rejects an image id that is not exactly 32 bytes.
    pub fn new(image_id: Vec<u8>, journal: Vec<u8>, exit_code: u32) -> (r: Result<
        Claim,
        ReceiptError,
    >)
        ensures
            (r is Ok) <==> image_id@.len() == 32,
            r matches Ok(c) ==> c.wf() && c.image_id@ == image_id@ && c.journal@ == journal@
                && c.exit_code == exit_code,
            r matches Err(e) ==> e == ReceiptError::InvalidLength,
    {
        if image_id.len() != 32 {
            return Err(ReceiptError::InvalidLength);
        }
        let journal_digest = sha256_digest(journal.as_slice());
        Ok(Claim { image_id, journal, journal_digest, exit_code })
    }

    /// The image id as lowercase hex.
    pub fn image_id_hex(&self) -> (s: String)
        ensures
            s@ == hex_str_of(self.image_id@),
    {
        hex_encode(self.image_id.as_slice())
    }

    /// The journal digest as lowercase hex.
    pub fn journal_digest_hex(&self) -> (s: String)
        ensures
            s@ == hex_str_of(self.journal_digest@),
    {
        hex_encode(self.journal_digest.as_slice())
    }

    /// Do the image id and journal both match the given values byte for
    /// byte?
    pub fn matches(&self, image_id: Vec<u8>, journal: Vec<u8>) -> (r: bool)
        ensures
            r == (self.image_id@ == image_id@ && self.journal@ == journal@),
    {
        crate::bytesutil::bytes_eq(self.image_id.as_slice(), image_id.as_slice())
            && crate::bytesutil::bytes_eq(self.journal.as_slice(), journal.as_slice())
    }

    /// Did the execution succeed (exit code zero)?
    pub fn is_success(&self) -> (r: bool)
        ensures
            r == (self.exit_code == 0),
    {
        self.exit_code == 0
    }
}

} // verus!
