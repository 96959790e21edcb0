//! The receipt model: an opaque seal together with the claim it attests to,
//! classified by kind, and the verification surface over it.

use crate::backend::{backend_seal_check, seal_verifies};
use crate::bytesutil::{bytes_eq, clone_bytes, utf8_to_string};
use crate::claim::Claim;
use crate::digest::sha256_of;
use crate::errors::ReceiptError;
use crate::hexutil::{hex_encode, hex_str_of, parse_image_id_hex, spec_parse_image_id_hex};
use vstd::prelude::*;

verus! {

/// The kind of proof a receipt carries.  The same enum selects the proof
/// mode when proving; `Fake` is representable (test fixtures) but rejected
/// at the prove boundary.
#[derive(Clone, Copy, PartialEq, Eq, Structural, Debug)]
pub enum ReceiptKind {
    /// The default proof form; may carry unresolved assumptions.
    Composite,
    /// A compressed proof with every assumption resolved.
    Succinct,
    /// A final proof for on-chain verification; unconditional.
    Groth16,
    /// A test-only receipt with no cryptographic value.
    Fake,
}

/// How a guest execution ended.
#[derive(Clone, Copy, PartialEq, Eq, Structural, Debug)]
pub enum ExitKind {
    /// The guest terminated normally.
    Halted,
    /// The guest voluntarily suspended.
    Paused,
    /// A segment boundary was reached.
    SystemSplit,
    /// The execution budget was exhausted.
    SessionLimit,
    /// An exit this core does not recognise.
    Unknown,
}

/// Structured exit status: the kind of exit, with the guest's user code
/// where one exists.
#[derive(Clone, Copy, Debug)]
pub struct ExitStatus {
    /// The kind of exit.
    pub kind: ExitKind,
    /// The guest's own exit code, present for `Halted` and `Paused`.
    pub user_code: Option<u32>,
}

impl ExitStatus {
    /// The canonical success predicate: halted with user code zero.
    pub open spec fn spec_ok(&self) -> bool {
        self.kind == ExitKind::Halted && self.user_code == Some(0u32)
    }

    /// The exit code as the claim records it: the user code, or the largest
    /// `u32` where none exists.
    pub open spec fn spec_code(&self) -> u32 {
        match self.user_code {
            Some(c) => c,
            None => u32::MAX,
        }
    }

    /// Returns true exactly when the guest halted with user code zero.
    pub fn ok(&self) -> (r: bool)
        ensures
            r == self.spec_ok(),
    {
        if self.kind == ExitKind::Halted {
            match self.user_code {
                Some(c) => c == 0,
                None => false,
            }
        } else {
            false
        }
    }
}

/// The readable part of a receipt's claim: the claimed image id and the exit
/// status.  Absent on a pruned (seal-only) receipt.
#[derive(Clone)]
pub struct ClaimInfo {
    /// The image id the receipt claims (32 bytes, untrusted).
    pub image_id: Vec<u8>,
    /// The exit status the receipt claims.
    pub exit: ExitStatus,
}

/// The ghost value of a [`ClaimInfo`].
#[verifier::ext_equal]
pub struct ClaimInfoView {
    pub image_id: Seq<u8>,
    pub exit: ExitStatus,
}

impl View for ClaimInfo {
    type V = ClaimInfoView;

    open spec fn view(&self) -> ClaimInfoView {
        ClaimInfoView { image_id: self.image_id@, exit: self.exit }
    }
}

/// A receipt: an opaque seal produced by the prover backend, the journal the
/// guest committed, the readable claim data, the receipt kind, and the
/// number of unresolved assumptions a composite receipt still carries.
///
/// A receipt is an immutable value: once constructed it is only read.
#[derive(Clone)]
pub struct Receipt {
    /// The backend's serialized proof material.  Its layout belongs to the
    /// backend; this core never interprets it.
    pub seal: Vec<u8>,
    /// The journal committed by the guest.
    pub journal: Vec<u8>,
    /// The readable claim data, absent when the claim is pruned.
    pub claim_info: Option<ClaimInfo>,
    /// The kind of proof the seal carries.
    pub receipt_kind: ReceiptKind,
    /// Unresolved assumptions of a composite receipt; zero otherwise.
    pub unresolved: usize,
}

/// The ghost value of a [`Receipt`].
#[verifier::ext_equal]
pub struct ReceiptView {
    pub seal: Seq<u8>,
    pub journal: Seq<u8>,
    pub claim_info: Option<ClaimInfoView>,
    pub receipt_kind: ReceiptKind,
    pub unresolved: nat,
}

impl View for Receipt {
    type V = ReceiptView;

    open spec fn view(&self) -> ReceiptView {
        ReceiptView {
            seal: self.seal@,
            journal: self.journal@,
            claim_info: match self.claim_info {
                Some(ci) => Some(ci@),
                None => None,
            },
            receipt_kind: self.receipt_kind,
            unresolved: self.unresolved as nat,
        }
    }
}

impl ReceiptView {
    /// The receipt invariant, on the ghost value.
    pub open spec fn wf(&self) -> bool {
        &&& (self.claim_info matches Some(ci) ==> ci.image_id.len() == 32)
        &&& (self.receipt_kind != ReceiptKind::Composite ==> self.unresolved == 0)
        &&& self.unresolved <= usize::MAX
    }
}

impl Receipt {
    /// The receipt invariant: a 32-byte claimed image id where the claim is
    /// readable, and no unresolved assumptions outside composite receipts.
    pub open spec fn wf(&self) -> bool {
        self@.wf()
    }

    /// Is this receipt unconditional (free of unresolved assumptions)?
    /// Succinct, Groth16 and fake receipts are; composite receipts are not.
    pub open spec fn spec_unconditional(&self) -> bool {
        self.receipt_kind != ReceiptKind::Composite
    }

    /// Wrap the plain data the prover backend reports for a receipt.
    ///
    /// Rejects a readable claim whose image id is not 32 bytes.  A receipt
    /// that is not composite carries no unresolved assumptions, whatever the
    /// backend said.
    pub fn from_risc0(
        seal: Vec<u8>,
        journal: Vec<u8>,
        claim_info: Option<ClaimInfo>,
        kind: ReceiptKind,
        unresolved: usize,
    ) -> (r: Result<Receipt, ReceiptError>)
        ensures
            (r is Ok) <==> (claim_info matches Some(ci) ==> ci.image_id@.len() == 32),
            r matches Ok(rec) ==> rec.wf() && rec.seal@ == seal@ && rec.journal@ == journal@
                && rec@.claim_info == (match claim_info {
                Some(ci) => Some(ci@),
                None => None::<ClaimInfoView>,
            }) && rec.receipt_kind == kind && rec.unresolved == (if kind == ReceiptKind::Composite {
                unresolved as int
            } else {
                0
            }),
            r matches Err(e) ==> e == ReceiptError::InvalidLength,
    {
        match &claim_info {
            Some(ci) => {
                if ci.image_id.len() != 32 {
                    return Err(ReceiptError::InvalidLength);
                }
            },
            None => {},
        }
        let unresolved: usize = if kind == ReceiptKind::Composite {
            unresolved
        } else {
            0
        };
        Ok(Receipt { seal, journal, claim_info, receipt_kind: kind, unresolved })
    }

    /// A copy of this receipt with the same ghost value.
    pub fn duplicate(&self) -> (r: Receipt)
        ensures
            r@ == self@,
    {
        let claim_info = match &self.claim_info {
            None => None,
            Some(ci) => Some(ClaimInfo { image_id: clone_bytes(&ci.image_id), exit: ci.exit }),
        };
        let r = Receipt {
            seal: clone_bytes(&self.seal),
            journal: clone_bytes(&self.journal),
            claim_info,
            receipt_kind: self.receipt_kind,
            unresolved: self.unresolved,
        };
        assert(r@ =~~= self@);
        r
    }

    /// The raw journal bytes as the guest committed them.
    pub fn journal_bytes(&self) -> (out: Vec<u8>)
        ensures
            out@ == self.journal@,
    {
        clone_bytes(&self.journal)
    }

    /// The journal as lowercase hex.
    pub fn journal_hex(&self) -> (s: String)
        ensures
            s@ == hex_str_of(self.journal@),
    {
        hex_encode(self.journal.as_slice())
    }

    /// The journal decoded as UTF-8, where it is valid UTF-8.
    pub fn journal_text(&self) -> (r: Option<String>)
        ensures
            (r is Some) <==> vstd::utf8::valid_utf8(self.journal@),
            r matches Some(s) ==> s@ == vstd::utf8::decode_utf8(self.journal@),
    {
        utf8_to_string(&self.journal)
    }

    /// The length of the journal in bytes.
    pub fn journal_len(&self) -> (n: usize)
        ensures
            n == self.journal@.len(),
    {
        self.journal.len()
    }

    /// The raw journal bytes (synonym kept for callers of the older name).
    pub fn journal(&self) -> (out: Vec<u8>)
        ensures
            out@ == self.journal@,
    {
        self.journal_bytes()
    }

    /// The claim this receipt proves, with the journal digest computed from
    /// the journal: every claim handed out carries the SHA-256 of its own
    /// journal.  Fails on a pruned receipt.
    pub fn claim(&self) -> (r: Result<Claim, ReceiptError>)
        requires
            self.wf(),
        ensures
            (r is Ok) <==> (self.claim_info is Some),
            r matches Ok(c) ==> self.claim_info matches Some(ci) && c.wf() && c.image_id@
                == ci.image_id@ && c.journal@ == self.journal@ && c.exit_code
                == ci.exit.spec_code(),
            r matches Ok(c) ==> c.journal_digest@ == sha256_of(c.journal@),
            r matches Err(e) ==> e == ReceiptError::ClaimPruned,
    {
        match &self.claim_info {
            None => Err(ReceiptError::ClaimPruned),
            Some(ci) => {
                let exit_code = match ci.exit.user_code {
                    Some(c) => c,
                    None => u32::MAX,
                };
                match Claim::new(clone_bytes(&ci.image_id), clone_bytes(&self.journal), exit_code) {
                    Ok(c) => Ok(c),
                    Err(_) => Err(ReceiptError::ClaimPruned),
                }
            },
        }
    }

    /// The structured exit status.  Fails on a pruned receipt.
    pub fn exit(&self) -> (r: Result<ExitStatus, ReceiptError>)
        ensures
            (r is Ok) <==> (self.claim_info is Some),
            r matches Ok(e) ==> self.claim_info matches Some(ci) && e == ci.exit,
            r matches Err(e) ==> e == ReceiptError::ClaimPruned,
    {
        match &self.claim_info {
            None => Err(ReceiptError::ClaimPruned),
            Some(ci) => Ok(ci.exit),
        }
    }

    /// The raw exit code: the user code, or the largest `u32` where none
    /// exists.  Fails on a pruned receipt.
    pub fn exit_code(&self) -> (r: Result<u32, ReceiptError>)
        ensures
            (r is Ok) <==> (self.claim_info is Some),
            r matches Ok(c) ==> self.claim_info matches Some(ci) && c == ci.exit.spec_code(),
            r matches Err(e) ==> e == ReceiptError::ClaimPruned,
    {
        match self.exit() {
            Err(e) => Err(e),
            Ok(status) => Ok(
                match status.user_code {
                    Some(c) => c,
                    None => u32::MAX,
                },
            ),
        }
    }

    /// The image id this receipt claims, as hex.  Untrusted: anyone can
    /// craft a receipt claiming any id; never drive a trust decision with
    /// it.  Fails on a pruned receipt.
    pub fn claimed_image_id_hex(&self) -> (r: Result<String, ReceiptError>)
        ensures
            (r is Ok) <==> (self.claim_info is Some),
            r matches Ok(s) ==> self.claim_info matches Some(ci) && s@ == hex_str_of(ci.image_id@),
            r matches Err(e) ==> e == ReceiptError::ClaimPruned,
    {
        match &self.claim_info {
            None => Err(ReceiptError::ClaimPruned),
            Some(ci) => Ok(hex_encode(ci.image_id.as_slice())),
        }
    }

    /// The image id this receipt claims, as bytes.  Untrusted; see
    /// [`Receipt::claimed_image_id_hex`].  Fails on a pruned receipt.
    pub fn claimed_image_id_bytes(&self) -> (r: Result<Vec<u8>, ReceiptError>)
        ensures
            (r is Ok) <==> (self.claim_info is Some),
            r matches Ok(v) ==> self.claim_info matches Some(ci) && v@ == ci.image_id@,
            r matches Err(e) ==> e == ReceiptError::ClaimPruned,
    {
        match &self.claim_info {
            None => Err(ReceiptError::ClaimPruned),
            Some(ci) => Ok(clone_bytes(&ci.image_id)),
        }
    }

    /// The claimed image id (synonym kept for callers of the older name;
    /// equally untrusted).
    pub fn program_id(&self) -> (r: Result<Vec<u8>, ReceiptError>)
        ensures
            (r is Ok) <==> (self.claim_info is Some),
            r matches Ok(v) ==> self.claim_info matches Some(ci) && v@ == ci.image_id@,
            r matches Err(e) ==> e == ReceiptError::ClaimPruned,
    {
        self.claimed_image_id_bytes()
    }

    /// The size of the seal in bytes.
    pub fn seal_size(&self) -> (n: usize)
        ensures
            n == self.seal@.len(),
    {
        self.seal.len()
    }

    /// The kind of proof this receipt carries.
    pub fn kind(&self) -> (k: ReceiptKind)
        ensures
            k == self.receipt_kind,
    {
        self.receipt_kind
    }

    /// Whether every assumption is resolved: true for succinct, Groth16 and
    /// fake receipts, false for composite ones.
    pub fn is_unconditional(&self) -> (r: bool)
        ensures
            r == self.spec_unconditional(),
    {
        self.receipt_kind != ReceiptKind::Composite
    }

    /// Whether this is a succinct receipt.
    pub fn is_succinct(&self) -> (r: bool)
        ensures
            r == (self.receipt_kind == ReceiptKind::Succinct),
    {
        self.receipt_kind == ReceiptKind::Succinct
    }

    /// The number of unresolved assumptions: zero for every receipt that is
    /// not composite.
    pub fn assumption_count(&self) -> (n: usize)
        ensures
            n == self.unresolved,
    {
        self.unresolved
    }

    /// Does the claimed image id match the expected one, byte for byte?
    ///
    /// A safety check before composition, not a verification: the claimed id
    /// is untrusted data.  Rejects an expected id that is not 32 bytes and
    /// fails on a pruned receipt.
    pub fn matches_image_id(&self, expected_image_id: Vec<u8>) -> (r: Result<bool, ReceiptError>)
        ensures
            (r is Ok) <==> expected_image_id@.len() == 32 && (self.claim_info is Some),
            r matches Ok(b) ==> self.claim_info matches Some(ci) && b == (ci.image_id@
                == expected_image_id@),
            r matches Err(e) ==> ((e == ReceiptError::InvalidLength) <==> expected_image_id@.len()
                != 32) && ((e == ReceiptError::ClaimPruned) <==> (expected_image_id@.len() == 32
                && self.claim_info is None)),
    {
        if expected_image_id.len() != 32 {
            return Err(ReceiptError::InvalidLength);
        }
        match &self.claim_info {
            None => Err(ReceiptError::ClaimPruned),
            Some(ci) => Ok(bytes_eq(ci.image_id.as_slice(), expected_image_id.as_slice())),
        }
    }

    /// Whether full verification of this receipt against a trusted 32-byte
    /// image id succeeds: the claim must be readable, the claimed id must
    /// equal the trusted one, the exit must be a success, and the backend
    /// must accept the seal for that id.
    pub open spec fn spec_verify_ok(&self, image_id: Seq<u8>) -> bool {
        &&& image_id.len() == 32
        &&& self.claim_info matches Some(ci) && ci.image_id@ == image_id
        &&& self.claim_info matches Some(ci) && ci.exit.spec_ok()
        &&& seal_verifies(self.seal@, image_id)
    }

    /// Verify this receipt against a trusted image id given as raw bytes.
    ///
    /// Succeeds exactly when the id is 32 bytes, the claimed id equals it,
    /// the guest exited successfully, and the seal verifies for that id.
    /// The caller must supply an id obtained out of band; an id read from a
    /// receipt proves nothing.
    pub fn verify(&self, image_id: &[u8]) -> (r: Result<(), ReceiptError>)
        ensures
            (r is Ok) <==> self.spec_verify_ok(image_id@),
            r matches Err(e) ==> ((e == ReceiptError::InvalidLength) <==> image_id@.len() != 32),
            r matches Err(e) ==> e == ReceiptError::InvalidLength || e
                == ReceiptError::VerificationFailed,
    {
        if image_id.len() != 32 {
            return Err(ReceiptError::InvalidLength);
        }
        match &self.claim_info {
            None => Err(ReceiptError::VerificationFailed),
            Some(ci) => {
                if !bytes_eq(ci.image_id.as_slice(), image_id) {
                    return Err(ReceiptError::VerificationFailed);
                }
                if !ci.exit.ok() {
                    return Err(ReceiptError::VerificationFailed);
                }
                if !backend_seal_check(self.seal.as_slice(), image_id) {
                    return Err(ReceiptError::VerificationFailed);
                }
                Ok(())
            },
        }
    }

    /// Verify against a trusted image id handed over as a byte vector.
    pub fn verify_bytes(&self, image_id: Vec<u8>) -> (r: Result<(), ReceiptError>)
        ensures
            (r is Ok) <==> self.spec_verify_ok(image_id@),
            r matches Err(e) ==> ((e == ReceiptError::InvalidLength) <==> image_id@.len() != 32),
            r matches Err(e) ==> e == ReceiptError::InvalidLength || e
                == ReceiptError::VerificationFailed,
    {
        self.verify(image_id.as_slice())
    }

    /// Verify against a trusted image id written as hex text, with an
    /// optional `0x`/`0X` prefix.
    pub fn verify_hex(&self, image_id_hex: &str) -> (r: Result<(), ReceiptError>)
        ensures
            (r is Ok) <==> (spec_parse_image_id_hex(image_id_hex@) matches Some(id)
                && self.spec_verify_ok(id)),
            r matches Err(e) ==> ((e == ReceiptError::InvalidHex)
                <==> !crate::hexutil::is_hex_string(
                crate::hexutil::strip_hex_prefix(image_id_hex@),
            )),
            r matches Err(e) ==> ((e == ReceiptError::InvalidLength)
                <==> crate::hexutil::is_hex_string(crate::hexutil::strip_hex_prefix(image_id_hex@))
                && crate::hexutil::strip_hex_prefix(image_id_hex@).len() != 64),
            r matches Err(e) ==> ((e == ReceiptError::VerificationFailed) <==> (
            spec_parse_image_id_hex(image_id_hex@) matches Some(id) && !self.spec_verify_ok(id))),
    {
        match parse_image_id_hex(image_id_hex) {
            Err(e) => Err(e),
            Ok(id) => {
                let r = self.verify(id.as_slice());
                proof {
                    if r is Err {
                        let e = r->Err_0;
                        assert(e != ReceiptError::InvalidLength);
                    }
                }
                r
            },
        }
    }

    /// Verify against a trusted image id (synonym kept for callers of the
    /// older name).
    pub fn verify_with_image_id(&self, image_id: &[u8]) -> (r: Result<(), ReceiptError>)
        ensures
            (r is Ok) <==> self.spec_verify_ok(image_id@),
            r matches Err(e) ==> ((e == ReceiptError::InvalidLength) <==> image_id@.len() != 32),
            r matches Err(e) ==> e == ReceiptError::InvalidLength || e
                == ReceiptError::VerificationFailed,
    {
        self.verify(image_id)
    }

    /// Check the structural wellformedness of the claim, without enforcing
    /// an image id or a successful exit.
    ///
    /// The backend exposes no integrity-only check over the seal, so this
    /// validates only that the claim value is readable; it is useful for
    /// inspecting failed or foreign executions.
    pub fn verify_integrity(&self) -> (r: Result<(), ReceiptError>)
        ensures
            (r is Ok) <==> (self.claim_info is Some),
            r matches Err(e) ==> e == ReceiptError::IntegrityFailed,
    {
        match &self.claim_info {
            None => Err(ReceiptError::IntegrityFailed),
            Some(_) => Ok(()),
        }
    }
}

} // verus!
