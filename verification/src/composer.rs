//! The composer: the host-side state machine that collects assumption
//! receipts (deduplicated by claim key), builds the guest's input, checks
//! the assumptions against the guest's expected verification calls, and
//! assembles the proving request for the backend.

use crate::bytesutil::{bytes_eq, clone_bytes};
use crate::digest::{sha256_digest, sha256_of};
use crate::errors::{CompositionError, PreflightIssue};
use crate::image::Image;
use crate::input_builder::InputBuilder;
use crate::receipt::{Receipt, ReceiptKind, ReceiptView};
use vstd::prelude::*;

verus! {

/// A claim key: the pair (image id, journal digest) that identifies what a
/// receipt proves.  Two receipts with the same key are interchangeable for
/// any verifier that checks only the claim.
pub struct ClaimKey {
    /// The 32-byte image id.
    pub image_id: Vec<u8>,
    /// The 32-byte SHA-256 digest of the journal.
    pub journal_digest: Vec<u8>,
}

/// The ghost value of a claim key.
pub open spec fn key_view(k: ClaimKey) -> (Seq<u8>, Seq<u8>) {
    (k.image_id@, k.journal_digest@)
}

/// The claim key of a receipt: its claimed image id paired with the SHA-256
/// digest of its journal.
pub open spec fn assumption_key(v: ReceiptView) -> (Seq<u8>, Seq<u8>)
    recommends
        v.claim_info is Some,
{
    (v.claim_info->Some_0.image_id, sha256_of(v.journal))
}

/// What the composer accepts as an assumption: a well-formed receipt that is
/// unconditional, not fake, has a readable claim, and proves a successful
/// exit.
pub open spec fn valid_assumption(v: ReceiptView) -> bool {
    &&& v.wf()
    &&& v.receipt_kind != ReceiptKind::Composite
    &&& v.receipt_kind != ReceiptKind::Fake
    &&& v.claim_info matches Some(ci) && ci.exit.spec_ok()
}

/// Does some receipt in the sequence already carry this claim key?
pub open spec fn contains_key(s: Seq<ReceiptView>, k: (Seq<u8>, Seq<u8>)) -> bool {
    exists|i: int| 0 <= i < s.len() && assumption_key(#[trigger] s[i]) == k
}

/// Adding an assumption: a no-op when its claim key is already present,
/// an append otherwise.
pub open spec fn spec_add_assumption(s: Seq<ReceiptView>, v: ReceiptView) -> Seq<ReceiptView> {
    if contains_key(s, assumption_key(v)) {
        s
    } else {
        s.push(v)
    }
}

/// Adding several assumptions in order.
pub open spec fn spec_add_many(s: Seq<ReceiptView>, vs: Seq<ReceiptView>) -> Seq<ReceiptView>
    decreases vs.len(),
{
    if vs.len() == 0 {
        s
    } else {
        spec_add_assumption(spec_add_many(s, vs.drop_last()), vs.last())
    }
}

/// How often a key occurs in a sequence of keys.
pub open spec fn count_key(keys: Seq<(Seq<u8>, Seq<u8>)>, k: (Seq<u8>, Seq<u8>)) -> nat
    decreases keys.len(),
{
    if keys.len() == 0 {
        0
    } else {
        count_key(keys.drop_last(), k) + (if keys.last() == k {
            1nat
        } else {
            0nat
        })
    }
}

/// A key occurs in a sequence exactly when its count there is positive.
pub proof fn lemma_count_key_positive(keys: Seq<(Seq<u8>, Seq<u8>)>, k: (Seq<u8>, Seq<u8>))
    ensures
        (count_key(keys, k) > 0) <==> (exists|i: int| 0 <= i < keys.len() && keys[i] == k),
    decreases keys.len(),
{
    if keys.len() > 0 {
        lemma_count_key_positive(keys.drop_last(), k);
        if count_key(keys, k) > 0 {
            if keys.last() == k {
                assert(keys[keys.len() - 1] == k);
            } else {
                let i = choose|i: int| 0 <= i < keys.drop_last().len() && keys.drop_last()[i] == k;
                assert(keys[i] == k);
            }
        }
        if exists|i: int| 0 <= i < keys.len() && keys[i] == k {
            let i = choose|i: int| 0 <= i < keys.len() && keys[i] == k;
            if i < keys.len() - 1 {
                assert(keys.drop_last()[i] == k);
            }
        }
    }
}

/// In a sequence of pairwise-distinct keys every count is at most one.
pub proof fn lemma_count_key_distinct(keys: Seq<(Seq<u8>, Seq<u8>)>, k: (Seq<u8>, Seq<u8>))
    requires
        forall|i: int, j: int| 0 <= i < j < keys.len() ==> keys[i] != keys[j],
    ensures
        count_key(keys, k) <= 1,
    decreases keys.len(),
{
    if keys.len() > 0 {
        lemma_count_key_distinct(keys.drop_last(), k);
        if keys.last() == k {
            lemma_count_key_positive(keys.drop_last(), k);
            if count_key(keys.drop_last(), k) > 0 {
                let i = choose|i: int|
                    0 <= i < keys.drop_last().len() && keys.drop_last()[i] == k;
                assert(keys[i] == keys[keys.len() - 1]);
                assert(false);
            }
        }
    }
}

/// Dedup idempotence: adding a receipt a second time, or any other receipt
/// with the same claim key, changes nothing.
pub proof fn lemma_dedup_idempotent(s: Seq<ReceiptView>, a: ReceiptView, b: ReceiptView)
    requires
        assumption_key(a) == assumption_key(b),
    ensures
        spec_add_assumption(spec_add_assumption(s, a), b) == spec_add_assumption(s, a),
{
    let s1 = spec_add_assumption(s, a);
    if contains_key(s, assumption_key(a)) {
        assert(contains_key(s1, assumption_key(b)));
    } else {
        assert(s1[s.len() as int] == a);
        assert(contains_key(s1, assumption_key(b)));
    }
}

/// A registered expectation of an in-guest verification call: the trusted
/// image id, the journal the guest will check, and that journal's digest.
pub struct Expectation {
    /// The 32-byte image id the guest will verify against.
    pub image_id: Vec<u8>,
    /// The journal the guest will verify.
    pub journal: Vec<u8>,
    /// The SHA-256 digest of that journal.
    pub journal_digest: Vec<u8>,
}

/// The expectation invariant: a 32-byte id and the digest of the journal.
pub open spec fn expectation_wf(e: Expectation) -> bool {
    &&& e.image_id@.len() == 32
    &&& e.journal_digest@ == sha256_of(e.journal@)
}

/// The claim key an expectation asks for.
pub open spec fn expectation_key(e: Expectation) -> (Seq<u8>, Seq<u8>) {
    (e.image_id@, e.journal_digest@)
}

/// A fully assembled proving request: everything the prover backend needs
/// to run one composed proof.
pub struct ProveRequest {
    /// The guest binary.
    pub elf: Vec<u8>,
    /// The guest's input byte stream.
    pub input: Vec<u8>,
    /// The assumption receipts, order preserved.
    pub assumptions: Vec<Receipt>,
    /// The proof mode; never `Fake`.
    pub mode: ReceiptKind,
}

/// The composer.  Created for one proving cycle over one image; once a
/// proving request has been taken from it, it is consumed and refuses
/// further work.
pub struct Composer {
    /// The image to prove.
    pub image: Image,
    /// The assumption receipts, in insertion order, claim keys distinct.
    pub assumptions: Vec<Receipt>,
    /// The claim key of each assumption, kept in step with `assumptions`.
    pub assumption_digests: Vec<ClaimKey>,
    /// The guest input under construction.
    pub input_builder: InputBuilder,
    /// The registered expectations, in order; duplicates are meaningful.
    pub expected_verifications: Vec<Expectation>,
    /// Whether a proving request has already been taken.
    pub consumed: bool,
}

impl Composer {
    /// The ghost values of the assumption receipts, in order.
    pub open spec fn assumption_views(&self) -> Seq<ReceiptView> {
        self.assumptions@.map_values(|r: Receipt| r@)
    }

    /// The claim keys of the assumptions, in order.
    pub open spec fn assumption_keys(&self) -> Seq<(Seq<u8>, Seq<u8>)> {
        self.assumption_views().map_values(|v: ReceiptView| assumption_key(v))
    }

    /// The claim keys of the expectations, in order, duplicates kept.
    pub open spec fn expectation_keys(&self) -> Seq<(Seq<u8>, Seq<u8>)> {
        self.expected_verifications@.map_values(|e: Expectation| expectation_key(e))
    }

    /// The composer invariant: every assumption is valid and their claim
    /// keys are pairwise distinct; the recorded keys match the receipts;
    /// every expectation is well-formed.
    pub open spec fn wf(&self) -> bool {
        &&& self.image.wf()
        &&& forall|i: int|
            0 <= i < self.assumptions@.len() ==> valid_assumption(
                #[trigger] self.assumptions@[i]@,
            )
        &&& self.assumption_digests@.len() == self.assumptions@.len()
        &&& forall|i: int|
            0 <= i < self.assumptions@.len() ==> key_view(#[trigger] self.assumption_digests@[i])
                == assumption_key(self.assumptions@[i]@)
        &&& forall|i: int, j: int|
            0 <= i < j < self.assumptions@.len() ==> assumption_key(self.assumptions@[i]@)
                != assumption_key(self.assumptions@[j]@)
        &&& forall|i: int|
            0 <= i < self.expected_verifications@.len() ==> expectation_wf(
                #[trigger] self.expected_verifications@[i],
            )
    }

    /// A fresh composer for one image: no assumptions, no input, no
    /// expectations.
    pub fn new(image: Image) -> (c: Composer)
        requires
            image.wf(),
        ensures
            c.wf(),
            c.image == image,
            c.assumptions@ == Seq::<Receipt>::empty(),
            c.input_builder@ == Seq::<u8>::empty(),
            c.expected_verifications@ == Seq::<Expectation>::empty(),
            !c.consumed,
    {
        Composer {
            image,
            assumptions: Vec::new(),
            assumption_digests: Vec::new(),
            input_builder: InputBuilder::new(),
            expected_verifications: Vec::new(),
            consumed: false,
        }
    }

    /// Add a receipt as an assumption for composition.
    ///
    /// The receipt must be unconditional, not fake, and from a successful
    /// execution with a readable claim.  A receipt whose claim key is
    /// already present is silently discarded: the assumption list never
    /// holds two receipts with one key.  Fails on a consumed composer.
    pub fn add_assumption(&mut self, receipt: Receipt) -> (r: Result<(), CompositionError>)
        requires
            old(self).wf(),
            receipt.wf(),
        ensures
            final(self).wf(),
            final(self).image == old(self).image,
            final(self).input_builder == old(self).input_builder,
            final(self).expected_verifications == old(self).expected_verifications,
            final(self).consumed == old(self).consumed,
            (r is Ok) <==> (!old(self).consumed && valid_assumption(receipt@)),
            r is Ok ==> final(self).assumption_views() == spec_add_assumption(
                old(self).assumption_views(),
                receipt@,
            ),
            r is Err ==> final(self).assumptions == old(self).assumptions
                && final(self).assumption_digests == old(self).assumption_digests,
            r matches Err(e) ==> (e is ComposerConsumed <==> old(self).consumed),
            r matches Err(e) ==> (e is IsComposite <==> (!old(self).consumed
                && receipt.receipt_kind == ReceiptKind::Composite)),
            r matches Err(e) ==> (e is IsFake <==> (!old(self).consumed && receipt.receipt_kind
                == ReceiptKind::Fake)),
            r matches Err(e) ==> (e is ClaimPruned <==> (!old(self).consumed
                && receipt.receipt_kind != ReceiptKind::Composite && receipt.receipt_kind
                != ReceiptKind::Fake && receipt.claim_info is None)),
            r matches Err(e) ==> (e is FailedExit <==> (!old(self).consumed
                && receipt.receipt_kind != ReceiptKind::Composite && receipt.receipt_kind
                != ReceiptKind::Fake && (receipt.claim_info matches Some(ci)
                && !ci.exit.spec_ok()))),
    {
        if self.consumed {
            return Err(CompositionError::ComposerConsumed);
        }
        if !receipt.is_unconditional() {
            return Err(CompositionError::IsComposite);
        }
        if receipt.kind() == ReceiptKind::Fake {
            return Err(CompositionError::IsFake);
        }
        let image_id: Vec<u8> = match &receipt.claim_info {
            None => {
                return Err(CompositionError::ClaimPruned);
            },
            Some(ci) => {
                if !ci.exit.ok() {
                    return Err(CompositionError::FailedExit);
                }
                clone_bytes(&ci.image_id)
            },
        };
        let journal_digest = sha256_digest(receipt.journal.as_slice());
        assert((image_id@, journal_digest@) == assumption_key(receipt@));
        let n: usize = self.assumption_digests.len();
        let mut i: usize = 0;
        while i < n
            invariant
                *self == *old(self),
                !old(self).consumed,
                self.wf(),
                n == self.assumption_digests@.len(),
                i <= n,
                valid_assumption(receipt@),
                (image_id@, journal_digest@) == assumption_key(receipt@),
                forall|j: int|
                    0 <= j < i ==> key_view(#[trigger] self.assumption_digests@[j]) != (
                    image_id@,
                    journal_digest@,
                ),
            decreases n - i,
        {
            let k = &self.assumption_digests[i];
            if bytes_eq(k.image_id.as_slice(), image_id.as_slice()) && bytes_eq(
                k.journal_digest.as_slice(),
                journal_digest.as_slice(),
            ) {
                proof {
                    let j = i as int;
                    assert(self.assumption_digests@[j].image_id@ == image_id@);
                    assert(self.assumption_digests@[j].journal_digest@ == journal_digest@);
                    assert(key_view(self.assumption_digests@[j]) == (image_id@, journal_digest@));
                    assert(key_view(self.assumption_digests@[j]) == assumption_key(
                        self.assumptions@[j]@,
                    ));
                    assert(self.assumption_views()[j] == self.assumptions@[j]@);
                    assert(assumption_key(self.assumption_views()[j]) == assumption_key(receipt@));
                    assert(contains_key(self.assumption_views(), assumption_key(receipt@)));
                }
                return Ok(());
            }
            i += 1;
        }
        proof {
            assert forall|j: int|
                0 <= j < self.assumption_views().len() implies assumption_key(
                #[trigger] self.assumption_views()[j],
            ) != assumption_key(receipt@) by {
                assert(key_view(self.assumption_digests@[j]) == assumption_key(
                    self.assumptions@[j]@,
                ));
            }
            assert(!contains_key(self.assumption_views(), assumption_key(receipt@)));
        }
        self.assumptions.push(receipt);
        self.assumption_digests.push(ClaimKey { image_id, journal_digest });
        proof {
            assert(final(self).assumption_views() =~= old(self).assumption_views().push(
                final(self).assumptions@.last()@,
            ));
            assert forall|i2: int, j2: int|
                0 <= i2 < j2 < final(self).assumptions@.len() implies assumption_key(
                final(self).assumptions@[i2]@,
            ) != assumption_key(final(self).assumptions@[j2]@) by {
                if j2 == final(self).assumptions@.len() - 1 {
                    assert(assumption_key(old(self).assumption_views()[i2]) != assumption_key(
                        final(self).assumptions@[j2]@,
                    ));
                }
            }
        }
        Ok(())
    }

    /// Add several receipts as assumptions, in order, stopping at the first
    /// rejected one; receipts added before the rejection stay.  Fails on a
    /// consumed composer.
    pub fn assume_many(&mut self, receipts: Vec<Receipt>) -> (r: Result<(), CompositionError>)
        requires
            old(self).wf(),
            forall|i: int| 0 <= i < receipts@.len() ==> (#[trigger] receipts@[i]).wf(),
        ensures
            final(self).wf(),
            final(self).image == old(self).image,
            final(self).input_builder == old(self).input_builder,
            final(self).expected_verifications == old(self).expected_verifications,
            final(self).consumed == old(self).consumed,
            (r is Ok) <==> (!old(self).consumed && (forall|i: int|
                0 <= i < receipts@.len() ==> valid_assumption(#[trigger] receipts@[i]@))),
            r is Ok ==> final(self).assumption_views() == spec_add_many(
                old(self).assumption_views(),
                receipts@.map_values(|x: Receipt| x@),
            ),
            r matches Err(e) ==> (e is ComposerConsumed <==> old(self).consumed),
            old(self).consumed ==> final(self).assumptions == old(self).assumptions
                && final(self).assumption_digests == old(self).assumption_digests,
            (r is Err && !old(self).consumed) ==> exists|k: int|
                {
                    &&& 0 <= k < receipts@.len()
                    &&& !valid_assumption(#[trigger] receipts@[k]@)
                    &&& (forall|j: int| 0 <= j < k ==> valid_assumption(#[trigger] receipts@[j]@))
                    &&& final(self).assumption_views() == spec_add_many(
                        old(self).assumption_views(),
                        receipts@.map_values(|x: Receipt| x@).take(k),
                    )
                },
    {
        if self.consumed {
            return Err(CompositionError::ComposerConsumed);
        }
        let ghost vs = receipts@.map_values(|x: Receipt| x@);
        let n: usize = receipts.len();
        let mut i: usize = 0;
        proof {
            assert(vs.take(0) =~= Seq::<ReceiptView>::empty());
        }
        while i < n
            invariant
                self.wf(),
                !old(self).consumed,
                n == receipts@.len(),
                i <= n,
                vs == receipts@.map_values(|x: Receipt| x@),
                forall|j: int| 0 <= j < n ==> (#[trigger] receipts@[j]).wf(),
                forall|j: int| 0 <= j < i ==> valid_assumption(#[trigger] receipts@[j]@),
                self.assumption_views() == spec_add_many(old(self).assumption_views(), vs.take(i as int)),
                self.image == old(self).image,
                self.input_builder == old(self).input_builder,
                self.expected_verifications == old(self).expected_verifications,
                self.consumed == old(self).consumed,
            decreases n - i,
        {
            let rec = receipts[i].duplicate();
            let ghost before = self.assumption_views();
            let res = self.add_assumption(rec);
            proof {
                assert(vs.take(i + 1).drop_last() =~= vs.take(i as int));
                assert(vs.take(i + 1).last() == vs[i as int]);
                assert(rec@ == vs[i as int]);
            }
            match res {
                Ok(()) => {
                    proof {
                        assert(self.assumption_views() == spec_add_assumption(before, rec@));
                        assert(spec_add_many(old(self).assumption_views(), vs.take(i + 1))
                            == spec_add_assumption(
                            spec_add_many(old(self).assumption_views(), vs.take(i as int)),
                            vs[i as int],
                        ));
                    }
                },
                Err(e) => {
                    proof {
                        assert(!valid_assumption(receipts@[i as int]@));
                    }
                    return Err(e);
                },
            }
            i += 1;
        }
        proof {
            assert(vs.take(n as int) =~= vs);
        }
        Ok(())
    }

    /// Append CBOR bytes to the guest input, unframed (single-CBOR
    /// pattern).  Fails on a consumed composer.
    pub fn write_cbor(&mut self, cbor_bytes: Vec<u8>) -> (r: Result<(), CompositionError>)
        ensures
            (r is Ok) <==> !old(self).consumed,
            r is Ok ==> final(self).input_builder@ == old(self).input_builder@ + cbor_bytes@,
            r matches Err(e) ==> e is ComposerConsumed && final(self).input_builder == old(
                self,
            ).input_builder,
            unchanged_but_input(old(self), final(self)),
    {
        if self.consumed {
            return Err(CompositionError::ComposerConsumed);
        }
        self.input_builder.write_cbor(cbor_bytes);
        Ok(())
    }

    /// Append CBOR bytes behind a length frame (framed-mixing pattern).
    /// Fails on a consumed composer.
    pub fn write_cbor_frame(&mut self, cbor_bytes: Vec<u8>) -> (r: Result<(), CompositionError>)
        ensures
            (r is Ok) <==> !old(self).consumed,
            r is Ok ==> final(self).input_builder@ == old(self).input_builder@
                + crate::input_builder::spec_frame_bytes(cbor_bytes@),
            r matches Err(e) ==> e is ComposerConsumed && final(self).input_builder == old(
                self,
            ).input_builder,
            unchanged_but_input(old(self), final(self)),
    {
        if self.consumed {
            return Err(CompositionError::ComposerConsumed);
        }
        self.input_builder.write_cbor_frame(cbor_bytes);
        Ok(())
    }

    /// Append a little-endian `u32` to the guest input.  Fails on a
    /// consumed composer.
    pub fn write_u32(&mut self, value: u32) -> (r: Result<(), CompositionError>)
        ensures
            (r is Ok) <==> !old(self).consumed,
            r is Ok ==> final(self).input_builder@ == old(self).input_builder@
                + vstd::bytes::spec_u32_to_le_bytes(value),
            r matches Err(e) ==> e is ComposerConsumed && final(self).input_builder == old(
                self,
            ).input_builder,
            unchanged_but_input(old(self), final(self)),
    {
        if self.consumed {
            return Err(CompositionError::ComposerConsumed);
        }
        self.input_builder.write_u32(value);
        Ok(())
    }

    /// Append a little-endian `u64` to the guest input.  Fails on a
    /// consumed composer.
    pub fn write_u64(&mut self, value: u64) -> (r: Result<(), CompositionError>)
        ensures
            (r is Ok) <==> !old(self).consumed,
            r is Ok ==> final(self).input_builder@ == old(self).input_builder@
                + vstd::bytes::spec_u64_to_le_bytes(value),
            r matches Err(e) ==> e is ComposerConsumed && final(self).input_builder == old(
                self,
            ).input_builder,
            unchanged_but_input(old(self), final(self)),
    {
        if self.consumed {
            return Err(CompositionError::ComposerConsumed);
        }
        self.input_builder.write_u64(value);
        Ok(())
    }

    /// Append raw bytes to the guest input, unframed.  Fails on a consumed
    /// composer.
    pub fn write_raw_bytes(&mut self, data: Vec<u8>) -> (r: Result<(), CompositionError>)
        ensures
            (r is Ok) <==> !old(self).consumed,
            r is Ok ==> final(self).input_builder@ == old(self).input_builder@ + data@,
            r matches Err(e) ==> e is ComposerConsumed && final(self).input_builder == old(
                self,
            ).input_builder,
            unchanged_but_input(old(self), final(self)),
    {
        if self.consumed {
            return Err(CompositionError::ComposerConsumed);
        }
        self.input_builder.write_raw_bytes(data);
        Ok(())
    }

    /// Append a length-prefixed frame to the guest input.  Fails on a
    /// consumed composer.
    pub fn write_frame(&mut self, data: Vec<u8>) -> (r: Result<(), CompositionError>)
        ensures
            (r is Ok) <==> !old(self).consumed,
            r is Ok ==> final(self).input_builder@ == old(self).input_builder@
                + crate::input_builder::spec_frame_bytes(data@),
            r matches Err(e) ==> e is ComposerConsumed && final(self).input_builder == old(
                self,
            ).input_builder,
            unchanged_but_input(old(self), final(self)),
    {
        if self.consumed {
            return Err(CompositionError::ComposerConsumed);
        }
        self.input_builder.write_frame(data);
        Ok(())
    }

    /// Append exactly 32 bytes to the guest input; anything else is
    /// rejected and changes nothing.  Fails on a consumed composer.
    pub fn write_bytes32(&mut self, data: Vec<u8>) -> (r: Result<(), CompositionError>)
        ensures
            (r is Ok) <==> (!old(self).consumed && data@.len() == 32),
            r is Ok ==> final(self).input_builder@ == old(self).input_builder@ + data@,
            r matches Err(e) ==> final(self).input_builder == old(self).input_builder,
            r matches Err(e) ==> (e is ComposerConsumed <==> old(self).consumed),
            r matches Err(e) ==> (e is InvalidLength <==> (!old(self).consumed && data@.len()
                != 32)),
            unchanged_but_input(old(self), final(self)),
    {
        if self.consumed {
            return Err(CompositionError::ComposerConsumed);
        }
        if data.len() != 32 {
            return Err(CompositionError::InvalidLength);
        }
        self.input_builder.write_raw_bytes(data);
        Ok(())
    }

    /// Append a 32-byte image id to the guest input.  Fails on a consumed
    /// composer.
    pub fn write_image_id(&mut self, image_id: Vec<u8>) -> (r: Result<(), CompositionError>)
        ensures
            (r is Ok) <==> (!old(self).consumed && image_id@.len() == 32),
            r is Ok ==> final(self).input_builder@ == old(self).input_builder@ + image_id@,
            r matches Err(e) ==> final(self).input_builder == old(self).input_builder,
            r matches Err(e) ==> (e is ComposerConsumed <==> old(self).consumed),
            r matches Err(e) ==> (e is InvalidLength <==> (!old(self).consumed
                && image_id@.len() != 32)),
            unchanged_but_input(old(self), final(self)),
    {
        self.write_bytes32(image_id)
    }

    /// The number of input bytes written so far.
    pub fn input_size(&self) -> (n: usize)
        ensures
            n == self.input_builder@.len(),
    {
        self.input_builder.size()
    }

    /// The number of assumptions held (after deduplication).
    pub fn assumption_count(&self) -> (n: usize)
        ensures
            n == self.assumptions@.len(),
    {
        self.assumptions.len()
    }
}

/// Two key sequences carry every key equally often: the multisets of
/// expectation keys and assumption keys coincide.
pub open spec fn keys_balanced(e: Seq<(Seq<u8>, Seq<u8>)>, a: Seq<(Seq<u8>, Seq<u8>)>) -> bool {
    forall|k: (Seq<u8>, Seq<u8>)| #[trigger] count_key(e, k) == count_key(a, k)
}

/// Key counts agree with multiset membership: `count_key` counts exactly
/// what `to_multiset` holds.
pub proof fn lemma_count_key_multiset(keys: Seq<(Seq<u8>, Seq<u8>)>, k: (Seq<u8>, Seq<u8>))
    ensures
        count_key(keys, k) == keys.to_multiset().count(k),
    decreases keys.len(),
{
    broadcast use vstd::seq_lib::group_to_multiset_ensures;

    if keys.len() == 0 {
        assert(!keys.contains(k));
    } else {
        let prefix = keys.drop_last();
        lemma_count_key_multiset(prefix, k);
        assert(keys =~= prefix.push(keys.last()));
        assert(prefix.push(keys.last()).to_multiset() =~= prefix.to_multiset().insert(
            keys.last(),
        ));
    }
}

/// Preflight soundness, stated over multisets: the expectation keys and
/// assumption keys balance exactly when their multisets are equal.  A
/// preflight check that passes with raising enabled therefore certifies
/// that the multiset of expectation keys equals the multiset of assumption
/// keys.
pub proof fn lemma_balanced_is_multiset_equality(
    e: Seq<(Seq<u8>, Seq<u8>)>,
    a: Seq<(Seq<u8>, Seq<u8>)>,
)
    ensures
        keys_balanced(e, a) <==> e.to_multiset() == a.to_multiset(),
{
    if keys_balanced(e, a) {
        assert forall|k: (Seq<u8>, Seq<u8>)|
            e.to_multiset().count(k) == a.to_multiset().count(k) by {
            lemma_count_key_multiset(e, k);
            lemma_count_key_multiset(a, k);
            assert(count_key(e, k) == count_key(a, k));
        }
        assert(e.to_multiset() =~= a.to_multiset());
    }
    if e.to_multiset() == a.to_multiset() {
        assert forall|k: (Seq<u8>, Seq<u8>)| #[trigger] count_key(e, k) == count_key(a, k) by {
            lemma_count_key_multiset(e, k);
            lemma_count_key_multiset(a, k);
        }
    }
}

/// What a preflight issue asserts about the expectation keys `e` and the
/// assumption keys `a`.
pub open spec fn issue_sound(
    e: Seq<(Seq<u8>, Seq<u8>)>,
    a: Seq<(Seq<u8>, Seq<u8>)>,
    iss: PreflightIssue,
) -> bool {
    match iss {
        PreflightIssue::MissingAssumption { image_id, journal_digest } => count_key(
            e,
            (image_id@, journal_digest@),
        ) > count_key(a, (image_id@, journal_digest@)),
        PreflightIssue::UnusedAssumption { image_id, journal_digest } => count_key(
            a,
            (image_id@, journal_digest@),
        ) > 0 && count_key(e, (image_id@, journal_digest@)) == 0,
        PreflightIssue::InvalidImageIdInExpectation { index } => 0 <= index < e.len() && e[
            index as int
        ].0.len() != 32,
    }
}

/// Does the list hold a missing-assumption issue for this key?
pub open spec fn has_missing_issue(issues: Seq<PreflightIssue>, k: (Seq<u8>, Seq<u8>)) -> bool {
    exists|ix: int|
        0 <= ix < issues.len() && (#[trigger] issues[ix] matches
            PreflightIssue::MissingAssumption {
            image_id,
            journal_digest,
        } && (image_id@, journal_digest@) == k)
}

/// Does the list hold an unused-assumption issue for this key?
pub open spec fn has_unused_issue(issues: Seq<PreflightIssue>, k: (Seq<u8>, Seq<u8>)) -> bool {
    exists|ix: int|
        0 <= ix < issues.len() && (#[trigger] issues[ix] matches PreflightIssue::UnusedAssumption {
            image_id,
            journal_digest,
        } && (image_id@, journal_digest@) == k)
}

/// The issue list covers every imbalance: a missing-assumption issue for
/// every key that more expectations demand than assumptions supply, and an
/// unused-assumption issue for every assumption key no expectation names.
pub open spec fn issues_complete(
    e: Seq<(Seq<u8>, Seq<u8>)>,
    a: Seq<(Seq<u8>, Seq<u8>)>,
    issues: Seq<PreflightIssue>,
) -> bool {
    &&& forall|k: (Seq<u8>, Seq<u8>)|
        count_key(e, k) > count_key(a, k) ==> #[trigger] has_missing_issue(issues, k)
    &&& forall|k: (Seq<u8>, Seq<u8>)|
        count_key(a, k) > 0 && count_key(e, k) == 0 ==> #[trigger] has_unused_issue(issues, k)
}

/// Appending an issue keeps every issue already reported.
pub proof fn lemma_issue_push_preserves(
    issues: Seq<PreflightIssue>,
    x: PreflightIssue,
    k: (Seq<u8>, Seq<u8>),
)
    ensures
        has_missing_issue(issues, k) ==> has_missing_issue(issues.push(x), k),
        has_unused_issue(issues, k) ==> has_unused_issue(issues.push(x), k),
{
    if has_missing_issue(issues, k) {
        let ix = choose|ix: int|
            0 <= ix < issues.len() && (#[trigger] issues[ix] matches
                PreflightIssue::MissingAssumption {
                image_id,
                journal_digest,
            } && (image_id@, journal_digest@) == k);
        assert(issues.push(x)[ix] == issues[ix]);
    }
    if has_unused_issue(issues, k) {
        let ix = choose|ix: int|
            0 <= ix < issues.len() && (#[trigger] issues[ix] matches
                PreflightIssue::UnusedAssumption {
                image_id,
                journal_digest,
            } && (image_id@, journal_digest@) == k);
        assert(issues.push(x)[ix] == issues[ix]);
    }
}

impl Composer {
    /// How many registered expectations carry this claim key.
    fn count_expectation_matches(&self, image_id: &Vec<u8>, digest: &Vec<u8>) -> (n: usize)
        ensures
            n as nat == count_key(self.expectation_keys(), (image_id@, digest@)),
    {
        let ghost keys = self.expectation_keys();
        let ghost k = (image_id@, digest@);
        let len: usize = self.expected_verifications.len();
        let mut cnt: usize = 0;
        let mut j: usize = 0;
        proof {
            assert(keys.take(0) =~= Seq::<(Seq<u8>, Seq<u8>)>::empty());
        }
        while j < len
            invariant
                keys == self.expectation_keys(),
                k == (image_id@, digest@),
                len == self.expected_verifications@.len(),
                j <= len,
                cnt <= j,
                cnt as nat == count_key(keys.take(j as int), k),
            decreases len - j,
        {
            let e = &self.expected_verifications[j];
            let matches_here = bytes_eq(e.image_id.as_slice(), image_id.as_slice()) && bytes_eq(
                e.journal_digest.as_slice(),
                digest.as_slice(),
            );
            proof {
                assert(keys[j as int] == expectation_key(self.expected_verifications@[j as int]));
                assert(matches_here == (keys[j as int] == k));
                assert(keys.take(j + 1).drop_last() =~= keys.take(j as int));
                assert(keys.take(j + 1).last() == keys[j as int]);
            }
            if matches_here {
                cnt = cnt + 1;
            }
            j += 1;
        }
        proof {
            assert(keys.take(len as int) =~= keys);
        }
        cnt
    }

    /// How many held assumptions carry this claim key (zero or one, the
    /// keys being distinct).
    fn count_assumption_matches(&self, image_id: &Vec<u8>, digest: &Vec<u8>) -> (n: usize)
        requires
            self.wf(),
        ensures
            n as nat == count_key(self.assumption_keys(), (image_id@, digest@)),
    {
        let ghost keys = self.assumption_keys();
        let ghost k = (image_id@, digest@);
        let len: usize = self.assumption_digests.len();
        let mut cnt: usize = 0;
        let mut j: usize = 0;
        proof {
            assert(keys.take(0) =~= Seq::<(Seq<u8>, Seq<u8>)>::empty());
        }
        while j < len
            invariant
                self.wf(),
                keys == self.assumption_keys(),
                k == (image_id@, digest@),
                len == self.assumption_digests@.len(),
                j <= len,
                cnt <= j,
                cnt as nat == count_key(keys.take(j as int), k),
            decreases len - j,
        {
            let e = &self.assumption_digests[j];
            let matches_here = bytes_eq(e.image_id.as_slice(), image_id.as_slice()) && bytes_eq(
                e.journal_digest.as_slice(),
                digest.as_slice(),
            );
            proof {
                assert(self.assumption_views()[j as int] == self.assumptions@[j as int]@);
                assert(keys[j as int] == assumption_key(self.assumption_views()[j as int]));
                assert(key_view(self.assumption_digests@[j as int]) == assumption_key(
                    self.assumptions@[j as int]@,
                ));
                assert(matches_here == (keys[j as int] == k));
                assert(keys.take(j + 1).drop_last() =~= keys.take(j as int));
                assert(keys.take(j + 1).last() == keys[j as int]);
            }
            if matches_here {
                cnt = cnt + 1;
            }
            j += 1;
        }
        proof {
            assert(keys.take(len as int) =~= keys);
        }
        cnt
    }

    /// Does an earlier expectation carry the same key as the one at `i`?
    fn expectation_occurs_before(&self, i: usize) -> (r: bool)
        requires
            i < self.expected_verifications@.len(),
        ensures
            r == exists|j: int|
                0 <= j < i && #[trigger] self.expectation_keys()[j] == self.expectation_keys()[
                    i as int
                ],
    {
        let ghost keys = self.expectation_keys();
        let target = &self.expected_verifications[i];
        let mut j: usize = 0;
        while j < i
            invariant
                keys == self.expectation_keys(),
                i < self.expected_verifications@.len(),
                target == &self.expected_verifications@[i as int],
                j <= i,
                forall|t: int| 0 <= t < j ==> #[trigger] keys[t] != keys[i as int],
            decreases i - j,
        {
            let e = &self.expected_verifications[j];
            let matches_here = bytes_eq(e.image_id.as_slice(), target.image_id.as_slice())
                && bytes_eq(e.journal_digest.as_slice(), target.journal_digest.as_slice());
            proof {
                assert(keys[j as int] == expectation_key(self.expected_verifications@[j as int]));
                assert(keys[i as int] == expectation_key(self.expected_verifications@[i as int]));
                assert(matches_here == (keys[j as int] == keys[i as int]));
            }
            if matches_here {
                return true;
            }
            j += 1;
        }
        false
    }

    /// Register an expected in-guest verification call: the guest is going
    /// to verify a receipt for this image id and journal.  The id must be
    /// 32 bytes; the journal's digest is recorded with it.  Fails on a
    /// consumed composer.
    pub fn expect_verification(&mut self, image_id: Vec<u8>, journal: Vec<u8>) -> (r: Result<
        (),
        CompositionError,
    >)
        requires
            old(self).wf(),
        ensures
            final(self).wf(),
            final(self).image == old(self).image,
            final(self).assumptions == old(self).assumptions,
            final(self).assumption_digests == old(self).assumption_digests,
            final(self).input_builder == old(self).input_builder,
            final(self).consumed == old(self).consumed,
            (r is Ok) <==> (!old(self).consumed && image_id@.len() == 32),
            r is Ok ==> final(self).expectation_keys() == old(self).expectation_keys().push(
                (image_id@, sha256_of(journal@)),
            ),
            r is Ok ==> final(self).expected_verifications@.len() == old(
                self,
            ).expected_verifications@.len() + 1,
            r matches Err(e) ==> (e is ComposerConsumed <==> old(self).consumed),
            r matches Err(e) ==> (e is InvalidLength <==> (!old(self).consumed && image_id@.len()
                != 32)),
            r is Err ==> final(self).expected_verifications == old(self).expected_verifications,
    {
        if self.consumed {
            return Err(CompositionError::ComposerConsumed);
        }
        if image_id.len() != 32 {
            return Err(CompositionError::InvalidLength);
        }
        let journal_digest = sha256_digest(journal.as_slice());
        self.expected_verifications.push(Expectation { image_id, journal, journal_digest });
        proof {
            assert(final(self).expectation_keys() =~= old(self).expectation_keys().push(
                expectation_key(final(self).expected_verifications@.last()),
            ));
        }
        Ok(())
    }

    /// Check that the registered expectations and the held assumptions ask
    /// for the same multiset of claim keys.
    ///
    /// One `MissingAssumption` issue is reported for each distinct key that
    /// more expectations demand than assumptions supply, and one
    /// `UnusedAssumption` issue for each assumption no expectation refers
    /// to.  The issue list is empty exactly when the two key multisets are
    /// equal.  With `raise_on_error` a non-empty list is returned as a
    /// `PreflightFailed` error instead.  Fails on a consumed composer.
    pub fn preflight_check(&self, raise_on_error: bool) -> (r: Result<
        Vec<PreflightIssue>,
        CompositionError,
    >)
        requires
            self.wf(),
        ensures
            (r is Err) <==> (self.consumed || (raise_on_error && !keys_balanced(
                self.expectation_keys(),
                self.assumption_keys(),
            ))),
            r matches Err(e) ==> (e is ComposerConsumed <==> self.consumed),
            r matches Ok(issues) ==> ((issues@.len() == 0) <==> keys_balanced(
                self.expectation_keys(),
                self.assumption_keys(),
            )),
            r matches Ok(issues) ==> (forall|ix: int|
                0 <= ix < issues@.len() ==> issue_sound(
                    self.expectation_keys(),
                    self.assumption_keys(),
                    #[trigger] issues@[ix],
                )),
            r matches Ok(issues) ==> issues_complete(
                self.expectation_keys(),
                self.assumption_keys(),
                issues@,
            ),
            r matches Err(err) ==> ((err is PreflightFailed) <==> (!self.consumed
                && raise_on_error && !keys_balanced(
                self.expectation_keys(),
                self.assumption_keys(),
            ))),
            r matches Err(err) ==> (err matches CompositionError::PreflightFailed(issues)
                ==> issues@.len() > 0 && issues_complete(
                self.expectation_keys(),
                self.assumption_keys(),
                issues@,
            ) && (forall|ix: int|
                0 <= ix < issues@.len() ==> issue_sound(
                    self.expectation_keys(),
                    self.assumption_keys(),
                    #[trigger] issues@[ix],
                ))),
    {
        if self.consumed {
            return Err(CompositionError::ComposerConsumed);
        }
        let ghost e_keys = self.expectation_keys();
        let ghost a_keys = self.assumption_keys();
        let mut issues: Vec<PreflightIssue> = Vec::new();
        let n_exp: usize = self.expected_verifications.len();
        let mut i: usize = 0;
        while i < n_exp
            invariant
                self.wf(),
                e_keys == self.expectation_keys(),
                a_keys == self.assumption_keys(),
                n_exp == self.expected_verifications@.len(),
                i <= n_exp,
                forall|ix: int|
                    0 <= ix < issues@.len() ==> issue_sound(e_keys, a_keys, #[trigger] issues@[ix]),
                forall|j: int|
                    0 <= j < i ==> (count_key(e_keys, #[trigger] e_keys[j]) <= count_key(
                        a_keys,
                        e_keys[j],
                    ) || has_missing_issue(issues@, e_keys[j])),
            decreases n_exp - i,
        {
            let exp = &self.expected_verifications[i];
            proof {
                assert(expectation_wf(self.expected_verifications@[i as int]));
                assert(e_keys[i as int] == expectation_key(
                    self.expected_verifications@[i as int],
                ));
            }
            if exp.image_id.len() != 32 {
                // Unreachable for a well-formed composer; kept so malformed
                // expectations would be reported rather than passed over.
                issues.push(PreflightIssue::InvalidImageIdInExpectation { index: i });
            } else {
                let seen = self.expectation_occurs_before(i);
                if !seen {
                    let ce = self.count_expectation_matches(&exp.image_id, &exp.journal_digest);
                    let ca = self.count_assumption_matches(&exp.image_id, &exp.journal_digest);
                    if ca < ce {
                        let ghost before = issues@;
                        issues.push(
                            PreflightIssue::MissingAssumption {
                                image_id: clone_bytes(&exp.image_id),
                                journal_digest: clone_bytes(&exp.journal_digest),
                            },
                        );
                        proof {
                            let last = issues@.len() - 1;
                            assert(issues@[last] matches PreflightIssue::MissingAssumption {
                                image_id,
                                journal_digest,
                            } && (image_id@, journal_digest@) == e_keys[i as int]);
                            assert(has_missing_issue(issues@, e_keys[i as int]));
                            assert forall|j: int|
                                0 <= j < i && has_missing_issue(
                                    before,
                                    #[trigger] e_keys[j],
                                ) implies has_missing_issue(issues@, e_keys[j]) by {
                                lemma_issue_push_preserves(before, issues@[last], e_keys[j]);
                            }
                        }
                    }
                } else {
                    proof {
                        let j0 = choose|j: int|
                            0 <= j < i && #[trigger] e_keys[j] == e_keys[i as int];
                        assert(count_key(e_keys, e_keys[j0]) <= count_key(a_keys, e_keys[j0])
                            || has_missing_issue(issues@, e_keys[j0]));
                    }
                }
            }
            i += 1;
        }
        let n_ass: usize = self.assumption_digests.len();
        let mut t: usize = 0;
        while t < n_ass
            invariant
                self.wf(),
                e_keys == self.expectation_keys(),
                a_keys == self.assumption_keys(),
                n_ass == self.assumption_digests@.len(),
                t <= n_ass,
                forall|ix: int|
                    0 <= ix < issues@.len() ==> issue_sound(e_keys, a_keys, #[trigger] issues@[ix]),
                forall|j: int|
                    0 <= j < e_keys.len() ==> (count_key(e_keys, #[trigger] e_keys[j]) <= count_key(
                        a_keys,
                        e_keys[j],
                    ) || has_missing_issue(issues@, e_keys[j])),
                forall|j: int|
                    0 <= j < t ==> (count_key(e_keys, #[trigger] a_keys[j]) > 0 || has_unused_issue(
                        issues@,
                        a_keys[j],
                    )),
            decreases n_ass - t,
        {
            let key = &self.assumption_digests[t];
            proof {
                assert(key_view(self.assumption_digests@[t as int]) == assumption_key(
                    self.assumptions@[t as int]@,
                ));
                assert(self.assumption_views()[t as int] == self.assumptions@[t as int]@);
                assert(a_keys[t as int] == assumption_key(self.assumption_views()[t as int]));
                assert(a_keys[t as int] == (key.image_id@, key.journal_digest@));
            }
            let ce = self.count_expectation_matches(&key.image_id, &key.journal_digest);
            if ce == 0 {
                proof {
                    lemma_count_key_positive(a_keys, (key.image_id@, key.journal_digest@));
                }
                let ghost before = issues@;
                issues.push(
                    PreflightIssue::UnusedAssumption {
                        image_id: clone_bytes(&key.image_id),
                        journal_digest: clone_bytes(&key.journal_digest),
                    },
                );
                proof {
                    let last = issues@.len() - 1;
                    assert(issues@[last] matches PreflightIssue::UnusedAssumption {
                        image_id,
                        journal_digest,
                    } && (image_id@, journal_digest@) == a_keys[t as int]);
                    assert(has_unused_issue(issues@, a_keys[t as int]));
                    assert forall|j: int|
                        0 <= j < e_keys.len() && has_missing_issue(
                            before,
                            #[trigger] e_keys[j],
                        ) implies has_missing_issue(issues@, e_keys[j]) by {
                        lemma_issue_push_preserves(before, issues@[last], e_keys[j]);
                    }
                    assert forall|j: int|
                        0 <= j < t && has_unused_issue(
                            before,
                            #[trigger] a_keys[j],
                        ) implies has_unused_issue(issues@, a_keys[j]) by {
                        lemma_issue_push_preserves(before, issues@[last], a_keys[j]);
                    }
                }
            }
            t += 1;
        }
        proof {
            assert forall|k: (Seq<u8>, Seq<u8>)|
                count_key(e_keys, k) > count_key(a_keys, k) implies #[trigger] has_missing_issue(
                issues@,
                k,
            ) by {
                lemma_count_key_positive(e_keys, k);
                let j = choose|j: int| 0 <= j < e_keys.len() && e_keys[j] == k;
                assert(count_key(e_keys, e_keys[j]) <= count_key(a_keys, e_keys[j])
                    || has_missing_issue(issues@, e_keys[j]));
            }
            assert forall|k: (Seq<u8>, Seq<u8>)|
                count_key(a_keys, k) > 0 && count_key(e_keys, k)
                    == 0 implies #[trigger] has_unused_issue(issues@, k) by {
                lemma_count_key_positive(a_keys, k);
                let j = choose|j: int| 0 <= j < a_keys.len() && a_keys[j] == k;
                assert(count_key(e_keys, a_keys[j]) > 0 || has_unused_issue(issues@, a_keys[j]));
            }
            if issues@.len() == 0 {
                assert forall|k: (Seq<u8>, Seq<u8>)| #[trigger] count_key(e_keys, k) == count_key(
                    a_keys,
                    k,
                ) by {
                    lemma_count_key_positive(e_keys, k);
                    lemma_count_key_positive(a_keys, k);
                    assert forall|x: int, y: int|
                        0 <= x < y < a_keys.len() implies a_keys[x] != a_keys[y] by {
                        assert(a_keys[x] == assumption_key(self.assumptions@[x]@));
                        assert(a_keys[y] == assumption_key(self.assumptions@[y]@));
                    }
                    lemma_count_key_distinct(a_keys, k);
                    if count_key(e_keys, k) > 0 {
                        let j = choose|j: int| 0 <= j < e_keys.len() && e_keys[j] == k;
                        assert(count_key(e_keys, e_keys[j]) <= count_key(a_keys, e_keys[j]));
                    } else {
                        if count_key(a_keys, k) > 0 {
                            let j = choose|j: int| 0 <= j < a_keys.len() && a_keys[j] == k;
                            assert(count_key(e_keys, a_keys[j]) > 0);
                            assert(false);
                        }
                    }
                }
            } else {
                let iss = issues@[0];
                assert(issue_sound(e_keys, a_keys, iss));
                match iss {
                    PreflightIssue::MissingAssumption { image_id, journal_digest } => {
                        assert(count_key(e_keys, (image_id@, journal_digest@)) != count_key(
                            a_keys,
                            (image_id@, journal_digest@),
                        ));
                    },
                    PreflightIssue::UnusedAssumption { image_id, journal_digest } => {
                        assert(count_key(e_keys, (image_id@, journal_digest@)) != count_key(
                            a_keys,
                            (image_id@, journal_digest@),
                        ));
                    },
                    PreflightIssue::InvalidImageIdInExpectation { index } => {
                        assert(expectation_wf(self.expected_verifications@[index as int]));
                        assert(false);
                    },
                }
                assert(!keys_balanced(e_keys, a_keys));
            }
        }
        if raise_on_error && issues.len() > 0 {
            return Err(CompositionError::PreflightFailed(issues));
        }
        Ok(issues)
    }
}

impl Composer {
    /// Assemble the proving request for the backend and consume the
    /// composer.
    ///
    /// Runs the preflight check first when asked (failing with
    /// `PreflightFailed` on an imbalance), refuses `Fake` as a proving mode
    /// and defaults to `Succinct`, and hands back the image's binary, the
    /// input bytes, and the assumptions in insertion order.  A consumed
    /// composer refuses further requests.
    pub fn prove_request(&mut self, kind: Option<ReceiptKind>, preflight: bool) -> (r: Result<
        ProveRequest,
        CompositionError,
    >)
        requires
            old(self).wf(),
        ensures
            final(self).wf(),
            final(self).image == old(self).image,
            final(self).assumptions == old(self).assumptions,
            final(self).assumption_digests == old(self).assumption_digests,
            final(self).input_builder == old(self).input_builder,
            final(self).expected_verifications == old(self).expected_verifications,
            final(self).consumed == (old(self).consumed || r is Ok),
            (r is Ok) <==> (!old(self).consumed && kind != Some(ReceiptKind::Fake) && (preflight
                ==> keys_balanced(old(self).expectation_keys(), old(self).assumption_keys()))),
            r matches Ok(req) ==> req.elf@ == old(self).image.elf_bytes@ && req.input@ == old(
                self,
            ).input_builder@ && req.assumptions@.len() == old(self).assumptions@.len() && (
            forall|i: int|
                0 <= i < req.assumptions@.len() ==> #[trigger] req.assumptions@[i]@ == old(
                    self,
                ).assumptions@[i]@) && req.mode == (match kind {
                Some(k) => k,
                None => ReceiptKind::Succinct,
            }) && req.mode != ReceiptKind::Fake,
            r matches Err(e) ==> (e is ComposerConsumed <==> old(self).consumed),
            r matches Err(e) ==> (e is PreflightFailed <==> (!old(self).consumed && preflight
                && !keys_balanced(old(self).expectation_keys(), old(self).assumption_keys()))),
            r matches Err(e) ==> (e is FakeNotProvable <==> (!old(self).consumed && (preflight
                ==> keys_balanced(old(self).expectation_keys(), old(self).assumption_keys()))
                && kind == Some(ReceiptKind::Fake))),
            r matches Err(e) ==> (e matches CompositionError::PreflightFailed(issues)
                ==> issues@.len() > 0 && issues_complete(
                old(self).expectation_keys(),
                old(self).assumption_keys(),
                issues@,
            ) && (forall|ix: int|
                0 <= ix < issues@.len() ==> issue_sound(
                    old(self).expectation_keys(),
                    old(self).assumption_keys(),
                    #[trigger] issues@[ix],
                ))),
    {
        if self.consumed {
            return Err(CompositionError::ComposerConsumed);
        }
        if preflight {
            match self.preflight_check(true) {
                Ok(_) => {},
                Err(e) => {
                    proof {
                        assert(e is PreflightFailed);
                    }
                    return Err(e);
                },
            }
        }
        let mode: ReceiptKind = match kind {
            None => ReceiptKind::Succinct,
            Some(k) => {
                if k == ReceiptKind::Fake {
                    return Err(CompositionError::FakeNotProvable);
                }
                k
            },
        };
        let n: usize = self.assumptions.len();
        let mut assumptions: Vec<Receipt> = Vec::new();
        let mut i: usize = 0;
        while i < n
            invariant
                *self == *old(self),
                n == self.assumptions@.len(),
                i <= n,
                assumptions@.len() == i,
                forall|j: int|
                    0 <= j < i ==> #[trigger] assumptions@[j]@ == self.assumptions@[j]@,
            decreases n - i,
        {
            assumptions.push(self.assumptions[i].duplicate());
            i += 1;
        }
        let req = ProveRequest {
            elf: clone_bytes(&self.image.elf_bytes),
            input: self.input_builder.build(),
            assumptions,
            mode,
        };
        self.consumed = true;
        Ok(req)
    }
}

/// Interpret what came back from the prover backend for a composed proof.
///
/// A receipt is handed through unchanged.  A failure message that mentions
/// assumptions or verification becomes `ClaimMismatchLikely`—the usual sign
/// that the guest's verification calls do not match the supplied
/// assumptions—and any other message becomes `ProverError`; either way the
/// backend's own words are kept.
pub fn accept_prove_outcome(outcome: Result<Receipt, String>) -> (r: Result<
    Receipt,
    CompositionError,
>)
    ensures
        outcome matches Ok(rec) ==> (r matches Ok(out) && out == rec),
        outcome matches Err(msg) ==> (r matches Err(e) && (match e {
            CompositionError::ClaimMismatchLikely(m) => m == msg
                && (crate::strutil::spec_contains_sub(msg@, "assumption"@)
                || crate::strutil::spec_contains_sub(msg@, "verify"@)),
            CompositionError::ProverError(m) => m == msg && !(crate::strutil::spec_contains_sub(
                msg@,
                "assumption"@,
            ) || crate::strutil::spec_contains_sub(msg@, "verify"@)),
            _ => false,
        })),
{
    match outcome {
        Ok(rec) => Ok(rec),
        Err(msg) => {
            if crate::strutil::message_suggests_claim_mismatch(msg.as_str()) {
                Err(CompositionError::ClaimMismatchLikely(msg))
            } else {
                Err(CompositionError::ProverError(msg))
            }
        },
    }
}

/// Everything except the input buffer is unchanged.
pub open spec fn unchanged_but_input(a: &Composer, b: &Composer) -> bool {
    &&& b.image == a.image
    &&& b.assumptions == a.assumptions
    &&& b.assumption_digests == a.assumption_digests
    &&& b.expected_verifications == a.expected_verifications
    &&& b.consumed == a.consumed
}

} // verus!
