//! The external serialization of receipts: a fixed, length-prefixed
//! little-endian layout, written and parsed byte for byte, with a proved
//! round trip.

use crate::bytesutil::{extend_bytes, read_u32_at, read_u64_at, sub_bytes};
use crate::errors::ReceiptError;
use crate::receipt::{
    ClaimInfo, ClaimInfoView, ExitKind, ExitStatus, Receipt, ReceiptKind, ReceiptView,
};
use vstd::bytes::{
    lemma_auto_spec_u32_to_from_le_bytes, lemma_auto_spec_u64_to_from_le_bytes,
    spec_u32_from_le_bytes, spec_u32_to_le_bytes, spec_u64_from_le_bytes, spec_u64_to_le_bytes,
    u32_to_le_bytes, u64_to_le_bytes,
};
use vstd::prelude::*;

verus! {

/// The byte tag of a receipt kind.
pub open spec fn kind_tag(k: ReceiptKind) -> u8 {
    match k {
        ReceiptKind::Composite => 0u8,
        ReceiptKind::Succinct => 1u8,
        ReceiptKind::Groth16 => 2u8,
        ReceiptKind::Fake => 3u8,
    }
}

/// The receipt kind a byte tag stands for, if any.
pub open spec fn kind_of_tag(t: u8) -> Option<ReceiptKind> {
    if t == 0 {
        Some(ReceiptKind::Composite)
    } else if t == 1 {
        Some(ReceiptKind::Succinct)
    } else if t == 2 {
        Some(ReceiptKind::Groth16)
    } else if t == 3 {
        Some(ReceiptKind::Fake)
    } else {
        None
    }
}

/// The byte tag of an exit kind.
pub open spec fn exit_tag(k: ExitKind) -> u8 {
    match k {
        ExitKind::Halted => 0u8,
        ExitKind::Paused => 1u8,
        ExitKind::SystemSplit => 2u8,
        ExitKind::SessionLimit => 3u8,
        ExitKind::Unknown => 4u8,
    }
}

/// The exit kind a byte tag stands for, if any.
pub open spec fn exit_of_tag(t: u8) -> Option<ExitKind> {
    if t == 0 {
        Some(ExitKind::Halted)
    } else if t == 1 {
        Some(ExitKind::Paused)
    } else if t == 2 {
        Some(ExitKind::SystemSplit)
    } else if t == 3 {
        Some(ExitKind::SessionLimit)
    } else if t == 4 {
        Some(ExitKind::Unknown)
    } else {
        None
    }
}

/// The six-byte encoding of an exit status: kind tag, user-code flag, and
/// the user code as little-endian `u32` (zero where absent).
pub open spec fn spec_encode_exit(e: ExitStatus) -> Seq<u8> {
    seq![exit_tag(e.kind)] + (match e.user_code {
        Some(c) => seq![1u8] + spec_u32_to_le_bytes(c),
        None => seq![0u8] + spec_u32_to_le_bytes(0u32),
    })
}

/// Parse a six-byte exit-status encoding.  Only canonical encodings are
/// accepted: an absent user code must be stored as zero.
pub open spec fn spec_decode_exit(d: Seq<u8>) -> Option<ExitStatus> {
    if d.len() != 6 {
        None
    } else {
        match exit_of_tag(d[0]) {
            None => None,
            Some(k) => {
                let code = spec_u32_from_le_bytes(d.subrange(2, 6));
                if d[1] == 1 {
                    Some(ExitStatus { kind: k, user_code: Some(code) })
                } else if d[1] == 0 && code == 0 {
                    Some(ExitStatus { kind: k, user_code: None })
                } else {
                    None
                }
            },
        }
    }
}

/// A length-prefixed frame: eight little-endian length bytes, then the
/// payload.
pub open spec fn spec_frame(b: Seq<u8>) -> Seq<u8> {
    spec_u64_to_le_bytes(b.len() as u64) + b
}

/// Read the frame that starts at `start`: the payload and the position just
/// after it.
pub open spec fn spec_take_frame(d: Seq<u8>, start: int) -> Option<(Seq<u8>, int)> {
    if start + 8 <= d.len() {
        let n = spec_u64_from_le_bytes(d.subrange(start, start + 8)) as int;
        if start + 8 + n <= d.len() {
            Some((d.subrange(start + 8, start + 8 + n), start + 8 + n))
        } else {
            None
        }
    } else {
        None
    }
}

/// The serialized form of a receipt: kind tag, unresolved-assumption count,
/// claim-presence flag with the claim data where present, then the seal and
/// the journal as length-prefixed frames.
pub open spec fn spec_encode_receipt(v: ReceiptView) -> Seq<u8> {
    seq![kind_tag(v.receipt_kind)] + spec_u64_to_le_bytes(v.unresolved as u64) + (
    match v.claim_info {
        None => seq![0u8],
        Some(ci) => seq![1u8] + ci.image_id + spec_encode_exit(ci.exit),
    }) + spec_frame(v.seal) + spec_frame(v.journal)
}

/// Parse the seal and journal frames that close an encoding, insisting that
/// the journal frame ends exactly at the end of the input.
pub open spec fn spec_decode_rest(
    d: Seq<u8>,
    start: int,
    claim_info: Option<ClaimInfoView>,
    kind: ReceiptKind,
    unresolved: u64,
) -> Option<ReceiptView> {
    match spec_take_frame(d, start) {
        None => None,
        Some((seal, p)) => match spec_take_frame(d, p) {
            None => None,
            Some((journal, q)) => if q == d.len() {
                Some(
                    ReceiptView {
                        seal,
                        journal,
                        claim_info,
                        receipt_kind: kind,
                        unresolved: unresolved as nat,
                    },
                )
            } else {
                None
            },
        },
    }
}

/// Parse a serialized receipt.  Exactly the well-formed values produced by
/// [`spec_encode_receipt`] are accepted.
pub open spec fn spec_decode_receipt(d: Seq<u8>) -> Option<ReceiptView> {
    if d.len() < 10 {
        None
    } else {
        match kind_of_tag(d[0]) {
            None => None,
            Some(kind) => {
                let unresolved = spec_u64_from_le_bytes(d.subrange(1, 9));
                if unresolved > usize::MAX as u64 {
                    None
                } else if kind != ReceiptKind::Composite && unresolved != 0 {
                    None
                } else if d[9] == 0 {
                    spec_decode_rest(d, 10, None, kind, unresolved)
                } else if d[9] == 1 {
                    if d.len() < 48 {
                        None
                    } else {
                        match spec_decode_exit(d.subrange(42, 48)) {
                            None => None,
                            Some(exit) => spec_decode_rest(
                                d,
                                48,
                                Some(ClaimInfoView { image_id: d.subrange(10, 42), exit }),
                                kind,
                                unresolved,
                            ),
                        }
                    }
                } else {
                    None
                }
            },
        }
    }
}

impl Receipt {
    /// Serialize this receipt for storage or transport.
    pub fn to_bytes(&self) -> (out: Vec<u8>)
        ensures
            out@ == spec_encode_receipt(self@),
    {
        let mut out: Vec<u8> = Vec::new();
        let tag: u8 = match self.receipt_kind {
            ReceiptKind::Composite => 0u8,
            ReceiptKind::Succinct => 1u8,
            ReceiptKind::Groth16 => 2u8,
            ReceiptKind::Fake => 3u8,
        };
        out.push(tag);
        let count_bytes = u64_to_le_bytes(self.unresolved as u64);
        extend_bytes(&mut out, count_bytes.as_slice());
        match &self.claim_info {
            None => {
                out.push(0u8);
            },
            Some(ci) => {
                out.push(1u8);
                extend_bytes(&mut out, ci.image_id.as_slice());
                let etag: u8 = match ci.exit.kind {
                    ExitKind::Halted => 0u8,
                    ExitKind::Paused => 1u8,
                    ExitKind::SystemSplit => 2u8,
                    ExitKind::SessionLimit => 3u8,
                    ExitKind::Unknown => 4u8,
                };
                out.push(etag);
                match ci.exit.user_code {
                    Some(c) => {
                        out.push(1u8);
                        let code_bytes = u32_to_le_bytes(c);
                        extend_bytes(&mut out, code_bytes.as_slice());
                    },
                    None => {
                        out.push(0u8);
                        let code_bytes = u32_to_le_bytes(0u32);
                        extend_bytes(&mut out, code_bytes.as_slice());
                    },
                }
            },
        }
        let seal_len_bytes = u64_to_le_bytes(self.seal.len() as u64);
        extend_bytes(&mut out, seal_len_bytes.as_slice());
        extend_bytes(&mut out, self.seal.as_slice());
        let journal_len_bytes = u64_to_le_bytes(self.journal.len() as u64);
        extend_bytes(&mut out, journal_len_bytes.as_slice());
        extend_bytes(&mut out, self.journal.as_slice());
        assert(out@ =~= spec_encode_receipt(self@));
        out
    }

    /// Parse a receipt serialized by [`Receipt::to_bytes`].  Any input that
    /// is not such an encoding fails with `DeserializeFailed`.
    pub fn from_bytes(data: Vec<u8>) -> (r: Result<Receipt, ReceiptError>)
        ensures
            spec_decode_receipt(data@) matches Some(v) ==> r matches Ok(rec) && rec@ == v
                && rec.wf(),
            (spec_decode_receipt(data@) is None) ==> (r matches Err(e) && e
                == ReceiptError::DeserializeFailed),
            (r is Ok) <==> (spec_decode_receipt(data@) is Some),
    {
        let len: usize = data.len();
        if len < 10 {
            return Err(ReceiptError::DeserializeFailed);
        }
        let kind: ReceiptKind = if data[0] == 0 {
            ReceiptKind::Composite
        } else if data[0] == 1 {
            ReceiptKind::Succinct
        } else if data[0] == 2 {
            ReceiptKind::Groth16
        } else if data[0] == 3 {
            ReceiptKind::Fake
        } else {
            return Err(ReceiptError::DeserializeFailed);
        };
        let unresolved64: u64 = read_u64_at(&data, 1);
        if unresolved64 > usize::MAX as u64 {
            return Err(ReceiptError::DeserializeFailed);
        }
        let unresolved: usize = unresolved64 as usize;
        if kind != ReceiptKind::Composite && unresolved != 0 {
            return Err(ReceiptError::DeserializeFailed);
        }
        let has_claim: u8 = data[9];
        if has_claim != 0 && has_claim != 1 {
            return Err(ReceiptError::DeserializeFailed);
        }
        let claim_info: Option<ClaimInfo>;
        let mut pos: usize;
        if has_claim == 1 {
            if len < 48 {
                return Err(ReceiptError::DeserializeFailed);
            }
            let image_id = sub_bytes(&data, 10, 32);
            let ekind: ExitKind = if data[42] == 0 {
                ExitKind::Halted
            } else if data[42] == 1 {
                ExitKind::Paused
            } else if data[42] == 2 {
                ExitKind::SystemSplit
            } else if data[42] == 3 {
                ExitKind::SessionLimit
            } else if data[42] == 4 {
                ExitKind::Unknown
            } else {
                return Err(ReceiptError::DeserializeFailed);
            };
            let flag: u8 = data[43];
            let code: u32 = read_u32_at(&data, 44);
            assert(data@.subrange(42, 48).subrange(2, 6) =~= data@.subrange(44, 48));
            assert(data@.subrange(42, 48)[0] == data@[42]);
            assert(data@.subrange(42, 48)[1] == data@[43]);
            let user_code: Option<u32> = if flag == 1 {
                Some(code)
            } else if flag == 0 && code == 0 {
                None
            } else {
                return Err(ReceiptError::DeserializeFailed);
            };
            claim_info = Some(ClaimInfo { image_id, exit: ExitStatus { kind: ekind, user_code } });
            pos = 48;
        } else {
            claim_info = None;
            pos = 10;
        }
        // Seal frame.
        if len - pos < 8 {
            return Err(ReceiptError::DeserializeFailed);
        }
        let seal_len64: u64 = read_u64_at(&data, pos);
        if seal_len64 > (len - pos - 8) as u64 {
            return Err(ReceiptError::DeserializeFailed);
        }
        let seal_len: usize = seal_len64 as usize;
        let seal = sub_bytes(&data, pos + 8, seal_len);
        let ghost seal_start: int = pos as int;
        pos = pos + 8 + seal_len;
        // Journal frame.
        if len - pos < 8 {
            return Err(ReceiptError::DeserializeFailed);
        }
        let journal_len64: u64 = read_u64_at(&data, pos);
        if journal_len64 > (len - pos - 8) as u64 {
            return Err(ReceiptError::DeserializeFailed);
        }
        let journal_len: usize = journal_len64 as usize;
        let journal = sub_bytes(&data, pos + 8, journal_len);
        pos = pos + 8 + journal_len;
        if pos != len {
            return Err(ReceiptError::DeserializeFailed);
        }
        let rec = Receipt { seal, journal, claim_info, receipt_kind: kind, unresolved };
        proof {
            let v = spec_decode_receipt(data@)->Some_0;
            assert(rec@ =~~= v);
        }
        Ok(rec)
    }
}

/// Serialization round trip: parsing the encoding of any well-formed
/// receipt value yields that value again.
pub proof fn lemma_receipt_codec_round_trip(v: ReceiptView)
    requires
        v.wf(),
        v.seal.len() <= u64::MAX,
        v.journal.len() <= u64::MAX,
        v.unresolved <= u64::MAX,
    ensures
        spec_decode_receipt(spec_encode_receipt(v)) == Some(v),
{
    lemma_auto_spec_u64_to_from_le_bytes();
    lemma_auto_spec_u32_to_from_le_bytes();
    let d = spec_encode_receipt(v);
    let claim_part: Seq<u8> = match v.claim_info {
        None => seq![0u8],
        Some(ci) => seq![1u8] + ci.image_id + spec_encode_exit(ci.exit),
    };
    let body_start: int = 10 + (match v.claim_info {
        None => 0int,
        Some(ci) => 38int,
    });
    assert(claim_part.len() == body_start - 9);
    assert(d =~= seq![kind_tag(v.receipt_kind)] + spec_u64_to_le_bytes(v.unresolved as u64)
        + claim_part + spec_frame(v.seal) + spec_frame(v.journal));
    assert(d.len() == body_start + 8 + v.seal.len() + 8 + v.journal.len());
    assert(d[0] == kind_tag(v.receipt_kind));
    assert(kind_of_tag(kind_tag(v.receipt_kind)) == Some(v.receipt_kind));
    assert(d.subrange(1, 9) =~= spec_u64_to_le_bytes(v.unresolved as u64));
    assert(spec_u64_from_le_bytes(d.subrange(1, 9)) == v.unresolved as u64);
    assert(v.unresolved as u64 <= usize::MAX as u64);
    assert(d[9] == claim_part[0]);
    match v.claim_info {
        None => {
            assert(d[9] == 0);
        },
        Some(ci) => {
            assert(d[9] == 1);
            assert(d.len() >= 48);
            assert(d.subrange(10, 42) =~= ci.image_id);
            assert(d.subrange(42, 48) =~= spec_encode_exit(ci.exit));
            lemma_exit_codec_round_trip(ci.exit);
            assert(spec_decode_exit(d.subrange(42, 48)) == Some(ci.exit));
        },
    }
    // Seal frame.
    assert(d.subrange(body_start, body_start + 8) =~= spec_u64_to_le_bytes(v.seal.len() as u64));
    assert(spec_u64_from_le_bytes(d.subrange(body_start, body_start + 8)) == v.seal.len() as u64);
    assert(d.subrange(body_start + 8, body_start + 8 + v.seal.len() as int) =~= v.seal);
    let p = body_start + 8 + v.seal.len() as int;
    assert(spec_take_frame(d, body_start) == Some((v.seal, p)));
    // Journal frame.
    assert(d.subrange(p, p + 8) =~= spec_u64_to_le_bytes(v.journal.len() as u64));
    assert(spec_u64_from_le_bytes(d.subrange(p, p + 8)) == v.journal.len() as u64);
    assert(d.subrange(p + 8, p + 8 + v.journal.len() as int) =~= v.journal);
    let q = p + 8 + v.journal.len() as int;
    assert(spec_take_frame(d, p) == Some((v.journal, q)));
    assert(q == d.len());
    let decoded = spec_decode_receipt(d)->Some_0;
    assert(decoded =~~= v);
}

/// Round trip of the exit-status encoding.
pub proof fn lemma_exit_codec_round_trip(e: ExitStatus)
    ensures
        spec_decode_exit(spec_encode_exit(e)) == Some(e),
{
    lemma_auto_spec_u32_to_from_le_bytes();
    let d = spec_encode_exit(e);
    assert(d.len() == 6);
    assert(d[0] == exit_tag(e.kind));
    assert(exit_of_tag(exit_tag(e.kind)) == Some(e.kind));
    match e.user_code {
        Some(c) => {
            assert(d[1] == 1);
            assert(d.subrange(2, 6) =~= spec_u32_to_le_bytes(c));
            assert(spec_u32_from_le_bytes(d.subrange(2, 6)) == c);
        },
        None => {
            assert(d[1] == 0);
            assert(d.subrange(2, 6) =~= spec_u32_to_le_bytes(0u32));
            assert(spec_u32_from_le_bytes(d.subrange(2, 6)) == 0);
        },
    }
}

} // verus!
