use pyr0::composer::{accept_prove_outcome, Composer};
use pyr0::errors::{CompositionError, PreflightIssue};
use pyr0::image::Image;
use pyr0::receipt::{ClaimInfo, ExitKind, ExitStatus, Receipt, ReceiptKind};
use sha2::Digest;

fn image() -> Image {
    Image::from_elf(b"not a real elf", vec![0x99; 32]).unwrap()
}

fn ok_exit() -> ExitStatus {
    ExitStatus { kind: ExitKind::Halted, user_code: Some(0) }
}

fn succinct_receipt(id_byte: u8, journal: Vec<u8>) -> Receipt {
    Receipt::from_risc0(
        vec![id_byte, 1, 2],
        journal,
        Some(ClaimInfo { image_id: vec![id_byte; 32], exit: ok_exit() }),
        ReceiptKind::Succinct,
        0,
    )
    .unwrap()
}

#[test]
fn dedup_keeps_one_receipt_per_claim_key() {
    let mut c = Composer::new(image());
    let r = succinct_receipt(1, b"seven".to_vec());
    c.add_assumption(r.duplicate()).unwrap();
    assert_eq!(c.assumption_count(), 1);
    c.add_assumption(r.duplicate()).unwrap();
    assert_eq!(c.assumption_count(), 1);
    // A distinct receipt with the same (image id, journal digest) is also
    // discarded, even though its seal differs.
    let same_key = Receipt::from_risc0(
        vec![0xaa, 0xbb],
        b"seven".to_vec(),
        Some(ClaimInfo { image_id: vec![1; 32], exit: ok_exit() }),
        ReceiptKind::Groth16,
        0,
    )
    .unwrap();
    c.add_assumption(same_key).unwrap();
    assert_eq!(c.assumption_count(), 1);
    // A different journal is a different key.
    c.add_assumption(succinct_receipt(1, b"eight".to_vec())).unwrap();
    assert_eq!(c.assumption_count(), 2);
}

#[test]
fn composite_receipt_is_rejected_as_assumption() {
    let mut c = Composer::new(image());
    let r = Receipt::from_risc0(vec![], vec![], None, ReceiptKind::Composite, 1).unwrap();
    assert!(matches!(c.add_assumption(r), Err(CompositionError::IsComposite)));
    assert_eq!(c.assumption_count(), 0);
}

#[test]
fn fake_receipt_is_rejected_as_assumption() {
    let mut c = Composer::new(image());
    let r = Receipt::from_risc0(
        vec![],
        vec![],
        Some(ClaimInfo { image_id: vec![3; 32], exit: ok_exit() }),
        ReceiptKind::Fake,
        0,
    )
    .unwrap();
    assert!(matches!(c.add_assumption(r), Err(CompositionError::IsFake)));
}

#[test]
fn failed_exit_is_rejected_as_assumption() {
    let mut c = Composer::new(image());
    let r = Receipt::from_risc0(
        vec![],
        vec![],
        Some(
            ClaimInfo {
                image_id: vec![3; 32],
                exit: ExitStatus { kind: ExitKind::Halted, user_code: Some(1) },
            },
        ),
        ReceiptKind::Succinct,
        0,
    )
    .unwrap();
    assert!(matches!(c.add_assumption(r), Err(CompositionError::FailedExit)));
}

#[test]
fn pruned_receipt_is_rejected_as_assumption() {
    let mut c = Composer::new(image());
    let r = Receipt::from_risc0(vec![], vec![], None, ReceiptKind::Succinct, 0).unwrap();
    assert!(matches!(c.add_assumption(r), Err(CompositionError::ClaimPruned)));
}

#[test]
fn assume_many_stops_at_first_bad_receipt() {
    let mut c = Composer::new(image());
    let good = succinct_receipt(1, vec![1]);
    let bad = Receipt::from_risc0(vec![], vec![], None, ReceiptKind::Composite, 0).unwrap();
    let good2 = succinct_receipt(2, vec![2]);
    let r = c.assume_many(vec![good, bad, good2]);
    assert!(matches!(r, Err(CompositionError::IsComposite)));
    assert_eq!(c.assumption_count(), 1);
}

#[test]
fn expect_verification_validates_id_length() {
    let mut c = Composer::new(image());
    assert!(matches!(
        c.expect_verification(vec![1; 31], vec![]),
        Err(CompositionError::InvalidLength)
    ));
    assert!(c.expect_verification(vec![1; 32], vec![]).is_ok());
}

#[test]
fn composer_write_operations_frame_like_the_builder() {
    let mut c = Composer::new(image());
    c.write_u32(1).unwrap();
    c.write_u64(2).unwrap();
    c.write_raw_bytes(vec![9]).unwrap();
    c.write_frame(vec![7, 8]).unwrap();
    c.write_cbor(vec![0xa0]).unwrap();
    c.write_cbor_frame(vec![0xa1]).unwrap();
    assert!(matches!(c.write_bytes32(vec![0; 3]), Err(CompositionError::InvalidLength)));
    let mut expected = 1u32.to_le_bytes().to_vec();
    expected.extend_from_slice(&2u64.to_le_bytes());
    expected.push(9);
    expected.extend_from_slice(&2u64.to_le_bytes());
    expected.extend_from_slice(&[7, 8]);
    expected.push(0xa0);
    expected.extend_from_slice(&1u64.to_le_bytes());
    expected.push(0xa1);
    assert_eq!(c.input_size(), expected.len());
    let req = c.prove_request(None, false).unwrap();
    assert_eq!(req.input, expected);
}

#[test]
fn preflight_reports_missing_assumption() {
    let mut c = Composer::new(image());
    c.expect_verification(vec![7; 32], b"j".to_vec()).unwrap();
    let err = c.preflight_check(true).unwrap_err();
    match err {
        CompositionError::PreflightFailed(issues) => {
            assert_eq!(issues.len(), 1);
            match &issues[0] {
                PreflightIssue::MissingAssumption { image_id, journal_digest } => {
                    assert_eq!(image_id, &vec![7u8; 32]);
                    let expected: Vec<u8> = sha2::Sha256::digest(b"j").to_vec();
                    assert_eq!(journal_digest, &expected);
                },
                other => panic!("unexpected issue: {other:?}"),
            }
        },
        other => panic!("unexpected error: {other:?}"),
    }
}

#[test]
fn preflight_reports_unused_assumption() {
    let mut c = Composer::new(image());
    c.add_assumption(succinct_receipt(5, b"x".to_vec())).unwrap();
    let err = c.preflight_check(true).unwrap_err();
    match err {
        CompositionError::PreflightFailed(issues) => {
            assert_eq!(issues.len(), 1);
            assert!(matches!(&issues[0], PreflightIssue::UnusedAssumption { .. }));
        },
        other => panic!("unexpected error: {other:?}"),
    }
}

#[test]
fn preflight_reports_shortfall_once_per_key() {
    // The guest will verify the same claim twice, but only one assumption
    // carries it: one missing-assumption issue for that key.
    let mut c = Composer::new(image());
    c.add_assumption(succinct_receipt(7, b"j".to_vec())).unwrap();
    c.expect_verification(vec![7; 32], b"j".to_vec()).unwrap();
    c.expect_verification(vec![7; 32], b"j".to_vec()).unwrap();
    let err = c.preflight_check(true).unwrap_err();
    match err {
        CompositionError::PreflightFailed(issues) => {
            assert_eq!(issues.len(), 1);
            assert!(matches!(&issues[0], PreflightIssue::MissingAssumption { .. }));
        },
        other => panic!("unexpected error: {other:?}"),
    }
}

#[test]
fn preflight_without_raise_returns_issues() {
    let mut c = Composer::new(image());
    c.add_assumption(succinct_receipt(5, b"x".to_vec())).unwrap();
    let issues = c.preflight_check(false).unwrap();
    assert_eq!(issues.len(), 1);
}

#[test]
fn preflight_passes_when_balanced() {
    let mut c = Composer::new(image());
    let r = succinct_receipt(5, b"x".to_vec());
    c.add_assumption(r.duplicate()).unwrap();
    c.add_assumption(r).unwrap();
    c.expect_verification(vec![5; 32], b"x".to_vec()).unwrap();
    assert_eq!(c.preflight_check(true).unwrap().len(), 0);
}

#[test]
fn prove_request_assembles_composition() {
    // The composer half of a composed run: an inner receipt whose guest
    // committed the sum 7, an outer guest that reads the expected sum and
    // the inner image id, then verifies the inner claim.
    let inner_journal = 7u32.to_le_bytes().to_vec();
    let inner = succinct_receipt(0x11, inner_journal.clone());
    let mut c = Composer::new(image());
    c.add_assumption(inner).unwrap();
    c.write_u32(7).unwrap();
    c.write_image_id(vec![0x11; 32]).unwrap();
    c.expect_verification(vec![0x11; 32], inner_journal).unwrap();
    let req = c.prove_request(None, true).unwrap();
    assert_eq!(req.mode, ReceiptKind::Succinct);
    assert_eq!(req.elf, b"not a real elf".to_vec());
    assert_eq!(req.assumptions.len(), 1);
    let mut expected_input = 7u32.to_le_bytes().to_vec();
    expected_input.extend_from_slice(&[0x11; 32]);
    assert_eq!(req.input, expected_input);
    assert_eq!(c.input_size(), 36);
    // The composer is consumed now.
    let again = c.prove_request(None, false);
    assert!(matches!(again, Err(CompositionError::ComposerConsumed)));
}

#[test]
fn prove_request_runs_preflight() {
    let mut c = Composer::new(image());
    c.expect_verification(vec![7; 32], vec![]).unwrap();
    assert!(matches!(
        c.prove_request(None, true),
        Err(CompositionError::PreflightFailed(_))
    ));
    // Not consumed by the failure; without preflight the request goes out.
    let req = c.prove_request(Some(ReceiptKind::Composite), false).unwrap();
    assert_eq!(req.mode, ReceiptKind::Composite);
}

#[test]
fn prove_request_rejects_fake_mode() {
    let mut c = Composer::new(image());
    assert!(matches!(
        c.prove_request(Some(ReceiptKind::Fake), false),
        Err(CompositionError::FakeNotProvable)
    ));
}

#[test]
fn prove_outcome_classification() {
    let rec = succinct_receipt(1, vec![]);
    let out = accept_prove_outcome(Ok(rec)).unwrap();
    assert_eq!(out.kind(), ReceiptKind::Succinct);

    let mismatch = accept_prove_outcome(Err(
        "guest env::verify call failed: no assumption matches the claim".to_string(),
    ));
    assert!(matches!(mismatch, Err(CompositionError::ClaimMismatchLikely(_))));

    let plain = accept_prove_outcome(Err("out of memory".to_string()));
    assert!(matches!(plain, Err(CompositionError::ProverError(_))));
}

#[test]
fn consumed_composer_refuses_every_operation() {
    let mut c = Composer::new(image());
    c.prove_request(None, false).unwrap();
    assert!(matches!(
        c.add_assumption(succinct_receipt(1, vec![])),
        Err(CompositionError::ComposerConsumed)
    ));
    assert!(matches!(
        c.assume_many(vec![succinct_receipt(2, vec![])]),
        Err(CompositionError::ComposerConsumed)
    ));
    assert!(matches!(c.write_u32(1), Err(CompositionError::ComposerConsumed)));
    assert!(matches!(c.write_u64(1), Err(CompositionError::ComposerConsumed)));
    assert!(matches!(c.write_raw_bytes(vec![1]), Err(CompositionError::ComposerConsumed)));
    assert!(matches!(c.write_frame(vec![1]), Err(CompositionError::ComposerConsumed)));
    assert!(matches!(c.write_cbor(vec![1]), Err(CompositionError::ComposerConsumed)));
    assert!(matches!(c.write_cbor_frame(vec![1]), Err(CompositionError::ComposerConsumed)));
    assert!(matches!(
        c.write_bytes32(vec![1; 32]),
        Err(CompositionError::ComposerConsumed)
    ));
    assert!(matches!(
        c.write_image_id(vec![1; 32]),
        Err(CompositionError::ComposerConsumed)
    ));
    assert!(matches!(
        c.expect_verification(vec![1; 32], vec![]),
        Err(CompositionError::ComposerConsumed)
    ));
    assert!(matches!(c.preflight_check(true), Err(CompositionError::ComposerConsumed)));
    assert!(matches!(c.preflight_check(false), Err(CompositionError::ComposerConsumed)));
    assert!(matches!(c.prove_request(None, false), Err(CompositionError::ComposerConsumed)));
    // Nothing slipped in after consumption.
    assert_eq!(c.assumption_count(), 0);
    assert_eq!(c.input_size(), 0);
}

#[test]
fn executor_env_collects_assumptions_and_input() {
    let mut env = pyr0::executor_env::PyExecutorEnv::new();
    env.add_assumption(succinct_receipt(1, vec![]));
    env.write(vec![1, 2]);
    env.write(vec![3]);
    let built = env.build_env();
    assert_eq!(built.input, vec![1, 2, 3]);
    assert_eq!(built.assumptions.len(), 1);
    assert_eq!(built.assumptions[0].kind(), ReceiptKind::Succinct);
}
