use pyr0::errors::CompressError;
use pyr0::receipt::{ClaimInfo, ExitKind, ExitStatus, Receipt, ReceiptKind};
use pyr0::{accept_compressed, classify_compress_error, compress_request};

fn ok_exit() -> ExitStatus {
    ExitStatus { kind: ExitKind::Halted, user_code: Some(0) }
}

fn receipt(kind: ReceiptKind, unresolved: usize, id_byte: u8, journal: &[u8]) -> Receipt {
    Receipt::from_risc0(
        vec![0xcc],
        journal.to_vec(),
        Some(ClaimInfo { image_id: vec![id_byte; 32], exit: ok_exit() }),
        kind,
        unresolved,
    )
    .unwrap()
}

#[test]
fn already_succinct_is_refused() {
    let r = receipt(ReceiptKind::Succinct, 0, 1, b"");
    assert!(matches!(compress_request(&r, &None), Err(CompressError::AlreadySuccinct)));
}

#[test]
fn unresolved_assumptions_need_supplying() {
    let r = receipt(ReceiptKind::Composite, 2, 1, b"");
    assert!(matches!(compress_request(&r, &None), Err(CompressError::UnresolvedAssumptions)));
}

#[test]
fn supplied_assumptions_must_be_unconditional() {
    let r = receipt(ReceiptKind::Composite, 1, 1, b"");
    let conditional =
        Receipt::from_risc0(vec![], vec![], None, ReceiptKind::Composite, 0).unwrap();
    let good = receipt(ReceiptKind::Succinct, 0, 2, b"x");
    assert!(matches!(
        compress_request(&r, &Some(vec![good, conditional])),
        Err(CompressError::ConditionalAssumption)
    ));
}

#[test]
fn valid_requests_pass() {
    let r = receipt(ReceiptKind::Composite, 1, 1, b"");
    let good = receipt(ReceiptKind::Succinct, 0, 2, b"x");
    assert!(compress_request(&r, &Some(vec![good])).is_ok());
    // A composite receipt with no unresolved assumptions needs nothing.
    let clean = receipt(ReceiptKind::Composite, 0, 1, b"");
    assert!(compress_request(&clean, &None).is_ok());
    // Groth16 receipts may be re-compressed without assumptions.
    let groth = receipt(ReceiptKind::Groth16, 0, 1, b"");
    assert!(compress_request(&groth, &None).is_ok());
}

#[test]
fn backend_errors_are_classified_by_message() {
    assert!(matches!(
        classify_compress_error("receipt has an unresolved assumption".to_string()),
        CompressError::UnresolvedAssumptions
    ));
    match classify_compress_error("disk full".to_string()) {
        CompressError::CompressFailed(m) => assert_eq!(m, "disk full"),
        other => panic!("unexpected: {other:?}"),
    }
}

#[test]
fn accepted_compression_is_unconditional_with_same_claim_key() {
    let original = receipt(ReceiptKind::Composite, 0, 7, b"journal");
    let outcome = receipt(ReceiptKind::Succinct, 0, 7, b"journal");
    let c = accept_compressed(&original, outcome).unwrap();
    assert!(c.is_unconditional());
    assert_eq!(c.kind(), ReceiptKind::Succinct);
    assert_eq!(c.assumption_count(), 0);
    assert_eq!(
        c.claimed_image_id_bytes().unwrap(),
        original.claimed_image_id_bytes().unwrap()
    );
}

#[test]
fn compression_outcomes_that_do_not_close_the_claim_are_refused() {
    let original = receipt(ReceiptKind::Composite, 0, 7, b"journal");
    // Still composite: not accepted.
    let still_composite = receipt(ReceiptKind::Composite, 0, 7, b"journal");
    assert!(matches!(
        accept_compressed(&original, still_composite),
        Err(CompressError::CompressFailed(_))
    ));
    // Wrong image id.
    let wrong_id = receipt(ReceiptKind::Succinct, 0, 8, b"journal");
    assert!(matches!(
        accept_compressed(&original, wrong_id),
        Err(CompressError::CompressFailed(_))
    ));
    // Wrong journal.
    let wrong_journal = receipt(ReceiptKind::Succinct, 0, 7, b"other");
    assert!(matches!(
        accept_compressed(&original, wrong_journal),
        Err(CompressError::CompressFailed(_))
    ));
}
