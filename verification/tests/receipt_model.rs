use pyr0::errors::ReceiptError;
use pyr0::receipt::{ClaimInfo, ExitKind, ExitStatus, Receipt, ReceiptKind};
use sha2::Digest;

fn ok_exit() -> ExitStatus {
    ExitStatus { kind: ExitKind::Halted, user_code: Some(0) }
}

fn sample_receipt(journal: Vec<u8>, id_byte: u8, kind: ReceiptKind) -> Receipt {
    Receipt::from_risc0(
        vec![0xde, 0xad, 0xbe, 0xef],
        journal,
        Some(ClaimInfo { image_id: vec![id_byte; 32], exit: ok_exit() }),
        kind,
        0,
    )
    .unwrap()
}

#[test]
fn claim_digest_is_sha256_of_journal() {
    let journal = b"hello zkvm".to_vec();
    let r = sample_receipt(journal.clone(), 7, ReceiptKind::Succinct);
    let claim = r.claim().unwrap();
    let expected: Vec<u8> = sha2::Sha256::digest(&journal).to_vec();
    assert_eq!(claim.journal_digest, expected);
    assert_eq!(claim.journal, journal);
    assert_eq!(claim.image_id, vec![7u8; 32]);
    assert_eq!(claim.exit_code, 0);
    assert!(claim.is_success());
}

#[test]
fn claim_digest_of_empty_journal_matches_known_vector() {
    let r = sample_receipt(Vec::new(), 1, ReceiptKind::Succinct);
    let claim = r.claim().unwrap();
    assert_eq!(
        claim.journal_digest_hex(),
        "e3b0c44298fc1c149afbf4c8996fb92427ae41e4649b934ca495991b7852b855"
    );
}

#[test]
fn claim_new_rejects_short_image_id() {
    assert!(matches!(
        pyr0::claim::Claim::new(vec![0u8; 31], vec![], 0),
        Err(ReceiptError::InvalidLength)
    ));
}

#[test]
fn claim_matches_compares_id_and_journal() {
    let c = pyr0::claim::Claim::new(vec![2u8; 32], vec![1, 2, 3], 0).unwrap();
    assert!(c.matches(vec![2u8; 32], vec![1, 2, 3]));
    assert!(!c.matches(vec![3u8; 32], vec![1, 2, 3]));
    assert!(!c.matches(vec![2u8; 32], vec![1, 2]));
}

#[test]
fn pruned_receipt_hides_claim_but_keeps_journal() {
    let r = Receipt::from_risc0(vec![1, 2], vec![3, 4], None, ReceiptKind::Composite, 2).unwrap();
    assert!(matches!(r.claim(), Err(ReceiptError::ClaimPruned)));
    assert!(matches!(r.exit(), Err(ReceiptError::ClaimPruned)));
    assert!(matches!(r.exit_code(), Err(ReceiptError::ClaimPruned)));
    assert!(matches!(r.claimed_image_id_hex(), Err(ReceiptError::ClaimPruned)));
    assert!(matches!(r.claimed_image_id_bytes(), Err(ReceiptError::ClaimPruned)));
    assert!(matches!(r.program_id(), Err(ReceiptError::ClaimPruned)));
    assert!(matches!(r.verify_integrity(), Err(ReceiptError::IntegrityFailed)));
    assert_eq!(r.journal_bytes(), vec![3, 4]);
    assert_eq!(r.journal_len(), 2);
    assert_eq!(r.assumption_count(), 2);
}

#[test]
fn kinds_and_unconditionality() {
    let composite =
        Receipt::from_risc0(vec![], vec![], None, ReceiptKind::Composite, 1).unwrap();
    assert_eq!(composite.kind(), ReceiptKind::Composite);
    assert!(!composite.is_unconditional());
    assert!(!composite.is_succinct());
    assert_eq!(composite.assumption_count(), 1);

    let succinct = sample_receipt(vec![], 0, ReceiptKind::Succinct);
    assert!(succinct.is_unconditional());
    assert!(succinct.is_succinct());
    assert_eq!(succinct.assumption_count(), 0);

    let groth16 = sample_receipt(vec![], 0, ReceiptKind::Groth16);
    assert!(groth16.is_unconditional());
    assert!(!groth16.is_succinct());

    let fake = sample_receipt(vec![], 0, ReceiptKind::Fake);
    assert!(fake.is_unconditional());
}

#[test]
fn non_composite_receipts_carry_no_assumptions() {
    // Whatever the backend reported, a succinct receipt has none left.
    let r = Receipt::from_risc0(vec![], vec![], None, ReceiptKind::Succinct, 5).unwrap();
    assert_eq!(r.assumption_count(), 0);
}

#[test]
fn journal_views() {
    let r = sample_receipt(b"ab\xff".to_vec(), 0, ReceiptKind::Succinct);
    assert_eq!(r.journal_hex(), "6162ff");
    assert_eq!(r.journal_text(), None);
    let t = sample_receipt(b"hello".to_vec(), 0, ReceiptKind::Succinct);
    assert_eq!(t.journal_text(), Some("hello".to_string()));
    assert_eq!(t.journal(), b"hello".to_vec());
    assert_eq!(t.seal_size(), 4);
}

#[test]
fn claimed_image_id_rendering() {
    let r = sample_receipt(vec![], 0xab, ReceiptKind::Succinct);
    assert_eq!(r.claimed_image_id_hex().unwrap(), "ab".repeat(32));
    assert_eq!(r.claimed_image_id_bytes().unwrap(), vec![0xab; 32]);
}

#[test]
fn matches_image_id_checks_length_and_bytes() {
    let r = sample_receipt(vec![], 0x11, ReceiptKind::Succinct);
    assert!(matches!(r.matches_image_id(vec![0; 4]), Err(ReceiptError::InvalidLength)));
    assert_eq!(r.matches_image_id(vec![0x11; 32]).unwrap(), true);
    assert_eq!(r.matches_image_id(vec![0x12; 32]).unwrap(), false);
}

#[test]
fn from_risc0_rejects_bad_claim_id() {
    let r = Receipt::from_risc0(
        vec![],
        vec![],
        Some(ClaimInfo { image_id: vec![0u8; 16], exit: ok_exit() }),
        ReceiptKind::Succinct,
        0,
    );
    assert!(matches!(r, Err(ReceiptError::InvalidLength)));
}
