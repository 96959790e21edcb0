use pyr0::errors::ReceiptError;
use pyr0::receipt::{ClaimInfo, ExitKind, ExitStatus, Receipt, ReceiptKind};

fn receipt_with_exit(exit: ExitStatus) -> Receipt {
    Receipt::from_risc0(
        vec![1, 2, 3],
        b"journal".to_vec(),
        Some(ClaimInfo { image_id: vec![0x42; 32], exit }),
        ReceiptKind::Succinct,
        0,
    )
    .unwrap()
}

#[test]
fn exit_ok_is_halted_zero() {
    assert!(ExitStatus { kind: ExitKind::Halted, user_code: Some(0) }.ok());
    assert!(!ExitStatus { kind: ExitKind::Halted, user_code: Some(1) }.ok());
    assert!(!ExitStatus { kind: ExitKind::Paused, user_code: Some(0) }.ok());
    assert!(!ExitStatus { kind: ExitKind::SystemSplit, user_code: None }.ok());
    assert!(!ExitStatus { kind: ExitKind::SessionLimit, user_code: None }.ok());
}

#[test]
fn verify_rejects_wrong_length_id() {
    let r = receipt_with_exit(ExitStatus { kind: ExitKind::Halted, user_code: Some(0) });
    assert!(matches!(r.verify(&[0u8; 16]), Err(ReceiptError::InvalidLength)));
}

#[test]
fn verify_rejects_mismatched_id() {
    let r = receipt_with_exit(ExitStatus { kind: ExitKind::Halted, user_code: Some(0) });
    assert!(matches!(r.verify(&[0x43u8; 32]), Err(ReceiptError::VerificationFailed)));
}

#[test]
fn verify_fails_on_failed_exit_but_integrity_passes() {
    let r = receipt_with_exit(ExitStatus { kind: ExitKind::Halted, user_code: Some(1) });
    assert!(matches!(r.verify(&[0x42u8; 32]), Err(ReceiptError::VerificationFailed)));
    assert!(r.verify_integrity().is_ok());
    assert_eq!(r.exit_code().unwrap(), 1);
}

#[test]
fn verify_rejects_garbage_seal() {
    // Claim checks pass, but the seal is no serialized backend receipt.
    let r = receipt_with_exit(ExitStatus { kind: ExitKind::Halted, user_code: Some(0) });
    assert!(matches!(r.verify(&[0x42u8; 32]), Err(ReceiptError::VerificationFailed)));
    assert!(matches!(r.verify_bytes(vec![0x42u8; 32]), Err(ReceiptError::VerificationFailed)));
    assert!(matches!(
        r.verify_with_image_id(&[0x42u8; 32]),
        Err(ReceiptError::VerificationFailed)
    ));
}

#[test]
fn verify_with_context_behaves_like_verify() {
    let r = receipt_with_exit(ExitStatus { kind: ExitKind::Halted, user_code: Some(1) });
    let ctx = pyr0::verifier_context::VerifierContext::new();
    assert!(matches!(
        r.verify_with_context(&[0x42u8; 32], &ctx),
        Err(ReceiptError::VerificationFailed)
    ));
    assert!(r.verify_integrity_with_context(&ctx).is_ok());
}

#[test]
fn verify_hex_handles_prefix_and_case() {
    let r = receipt_with_exit(ExitStatus { kind: ExitKind::Halted, user_code: Some(1) });
    let h = "42".repeat(32);
    // All three spellings denote the same id, so all three fail the same
    // way (on the exit code), not on the hex parsing.
    let plain = r.verify_hex(&h);
    let prefixed = r.verify_hex(&format!("0x{h}"));
    let upper = r.verify_hex(&h.to_uppercase());
    assert!(matches!(plain, Err(ReceiptError::VerificationFailed)));
    assert!(matches!(prefixed, Err(ReceiptError::VerificationFailed)));
    assert!(matches!(upper, Err(ReceiptError::VerificationFailed)));
}

#[test]
fn verify_hex_rejects_bad_text() {
    let r = receipt_with_exit(ExitStatus { kind: ExitKind::Halted, user_code: Some(0) });
    assert!(matches!(r.verify_hex("zz"), Err(ReceiptError::InvalidHex)));
    assert!(matches!(r.verify_hex("ab"), Err(ReceiptError::InvalidLength)));
    assert!(matches!(r.verify_hex("abc"), Err(ReceiptError::InvalidHex)));
}

#[test]
fn parse_image_id_hex_round_trips_spellings() {
    let h = "0123456789abcdef".repeat(4);
    let a = pyr0::hexutil::parse_image_id_hex(&h).unwrap();
    let b = pyr0::hexutil::parse_image_id_hex(&format!("0x{h}")).unwrap();
    let c = pyr0::hexutil::parse_image_id_hex(&format!("0X{h}")).unwrap();
    let d = pyr0::hexutil::parse_image_id_hex(&h.to_uppercase()).unwrap();
    assert_eq!(a, b);
    assert_eq!(a, c);
    assert_eq!(a, d);
    assert_eq!(a.len(), 32);
    assert_eq!(a[0], 0x01);
    assert_eq!(a[7], 0xef);
}
