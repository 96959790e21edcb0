use pyr0::errors::ReceiptError;
use pyr0::receipt::{ClaimInfo, ExitKind, ExitStatus, Receipt, ReceiptKind};

fn assert_same(a: &Receipt, b: &Receipt) {
    assert_eq!(a.seal, b.seal);
    assert_eq!(a.journal, b.journal);
    assert_eq!(a.kind(), b.kind());
    assert_eq!(a.assumption_count(), b.assumption_count());
    match (&a.claim_info, &b.claim_info) {
        (None, None) => {},
        (Some(x), Some(y)) => {
            assert_eq!(x.image_id, y.image_id);
            assert_eq!(x.exit.kind, y.exit.kind);
            assert_eq!(x.exit.user_code, y.exit.user_code);
        },
        _ => panic!("claim presence differs"),
    }
}

#[test]
fn round_trip_full_receipt() {
    let r = Receipt::from_risc0(
        vec![9, 9, 9, 1, 2, 3],
        b"some journal".to_vec(),
        Some(
            ClaimInfo {
                image_id: (0u8..32).collect(),
                exit: ExitStatus { kind: ExitKind::Halted, user_code: Some(0) },
            },
        ),
        ReceiptKind::Succinct,
        0,
    )
    .unwrap();
    let bytes = r.to_bytes();
    let back = Receipt::from_bytes(bytes).unwrap();
    assert_same(&r, &back);
}

#[test]
fn round_trip_pruned_composite() {
    let r = Receipt::from_risc0(vec![7; 40], vec![], None, ReceiptKind::Composite, 3).unwrap();
    let back = Receipt::from_bytes(r.to_bytes()).unwrap();
    assert_same(&r, &back);
}

#[test]
fn round_trip_every_exit_shape() {
    for (kind, code) in [
        (ExitKind::Halted, Some(17)),
        (ExitKind::Paused, Some(0)),
        (ExitKind::SystemSplit, None),
        (ExitKind::SessionLimit, None),
        (ExitKind::Unknown, None),
    ] {
        let r = Receipt::from_risc0(
            vec![1],
            vec![2],
            Some(ClaimInfo { image_id: vec![5; 32], exit: ExitStatus { kind, user_code: code } }),
            ReceiptKind::Groth16,
            0,
        )
        .unwrap();
        let back = Receipt::from_bytes(r.to_bytes()).unwrap();
        assert_same(&r, &back);
    }
}

#[test]
fn from_bytes_rejects_garbage() {
    assert!(matches!(Receipt::from_bytes(vec![]), Err(ReceiptError::DeserializeFailed)));
    assert!(matches!(
        Receipt::from_bytes(vec![0xff; 64]),
        Err(ReceiptError::DeserializeFailed)
    ));
    // A valid encoding, truncated, is rejected too.
    let r = Receipt::from_risc0(vec![1, 2, 3], vec![4], None, ReceiptKind::Fake, 0).unwrap();
    let mut bytes = r.to_bytes();
    bytes.pop();
    assert!(matches!(Receipt::from_bytes(bytes), Err(ReceiptError::DeserializeFailed)));
    // Trailing bytes after a valid encoding are rejected.
    let mut padded = r.to_bytes();
    padded.push(0);
    assert!(matches!(Receipt::from_bytes(padded), Err(ReceiptError::DeserializeFailed)));
}

#[test]
fn duplicate_preserves_every_field() {
    let r = Receipt::from_risc0(
        vec![1, 2],
        vec![3],
        Some(
            ClaimInfo {
                image_id: vec![9; 32],
                exit: ExitStatus { kind: ExitKind::Paused, user_code: Some(4) },
            },
        ),
        ReceiptKind::Composite,
        1,
    )
    .unwrap();
    let d = r.duplicate();
    assert_same(&r, &d);
}
