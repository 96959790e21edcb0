use num_bigint::BigUint;
use poseidon_bn128::poseidon;
use pyr0::errors::ReceiptError;
use pyr0::merkle::{
    compute_leaf, h256_to_hex, hash_nodes, hex_to_h256, verify_merkle_path, One, PoseidonHasher,
};
use scalarff::{Bn128FieldElement, FieldElement};
use sha2::Digest;

fn sha256(parts: &[&[u8]]) -> Vec<u8> {
    let mut h = sha2::Sha256::new();
    for p in parts {
        h.update(p);
    }
    h.finalize().to_vec()
}

#[test]
fn hash_nodes_is_sha256_of_concatenation() {
    let l = [1u8; 32];
    let r = [2u8; 32];
    assert_eq!(hash_nodes(&l, &r), sha256(&[&l, &r]));
}

#[test]
fn compute_leaf_hashes_all_three_parts() {
    let k = [3u8; 32];
    let r = [4u8; 32];
    let e = [5u8; 32];
    assert_eq!(compute_leaf(&k, &r, &e), sha256(&[&k, &r, &e]));
}

#[test]
fn merkle_path_of_empty_path_is_the_leaf() {
    let leaf = vec![9u8; 32];
    assert_eq!(verify_merkle_path(leaf.clone(), &vec![], &vec![]), leaf);
}

#[test]
fn merkle_path_folds_siblings_by_direction() {
    let leaf = vec![9u8; 32];
    let s0 = vec![1u8; 32];
    let s1 = vec![2u8; 32];
    // Level zero: current on the left; level one: current on the right.
    let root = verify_merkle_path(
        leaf.clone(),
        &vec![s0.clone(), s1.clone()],
        &vec![false, true],
    );
    let level1 = sha256(&[&leaf, &s0]);
    let expected = sha256(&[&s1, &level1]);
    assert_eq!(root, expected);
}

#[test]
fn one_is_big_endian_one() {
    let mut expected = vec![0u8; 32];
    expected[31] = 1;
    assert_eq!(One.to_h256(), expected);
    assert_eq!(One::zero().to_h256(), expected);
}

#[test]
fn hasher_of_nothing_is_zero() {
    assert_eq!(PoseidonHasher::new().finish(), vec![0u8; 32]);
}

#[test]
fn hasher_of_one_node_is_identity() {
    let mut h = PoseidonHasher::new();
    h.write_h256(&[7u8; 32]);
    assert_eq!(h.finish(), vec![7u8; 32]);
}

fn fe_from_bytes(b: &[u8]) -> Bn128FieldElement {
    Bn128FieldElement::from_biguint(&BigUint::from_bytes_be(b))
}

fn pad32(mut v: Vec<u8>) -> Vec<u8> {
    let mut out = vec![0u8; 32 - v.len()];
    out.append(&mut v);
    out
}

#[test]
fn hasher_of_two_nodes_is_poseidon_pair() {
    let left = [1u8; 32];
    let right = [2u8; 32];
    let mut h = PoseidonHasher::new();
    h.write_h256(&left);
    h.write_h256(&right);
    let got = h.finish();
    let expected = poseidon(2, &[fe_from_bytes(&left), fe_from_bytes(&right)])
        .unwrap()
        .to_biguint()
        .to_bytes_be();
    assert_eq!(got, pad32(expected));
}

#[test]
fn hasher_of_odd_bytes_is_poseidon_single() {
    let mut h = PoseidonHasher::new();
    h.write_byte(0x2a);
    h.write_byte(0x2b);
    let got = h.finish();
    let expected = poseidon(1, &[fe_from_bytes(&[0x2a, 0x2b])])
        .unwrap()
        .to_biguint()
        .to_bytes_be();
    assert_eq!(got, pad32(expected));
}

#[test]
fn hex_to_h256_reads_decimal_strings_as_numbers() {
    let v = hex_to_h256("123").unwrap();
    let mut expected = vec![0u8; 32];
    expected[31] = 123;
    assert_eq!(v, expected);
    let zero = hex_to_h256("0").unwrap();
    assert_eq!(zero, vec![0u8; 32]);
}

#[test]
fn hex_to_h256_reads_hex_strings() {
    let v = hex_to_h256("0xff").unwrap();
    let mut expected = vec![0u8; 32];
    expected[31] = 0xff;
    assert_eq!(v, expected);
    // Odd length gains a leading zero digit.
    let odd = hex_to_h256("abc").unwrap();
    let mut expected = vec![0u8; 32];
    expected[30] = 0x0a;
    expected[31] = 0xbc;
    assert_eq!(odd, expected);
}

#[test]
fn hex_to_h256_rejects_bad_input() {
    assert!(matches!(hex_to_h256("zz"), Err(ReceiptError::InvalidHex)));
    assert!(matches!(hex_to_h256(""), Err(ReceiptError::InvalidHex)));
    let too_long_hex = "ab".repeat(33);
    assert!(matches!(hex_to_h256(&too_long_hex), Err(ReceiptError::InvalidLength)));
    // 2^256 needs 33 bytes.
    let too_large_decimal = BigUint::from(2u8).pow(256).to_string();
    assert!(matches!(hex_to_h256(&too_large_decimal), Err(ReceiptError::InvalidLength)));
}

#[test]
fn h256_to_hex_renders_lowercase() {
    let mut b = vec![0u8; 32];
    b[0] = 0xab;
    b[31] = 0x01;
    let s = h256_to_hex(&b);
    assert_eq!(s.len(), 64);
    assert!(s.starts_with("ab"));
    assert!(s.ends_with("01"));
    assert_eq!(hex::decode(&s).unwrap(), b);
}

#[test]
fn image_identity_from_bytes_and_hex() {
    let img = pyr0::image::Image::from_elf(b"elf bytes", vec![0x5a; 32]).unwrap();
    assert_eq!(img.id().unwrap(), vec![0x5a; 32]);
    assert_eq!(img.id_hex().unwrap(), "5a".repeat(32));
    assert_eq!(img.get_elf(), &b"elf bytes".to_vec());
    assert!(matches!(
        pyr0::image::Image::from_elf(b"", vec![0u8; 4]),
        Err(ReceiptError::InvalidLength)
    ));
    let empty = pyr0::image::Image::new_init();
    assert!(empty.id().is_none());
    assert!(empty.id_hex().is_none());
}

#[test]
fn image_id_of_garbage_blob_is_refused() {
    assert!(pyr0::image::load_image(b"not a guest binary").is_none());
    assert!(pyr0::image::compute_image_id_hex(b"not a guest binary").is_none());
}
