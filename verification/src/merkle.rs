//! Merkle-path verification over SHA-256, the Poseidon-over-BN254 byte
//! hasher used by the sparse-tree demo, and conversion of hex or decimal
//! text into 32-byte keys.

use crate::bytesutil::extend_bytes;
use crate::digest::{sha256_digest, sha256_of};
use crate::errors::ReceiptError;
use crate::hexutil::{hex_decode, hex_encode, hex_str_of, hex_val, is_hex_string};
use num_bigint::BigUint;
use poseidon_bn128::poseidon;
use scalarff::Bn128FieldElement;
use scalarff::FieldElement;
use vstd::arithmetic::power::pow;
use vstd::prelude::*;
use vstd::string::{StrSliceExecFns, StringExecFns};

verus! {

/// The hash of two sibling nodes: SHA-256 of their concatenation.
pub open spec fn hash_nodes_of(left: Seq<u8>, right: Seq<u8>) -> Seq<u8> {
    sha256_of(left + right)
}

/// The leaf commitment: SHA-256 of key, blinding and extra value, in order.
pub open spec fn leaf_of(k_pub: Seq<u8>, r: Seq<u8>, e: Seq<u8>) -> Seq<u8> {
    sha256_of(k_pub + r + e)
}

/// The root reached from `cur` by folding in siblings bottom-up: a `true`
/// direction bit puts the current node on the right.
pub open spec fn merkle_root_of(cur: Seq<u8>, path: Seq<Seq<u8>>, indices: Seq<bool>) -> Seq<u8>
    recommends
        path.len() == indices.len(),
    decreases path.len(),
{
    if path.len() == 0 {
        cur
    } else {
        let next = if indices[0] {
            hash_nodes_of(path[0], cur)
        } else {
            hash_nodes_of(cur, path[0])
        };
        merkle_root_of(next, path.skip(1), indices.skip(1))
    }
}

/// Hash two sibling nodes into their parent.
pub fn hash_nodes(left: &[u8], right: &[u8]) -> (out: Vec<u8>)
    ensures
        out@ == hash_nodes_of(left@, right@),
        out@.len() == 32,
{
    let mut buf: Vec<u8> = Vec::new();
    extend_bytes(&mut buf, left);
    extend_bytes(&mut buf, right);
    sha256_digest(buf.as_slice())
}

/// Compute the leaf commitment from the public key, the blinding value and
/// the extra value.
pub fn compute_leaf(k_pub: &[u8], r: &[u8], e: &[u8]) -> (out: Vec<u8>)
    ensures
        out@ == leaf_of(k_pub@, r@, e@),
        out@.len() == 32,
{
    let mut buf: Vec<u8> = Vec::new();
    extend_bytes(&mut buf, k_pub);
    extend_bytes(&mut buf, r);
    extend_bytes(&mut buf, e);
    proof {
        assert(buf@ =~= k_pub@ + r@ + e@);
    }
    sha256_digest(buf.as_slice())
}

/// Walk a Merkle path from a leaf to the root it implies: at each level the
/// sibling is hashed in on the left when the direction bit says the current
/// node sits on the right.
pub fn verify_merkle_path(leaf: Vec<u8>, path: &Vec<Vec<u8>>, indices: &Vec<bool>) -> (root: Vec<
    u8,
>)
    requires
        path@.len() == indices@.len(),
    ensures
        root@ == merkle_root_of(leaf@, path@.map_values(|v: Vec<u8>| v@), indices@),
        path@.len() > 0 ==> root@.len() == 32,
        path@.len() == 0 ==> root@ == leaf@,
{
    let ghost pview = path@.map_values(|v: Vec<u8>| v@);
    let n: usize = path.len();
    let mut current = leaf;
    let mut i: usize = 0;
    proof {
        assert(pview.skip(0) =~= pview);
        assert(indices@.skip(0) =~= indices@);
    }
    while i < n
        invariant
            pview == path@.map_values(|v: Vec<u8>| v@),
            n == path@.len(),
            n == indices@.len(),
            i <= n,
            merkle_root_of(leaf@, pview, indices@) == merkle_root_of(
                current@,
                pview.skip(i as int),
                indices@.skip(i as int),
            ),
            i == 0 ==> current@ == leaf@,
            i > 0 ==> current@.len() == 32,
        decreases n - i,
    {
        let sibling = &path[i];
        let next = if indices[i] {
            hash_nodes(sibling.as_slice(), current.as_slice())
        } else {
            hash_nodes(current.as_slice(), sibling.as_slice())
        };
        proof {
            assert(pview.skip(i as int)[0] == pview[i as int]);
            assert(pview[i as int] == path@[i as int]@);
            assert(indices@.skip(i as int)[0] == indices@[i as int]);
            assert(pview.skip(i as int).skip(1) =~= pview.skip(i + 1));
            assert(indices@.skip(i as int).skip(1) =~= indices@.skip(i + 1));
            assert(merkle_root_of(
                current@,
                pview.skip(i as int),
                indices@.skip(i as int),
            ) == merkle_root_of(next@, pview.skip(i + 1), indices@.skip(i + 1)));
        }
        current = next;
        i += 1;
    }
    proof {
        assert(pview.skip(n as int) =~= Seq::<Seq<u8>>::empty());
        assert(indices@.skip(n as int) =~= Seq::<bool>::empty());
    }
    current
}

/// The zero-sized marker value for the constant leaf `1`.
#[derive(Clone, Copy, Default)]
pub struct One;

impl One {
    /// The 32-byte value of the constant leaf: big-endian one.
    pub fn to_h256(&self) -> (out: Vec<u8>)
        ensures
            out@.len() == 32,
            out@[31] == 1,
            forall|i: int| 0 <= i < 31 ==> out@[i] == 0,
    {
        let mut out: Vec<u8> = Vec::new();
        let mut i: usize = 0;
        while i < 31
            invariant
                i <= 31,
                out@.len() == i,
                forall|j: int| 0 <= j < i ==> out@[j] == 0,
            decreases 31 - i,
        {
            out.push(0u8);
            i += 1;
        }
        out.push(1u8);
        out
    }

    /// The zero value of the leaf type.
    pub fn zero() -> (one: One) {
        One
    }
}

/// The Poseidon hash over BN254 of a pair of 32-byte nodes, as the
/// `poseidon-bn128` crate computes it (each node read as a big-endian
/// number and reduced into the field).
pub uninterp spec fn poseidon2_of(left: Seq<u8>, right: Seq<u8>) -> Seq<u8>;

/// The Poseidon hash over BN254 of a single value, as the `poseidon-bn128`
/// crate computes it.
pub uninterp spec fn poseidon1_of(input: Seq<u8>) -> Seq<u8>;

/// Relies on `poseidon_bn128::poseidon` with two inputs, converted through
/// `num_bigint::BigUint` and `scalarff::Bn128FieldElement`: the digest is a
/// function of the two byte strings alone, and its minimal big-endian form
/// fits in 32 bytes because the field modulus does.
#[verifier::external_body]
fn poseidon_pair(left: &[u8], right: &[u8]) -> (out: Vec<u8>)
    ensures
        out@ == poseidon2_of(left@, right@),
        out@.len() <= 32,
{
    let l = Bn128FieldElement::from_biguint(&BigUint::from_bytes_be(left));
    let r = Bn128FieldElement::from_biguint(&BigUint::from_bytes_be(right));
    match poseidon(2, &[l, r]) {
        Ok(fe) => fe.to_biguint().to_bytes_be(),
        Err(_) => Vec::new(),
    }
}

/// Relies on `poseidon_bn128::poseidon` with one input, converted through
/// `num_bigint::BigUint` and `scalarff::Bn128FieldElement`: the digest is a
/// function of the byte string alone and fits in 32 bytes.
#[verifier::external_body]
fn poseidon_single(input: &[u8]) -> (out: Vec<u8>)
    ensures
        out@ == poseidon1_of(input@),
        out@.len() <= 32,
{
    let fe = Bn128FieldElement::from_biguint(&BigUint::from_bytes_be(input));
    match poseidon(1, &[fe]) {
        Ok(fe) => fe.to_biguint().to_bytes_be(),
        Err(_) => Vec::new(),
    }
}

/// A byte string left-padded with zeros to 32 bytes.
pub open spec fn pad32(b: Seq<u8>) -> Seq<u8>
    recommends
        b.len() <= 32,
{
    Seq::new((32 - b.len()) as nat, |i: int| 0u8) + b
}

/// Left-pad a byte vector with zeros to 32 bytes.
fn pad_to_32(b: Vec<u8>) -> (out: Vec<u8>)
    requires
        b@.len() <= 32,
    ensures
        out@ == pad32(b@),
        out@.len() == 32,
{
    let pad: usize = 32 - b.len();
    let mut out: Vec<u8> = Vec::new();
    let mut i: usize = 0;
    while i < pad
        invariant
            i <= pad,
            out@.len() == i,
            forall|j: int| 0 <= j < i ==> out@[j] == 0,
        decreases pad - i,
    {
        out.push(0u8);
        i += 1;
    }
    extend_bytes(&mut out, b.as_slice());
    proof {
        assert(out@ =~= pad32(b@));
    }
    out
}

/// A byte-accumulator hasher: node bytes are collected, and `finish` hashes
/// them according to how many were written.
#[derive(Default)]
pub struct PoseidonHasher(pub Vec<u8>);

impl PoseidonHasher {
    /// A fresh hasher with an empty buffer.
    pub fn new() -> (h: PoseidonHasher)
        ensures
            h.0@ == Seq::<u8>::empty(),
    {
        PoseidonHasher(Vec::new())
    }

    /// Append a 32-byte node value to the buffer.
    pub fn write_h256(&mut self, h: &[u8])
        ensures
            final(self).0@ == old(self).0@ + h@,
    {
        extend_bytes(&mut self.0, h);
    }

    /// Append a single byte to the buffer.
    pub fn write_byte(&mut self, b: u8)
        ensures
            final(self).0@ == old(self).0@.push(b),
    {
        self.0.push(b);
        proof {
            assert(self.0@ =~= old(self).0@.push(b));
        }
    }

    /// Hash the collected bytes into a 32-byte node value.
    ///
    /// An empty buffer is the zero node; a single 32-byte value passes
    /// through unchanged (a leaf); two concatenated values are hashed as a
    /// pair; any other length is read as one big number and hashed alone.
    pub fn finish(self) -> (out: Vec<u8>)
        ensures
            out@.len() == 32,
            self.0@.len() == 0 ==> out@ == pad32(Seq::<u8>::empty()),
            self.0@.len() == 32 ==> out@ == self.0@,
            self.0@.len() == 64 ==> out@ == pad32(
                poseidon2_of(self.0@.subrange(0, 32), self.0@.subrange(32, 64)),
            ),
            (self.0@.len() != 0 && self.0@.len() != 32 && self.0@.len() != 64) ==> out@ == pad32(
                poseidon1_of(self.0@),
            ),
    {
        let len: usize = self.0.len();
        if len == 0 {
            pad_to_32(Vec::new())
        } else if len == 32 {
            self.0
        } else if len == 64 {
            let left = crate::bytesutil::sub_bytes(&self.0, 0, 32);
            let right = crate::bytesutil::sub_bytes(&self.0, 32, 32);
            pad_to_32(poseidon_pair(left.as_slice(), right.as_slice()))
        } else {
            pad_to_32(poseidon_single(self.0.as_slice()))
        }
    }
}

/// The value of a big-endian byte string as a number.
pub open spec fn bytes_be_val(b: Seq<u8>) -> nat
    decreases b.len(),
{
    if b.len() == 0 {
        0
    } else {
        bytes_be_val(b.drop_last()) * 256 + (b.last() as nat)
    }
}

/// The value of a decimal digit string as a number.
pub open spec fn dec_val(s: Seq<char>) -> nat
    recommends
        forall|i: int| 0 <= i < s.len() ==> '0' <= #[trigger] s[i] <= '9',
    decreases s.len(),
{
    if s.len() == 0 {
        0
    } else {
        dec_val(s.drop_last()) * 10 + ((s.last() as int - 48) as nat)
    }
}

/// Relies on `num_bigint::BigUint::parse_bytes` in base ten and
/// `to_bytes_be`: a non-empty string of decimal digits parses to its value,
/// rendered big-endian with no leading zero (a single zero byte for zero).
#[verifier::external_body]
fn decimal_to_bytes(s: &str) -> (b: Vec<u8>)
    requires
        s@.len() > 0,
        forall|i: int| 0 <= i < s@.len() ==> '0' <= #[trigger] s@[i] <= '9',
    ensures
        bytes_be_val(b@) == dec_val(s@),
        b@.len() >= 1,
        b@.len() > 1 ==> b@[0] != 0,
{
    match BigUint::parse_bytes(s.as_bytes(), 10) {
        Some(n) => n.to_bytes_be(),
        None => Vec::new(),
    }
}

/// Convert hex text—or, for a string of decimal digits, a decimal
/// number—into a 32-byte key.
///
/// A non-empty string of only decimal digits is read as a decimal number
/// and rejected exactly when its value needs more than 32 bytes; the empty
/// string is rejected.  Anything else is read as hex: one leading lowercase
/// `0x` is dropped, a string of odd length gains a leading zero digit, and
/// the bytes are left-padded with zeros to 32; more than 64 hex digits, or
/// a character that is no hex digit, is rejected.
pub fn hex_to_h256(s: &str) -> (r: Result<Vec<u8>, ReceiptError>)
    ensures
        r matches Ok(v) ==> v@.len() == 32,
        (spec_all_decimal(s@) && s@.len() == 0) ==> (r matches Err(e) && e
            == ReceiptError::InvalidHex),
        (spec_all_decimal(s@) && s@.len() > 0) ==> ((r is Ok) <==> dec_val(s@) < pow(256, 32))
            && (match r {
            Ok(v) => bytes_be_val(v@) == dec_val(s@),
            Err(e) => e == ReceiptError::InvalidLength,
        }),
        !spec_all_decimal(s@) ==> ((r is Ok) <==> (is_hex_string(spec_hex_body(s@))
            && spec_hex_body(s@).len() <= 64)),
        !spec_all_decimal(s@) ==> (match r {
            Ok(v) => {
                let t = spec_hex_body(s@);
                &&& v@.len() == 32
                &&& (forall|i: int|
                    0 <= i < t.len() / 2 ==> v@[32 - t.len() / 2 + i] == 16 * hex_val(
                        #[trigger] t[2 * i],
                    ) + hex_val(t[2 * i + 1]))
                &&& (forall|i: int| 0 <= i < 32 - t.len() / 2 ==> #[trigger] v@[i] == 0)
            },
            Err(e) => (e == ReceiptError::InvalidHex <==> !is_hex_string(spec_hex_body(s@))) && (e
                == ReceiptError::InvalidLength <==> is_hex_string(spec_hex_body(s@))
                && spec_hex_body(s@).len() > 64),
        }),
{
    let n: usize = s.unicode_len();
    let mut all_decimal: bool = true;
    let mut i: usize = 0;
    while i < n
        invariant
            n == s@.len(),
            i <= n,
            all_decimal == (forall|j: int| 0 <= j < i ==> '0' <= #[trigger] s@[j] <= '9'),
        decreases n - i,
    {
        let c = s.get_char(i);
        if c < '0' || c > '9' {
            all_decimal = false;
        }
        proof {
            if all_decimal {
                assert forall|j: int| 0 <= j < i + 1 implies '0' <= #[trigger] s@[j] <= '9' by {}
            } else {
                assert(!(forall|j: int| 0 <= j < i + 1 ==> '0' <= #[trigger] s@[j] <= '9'));
            }
        }
        i += 1;
    }
    if all_decimal {
        if n == 0 {
            return Err(ReceiptError::InvalidHex);
        }
        let b = decimal_to_bytes(s);
        if b.len() > 32 {
            proof {
                lemma_bytes_be_lower(b@);
                vstd::arithmetic::power::lemma_pow_increases(256, 32, (b@.len() - 1) as nat);
            }
            return Err(ReceiptError::InvalidLength);
        }
        let out = pad_to_32(b);
        proof {
            lemma_pad32_keeps_value(b@);
            lemma_bytes_be_upper(b@);
            vstd::arithmetic::power::lemma_pow_increases(256, b@.len(), 32);
        }
        return Ok(out);
    }
    // Hex path: drop one lowercase 0x prefix, even out the length.
    let stripped: &str = if n >= 2 && s.get_char(0) == '0' && s.get_char(1) == 'x' {
        s.substring_char(2, n)
    } else {
        s
    };
    let body: String = if stripped.unicode_len() % 2 == 1 {
        let mut b = String::from_str("0");
        b.append(stripped);
        b
    } else {
        String::from_str(stripped)
    };
    proof {
        reveal_strlit("0");
        assert(body@ =~= spec_hex_body(s@));
    }
    match hex_decode(body.as_str()) {
        None => Err(ReceiptError::InvalidHex),
        Some(v) => {
            if v.len() > 32 {
                return Err(ReceiptError::InvalidLength);
            }
            let ghost decoded = v@;
            let out = pad_to_32(v);
            proof {
                assert(forall|i: int|
                    0 <= i < decoded.len() ==> out@[32 - decoded.len() + i] == decoded[i]);
            }
            Ok(out)
        },
    }
}

/// Whether a string consists of decimal digits alone (then it is read as a
/// decimal number, not as hex); vacuously true of the empty string.
pub open spec fn spec_all_decimal(s: Seq<char>) -> bool {
    forall|j: int| 0 <= j < s.len() ==> '0' <= #[trigger] s[j] <= '9'
}

/// The hex digits that are decoded for a non-decimal string: one lowercase
/// `0x` prefix dropped, and a leading zero added to an odd-length string.
pub open spec fn spec_hex_body(s: Seq<char>) -> Seq<char> {
    let t = if s.len() >= 2 && s[0] == '0' && s[1] == 'x' {
        s.skip(2)
    } else {
        s
    };
    if t.len() % 2 == 1 {
        seq!['0'] + t
    } else {
        t
    }
}

/// Left-padding with zero bytes keeps the big-endian value.
pub proof fn lemma_pad32_keeps_value(b: Seq<u8>)
    requires
        b.len() <= 32,
    ensures
        bytes_be_val(pad32(b)) == bytes_be_val(b),
{
    lemma_zero_prefix_keeps_value(Seq::new((32 - b.len()) as nat, |i: int| 0u8), b);
}

/// Any all-zero prefix leaves the big-endian value unchanged.
pub proof fn lemma_zero_prefix_keeps_value(z: Seq<u8>, b: Seq<u8>)
    requires
        forall|i: int| 0 <= i < z.len() ==> z[i] == 0,
    ensures
        bytes_be_val(z + b) == bytes_be_val(b),
    decreases b.len(),
{
    if b.len() == 0 {
        assert(z + b =~= z);
        lemma_zeros_value(z);
    } else {
        assert((z + b).drop_last() =~= z + b.drop_last());
        assert((z + b).last() == b.last());
        lemma_zero_prefix_keeps_value(z, b.drop_last());
    }
}

/// A big-endian byte string's value is below 256 to the power of its
/// length.
pub proof fn lemma_bytes_be_upper(b: Seq<u8>)
    ensures
        bytes_be_val(b) < pow(256, b.len()),
    decreases b.len(),
{
    if b.len() == 0 {
        assert(pow(256, 0) == 1) by {
            vstd::arithmetic::power::lemma_pow0(256);
        }
    } else {
        lemma_bytes_be_upper(b.drop_last());
        assert(pow(256, b.len()) == 256 * pow(256, (b.len() - 1) as nat)) by {
            vstd::arithmetic::power::lemma_pow1(256);
            vstd::arithmetic::power::lemma_pow_adds(256, 1, (b.len() - 1) as nat);
        }
    }
}

/// A big-endian byte string with a non-zero leading byte has a value of at
/// least 256 to the power of one less than its length.
pub proof fn lemma_bytes_be_lower(b: Seq<u8>)
    requires
        b.len() >= 1,
        b[0] != 0,
    ensures
        bytes_be_val(b) >= pow(256, (b.len() - 1) as nat),
    decreases b.len(),
{
    if b.len() == 1 {
        assert(bytes_be_val(b) == bytes_be_val(b.drop_last()) * 256 + b.last());
        assert(b.last() == b[0]);
        assert(pow(256, 0) == 1) by {
            vstd::arithmetic::power::lemma_pow0(256);
        }
    } else {
        assert(b.drop_last()[0] == b[0]);
        lemma_bytes_be_lower(b.drop_last());
        assert(pow(256, (b.len() - 1) as nat) == 256 * pow(256, (b.len() - 2) as nat)) by {
            vstd::arithmetic::power::lemma_pow1(256);
            vstd::arithmetic::power::lemma_pow_adds(256, 1, (b.len() - 2) as nat);
        }
        assert(bytes_be_val(b) == bytes_be_val(b.drop_last()) * 256 + b.last());
    }
}

/// A string of zero bytes has value zero.
pub proof fn lemma_zeros_value(z: Seq<u8>)
    requires
        forall|i: int| 0 <= i < z.len() ==> z[i] == 0,
    ensures
        bytes_be_val(z) == 0,
    decreases z.len(),
{
    if z.len() > 0 {
        lemma_zeros_value(z.drop_last());
    }
}

/// Render a 32-byte node value as lowercase hex.
pub fn h256_to_hex(h: &[u8]) -> (s: String)
    ensures
        s@ == hex_str_of(h@),
{
    hex_encode(h)
}

} // verus!
