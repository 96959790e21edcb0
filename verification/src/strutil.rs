//! Verified substring search over text, used to classify the prover
//! backend's error messages.

use vstd::prelude::*;
use vstd::string::StrSliceExecFns;

verus! {

/// Does `needle` occur contiguously somewhere in `hay`?
pub open spec fn spec_contains_sub(hay: Seq<char>, needle: Seq<char>) -> bool {
    exists|i: int|
        0 <= i && i + needle.len() <= hay.len() && #[trigger] hay.subrange(i, i + needle.len())
            == needle
}

/// Substring search by scanning every position.
pub fn contains_sub(hay: &str, needle: &str) -> (r: bool)
    ensures
        r == spec_contains_sub(hay@, needle@),
{
    let hn: usize = hay.unicode_len();
    let nn: usize = needle.unicode_len();
    if nn > hn {
        proof {
            if spec_contains_sub(hay@, needle@) {
                let i0 = choose|i: int|
                    0 <= i && i + needle@.len() <= hay@.len() && #[trigger] hay@.subrange(
                        i,
                        i + needle@.len(),
                    ) == needle@;
                assert(false);
            }
        }
        return false;
    }
    let mut i: usize = 0;
    while i <= hn - nn
        invariant
            hn == hay@.len(),
            nn == needle@.len(),
            nn <= hn,
            i <= hn - nn + 1,
            forall|j: int|
                0 <= j < i ==> #[trigger] hay@.subrange(j, j + needle@.len()) != needle@,
        decreases hn - nn - i + 1,
    {
        let mut k: usize = 0;
        let mut matching: bool = true;
        while k < nn && matching
            invariant
                hn == hay@.len(),
                nn == needle@.len(),
                i + nn <= hn,
                k <= nn,
                matching ==> (forall|t: int| 0 <= t < k ==> hay@[i + t] == needle@[t]),
                !matching ==> (exists|t: int| 0 <= t < nn && hay@[i + t] != needle@[t]),
            decreases nn - k,
        {
            if hay.get_char(i + k) != needle.get_char(k) {
                proof {
                    assert(hay@[i + k] != needle@[k as int]);
                }
                matching = false;
                k = nn;
            } else {
                k += 1;
            }
        }
        proof {
            if matching {
                assert(k == nn);
            }
        }
        if matching {
            proof {
                assert(hay@.subrange(i as int, i + needle@.len()) =~= needle@);
            }
            return true;
        }
        proof {
            let t0 = choose|t: int| 0 <= t < nn && hay@[i + t] != needle@[t];
            assert(hay@.subrange(i as int, i + needle@.len())[t0] != needle@[t0]);
        }
        i += 1;
    }
    proof {
        if spec_contains_sub(hay@, needle@) {
            let j = choose|j: int|
                0 <= j && j + needle@.len() <= hay@.len() && #[trigger] hay@.subrange(
                    j,
                    j + needle@.len(),
                ) == needle@;
            assert(j < i);
            assert(false);
        }
    }
    false
}

/// Does a backend failure message point at a claim mismatch: does it
/// mention assumptions or verification?
pub fn message_suggests_claim_mismatch(msg: &str) -> (r: bool)
    ensures
        r == (spec_contains_sub(msg@, "assumption"@) || spec_contains_sub(msg@, "verify"@)),
{
    contains_sub(msg, "assumption") || contains_sub(msg, "verify")
}

} // verus!
