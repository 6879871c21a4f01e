//! The order in which contract records are kept: by code id, then by the bytes
//! of the label's UTF-8 encoding.

use vstd::prelude::*;
use vstd::utf8::*;

verus! {

/// The outcome of comparing two values.
#[derive(Clone, Copy, Debug, PartialEq, Eq, Structural)]
pub enum Rank {
    Less,
    Equal,
    Greater,
}

/// The key under which a contract is recorded.
pub struct ContractKey {
    pub code_id: u64,
    pub label: Seq<char>,
}

/// `a` and `b` hold the same bytes at every position below `n`.
pub open spec fn agree_below(a: Seq<u8>, b: Seq<u8>, n: int) -> bool {
    forall|j: int| 0 <= j < n ==> a[j] == b[j]
}

/// `a` and `b` agree below position `i`, and at `i` either `a` ends while `b`
/// goes on, or `a` holds the smaller byte.
pub open spec fn parts_below(a: Seq<u8>, b: Seq<u8>, i: int) -> bool {
    &&& 0 <= i <= a.len()
    &&& i < b.len()
    &&& agree_below(a, b, i)
    &&& (i == a.len() || a[i] < b[i])
}

/// `a` comes before `b` in the lexicographic order of byte strings.
pub open spec fn bytes_lt(a: Seq<u8>, b: Seq<u8>) -> bool {
    exists|i: int| #[trigger] parts_below(a, b, i)
}

/// `a` comes before `b`: its code id is smaller, or the code ids are equal and
/// its label's encoding comes first.
pub open spec fn key_lt(a: ContractKey, b: ContractKey) -> bool {
    a.code_id < b.code_id || (a.code_id == b.code_id && bytes_lt(
        encode_utf8(a.label),
        encode_utf8(b.label),
    ))
}

/// No byte string comes before itself.
pub proof fn lemma_bytes_lt_irreflexive(a: Seq<u8>)
    ensures
        !bytes_lt(a, a),
{
    assert forall|i: int| !parts_below(a, a, i) by {}
}

/// The order on byte strings is transitive.
pub proof fn lemma_bytes_lt_transitive(a: Seq<u8>, b: Seq<u8>, c: Seq<u8>)
    requires
        bytes_lt(a, b),
        bytes_lt(b, c),
    ensures
        bytes_lt(a, c),
{
    let i = choose|i: int| parts_below(a, b, i);
    let j = choose|j: int| parts_below(b, c, j);
    let k = if i <= j { i } else { j };
    assert(parts_below(a, c, k));
}

/// Two texts with the same encoding are the same text.
pub proof fn lemma_encoding_injective(a: Seq<char>, b: Seq<char>)
    requires
        encode_utf8(a) == encode_utf8(b),
    ensures
        a == b,
{
    encode_utf8_decode_utf8(a);
    encode_utf8_decode_utf8(b);
}

/// No key comes before itself.
pub proof fn lemma_key_lt_irreflexive(a: ContractKey)
    ensures
        !key_lt(a, a),
{
    lemma_bytes_lt_irreflexive(encode_utf8(a.label));
}

/// The order on keys is transitive.
pub proof fn lemma_key_lt_transitive(a: ContractKey, b: ContractKey, c: ContractKey)
    requires
        key_lt(a, b),
        key_lt(b, c),
    ensures
        key_lt(a, c),
{
    if a.code_id == b.code_id && b.code_id == c.code_id {
        lemma_bytes_lt_transitive(encode_utf8(a.label), encode_utf8(b.label), encode_utf8(c.label));
    }
}

/// Compares two byte strings lexicographically.
pub fn compare_bytes(a: &[u8], b: &[u8]) -> (r: Rank)
    ensures
        r == Rank::Less <==> bytes_lt(a@, b@),
        r == Rank::Equal <==> a@ == b@,
        r == Rank::Greater <==> bytes_lt(b@, a@),
{
    let mut i: usize = 0;
    while i < a.len() && i < b.len()
        invariant
            i <= a@.len(),
            i <= b@.len(),
            agree_below(a@, b@, i as int),
        decreases a@.len() - i,
    {
        if a[i] < b[i] {
            assert(parts_below(a@, b@, i as int));
            proof {
                lemma_bytes_lt_asymmetric(a@, b@);
            }
            return Rank::Less;
        }
        if b[i] < a[i] {
            assert(agree_below(b@, a@, i as int));
            assert(parts_below(b@, a@, i as int));
            proof {
                lemma_bytes_lt_asymmetric(b@, a@);
            }
            return Rank::Greater;
        }
        i = i + 1;
    }
    if a.len() < b.len() {
        assert(parts_below(a@, b@, i as int));
        proof {
            lemma_bytes_lt_asymmetric(a@, b@);
        }
        Rank::Less
    } else if b.len() < a.len() {
        assert(agree_below(b@, a@, i as int));
        assert(parts_below(b@, a@, i as int));
        proof {
            lemma_bytes_lt_asymmetric(b@, a@);
        }
        Rank::Greater
    } else {
        assert(a@ =~= b@);
        proof {
            lemma_bytes_lt_irreflexive(a@);
        }
        Rank::Equal
    }
}

/// If `a` comes before `b`, then they differ and `b` does not come before `a`.
pub proof fn lemma_bytes_lt_asymmetric(a: Seq<u8>, b: Seq<u8>)
    requires
        bytes_lt(a, b),
    ensures
        a != b,
        !bytes_lt(b, a),
{
    lemma_bytes_lt_irreflexive(a);
    if bytes_lt(b, a) {
        lemma_bytes_lt_transitive(a, b, a);
    }
}

/// Compares the key `(code_a, label_a)` with the key `(code_b, label_b)`.
pub fn compare_keys(code_a: u64, label_a: &String, code_b: u64, label_b: &String) -> (r: Rank)
    ensures
        r == Rank::Less <==> key_lt(
            ContractKey { code_id: code_a, label: label_a@ },
            ContractKey { code_id: code_b, label: label_b@ },
        ),
        r == Rank::Equal <==> code_a == code_b && label_a@ == label_b@,
        r == Rank::Greater <==> key_lt(
            ContractKey { code_id: code_b, label: label_b@ },
            ContractKey { code_id: code_a, label: label_a@ },
        ),
{
    if code_a < code_b {
        Rank::Less
    } else if code_b < code_a {
        Rank::Greater
    } else {
        let r = compare_bytes(label_a.as_str().as_bytes(), label_b.as_str().as_bytes());
        proof {
            if encode_utf8(label_a@) == encode_utf8(label_b@) {
                lemma_encoding_injective(label_a@, label_b@);
            }
        }
        r
    }
}

} // verus!
