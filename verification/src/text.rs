//! Order and equality of identities. Identities are compared as their
//! UTF-8 bytes, byte by byte, which is the order of their code points.

use vstd::prelude::*;
use vstd::utf8::encode_utf8;
use vstd::utf8::encode_utf8_decode_utf8;

verus! {

/// The texts that a sequence of strings holds, in the same order.
pub open spec fn names_of(strings: Seq<String>) -> Seq<Seq<char>> {
    Seq::new(strings.len(), |i: int| strings[i]@)
}

/// The text of a string that may be missing.
pub open spec fn text_of(string: Option<String>) -> Option<Seq<char>> {
    match string {
        Some(s) => Some(s@),
        None => None,
    }
}

/// The texts of a sequence of strings of which some may be missing.
pub open spec fn texts_of(strings: Seq<Option<String>>) -> Seq<Option<Seq<char>>> {
    Seq::new(strings.len(), |i: int| text_of(strings[i]))
}

/// `a` and `b` agree on their first `k` bytes.
pub open spec fn agree_up_to(a: Seq<u8>, b: Seq<u8>, k: int) -> bool {
    &&& 0 <= k <= a.len()
    &&& k <= b.len()
    &&& forall|i: int| 0 <= i < k ==> a[i] == b[i]
}

/// `a` comes strictly before `b` in lexicographic order: at the first place
/// where they differ `a` has the smaller byte, or `a` ends there and `b`
/// goes on.
pub open spec fn lex_lt(a: Seq<u8>, b: Seq<u8>) -> bool {
    exists|k: int| #[trigger]
        agree_up_to(a, b, k) && k < b.len() && (k == a.len() || a[k] < b[k])
}

/// Identity `a` comes strictly before identity `b`.
pub open spec fn precedes(a: Seq<char>, b: Seq<char>) -> bool {
    lex_lt(encode_utf8(a), encode_utf8(b))
}

/// No two byte strings come before each other.
pub proof fn lemma_lex_lt_asymmetric(a: Seq<u8>, b: Seq<u8>)
    requires
        lex_lt(a, b),
    ensures
        !lex_lt(b, a),
{
    let k = choose|k: int| #[trigger]
        agree_up_to(a, b, k) && k < b.len() && (k == a.len() || a[k] < b[k]);
    assert forall|j: int| #[trigger]
        agree_up_to(b, a, j) && j < a.len() && (j == b.len() || b[j] < a[j]) implies false by {
        if j < k {
            assert(a[j] == b[j]);
        } else if k < j {
            assert(b[k] == a[k]);
        }
    }
}

/// Of two different byte strings one comes before the other.
pub proof fn lemma_lex_lt_total(a: Seq<u8>, b: Seq<u8>)
    requires
        !lex_lt(a, b),
        !lex_lt(b, a),
    ensures
        a == b,
{
    lemma_common_prefix(a, b, 0);
}

/// Two byte strings that agree on their first `k` bytes are equal or
/// ordered.
proof fn lemma_common_prefix(a: Seq<u8>, b: Seq<u8>, k: int)
    requires
        agree_up_to(a, b, k),
    ensures
        a == b || lex_lt(a, b) || lex_lt(b, a),
    decreases a.len() - k,
{
    if k == a.len() {
        if k == b.len() {
            assert(a =~= b);
        } else {
            assert(agree_up_to(a, b, k) && k < b.len() && (k == a.len() || a[k] < b[k]));
        }
    } else if k == b.len() {
        assert(agree_up_to(b, a, k));
        assert(agree_up_to(b, a, k) && k < a.len() && (k == b.len() || b[k] < a[k]));
    } else if a[k] < b[k] {
        assert(agree_up_to(a, b, k) && k < b.len() && (k == a.len() || a[k] < b[k]));
    } else if b[k] < a[k] {
        assert(agree_up_to(b, a, k));
        assert(agree_up_to(b, a, k) && k < a.len() && (k == b.len() || b[k] < a[k]));
    } else {
        assert(agree_up_to(a, b, k + 1));
        lemma_common_prefix(a, b, k + 1);
    }
}

/// Identities with the same bytes are the same identity.
pub proof fn lemma_same_bytes_same_text(a: Seq<char>, b: Seq<char>)
    requires
        encode_utf8(a) == encode_utf8(b),
    ensures
        a == b,
{
    encode_utf8_decode_utf8(a);
    encode_utf8_decode_utf8(b);
}

/// No two identities come before each other.
pub proof fn lemma_precedes_asymmetric(a: Seq<char>, b: Seq<char>)
    requires
        precedes(a, b),
    ensures
        !precedes(b, a),
{
    lemma_lex_lt_asymmetric(encode_utf8(a), encode_utf8(b));
}

/// Of two different identities one comes before the other.
pub proof fn lemma_precedes_total(a: Seq<char>, b: Seq<char>)
    requires
        !precedes(a, b),
        !precedes(b, a),
    ensures
        a == b,
{
    lemma_lex_lt_total(encode_utf8(a), encode_utf8(b));
    lemma_same_bytes_same_text(a, b);
}

/// The first place at which `a` and `b` differ, or the length of the
/// shorter one where one is a prefix of the other.
fn first_difference(a: &[u8], b: &[u8]) -> (k: usize)
    ensures
        agree_up_to(a@, b@, k as int),
        k == a@.len() || k == b@.len() || a@[k as int] != b@[k as int],
{
    let mut k: usize = 0;
    while k < a.len() && k < b.len() && a[k] == b[k]
        invariant
            agree_up_to(a@, b@, k as int),
        decreases a@.len() - k,
    {
        k += 1;
    }
    k
}

/// Whether `a` comes strictly before `b`, as `<` on two strings decides it.
pub fn str_lt(a: &str, b: &str) -> (r: bool)
    ensures
        r == precedes(a@, b@),
{
    let x = a.as_bytes();
    let y = b.as_bytes();
    let k = first_difference(x, y);
    let r = k < y.len() && (k == x.len() || x[k] < y[k]);
    proof {
        if r {
            assert(agree_up_to(x@, y@, k as int) && k < y@.len() && (k == x@.len() || x@[k as int]
                < y@[k as int]));
        } else {
            assert forall|j: int| #[trigger]
                agree_up_to(x@, y@, j) && j < y@.len() && (j == x@.len() || x@[j]
                    < y@[j]) implies false by {
                if j < k {
                    assert(x@[j] == y@[j]);
                } else if k < j {
                    assert(x@[k as int] == y@[k as int]);
                }
            }
        }
    }
    r
}

/// Whether `a` and `b` are the same text.
pub fn str_eq(a: &str, b: &str) -> (r: bool)
    ensures
        r == (a@ == b@),
{
    let x = a.as_bytes();
    let y = b.as_bytes();
    let k = first_difference(x, y);
    let r = k == x.len() && k == y.len();
    proof {
        if r {
            assert(x@ =~= y@);
            lemma_same_bytes_same_text(a@, b@);
        }
    }
    r
}

} // verus!
