//! Lexicographic ordering of byte-string keys.
//!
//! Region key ranges are half-open intervals of byte strings compared in
//! lexicographic byte order. This module gives the ordering a mathematical
//! definition, executable comparisons proved against it, and the ordering
//! laws (trichotomy, transitivity) that the range predicates rely on.

use vstd::prelude::*;

verus! {

/// `a` is strictly below `b` in lexicographic byte order: either `a` is a
/// proper prefix of `b`, or at the first differing position `a` holds the
/// smaller byte.
pub open spec fn lex_lt(a: Seq<u8>, b: Seq<u8>) -> bool
    decreases a.len(),
{
    if b.len() == 0 {
        false
    } else if a.len() == 0 {
        true
    } else if a[0] < b[0] {
        true
    } else if a[0] > b[0] {
        false
    } else {
        lex_lt(a.drop_first(), b.drop_first())
    }
}

/// Two sequences with equal prefixes of length `i` compare the same as their
/// tails from `i` on.
pub proof fn lemma_lex_lt_common_prefix(a: Seq<u8>, b: Seq<u8>, i: int)
    requires
        0 <= i <= a.len(),
        0 <= i <= b.len(),
        forall|j: int| 0 <= j < i ==> a[j] == b[j],
    ensures
        lex_lt(a, b) == lex_lt(a.skip(i), b.skip(i)),
    decreases i,
{
    if i > 0 {
        assert(a.len() > 0 && b.len() > 0);
        assert(a[0] == b[0]);
        assert forall|j: int| 0 <= j < i - 1 implies a.drop_first()[j] == b.drop_first()[j] by {
            assert(a[j + 1] == b[j + 1]);
        }
        lemma_lex_lt_common_prefix(a.drop_first(), b.drop_first(), i - 1);
        assert(a.drop_first().skip(i - 1) =~= a.skip(i));
        assert(b.drop_first().skip(i - 1) =~= b.skip(i));
        assert(lex_lt(a, b) == lex_lt(a.drop_first(), b.drop_first()));
    } else {
        assert(a.skip(0) =~= a);
        assert(b.skip(0) =~= b);
    }
}

/// Exactly one of `a < b`, `a == b`, `b < a` holds.
pub proof fn lemma_lex_trichotomy(a: Seq<u8>, b: Seq<u8>)
    ensures
        lex_lt(a, b) || a =~= b || lex_lt(b, a),
        lex_lt(a, b) ==> !(a =~= b) && !lex_lt(b, a),
        a =~= b ==> !lex_lt(a, b) && !lex_lt(b, a),
    decreases a.len() + b.len(),
{
    if a.len() == 0 && b.len() == 0 {
    } else if a.len() == 0 || b.len() == 0 {
    } else if a[0] != b[0] {
    } else {
        lemma_lex_trichotomy(a.drop_first(), b.drop_first());
        if a.drop_first() =~= b.drop_first() {
            assert forall|j: int| 0 <= j < a.len() implies a[j] == b[j] by {
                if j > 0 {
                    assert(a.drop_first()[j - 1] == b.drop_first()[j - 1]);
                }
            }
            assert(a =~= b);
        }
        if a =~= b {
            assert forall|j: int| 0 <= j < a.len() - 1 implies a.drop_first()[j]
                == b.drop_first()[j] by {
                assert(a[j + 1] == b[j + 1]);
            }
            assert(a.drop_first() =~= b.drop_first());
        }
    }
}

/// Lexicographic order is transitive.
pub proof fn lemma_lex_lt_trans(a: Seq<u8>, b: Seq<u8>, c: Seq<u8>)
    requires
        lex_lt(a, b),
        lex_lt(b, c),
    ensures
        lex_lt(a, c),
    decreases a.len() + b.len() + c.len(),
{
    if a.len() == 0 {
        assert(b.len() > 0 && c.len() > 0);
    } else {
        assert(b.len() > 0 && c.len() > 0);
        if a[0] == b[0] && b[0] == c[0] {
            lemma_lex_lt_trans(a.drop_first(), b.drop_first(), c.drop_first());
        }
    }
}

/// Compares two keys, true iff `a` is strictly below `b` in lexicographic
/// byte order.
pub fn bytes_lt(a: &[u8], b: &[u8]) -> (r: bool)
    ensures
        r == lex_lt(a@, b@),
{
    let a_len: usize = a.len();
    let b_len: usize = b.len();
    let n: usize = if a_len < b_len { a_len } else { b_len };
    let mut i: usize = 0;
    while i < n
        invariant
            0 <= i <= n,
            n == if a_len < b_len { a_len } else { b_len },
            a_len == a@.len(),
            b_len == b@.len(),
            forall|j: int| 0 <= j < i ==> a@[j] == b@[j],
        decreases n - i,
    {
        let x = a[i];
        let y = b[i];
        if x < y {
            proof {
                lemma_lex_lt_common_prefix(a@, b@, i as int);
            }
            return true;
        }
        if x > y {
            proof {
                lemma_lex_lt_common_prefix(a@, b@, i as int);
            }
            return false;
        }
        i = i + 1;
    }
    proof {
        lemma_lex_lt_common_prefix(a@, b@, n as int);
        if a_len < b_len {
            assert(a@.skip(n as int).len() == 0);
            assert(b@.skip(n as int).len() > 0);
        } else {
            assert(b@.skip(n as int).len() == 0);
        }
    }
    a_len < b_len
}

/// True iff the two keys hold the same bytes.
pub fn bytes_eq(a: &[u8], b: &[u8]) -> (r: bool)
    ensures
        r == (a@ =~= b@),
{
    if a.len() != b.len() {
        return false;
    }
    let n: usize = a.len();
    let mut i: usize = 0;
    while i < n
        invariant
            0 <= i <= n,
            n == a@.len(),
            n == b@.len(),
            forall|j: int| 0 <= j < i ==> a@[j] == b@[j],
        decreases n - i,
    {
        if a[i] != b[i] {
            return false;
        }
        i = i + 1;
    }
    true
}

} // verus!
