//! Byte-wise lexicographic order: its definition, its laws, and the comparison of byte slices
//! that computes it.

use vstd::prelude::*;

use core::cmp::Ordering;

verus! {

/// Whether `a` comes strictly before `b` in byte-wise lexicographic order: the first byte at
/// which they differ decides, and a proper prefix comes before the longer sequence.
pub open spec fn lex_less(a: Seq<u8>, b: Seq<u8>) -> bool
    decreases a.len(),
{
    if b.len() == 0 {
        false
    } else if a.len() == 0 {
        true
    } else if a[0] != b[0] {
        a[0] < b[0]
    } else {
        lex_less(a.drop_first(), b.drop_first())
    }
}

/// Where `a` stands relative to `b` in byte-wise lexicographic order.
pub open spec fn lex_ordering(a: Seq<u8>, b: Seq<u8>) -> Ordering {
    if a == b {
        Ordering::Equal
    } else if lex_less(a, b) {
        Ordering::Less
    } else {
        Ordering::Greater
    }
}

/// The outcome of comparing two byte slices.
pub(crate) enum Precedence {
    Before,
    Same,
    After,
}

/// Dropping a common prefix does not change which of two sequences comes first.
proof fn lemma_lex_less_shared_prefix(a: Seq<u8>, b: Seq<u8>, k: int)
    requires
        0 <= k <= a.len(),
        k <= b.len(),
        forall|i: int| 0 <= i < k ==> a[i] == b[i],
    ensures
        lex_less(a, b) == lex_less(a.skip(k), b.skip(k)),
    decreases k,
{
    if k == 0 {
        assert(a.skip(0) =~= a);
        assert(b.skip(0) =~= b);
    } else {
        assert(a[0] == b[0]);
        lemma_lex_less_shared_prefix(a.drop_first(), b.drop_first(), k - 1);
        assert(a.drop_first().skip(k - 1) =~= a.skip(k));
        assert(b.drop_first().skip(k - 1) =~= b.skip(k));
    }
}

/// Comparing the other way round gives the reverse answer, and the answer is `Equal` exactly when
/// the two sequences are the same.
pub proof fn lemma_lex_ordering_reverses(a: Seq<u8>, b: Seq<u8>)
    ensures
        (lex_ordering(a, b) == Ordering::Equal) == (a == b),
        (lex_ordering(a, b) == Ordering::Less) == (lex_ordering(b, a) == Ordering::Greater),
        (lex_ordering(a, b) == Ordering::Greater) == (lex_ordering(b, a) == Ordering::Less),
{
    if a != b {
        lemma_lex_less_total(a, b);
        if lex_less(a, b) {
            lemma_lex_less_asymmetric(a, b);
        } else {
            lemma_lex_less_asymmetric(b, a);
        }
    }
}

/// The first byte at which two sequences differ decides their order by its numeric value: the
/// sequence with the smaller byte there comes first.
pub proof fn law_first_difference_decides(a: Seq<u8>, b: Seq<u8>, i: int)
    requires
        0 <= i < a.len(),
        i < b.len(),
        forall|j: int| 0 <= j < i ==> a[j] == b[j],
        a[i] < b[i],
    ensures
        lex_ordering(a, b) == Ordering::Less,
        lex_ordering(b, a) == Ordering::Greater,
{
    lemma_lex_less_shared_prefix(a, b, i);
    assert(a.skip(i)[0] == a[i]);
    assert(b.skip(i)[0] == b[i]);
    assert(a[i] != b[i]);
    assert(a != b);
    lemma_lex_ordering_reverses(a, b);
}

/// A proper prefix comes strictly before the longer sequence.
proof fn lemma_lex_less_proper_prefix(a: Seq<u8>, b: Seq<u8>)
    requires
        a.len() < b.len(),
        forall|j: int| 0 <= j < a.len() ==> a[j] == b[j],
    ensures
        lex_less(a, b),
{
    lemma_lex_less_shared_prefix(a, b, a.len() as int);
    assert(a.skip(a.len() as int).len() == 0);
}

/// A proper prefix comes before every longer sequence that begins with it.
pub proof fn law_proper_prefix_is_less(a: Seq<u8>, b: Seq<u8>)
    requires
        a.len() < b.len(),
        forall|j: int| 0 <= j < a.len() ==> a[j] == b[j],
    ensures
        lex_ordering(a, b) == Ordering::Less,
        lex_ordering(b, a) == Ordering::Greater,
{
    lemma_lex_less_proper_prefix(a, b);
    assert(a != b);
    lemma_lex_ordering_reverses(a, b);
}

/// The order is transitive through `Less`.
pub proof fn lemma_lex_ordering_transitive(a: Seq<u8>, b: Seq<u8>, c: Seq<u8>)
    requires
        lex_ordering(a, b) == Ordering::Less,
        lex_ordering(b, c) == Ordering::Less,
    ensures
        lex_ordering(a, c) == Ordering::Less,
{
    lemma_lex_less_transitive(a, b, c);
    if a == c {
        lemma_lex_less_asymmetric(a, b);
    }
}

/// Returns the length of the longest common prefix of `a` and `b`.
pub(crate) fn first_difference(a: &[u8], b: &[u8]) -> (k: usize)
    ensures
        k <= a@.len(),
        k <= b@.len(),
        forall|i: int| 0 <= i < k ==> a@[i] == b@[i],
        k < a@.len() && k < b@.len() ==> a@[k as int] != b@[k as int],
{
    let n: usize = if a.len() < b.len() { a.len() } else { b.len() };
    let mut k: usize = 0;
    while k < n
        invariant
            k <= n,
            n <= a@.len(),
            n <= b@.len(),
            n == a@.len() || n == b@.len(),
            forall|i: int| 0 <= i < k ==> a@[i] == b@[i],
        decreases n - k,
    {
        if a[k] != b[k] {
            return k;
        }
        k = k + 1;
    }
    k
}

/// Compares two byte slices in byte-wise lexicographic order.
pub(crate) fn compare_slices(a: &[u8], b: &[u8]) -> (r: Precedence)
    ensures
        r is Same <==> a@ == b@,
        r is Before <==> lex_less(a@, b@),
        r is After <==> (a@ != b@ && !lex_less(a@, b@)),
{
    let k = first_difference(a, b);
    proof {
        lemma_lex_less_shared_prefix(a@, b@, k as int);
    }
    if k < a.len() && k < b.len() {
        assert(a@.skip(k as int)[0] == a@[k as int]);
        assert(b@.skip(k as int)[0] == b@[k as int]);
        if a[k] < b[k] {
            Precedence::Before
        } else {
            Precedence::After
        }
    } else if a.len() == b.len() {
        assert(a@ =~= b@);
        proof {
            lemma_lex_less_irreflexive(a@);
        }
        Precedence::Same
    } else if a.len() < b.len() {
        Precedence::Before
    } else {
        Precedence::After
    }
}

/// No byte sequence comes before itself.
pub proof fn lemma_lex_less_irreflexive(a: Seq<u8>)
    ensures
        !lex_less(a, a),
    decreases a.len(),
{
    if a.len() > 0 {
        lemma_lex_less_irreflexive(a.drop_first());
    }
}

/// Two byte sequences never each come before the other.
pub proof fn lemma_lex_less_asymmetric(a: Seq<u8>, b: Seq<u8>)
    requires
        lex_less(a, b),
    ensures
        !lex_less(b, a),
    decreases a.len(),
{
    if a.len() > 0 && b.len() > 0 && a[0] == b[0] {
        lemma_lex_less_asymmetric(a.drop_first(), b.drop_first());
    }
}

/// Coming before is transitive.
pub proof fn lemma_lex_less_transitive(a: Seq<u8>, b: Seq<u8>, c: Seq<u8>)
    requires
        lex_less(a, b),
        lex_less(b, c),
    ensures
        lex_less(a, c),
    decreases a.len(),
{
    if a.len() > 0 && a[0] == b[0] && b[0] == c[0] {
        lemma_lex_less_transitive(a.drop_first(), b.drop_first(), c.drop_first());
    }
}

/// Of two different byte sequences, one comes before the other.
pub proof fn lemma_lex_less_total(a: Seq<u8>, b: Seq<u8>)
    requires
        a != b,
    ensures
        lex_less(a, b) || lex_less(b, a),
    decreases a.len(),
{
    if a.len() > 0 && b.len() > 0 && a[0] == b[0] {
        if a.drop_first() == b.drop_first() {
            assert(a =~= seq![a[0]] + a.drop_first());
            assert(b =~= seq![b[0]] + b.drop_first());
        }
        lemma_lex_less_total(a.drop_first(), b.drop_first());
    } else if a.len() == 0 && b.len() == 0 {
        assert(a =~= b);
    }
}

/// Whether two byte slices hold the same bytes.
pub(crate) fn same_bytes(a: &[u8], b: &[u8]) -> (r: bool)
    ensures
        r == (a@ == b@),
{
    if a.len() != b.len() {
        return false;
    }
    let k = first_difference(a, b);
    if k < a.len() {
        false
    } else {
        assert(a@ =~= b@);
        true
    }
}

} // verus!
