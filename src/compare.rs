use core::cmp::Ordering;
use vstd::prelude::*;
use vstd::std_specs::cmp::{OrdSpec, PartialEqSpec, PartialOrdSpec};

verus! {

/// `a` and `b` have the same length and equal elements at each index.
pub open spec fn seq_eq<A: PartialEq<B>, B>(a: Seq<A>, b: Seq<B>) -> bool {
    &&& a.len() == b.len()
    &&& forall|i: int| 0 <= i < a.len() ==> #[trigger] a[i].eq_spec(&b[i])
}

/// The lexicographic comparison of `a` and `b` from index `i` on: the first pair of
/// elements that is not equal decides, else the lengths do.
pub open spec fn lex_partial_cmp_from<A: PartialOrd>(a: Seq<A>, b: Seq<A>, i: int) -> Option<Ordering>
    decreases a.len() - i,
{
    if i < 0 || i >= a.len() || i >= b.len() {
        if a.len() < b.len() {
            Some(Ordering::Less)
        } else if a.len() == b.len() {
            Some(Ordering::Equal)
        } else {
            Some(Ordering::Greater)
        }
    } else {
        match a[i].partial_cmp_spec(&b[i]) {
            Some(Ordering::Equal) => lex_partial_cmp_from(a, b, i + 1),
            o => o,
        }
    }
}

/// The lexicographic comparison of `a` and `b`.
pub open spec fn lex_partial_cmp<A: PartialOrd>(a: Seq<A>, b: Seq<A>) -> Option<Ordering> {
    lex_partial_cmp_from(a, b, 0)
}

/// The total lexicographic order of `a` and `b` from index `i` on.
pub open spec fn lex_cmp_from<A: Ord>(a: Seq<A>, b: Seq<A>, i: int) -> Ordering
    decreases a.len() - i,
{
    if i < 0 || i >= a.len() || i >= b.len() {
        if a.len() < b.len() {
            Ordering::Less
        } else if a.len() == b.len() {
            Ordering::Equal
        } else {
            Ordering::Greater
        }
    } else {
        match a[i].cmp_spec(&b[i]) {
            Ordering::Equal => lex_cmp_from(a, b, i + 1),
            o => o,
        }
    }
}

/// The total lexicographic order of `a` and `b`.
pub open spec fn lex_cmp<A: Ord>(a: Seq<A>, b: Seq<A>) -> Ordering {
    lex_cmp_from(a, b, 0)
}

/// Compares two slices element by element.
pub fn slice_eq<A: PartialEq<B>, B>(a: &[A], b: &[B]) -> (r: bool)
    ensures
        A::obeys_eq_spec() ==> (r <==> seq_eq(a@, b@)),
{
    if a.len() != b.len() {
        return false;
    }
    let mut i: usize = 0;
    while i < a.len()
        invariant
            a@.len() == b@.len(),
            0 <= i <= a@.len(),
            A::obeys_eq_spec() ==> forall|j: int| 0 <= j < i ==> #[trigger] a@[j].eq_spec(&b@[j]),
        decreases a@.len() - i,
    {
        if !a[i].eq(&b[i]) {
            return false;
        }
        i += 1;
    }
    true
}

/// Compares two slices lexicographically.
pub fn slice_partial_cmp<A: PartialOrd>(a: &[A], b: &[A]) -> (r: Option<Ordering>)
    ensures
        A::obeys_partial_cmp_spec() ==> r == lex_partial_cmp(a@, b@),
{
    let mut i: usize = 0;
    while i < a.len() && i < b.len()
        invariant
            0 <= i <= a@.len(),
            i <= b@.len(),
            A::obeys_partial_cmp_spec() ==> lex_partial_cmp(a@, b@) == lex_partial_cmp_from(a@, b@, i as int),
        decreases a@.len() - i,
    {
        let o = a[i].partial_cmp(&b[i]);
        match o {
            Some(Ordering::Equal) => {},
            _ => {
                return o;
            },
        }
        i += 1;
    }
    if a.len() < b.len() {
        Some(Ordering::Less)
    } else if a.len() == b.len() {
        Some(Ordering::Equal)
    } else {
        Some(Ordering::Greater)
    }
}

/// Orders two slices lexicographically.
pub fn slice_cmp<A: Ord>(a: &[A], b: &[A]) -> (r: Ordering)
    ensures
        A::obeys_cmp_spec() ==> r == lex_cmp(a@, b@),
{
    let mut i: usize = 0;
    while i < a.len() && i < b.len()
        invariant
            0 <= i <= a@.len(),
            i <= b@.len(),
            A::obeys_cmp_spec() ==> lex_cmp(a@, b@) == lex_cmp_from(a@, b@, i as int),
        decreases a@.len() - i,
    {
        let o = a[i].cmp(&b[i]);
        match o {
            Ordering::Equal => {},
            _ => {
                return o;
            },
        }
        i += 1;
    }
    if a.len() < b.len() {
        Ordering::Less
    } else if a.len() == b.len() {
        Ordering::Equal
    } else {
        Ordering::Greater
    }
}

/// On bytes, equal elements at each index is plain equality of the sequences.
pub proof fn lemma_bytes_seq_eq(a: Seq<u8>, b: Seq<u8>)
    ensures
        seq_eq(a, b) <==> a == b,
{
    if seq_eq(a, b) {
        assert forall|i: int| 0 <= i < a.len() implies a[i] == b[i] by {
            assert(a[i].eq_spec(&b[i]));
        }
        assert(a =~= b);
    }
}

/// On bytes, the lexicographic comparison from index `i` on always decides, and
/// agrees with the total order.
pub proof fn lemma_bytes_order_total_from(a: Seq<u8>, b: Seq<u8>, i: int)
    ensures
        lex_partial_cmp_from(a, b, i) == Some(lex_cmp_from(a, b, i)),
    decreases a.len() - i,
{
    if 0 <= i < a.len() && i < b.len() {
        lemma_bytes_order_total_from(a, b, i + 1);
    }
}

/// On bytes, the lexicographic comparison always decides, and agrees with the total order.
pub proof fn lemma_bytes_order_total(a: Seq<u8>, b: Seq<u8>)
    ensures
        lex_partial_cmp(a, b) == Some(lex_cmp(a, b)),
{
    lemma_bytes_order_total_from(a, b, 0);
}

} // verus!
