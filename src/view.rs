use core::cmp::Ordering;
use vstd::prelude::*;
use vstd::std_specs::cmp::{OrdSpec, PartialEqSpec, PartialOrdSpec};

use crate::compare::{lex_cmp, lex_partial_cmp, seq_eq, slice_cmp, slice_eq, slice_partial_cmp};

verus! {

/// A shared view of a slice that is known to hold at least `N` elements.
///
/// Hashing a view hashes its slice.
#[derive(Hash)]
pub struct SliceN<'a, T, const N: usize> {
    slice: &'a [T],
}

/// A shared view of a slice that is known to hold at least one element.
pub type Slice1<'a, T> = SliceN<'a, T, 1>;

impl<'a, T, const N: usize> View for SliceN<'a, T, N> {
    type V = Seq<T>;

    open spec fn view(&self) -> Seq<T> {
        self.spec_slice()@
    }
}

impl<'a, T, const N: usize> SliceN<'a, T, N> {
    #[verifier::type_invariant]
    spec fn long_enough(self) -> bool {
        self.slice@.len() >= N
    }

    /// The slice that this view spans, head and tail together.
    pub closed spec fn spec_slice(self) -> &'a [T] {
        self.slice
    }

    /// Views `s` as holding at least `N` elements if it does.
    pub fn from_slice(s: &'a [T]) -> (r: Option<Self>)
        ensures
            r is Some <==> s@.len() >= N,
            r matches Some(v) ==> v.spec_slice() == s,
    {
        if s.len() >= N {
            Some(Self::from_slice_unchecked(s))
        } else {
            None
        }
    }

    /// Views `s` as holding at least `N` elements, which the caller has established.
    pub fn from_slice_unchecked(s: &'a [T]) -> (r: Self)
        requires
            s@.len() >= N,
        ensures
            r.spec_slice() == s,
    {
        SliceN { slice: s }
    }

    /// The whole slice, head and tail together.
    pub fn as_slice(&self) -> (r: &'a [T])
        ensures
            r == self.spec_slice(),
            r@.len() >= N,
    {
        proof { use_type_invariant(self); }
        self.slice
    }
}

impl<'a, T: Ord, const N: usize> SliceN<'a, T, N> {
    /// The total lexicographic order of the two views' elements.
    pub fn cmp(&self, other: &Self) -> (r: Ordering)
        ensures
            T::obeys_cmp_spec() ==> r == lex_cmp(self@, other@),
    {
        slice_cmp(self.as_slice(), other.as_slice())
    }
}

impl<'a, T> SliceN<'a, T, 1> {
    /// The number of elements, never zero.
    pub fn len_(&self) -> (r: usize)
        ensures
            r == self@.len(),
            r >= 1,
    {
        self.as_slice().len()
    }

    /// The first element.
    pub fn first(&self) -> (r: &'a T)
        ensures
            *r == self@[0],
    {
        &self.as_slice()[0]
    }

    /// The last element.
    pub fn last(&self) -> (r: &'a T)
        ensures
            *r == self@.last(),
    {
        self.as_slice().last().unwrap()
    }

    /// The first element and the elements after it.
    pub fn split_first(&self) -> (r: (&'a T, &'a [T]))
        ensures
            *r.0 == self@[0],
            r.1@ == self@.drop_first(),
    {
        let s = self.as_slice();
        let (head, tail) = s.split_at(1);
        (&head[0], tail)
    }

    /// The last element and the elements before it.
    pub fn split_last(&self) -> (r: (&'a T, &'a [T]))
        ensures
            *r.0 == self@.last(),
            r.1@ == self@.drop_last(),
    {
        let s = self.as_slice();
        let (init, end) = s.split_at(s.len() - 1);
        (&end[0], init)
    }
}

impl<'a, T, const N: usize> core::ops::Deref for SliceN<'a, T, N> {
    type Target = [T];

    fn deref(&self) -> (r: &[T])
        ensures
            r == self.spec_slice(),
    {
        self.as_slice()
    }
}

impl<'a, T, const N: usize> core::convert::AsRef<[T]> for SliceN<'a, T, N> {
    fn as_ref(&self) -> (r: &[T])
        ensures
            r == self.spec_slice(),
    {
        self.as_slice()
    }
}

impl<'a, T, const N: usize> core::borrow::Borrow<[T]> for SliceN<'a, T, N> {
    fn borrow(&self) -> (r: &[T])
        ensures
            <[T] as View>::view(r) == self@,
    {
        self.as_slice()
    }
}

impl<'a, 'b, A: PartialEq<B>, B, const N: usize, const M: usize> PartialEq<SliceN<'b, B, M>> for SliceN<'a, A, N> {
    fn eq(&self, other: &SliceN<'b, B, M>) -> (r: bool) {
        slice_eq(self.as_slice(), other.as_slice())
    }
}

impl<'a, 'b, A: PartialEq<B>, B, const N: usize, const M: usize> vstd::std_specs::cmp::PartialEqSpecImpl<SliceN<'b, B, M>> for SliceN<'a, A, N> {
    open spec fn obeys_eq_spec() -> bool {
        A::obeys_eq_spec()
    }

    open spec fn eq_spec(&self, other: &SliceN<'b, B, M>) -> bool {
        seq_eq(self@, other@)
    }
}

impl<'a, A: PartialEq<B>, B, const N: usize, const M: usize> PartialEq<[B; M]> for SliceN<'a, A, N> {
    fn eq(&self, other: &[B; M]) -> (r: bool) {
        slice_eq(self.as_slice(), other.as_slice())
    }
}

impl<'a, A: PartialEq<B>, B, const N: usize, const M: usize> vstd::std_specs::cmp::PartialEqSpecImpl<[B; M]> for SliceN<'a, A, N> {
    open spec fn obeys_eq_spec() -> bool {
        A::obeys_eq_spec()
    }

    open spec fn eq_spec(&self, other: &[B; M]) -> bool {
        seq_eq(self@, other@)
    }
}

impl<'a, A: PartialEq<B>, B, const N: usize> PartialEq<Vec<B>> for SliceN<'a, A, N> {
    fn eq(&self, other: &Vec<B>) -> (r: bool) {
        slice_eq(self.as_slice(), other.as_slice())
    }
}

impl<'a, A: PartialEq<B>, B, const N: usize> vstd::std_specs::cmp::PartialEqSpecImpl<Vec<B>> for SliceN<'a, A, N> {
    open spec fn obeys_eq_spec() -> bool {
        A::obeys_eq_spec()
    }

    open spec fn eq_spec(&self, other: &Vec<B>) -> bool {
        seq_eq(self@, other@)
    }
}

impl<'a, T: Eq, const N: usize> Eq for SliceN<'a, T, N> {}

impl<'a, T: PartialOrd, const N: usize> PartialOrd for SliceN<'a, T, N> {
    fn partial_cmp(&self, other: &Self) -> (r: Option<Ordering>) {
        slice_partial_cmp(self.as_slice(), other.as_slice())
    }

    fn lt(&self, other: &Self) -> (r: bool) {
        match slice_partial_cmp(self.as_slice(), other.as_slice()) {
            Some(Ordering::Less) => true,
            _ => false,
        }
    }

    fn le(&self, other: &Self) -> (r: bool) {
        match slice_partial_cmp(self.as_slice(), other.as_slice()) {
            Some(Ordering::Less) | Some(Ordering::Equal) => true,
            _ => false,
        }
    }

    fn gt(&self, other: &Self) -> (r: bool) {
        match slice_partial_cmp(self.as_slice(), other.as_slice()) {
            Some(Ordering::Greater) => true,
            _ => false,
        }
    }

    fn ge(&self, other: &Self) -> (r: bool) {
        match slice_partial_cmp(self.as_slice(), other.as_slice()) {
            Some(Ordering::Greater) | Some(Ordering::Equal) => true,
            _ => false,
        }
    }
}

impl<'a, T: PartialOrd, const N: usize> vstd::std_specs::cmp::PartialOrdSpecImpl for SliceN<'a, T, N> {
    open spec fn obeys_partial_cmp_spec() -> bool {
        T::obeys_partial_cmp_spec()
    }

    open spec fn partial_cmp_spec(&self, other: &Self) -> Option<Ordering> {
        lex_partial_cmp(self@, other@)
    }
}

/// A view that spans `s` holds exactly the elements of `s`, so its length is `s`'s.
pub proof fn lemma_view_keeps_length<'a, T, const N: usize>(s: &'a [T], v: SliceN<'a, T, N>)
    requires
        v.spec_slice() == s,
    ensures
        v@ == s@,
        v@.len() == s@.len(),
{
}

/// Two views of one slice are the same view, whichever constructor made them.
pub proof fn lemma_views_of_one_slice_agree<'a, T, const N: usize>(v: SliceN<'a, T, N>, u: SliceN<'a, T, N>)
    requires
        v.spec_slice() == u.spec_slice(),
    ensures
        v == u,
{
}

/// Equality and order of two views are those of the slices they span.
pub proof fn lemma_comparisons_follow_slices<'a, T: PartialOrd, const N: usize>(
    a: &'a [T],
    b: &'a [T],
    x: SliceN<'a, T, N>,
    y: SliceN<'a, T, N>,
)
    requires
        x.spec_slice() == a,
        y.spec_slice() == b,
    ensures
        x.eq_spec(&y) == seq_eq(a@, b@),
        x.partial_cmp_spec(&y) == lex_partial_cmp(a@, b@),
{
}

} // verus!
