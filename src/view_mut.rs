use vstd::prelude::*;

use crate::view::SliceN;

verus! {

/// An exclusive view of a slice that is known to hold at least `N` elements.
///
/// The constructors establish `wf`, and every method that writes keeps it. The
/// field is public so that contracts can speak of what the viewed slice holds
/// once the view is given up (`final(v.slice)`).
pub struct SliceNMut<'a, T, const N: usize> {
    /// The whole slice, head and tail together.
    pub slice: &'a mut [T],
}

/// An exclusive view of a slice that is known to hold at least one element.
pub type Slice1Mut<'a, T> = SliceNMut<'a, T, 1>;

impl<'a, T, const N: usize> View for SliceNMut<'a, T, N> {
    type V = Seq<T>;

    open spec fn view(&self) -> Seq<T> {
        self.slice@
    }
}

impl<'a, T, const N: usize> SliceNMut<'a, T, N> {
    /// The view holds at least `N` elements.
    pub open spec fn wf(self) -> bool {
        self.slice@.len() >= N
    }

    /// Views `s` as holding at least `N` elements if it does.
    pub fn from_slice_mut(s: &'a mut [T]) -> (r: Option<Self>)
        ensures
            r is Some <==> old(s)@.len() >= N,
            r matches Some(v) ==> v@ == old(s)@ && v.wf() && final(v.slice)@ == final(s)@,
            r is None ==> final(s)@ == old(s)@,
    {
        if s.len() >= N {
            Some(Self::from_slice_unchecked_mut(s))
        } else {
            None
        }
    }

    /// Views `s` as holding at least `N` elements, which the caller has established.
    pub fn from_slice_unchecked_mut(s: &'a mut [T]) -> (r: Self)
        requires
            old(s)@.len() >= N,
        ensures
            r@ == old(s)@,
            r.wf(),
            final(r.slice)@ == final(s)@,
    {
        SliceNMut { slice: s }
    }
}

impl<'a, T, const N: usize> SliceNMut<'a, T, N> {
    /// The whole slice, for reading.
    pub fn as_slice(&self) -> (r: &[T])
        ensures
            r@ == self@,
    {
        self.slice
    }

    /// A shared view of the same elements, for reading.
    pub fn as_slice_n(&self) -> (r: SliceN<'_, T, N>)
        requires
            self.wf(),
        ensures
            r@ == self@,
    {
        SliceN::from_slice_unchecked(self.as_slice())
    }

    /// The whole slice, for writing.
    pub fn as_mut_slice(&mut self) -> (r: &mut [T])
        ensures
            r@ == old(self)@,
            final(self)@ == final(r)@,
            final(final(self).slice)@ == final(old(self).slice)@,
    {
        &mut *self.slice
    }
}

impl<'a, T> SliceNMut<'a, T, 1> {
    /// The number of elements, never zero.
    pub fn len_(&self) -> (r: usize)
        requires
            self.wf(),
        ensures
            r == self@.len(),
            r >= 1,
    {
        self.slice.len()
    }


    /// The first element, for writing.
    pub fn first_mut(&mut self) -> (r: &mut T)
        requires
            old(self).wf(),
        ensures
            final(self).wf(),
            *r == old(self)@[0],
            final(self)@ == old(self)@.update(0, *final(r)),
            final(final(self).slice)@ == final(old(self).slice)@,
    {
        self.slice.first_mut().unwrap()
    }

    /// The last element, for writing.
    pub fn last_mut(&mut self) -> (r: &mut T)
        requires
            old(self).wf(),
        ensures
            final(self).wf(),
            *r == old(self)@.last(),
            final(self)@ == old(self)@.update(old(self)@.len() - 1, *final(r)),
            final(final(self).slice)@ == final(old(self).slice)@,
    {
        self.slice.last_mut().unwrap()
    }

    /// The first element and the elements after it, for writing.
    pub fn split_first_mut(&mut self) -> (r: (&mut T, &mut [T]))
        requires
            old(self).wf(),
        ensures
            final(self).wf(),
            *r.0 == old(self)@[0],
            r.1@ == old(self)@.drop_first(),
            final(self)@ == seq![*final(r.0)] + final(r.1)@,
            final(final(self).slice)@ == final(old(self).slice)@,
    {
        let (head, tail) = self.slice.split_at_mut(1);
        (head.first_mut().unwrap(), tail)
    }

    /// The last element and the elements before it, for writing.
    pub fn split_last_mut(&mut self) -> (r: (&mut T, &mut [T]))
        requires
            old(self).wf(),
        ensures
            final(self).wf(),
            *r.0 == old(self)@.last(),
            r.1@ == old(self)@.drop_last(),
            final(self)@ == final(r.1)@.push(*final(r.0)),
            final(final(self).slice)@ == final(old(self).slice)@,
    {
        let n = self.slice.len();
        let (init, end) = self.slice.split_at_mut(n - 1);
        (end.first_mut().unwrap(), init)
    }
}

/// Relies on `core::slice::from_mut`: a slice of length one over the referenced value.
#[verifier::external_body]
fn slice_from_mut<T>(s: &mut T) -> (r: &mut [T])
    ensures
        r@ == seq![*old(s)],
        final(r)@.len() == 1 ==> *final(s) == final(r)@[0],
{
    core::slice::from_mut(s)
}

/// Views the single value behind `s` as a slice that holds one element.
pub fn from_mut<'a, T>(s: &'a mut T) -> (r: SliceNMut<'a, T, 1>)
    ensures
        r.wf(),
        r@ == seq![*old(s)],
        final(r.slice)@.len() == 1 ==> *final(s) == final(r.slice)@[0],
{
    SliceNMut::from_slice_unchecked_mut(slice_from_mut(s))
}

} // verus!
