use vstd::prelude::*;
use std::marker::PhantomData;
use crate::dyn_slice_mut::DynSliceMut;
use crate::element::{Element, ElementMut};
use crate::iter::iter::Iter;
use crate::layout::SliceView;
use crate::utils::extend_lifetime;

verus! {

/// Iterator over the elements of a [`DynSliceMut`], for writing. Its view is
/// the view of the elements that are left; it holds the exclusive access of the
/// view it was made from for as long as it lives.
pub struct IterMut<'a, Dyn: ?Sized> {
    pub(crate) slice: DynSliceMut<'a, Dyn>,
}

impl<'a, Dyn: ?Sized> View for IterMut<'a, Dyn> {
    type V = SliceView;

    open(crate) spec fn view(&self) -> SliceView {
        self.slice@
    }
}

/// The handle for writing to the element that `element` reads.
fn exclusive<'a, Dyn: ?Sized>(element: Option<Element<'a, Dyn>>) -> (r: Option<
    ElementMut<'a, Dyn>,
>)
    ensures
        r is Some <==> element is Some,
        r matches Some(e) ==> e@ == element.unwrap()@,
{
    match element {
        Some(e) => Some(ElementMut { record: e.record, data: e.data, phantom: PhantomData }),
        None => None,
    }
}

impl<'a, Dyn: ?Sized> IterMut<'a, Dyn> {
    /// Whether the iterator is well formed: the view of what is left is.
    pub open spec fn wf(&self) -> bool {
        self@.wf()
    }

    /// The read-only iterator over the elements that are left.
    fn shared(&self) -> (r: Iter<'a, Dyn>)
        ensures
            r@ == self@,
    {
        Iter { slice: extend_lifetime(self.slice.0) }
    }

    /// Takes the element at the front, if there is one.
    pub fn next(&mut self) -> (r: Option<ElementMut<'a, Dyn>>)
        requires
            old(self).wf(),
        ensures
            final(self).wf(),
            old(self)@.len == 0 ==> r is None && final(self)@ == old(self)@,
            final(self)@.elements().len() + (if r is Some {
                1nat
            } else {
                0nat
            }) == old(self)@.elements().len(),
            old(self)@.len > 0 ==> r is Some && final(self)@ == old(self)@.subslice(
                1,
                (old(self)@.len - 1) as nat,
            ) && final(self)@.elements() == old(self)@.elements().drop_first(),
            r matches Some(e) ==> e@ == old(self)@.elements()[0],
    {
        let mut shared = self.shared();
        let element = shared.next();
        self.slice.0 = shared.slice;
        exclusive(element)
    }

    /// The number of elements that are left, as the lower and the upper bound.
    pub fn size_hint(&self) -> (r: (usize, Option<usize>))
        ensures
            r.0 == self@.elements().len(),
            r.1 == Some(r.0),
    {
        let remaining = self.slice.0.len();
        (remaining, Some(remaining))
    }

    /// The number of elements that are left.
    pub fn count(self) -> (n: usize)
        ensures
            n == self@.elements().len(),
    {
        self.slice.0.len()
    }

    /// Skips `n` elements at the front and takes the next one. Where fewer than
    /// `n + 1` elements are left, nothing is left afterwards.
    pub fn nth(&mut self, n: usize) -> (r: Option<ElementMut<'a, Dyn>>)
        requires
            old(self).wf(),
        ensures
            final(self).wf(),
            n < old(self)@.len ==> r is Some && final(self)@ == old(self)@.subslice(
                (n + 1) as nat,
                (old(self)@.len - n - 1) as nat,
            ) && final(self)@.elements() == old(self)@.elements().skip(n + 1),
            n >= old(self)@.len ==> r is None && final(self)@.len == 0,
            r matches Some(e) ==> e@ == old(self)@.elements()[n as int],
    {
        let mut shared = self.shared();
        let element = shared.nth(n);
        self.slice.0 = shared.slice;
        exclusive(element)
    }

    /// The last of the elements that are left, if there is one.
    pub fn last(self) -> (r: Option<ElementMut<'a, Dyn>>)
        requires
            self.wf(),
        ensures
            r is Some <==> self@.len > 0,
            r matches Some(e) ==> e@ == self@.elements().last(),
    {
        exclusive(self.shared().last())
    }

    /// Takes the element at the back, if there is one.
    pub fn next_back(&mut self) -> (r: Option<ElementMut<'a, Dyn>>)
        requires
            old(self).wf(),
        ensures
            final(self).wf(),
            old(self)@.len == 0 ==> r is None && final(self)@ == old(self)@,
            final(self)@.elements().len() + (if r is Some {
                1nat
            } else {
                0nat
            }) == old(self)@.elements().len(),
            old(self)@.len > 0 ==> r is Some && final(self)@ == old(self)@.truncate(1)
                && final(self)@.elements() == old(self)@.elements().drop_last(),
            r matches Some(e) ==> e@ == old(self)@.elements().last(),
    {
        let mut shared = self.shared();
        let element = shared.next_back();
        self.slice.0 = shared.slice;
        exclusive(element)
    }

    /// Skips `n` elements at the back and takes the next one. Where fewer than
    /// `n + 1` elements are left, nothing is left afterwards.
    pub fn nth_back(&mut self, n: usize) -> (r: Option<ElementMut<'a, Dyn>>)
        requires
            old(self).wf(),
        ensures
            final(self).wf(),
            n < old(self)@.len ==> r is Some && final(self)@ == old(self)@.truncate(
                (n + 1) as nat,
            ) && final(self)@.elements() == old(self)@.elements().take(old(self)@.len - 1 - n),
            n >= old(self)@.len ==> r is None && final(self)@.len == 0,
            r matches Some(e) ==> e@ == old(self)@.elements()[old(self)@.len - 1 - n],
    {
        let mut shared = self.shared();
        let element = shared.nth_back(n);
        self.slice.0 = shared.slice;
        exclusive(element)
    }

    /// The number of elements that are left.
    pub fn len(&self) -> (n: usize)
        ensures
            n == self@.len,
            n == self@.elements().len(),
    {
        self.slice.0.len()
    }
}

} // verus!
