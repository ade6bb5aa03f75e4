use vstd::prelude::*;
use std::marker::PhantomData;
use crate::dyn_slice::DynSlice;
use crate::element::Element;
use crate::layout::{lemma_subslice_wf, lemma_truncate_wf, SliceView};
use crate::sequence::{lemma_elements_drop_back, lemma_elements_drop_front};

verus! {

/// Iterator over the elements of a [`DynSlice`]. Its view is the view of the
/// elements that are left.
pub struct Iter<'a, Dyn: ?Sized> {
    pub(crate) slice: DynSlice<'a, Dyn>,
}

impl<'a, Dyn: ?Sized> View for Iter<'a, Dyn> {
    type V = SliceView;

    open(crate) spec fn view(&self) -> SliceView {
        self.slice@
    }
}

impl<'a, Dyn: ?Sized> Clone for Iter<'a, Dyn> {
    fn clone(&self) -> (r: Self)
        ensures
            r@ == self@,
    {
        Iter { slice: self.slice }
    }
}

impl<'a, Dyn: ?Sized> Iter<'a, Dyn> {
    /// Whether the iterator is well formed: the view of what is left is.
    pub open spec fn wf(&self) -> bool {
        self@.wf()
    }

    /// Takes the element at the front, if there is one.
    pub fn next(&mut self) -> (r: Option<Element<'a, Dyn>>)
        requires
            old(self).wf(),
        ensures
            final(self).wf(),
            old(self)@.len == 0 ==> r is None && final(self)@ == old(self)@,
            final(self)@.elements().len() + (if r is Some {
                1nat
            } else {
                0nat
            }) == old(self)@.elements().len(),
            old(self)@.len > 0 ==> r is Some && final(self)@ == old(self)@.subslice(
                1,
                (old(self)@.len - 1) as nat,
            ) && final(self)@.elements() == old(self)@.elements().drop_first(),
            r matches Some(e) ==> e@ == old(self)@.elements()[0],
    {
        if self.slice.is_empty() {
            None
        } else {
            let element = Element {
                record: self.slice.record,
                data: self.slice.data,
                phantom: PhantomData,
            };
            proof {
                lemma_subslice_wf(self@, 1, (self@.len - 1) as nat);
                lemma_elements_drop_front(self@, 1);
                assert(1 * self@.stride() == self@.stride()) by (nonlinear_arith);
            }
            self.slice.data = self.slice.data + self.slice.record.stride;
            self.slice.len -= 1;
            Some(element)
        }
    }

    /// The number of elements that are left, as the lower and the upper bound.
    pub fn size_hint(&self) -> (r: (usize, Option<usize>))
        ensures
            r.0 == self@.elements().len(),
            r.1 == Some(r.0),
    {
        let remaining = self.slice.len();
        (remaining, Some(remaining))
    }

    /// The number of elements that are left.
    pub fn count(self) -> (n: usize)
        ensures
            n == self@.elements().len(),
    {
        self.slice.len()
    }

    /// Skips `n` elements at the front and takes the next one. Where fewer than
    /// `n + 1` elements are left, nothing is left afterwards.
    pub fn nth(&mut self, n: usize) -> (r: Option<Element<'a, Dyn>>)
        requires
            old(self).wf(),
        ensures
            final(self).wf(),
            n < old(self)@.len ==> r is Some && final(self)@ == old(self)@.subslice(
                (n + 1) as nat,
                (old(self)@.len - n - 1) as nat,
            ) && final(self)@.elements() == old(self)@.elements().skip(n + 1),
            n >= old(self)@.len ==> r is None && final(self)@.len == 0,
            r matches Some(e) ==> e@ == old(self)@.elements()[n as int],
    {
        if n >= self.slice.len() {
            self.slice.len = 0;
            return None;
        }
        let ghost before = self@;
        let stride = self.slice.record.stride;
        proof {
            lemma_subslice_wf(before, n as nat, (before.len - n) as nat);
            lemma_elements_drop_front(before, n as nat);
            lemma_elements_drop_front(before, (n + 1) as nat);
            crate::layout::lemma_subslice_subslice(
                before,
                n as nat,
                (before.len - n) as nat,
                1,
                (before.len - n - 1) as nat,
            );
            assert(stride * n == n * stride) by (nonlinear_arith);
            assert(n * stride <= before.len * stride) by (nonlinear_arith)
                requires
                    n <= before.len,
            ;
        }
        self.slice.data = self.slice.data + stride * n;
        self.slice.len -= n;
        self.next()
    }

    /// The last of the elements that are left, if there is one.
    pub fn last(self) -> (r: Option<Element<'a, Dyn>>)
        requires
            self.wf(),
        ensures
            r is Some <==> self@.len > 0,
            r matches Some(e) ==> e@ == self@.elements().last(),
    {
        let mut rest = self;
        rest.next_back()
    }

    /// Takes the element at the back, if there is one.
    pub fn next_back(&mut self) -> (r: Option<Element<'a, Dyn>>)
        requires
            old(self).wf(),
        ensures
            final(self).wf(),
            old(self)@.len == 0 ==> r is None && final(self)@ == old(self)@,
            final(self)@.elements().len() + (if r is Some {
                1nat
            } else {
                0nat
            }) == old(self)@.elements().len(),
            old(self)@.len > 0 ==> r is Some && final(self)@ == old(self)@.truncate(1)
                && final(self)@.elements() == old(self)@.elements().drop_last(),
            r matches Some(e) ==> e@ == old(self)@.elements().last(),
    {
        if self.slice.is_empty() {
            None
        } else {
            let data = self.slice.get_ptr_unchecked(self.slice.len - 1);
            let element = Element { record: self.slice.record, data, phantom: PhantomData };
            proof {
                lemma_truncate_wf(self@, 1);
                lemma_elements_drop_back(self@, 1);
                assert(self@.elements().take(self@.len - 1) =~= self@.elements().drop_last());
            }
            self.slice.len -= 1;
            Some(element)
        }
    }

    /// Skips `n` elements at the back and takes the next one. Where fewer than
    /// `n + 1` elements are left, nothing is left afterwards.
    pub fn nth_back(&mut self, n: usize) -> (r: Option<Element<'a, Dyn>>)
        requires
            old(self).wf(),
        ensures
            final(self).wf(),
            n < old(self)@.len ==> r is Some && final(self)@ == old(self)@.truncate(
                (n + 1) as nat,
            ) && final(self)@.elements() == old(self)@.elements().take(old(self)@.len - 1 - n),
            n >= old(self)@.len ==> r is None && final(self)@.len == 0,
            r matches Some(e) ==> e@ == old(self)@.elements()[old(self)@.len - 1 - n],
    {
        if n >= self.slice.len() {
            self.slice.len = 0;
            return None;
        }
        proof {
            lemma_truncate_wf(self@, n as nat);
            lemma_elements_drop_back(self@, n as nat);
            lemma_elements_drop_back(self@, (n + 1) as nat);
        }
        self.slice.len -= n;
        self.next_back()
    }

    /// The number of elements that are left.
    pub fn len(&self) -> (n: usize)
        ensures
            n == self@.len,
            n == self@.elements().len(),
    {
        self.slice.len()
    }
}

} // verus!
