use vstd::prelude::*;
use crate::dyn_slice::DynSlice;
use crate::layout::lemma_truncate_wf;
use crate::record::Bound;
use crate::sequence::{lemma_windows_drop_back, lemma_windows_drop_front, WindowsView};
use crate::utils::extend_lifetime;

verus! {

/// Iterator over the overlapping windows of a [`DynSlice`]: at each index at
/// which `window_size` elements start, the view of those elements.
pub struct Windows<'a, Dyn: ?Sized> {
    pub(crate) slice: DynSlice<'a, Dyn>,
    pub(crate) window_size: usize,
}

impl<'a, Dyn: ?Sized> View for Windows<'a, Dyn> {
    type V = WindowsView;

    open(crate) spec fn view(&self) -> WindowsView {
        WindowsView { slice: self.slice@, window_size: self.window_size as nat }
    }
}

impl<'a, Dyn: ?Sized> Windows<'a, Dyn> {
    /// Whether the iterator is well formed: its view is, and the window size
    /// is not zero.
    pub open spec fn wf(&self) -> bool {
        self@.wf()
    }

    /// Takes the window at the front, if there is one.
    pub fn next(&mut self) -> (r: Option<DynSlice<'a, Dyn>>)
        requires
            old(self).wf(),
        ensures
            final(self).wf(),
            final(self)@.window_size == old(self)@.window_size,
            old(self)@.count() == 0 ==> r is None && final(self)@ == old(self)@,
            final(self)@.items().len() + (if r is Some {
                1nat
            } else {
                0nat
            }) == old(self)@.items().len(),
            old(self)@.count() > 0 ==> r is Some && final(self)@.items() == old(
                self,
            )@.items().drop_first(),
            r matches Some(window) ==> window.wf() && window@ == old(self)@.items()[0],
    {
        let window = match self.slice.slice(Bound::Unbounded, Bound::Excluded(self.window_size)) {
            Some(w) => extend_lifetime(w),
            None => {
                return None;
            },
        };
        let remaining = extend_lifetime(self.slice.slice_unchecked(1, self.slice.len() - 1));
        proof {
            lemma_windows_drop_front(self@, 1);
            assert(self@.drop_front(1).slice == remaining@);
        }
        self.slice = remaining;
        Some(window)
    }

    /// The number of windows that are left, as the lower and the upper bound.
    pub fn size_hint(&self) -> (r: (usize, Option<usize>))
        requires
            self.wf(),
        ensures
            r.0 == self@.items().len(),
            r.1 == Some(r.0),
    {
        let len = self.len();
        (len, Some(len))
    }

    /// The number of windows that are left.
    pub fn count(self) -> (n: usize)
        requires
            self.wf(),
        ensures
            n == self@.items().len(),
    {
        self.len()
    }

    /// Skips `n` windows at the front and takes the next one. Where fewer than
    /// `n + 1` windows are left, nothing is left afterwards.
    pub fn nth(&mut self, n: usize) -> (r: Option<DynSlice<'a, Dyn>>)
        requires
            old(self).wf(),
        ensures
            final(self).wf(),
            final(self)@.window_size == old(self)@.window_size,
            n < old(self)@.count() ==> r is Some && final(self)@.items() == old(
                self,
            )@.items().skip(n + 1),
            n >= old(self)@.count() ==> r is None && final(self)@.items().len() == 0,
            r matches Some(window) ==> window.wf() && window@ == old(self)@.items()[n as int],
    {
        let remaining = match self.slice.slice(Bound::Included(n), Bound::Unbounded) {
            Some(s) => extend_lifetime(s),
            None => {
                self.slice.len = 0;
                return None;
            },
        };
        proof {
            lemma_windows_drop_front(self@, n as nat);
            assert(self@.drop_front(n as nat).slice == remaining@);
            if n < self@.count() {
                assert(self@.items().skip(n as int).drop_first() =~= self@.items().skip(n + 1));
            }
        }
        self.slice = remaining;
        self.next()
    }

    /// Takes the window at the back, if there is one.
    pub fn next_back(&mut self) -> (r: Option<DynSlice<'a, Dyn>>)
        requires
            old(self).wf(),
        ensures
            final(self).wf(),
            final(self)@.window_size == old(self)@.window_size,
            old(self)@.count() == 0 ==> r is None && final(self)@ == old(self)@,
            final(self)@.items().len() + (if r is Some {
                1nat
            } else {
                0nat
            }) == old(self)@.items().len(),
            old(self)@.count() > 0 ==> r is Some && final(self)@.items() == old(
                self,
            )@.items().drop_last(),
            r matches Some(window) ==> window.wf() && window@ == old(self)@.items().last(),
    {
        let mid = match self.slice.len().checked_sub(self.window_size) {
            Some(m) => m,
            None => {
                return None;
            },
        };
        let window = extend_lifetime(self.slice.slice_unchecked(mid, self.window_size));
        proof {
            lemma_windows_drop_back(self@, 1);
            lemma_truncate_wf(self@.slice, 1);
            assert(self@.items().take(self@.count() - 1) =~= self@.items().drop_last());
        }
        self.slice.len -= 1;
        Some(window)
    }

    /// Skips `n` windows at the back and takes the next one. Where fewer than
    /// `n + 1` windows are left, nothing is left afterwards.
    pub fn nth_back(&mut self, n: usize) -> (r: Option<DynSlice<'a, Dyn>>)
        requires
            old(self).wf(),
        ensures
            final(self).wf(),
            final(self)@.window_size == old(self)@.window_size,
            n < old(self)@.count() ==> r is Some && final(self)@.items() == old(
                self,
            )@.items().take(old(self)@.count() - 1 - n),
            n >= old(self)@.count() ==> r is None && final(self)@.items().len() == 0,
            r matches Some(window) ==> window.wf() && window@ == old(self)@.items()[old(
                self,
            )@.count() - 1 - n],
    {
        let ghost before = self@;
        self.slice.len = self.slice.len.saturating_sub(n);
        proof {
            let dropped = (before.slice.len - self@.slice.len) as nat;
            lemma_truncate_wf(before.slice, dropped);
            lemma_windows_drop_back(before, dropped);
            assert(before.drop_back(dropped) == self@);
            if n < before.count() {
                assert(before.items().take(before.count() - n).drop_last()
                    =~= before.items().take(before.count() - 1 - n));
            }
        }
        self.next_back()
    }

    /// The number of windows that are left.
    pub fn len(&self) -> (n: usize)
        requires
            self.wf(),
        ensures
            n == self@.count(),
            n == self@.items().len(),
    {
        self.slice.len().saturating_sub(self.window_size - 1)
    }
}

} // verus!
