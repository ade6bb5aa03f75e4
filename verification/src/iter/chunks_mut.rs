use vstd::prelude::*;
use std::marker::PhantomData;
use crate::dyn_slice::DynSlice;
use crate::dyn_slice_mut::DynSliceMut;
use crate::iter::chunks::Chunks;
use crate::sequence::ChunksView;
use crate::utils::extend_lifetime;

verus! {

/// Iterator over the chunks of a [`DynSliceMut`], for writing, counted from its
/// front: each has `chunk_size` elements, but for the last one, which
/// has what is left. No two chunks share an element.
pub struct ChunksMut<'a, Dyn: ?Sized> {
    pub(crate) slice: DynSliceMut<'a, Dyn>,
    pub(crate) chunk_size: usize,
}

impl<'a, Dyn: ?Sized> View for ChunksMut<'a, Dyn> {
    type V = ChunksView;

    open(crate) spec fn view(&self) -> ChunksView {
        ChunksView { slice: self.slice@, chunk_size: self.chunk_size as nat }
    }
}

/// The view for writing to the elements that `chunk` reads.
fn exclusive<'a, Dyn: ?Sized>(chunk: Option<DynSlice<'a, Dyn>>) -> (r: Option<
    DynSliceMut<'a, Dyn>,
>)
    ensures
        r is Some <==> chunk is Some,
        r matches Some(c) ==> c@ == chunk.unwrap()@,
{
    match chunk {
        Some(c) => Some(DynSliceMut(c, PhantomData)),
        None => None,
    }
}

impl<'a, Dyn: ?Sized> ChunksMut<'a, Dyn> {
    /// Whether the iterator is well formed: its view is, and the chunk size is
    /// not zero.
    pub open spec fn wf(&self) -> bool {
        self@.wf()
    }

    /// The read-only iterator over the chunks that are left.
    fn shared(&self) -> (r: Chunks<'a, Dyn>)
        ensures
            r@ == self@,
    {
        Chunks { slice: extend_lifetime(self.slice.0), chunk_size: self.chunk_size }
    }

    /// Takes the chunk at the front of the view, if there is one.
    pub fn next(&mut self) -> (r: Option<DynSliceMut<'a, Dyn>>)
        requires
            old(self).wf(),
        ensures
            final(self).wf(),
            final(self)@.chunk_size == old(self)@.chunk_size,
            old(self)@.count() == 0 ==> r is None && final(self)@ == old(self)@,
            final(self)@.items().len() + (if r is Some {
                1nat
            } else {
                0nat
            }) == old(self)@.items().len(),
            old(self)@.count() > 0 ==> r is Some && final(self)@.items() == old(
                self,
            )@.items().drop_first(),
            r matches Some(chunk) ==> chunk.wf() && chunk@ == old(self)@.items()[0],
    {
        let mut shared = self.shared();
        let chunk = shared.next();
        self.slice.0 = shared.slice;
        exclusive(chunk)
    }

    /// The number of chunks that are left, as the lower and the upper bound.
    pub fn size_hint(&self) -> (r: (usize, Option<usize>))
        requires
            self.wf(),
        ensures
            r.0 == self@.items().len(),
            r.1 == Some(r.0),
    {
        let remaining = self.len();
        (remaining, Some(remaining))
    }

    /// The number of chunks that are left.
    pub fn count(self) -> (n: usize)
        requires
            self.wf(),
        ensures
            n == self@.items().len(),
    {
        self.len()
    }

    /// Skips `n` chunks at the front of the view and takes the next one. Where
    /// fewer than `n + 1` chunks are left, nothing is left afterwards.
    pub fn nth(&mut self, n: usize) -> (r: Option<DynSliceMut<'a, Dyn>>)
        requires
            old(self).wf(),
        ensures
            final(self).wf(),
            final(self)@.chunk_size == old(self)@.chunk_size,
            n < old(self)@.count() ==> r is Some && final(self)@.items() == old(
                self,
            )@.items().skip(n + 1),
            n >= old(self)@.count() ==> r is None && final(self)@.items().len() == 0,
            r matches Some(chunk) ==> chunk.wf() && chunk@ == old(self)@.items()[n as int],
    {
        let mut shared = self.shared();
        let chunk = shared.nth(n);
        self.slice.0 = shared.slice;
        exclusive(chunk)
    }

    /// Takes the chunk at the back of the view, if there is one.
    pub fn last(self) -> (r: Option<DynSliceMut<'a, Dyn>>)
        requires
            self.wf(),
        ensures
            r is Some <==> self@.count() > 0,
            r matches Some(chunk) ==> chunk.wf() && chunk@ == self@.items().last(),
    {
        exclusive(self.shared().last())
    }

    /// Takes the chunk at the back of the view, if there is one.
    pub fn next_back(&mut self) -> (r: Option<DynSliceMut<'a, Dyn>>)
        requires
            old(self).wf(),
        ensures
            final(self).wf(),
            final(self)@.chunk_size == old(self)@.chunk_size,
            old(self)@.count() == 0 ==> r is None && final(self)@ == old(self)@,
            final(self)@.items().len() + (if r is Some {
                1nat
            } else {
                0nat
            }) == old(self)@.items().len(),
            old(self)@.count() > 0 ==> r is Some && final(self)@.items() == old(
                self,
            )@.items().drop_last(),
            r matches Some(chunk) ==> chunk.wf() && chunk@ == old(self)@.items().last(),
    {
        let mut shared = self.shared();
        let chunk = shared.next_back();
        self.slice.0 = shared.slice;
        exclusive(chunk)
    }

    /// Skips `n` chunks at the back of the view and takes the next one. Where
    /// fewer than `n + 1` chunks are left, nothing is left afterwards.
    pub fn nth_back(&mut self, n: usize) -> (r: Option<DynSliceMut<'a, Dyn>>)
        requires
            old(self).wf(),
        ensures
            final(self).wf(),
            final(self)@.chunk_size == old(self)@.chunk_size,
            n < old(self)@.count() ==> r is Some && final(self)@.items() == old(
                self,
            )@.items().take(old(self)@.count() - 1 - n),
            n >= old(self)@.count() ==> r is None && final(self)@.items().len() == 0,
            r matches Some(chunk) ==> chunk.wf() && chunk@ == old(self)@.items()[old(
                self,
            )@.count() - 1 - n],
    {
        let mut shared = self.shared();
        let chunk = shared.nth_back(n);
        self.slice.0 = shared.slice;
        exclusive(chunk)
    }

    /// The number of chunks that are left.
    pub fn len(&self) -> (n: usize)
        requires
            self.wf(),
        ensures
            n == self@.count(),
            n == self@.items().len(),
    {
        self.shared().len()
    }
}

} // verus!
