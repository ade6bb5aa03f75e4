use vstd::prelude::*;
use std::marker::PhantomData;
use crate::dyn_slice::{resolve_end, resolve_start, DynSlice};
use crate::element::{Element, ElementMut, SliceParts};
use crate::iter::{ChunksMut, Iter, IterMut, RChunksMut};
use crate::layout::{lemma_subslice_wf, SliceView};
use crate::record::{Bound, DispatchRecord};

verus! {

/// A view with exclusive access to a run of elements of one concrete type,
/// known only through the dispatch record that all of them share.
///
/// It cannot be copied. Whatever it hands out for writing borrows it mutably,
/// so that at most one such handle or sub-view lives at a time.
pub struct DynSliceMut<'a, Dyn: ?Sized>(
    pub(crate) DynSlice<'a, Dyn>,
    pub(crate) PhantomData<&'a mut Dyn>,
);

impl<'a, Dyn: ?Sized> View for DynSliceMut<'a, Dyn> {
    type V = SliceView;

    open(crate) spec fn view(&self) -> SliceView {
        self.0@
    }
}

impl<'a, Dyn: ?Sized> core::ops::Deref for DynSliceMut<'a, Dyn> {
    type Target = DynSlice<'a, Dyn>;

    /// The read-only view of the same elements.
    fn deref(&self) -> (r: &DynSlice<'a, Dyn>)
        ensures
            r@ == self@,
    {
        &self.0
    }
}

impl<'a, Dyn: ?Sized> DynSliceMut<'a, Dyn> {
    /// Whether the view is well formed; see [`SliceView::wf`].
    pub open spec fn wf(&self) -> bool {
        self@.wf()
    }

    /// The read-only view of the same elements.
    pub fn as_ref(&self) -> (r: &DynSlice<'a, Dyn>)
        ensures
            r@ == self@,
    {
        &self.0
    }

    /// The mutable view of the elements of `value`, which lie at address `data`,
    /// read through `record`, whose stride is the size of an element. Only with
    /// an empty `value` may `record` be the sentinel.
    pub fn with_vtable_ptr<DynSliceFromType>(
        value: &'a mut [DynSliceFromType],
        data: usize,
        record: DispatchRecord,
    ) -> (r: Self)
        requires
            record.is_sentinel() ==> old(value)@.len() == 0,
            !record.is_sentinel() ==> record.stride == vstd::layout::size_of::<DynSliceFromType>(),
            data + old(value)@.len() * record.stride <= usize::MAX,
        ensures
            r.wf(),
            r@ == (SliceView { record, len: old(value)@.len(), data: data as nat }),
    {
        DynSliceMut(
            DynSlice { record, len: value.len(), data, phantom: PhantomData },
            PhantomData,
        )
    }

    /// The mutable view of the elements of `value`, which lie at address `data`,
    /// read through `metadata`.
    pub fn with_metadata<DynSliceFromType>(
        value: &'a mut [DynSliceFromType],
        data: usize,
        metadata: DispatchRecord,
    ) -> (r: Self)
        requires
            !metadata.is_sentinel(),
            metadata.stride == vstd::layout::size_of::<DynSliceFromType>(),
            data + old(value)@.len() * metadata.stride <= usize::MAX,
        ensures
            r.wf(),
            r@ == (SliceView { record: metadata, len: old(value)@.len(), data: data as nat }),
    {
        Self::with_vtable_ptr(value, data, metadata)
    }

    /// The mutable view of `len` elements at address `data`, read through
    /// `record`.
    pub fn from_parts(record: DispatchRecord, len: usize, data: usize) -> (r: Self)
        requires
            (SliceView { record, len: len as nat, data: data as nat }).wf(),
        ensures
            r.wf(),
            r@ == (SliceView { record, len: len as nat, data: data as nat }),
    {
        DynSliceMut(DynSlice::from_parts(record, len, data), PhantomData)
    }

    /// The mutable view of `len` elements at address `data`, read through
    /// `metadata`.
    pub fn from_parts_with_metadata(metadata: DispatchRecord, len: usize, data: usize) -> (r:
        Self)
        requires
            !metadata.is_sentinel(),
            data + len * metadata.stride <= usize::MAX,
        ensures
            r.wf(),
            r@ == (SliceView { record: metadata, len: len as nat, data: data as nat }),
    {
        Self::from_parts(metadata, len, data)
    }

    /// The address of the first element, for writing.
    pub fn as_mut_ptr(&mut self) -> (p: usize)
        ensures
            p == old(self)@.data,
            final(self)@ == old(self)@,
    {
        self.0.data
    }

    /// The first element of a view that has one.
    pub fn first_unchecked_mut(&mut self) -> (e: ElementMut<'_, Dyn>)
        requires
            old(self).wf(),
            old(self)@.len > 0,
        ensures
            e@ == old(self)@.element(0),
            final(self)@ == old(self)@,
    {
        ElementMut { record: self.0.record, data: self.0.data, phantom: PhantomData }
    }

    /// The first element, or `None` if the view is empty.
    pub fn first_mut(&mut self) -> (r: Option<ElementMut<'_, Dyn>>)
        requires
            old(self).wf(),
        ensures
            r is Some <==> old(self)@.len > 0,
            r matches Some(e) ==> e@ == old(self)@.element(0),
            final(self)@ == old(self)@,
    {
        if !self.0.is_empty() {
            Some(self.first_unchecked_mut())
        } else {
            None
        }
    }

    /// The last element, or `None` if the view is empty.
    pub fn last_mut(&mut self) -> (r: Option<ElementMut<'_, Dyn>>)
        requires
            old(self).wf(),
        ensures
            r is Some <==> old(self)@.len > 0,
            r matches Some(e) ==> e@ == old(self)@.element((old(self)@.len - 1) as nat),
            final(self)@ == old(self)@,
    {
        if !self.0.is_empty() {
            let index = self.0.len - 1;
            Some(self.get_unchecked_mut(index))
        } else {
            None
        }
    }

    /// The element at `index`, or `None` if `index` is not below the length.
    pub fn get_mut(&mut self, index: usize) -> (r: Option<ElementMut<'_, Dyn>>)
        requires
            old(self).wf(),
        ensures
            r is Some <==> index < old(self)@.len,
            r matches Some(e) ==> e@ == old(self)@.element(index as nat),
            final(self)@ == old(self)@,
    {
        if index < self.0.len {
            Some(self.get_unchecked_mut(index))
        } else {
            None
        }
    }

    /// The element at `index`, which must be below the length.
    pub fn get_unchecked_mut(&mut self, index: usize) -> (e: ElementMut<'_, Dyn>)
        requires
            old(self).wf(),
            index < old(self)@.len,
        ensures
            e@ == old(self)@.element(index as nat),
            final(self)@ == old(self)@,
    {
        let data = self.0.get_ptr_unchecked(index);
        ElementMut { record: self.0.record, data, phantom: PhantomData }
    }

    /// The element at `index`, which must be below the length, for reading.
    pub fn index(&self, index: usize) -> (e: Element<'_, Dyn>)
        requires
            self.wf(),
            index < self@.len,
        ensures
            e@ == self@.element(index as nat),
    {
        self.0.index(index)
    }

    /// The element at `index`, which must be below the length, for writing.
    pub fn index_mut(&mut self, index: usize) -> (e: ElementMut<'_, Dyn>)
        requires
            old(self).wf(),
            index < old(self)@.len,
        ensures
            e@ == old(self)@.element(index as nat),
            final(self)@ == old(self)@,
    {
        self.get_unchecked_mut(index)
    }

    /// The `len` elements that start at index `start`, which must all lie in the
    /// view, for writing.
    pub fn slice_unchecked_mut(&mut self, start: usize, len: usize) -> (r: DynSliceMut<'_, Dyn>)
        requires
            old(self).wf(),
            start + len <= old(self)@.len,
        ensures
            r.wf(),
            r@ == old(self)@.subslice(start as nat, len as nat),
            final(self)@ == old(self)@,
    {
        let data = self.0.get_ptr_unchecked(start);
        proof {
            lemma_subslice_wf(self@, start as nat, len as nat);
        }
        DynSliceMut(
            DynSlice { record: self.0.record, len, data, phantom: PhantomData },
            PhantomData,
        )
    }

    /// The mutable sub-view that the range from `start` to `end` selects, or
    /// `None` where a bound cannot be resolved, the range ends beyond the view,
    /// or it starts after its own end.
    pub fn slice_mut(&mut self, start: Bound, end: Bound) -> (r: Option<DynSliceMut<'_, Dyn>>)
        requires
            old(self).wf(),
        ensures
            r is Some <==> old(self)@.slice(start, end) is Some,
            r matches Some(s) ==> s.wf() && Some(s@) == old(self)@.slice(start, end),
            final(self)@ == old(self)@,
    {
        let start_inclusive = match resolve_start(start) {
            Some(i) => i,
            None => {
                return None;
            },
        };
        let end_exclusive = match resolve_end(end, self.0.len) {
            Some(i) => i,
            None => {
                return None;
            },
        };
        if end_exclusive > self.0.len {
            return None;
        }
        let len = match end_exclusive.checked_sub(start_inclusive) {
            Some(n) => n,
            None => {
                return None;
            },
        };
        Some(self.slice_unchecked_mut(start_inclusive, len))
    }

    /// The two halves of the view around index `mid`, for writing, or `None` if
    /// `mid` is beyond the length. The halves share no element.
    pub fn split_at_mut(&mut self, mid: usize) -> (r: Option<
        (DynSliceMut<'_, Dyn>, DynSliceMut<'_, Dyn>),
    >)
        requires
            old(self).wf(),
        ensures
            r is Some <==> mid <= old(self)@.len,
            r matches Some(p) ==> p.0.wf() && p.1.wf() && Some((p.0@, p.1@)) == old(
                self,
            )@.split_at(mid as nat),
            final(self)@ == old(self)@,
    {
        if mid <= self.0.len {
            Some(self.split_at_unchecked_mut(mid))
        } else {
            None
        }
    }

    /// The two halves of the view around index `mid`, which must not be beyond
    /// the length, for writing. The halves share no element.
    pub fn split_at_unchecked_mut(&mut self, mid: usize) -> (r: (
        DynSliceMut<'_, Dyn>,
        DynSliceMut<'_, Dyn>,
    ))
        requires
            old(self).wf(),
            mid <= old(self)@.len,
        ensures
            r.0.wf(),
            r.1.wf(),
            r.0@ == old(self)@.subslice(0, mid as nat),
            r.1@ == old(self)@.subslice(mid as nat, (old(self)@.len - mid) as nat),
            final(self)@ == old(self)@,
    {
        let second = self.0.get_ptr_unchecked(mid);
        proof {
            lemma_subslice_wf(self@, 0, mid as nat);
            lemma_subslice_wf(self@, mid as nat, (self@.len - mid) as nat);
        }
        (
            DynSliceMut(
                DynSlice {
                    record: self.0.record,
                    len: mid,
                    data: self.0.data,
                    phantom: PhantomData,
                },
                PhantomData,
            ),
            DynSliceMut(
                DynSlice {
                    record: self.0.record,
                    len: self.0.len - mid,
                    data: second,
                    phantom: PhantomData,
                },
                PhantomData,
            ),
        )
    }

    /// The elements as a run of one concrete type, for writing. The caller must
    /// know that type to be the one the record is bound to.
    pub fn downcast_unchecked_mut(&mut self) -> (r: SliceParts)
        ensures
            r.data == old(self)@.data,
            r.len == old(self)@.len,
            final(self)@ == old(self)@,
    {
        SliceParts { data: self.0.data, len: self.0.len }
    }

    /// The elements as a run of the type with key `type_key`, for writing, or
    /// `None` if they are of another type. An empty view is a run of any type.
    pub fn downcast_mut(&mut self, type_key: u64) -> (r: Option<SliceParts>)
        ensures
            r is Some <==> old(self)@.len == 0 || old(self)@.record.type_key == type_key,
            r matches Some(parts) ==> parts.data == old(self)@.data && parts.len == old(
                self,
            )@.len,
            final(self)@ == old(self)@,
    {
        if self.0.is(type_key) {
            Some(self.downcast_unchecked_mut())
        } else {
            None
        }
    }

    /// An iterator over the elements, for reading.
    pub fn iter(&self) -> (r: Iter<'_, Dyn>)
        ensures
            r@ == self@,
    {
        self.0.iter()
    }

    /// An iterator over the elements, for writing.
    pub fn iter_mut(&mut self) -> (r: IterMut<'_, Dyn>)
        requires
            old(self).wf(),
        ensures
            r@ == old(self)@,
            final(self)@ == old(self)@,
    {
        let len = self.0.len;
        proof {
            crate::layout::lemma_subslice_full(self@);
        }
        IterMut { slice: self.slice_unchecked_mut(0, len) }
    }

    /// An iterator over the elements, for writing, for as long as the elements
    /// are borrowed.
    pub fn into_iter(self) -> (r: IterMut<'a, Dyn>)
        ensures
            r@ == self@,
    {
        IterMut { slice: self }
    }

    /// An iterator over the chunks of `chunk_size` elements, for writing,
    /// counted from the front, or `None` if `chunk_size` is zero.
    pub fn chunks_mut(&mut self, chunk_size: usize) -> (r: Option<ChunksMut<'_, Dyn>>)
        requires
            old(self).wf(),
        ensures
            r is Some <==> chunk_size > 0,
            r matches Some(c) ==> c@.slice == old(self)@ && c@.chunk_size == chunk_size,
            final(self)@ == old(self)@,
    {
        if chunk_size == 0 {
            return None;
        }
        let len = self.0.len;
        proof {
            crate::layout::lemma_subslice_full(self@);
        }
        Some(ChunksMut { slice: self.slice_unchecked_mut(0, len), chunk_size })
    }

    /// An iterator over the chunks of `chunk_size` elements, for writing,
    /// counted from the back, or `None` if `chunk_size` is zero.
    pub fn rchunks_mut(&mut self, chunk_size: usize) -> (r: Option<RChunksMut<'_, Dyn>>)
        requires
            old(self).wf(),
        ensures
            r is Some <==> chunk_size > 0,
            r matches Some(c) ==> c@.slice == old(self)@ && c@.chunk_size == chunk_size,
            final(self)@ == old(self)@,
    {
        if chunk_size == 0 {
            return None;
        }
        let len = self.0.len;
        proof {
            crate::layout::lemma_subslice_full(self@);
        }
        Some(RChunksMut { slice: self.slice_unchecked_mut(0, len), chunk_size })
    }
}

} // verus!
