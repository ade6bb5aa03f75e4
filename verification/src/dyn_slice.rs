use vstd::prelude::*;
use std::marker::PhantomData;
use crate::element::{Element, SliceParts};
use crate::iter::{Chunks, Iter, RChunks, Windows};
use crate::layout::{lemma_subslice_wf, SliceView};
use crate::record::{Bound, DispatchRecord};

verus! {

/// A read-only view of a run of elements of one concrete type, known only
/// through the dispatch record that all of them share.
///
/// The view borrows the elements for `'a`; it owns nothing and can be copied.
pub struct DynSlice<'a, Dyn: ?Sized> {
    pub(crate) record: DispatchRecord,
    pub(crate) len: usize,
    pub(crate) data: usize,
    pub(crate) phantom: PhantomData<&'a Dyn>,
}

impl<'a, Dyn: ?Sized> View for DynSlice<'a, Dyn> {
    type V = SliceView;

    open(crate) spec fn view(&self) -> SliceView {
        SliceView { record: self.record, len: self.len as nat, data: self.data as nat }
    }
}

impl<'a, Dyn: ?Sized> Clone for DynSlice<'a, Dyn> {
    fn clone(&self) -> (r: Self)
        ensures
            r@ == self@,
    {
        DynSlice { record: self.record, len: self.len, data: self.data, phantom: PhantomData }
    }
}

impl<'a, Dyn: ?Sized> Copy for DynSlice<'a, Dyn> {

}

/// The first index of a range that starts with `start`, or `None` where it
/// cannot be represented.
pub fn resolve_start(start: Bound) -> (r: Option<usize>)
    ensures
        r is Some <==> start.first_index() is Some,
        r matches Some(i) ==> start.first_index() == Some(i as nat),
{
    match start {
        Bound::Included(i) => Some(i),
        Bound::Excluded(i) => i.checked_add(1),
        Bound::Unbounded => Some(0),
    }
}

/// The index one past the end of a range that ends with `end` in a view of
/// `len` elements, or `None` where it cannot be represented.
pub fn resolve_end(end: Bound, len: usize) -> (r: Option<usize>)
    ensures
        r is Some <==> end.end_index(len as nat) is Some,
        r matches Some(i) ==> end.end_index(len as nat) == Some(i as nat),
{
    match end {
        Bound::Included(i) => i.checked_add(1),
        Bound::Excluded(i) => Some(i),
        Bound::Unbounded => Some(len),
    }
}

impl<'a, Dyn: ?Sized> DynSlice<'a, Dyn> {
    /// Whether the view is well formed; see [`SliceView::wf`].
    pub open spec fn wf(&self) -> bool {
        self@.wf()
    }

    /// The view of the elements of `value`, which lie at address `data`, read
    /// through `record`, whose stride is the size of an element. Only with an
    /// empty `value` may `record` be the sentinel.
    pub fn with_vtable_ptr<DynSliceFromType>(
        value: &'a [DynSliceFromType],
        data: usize,
        record: DispatchRecord,
    ) -> (r: Self)
        requires
            record.is_sentinel() ==> value@.len() == 0,
            !record.is_sentinel() ==> record.stride == vstd::layout::size_of::<DynSliceFromType>(),
            data + value@.len() * record.stride <= usize::MAX,
        ensures
            r.wf(),
            r@ == (SliceView { record, len: value@.len(), data: data as nat }),
    {
        DynSlice { record, len: value.len(), data, phantom: PhantomData }
    }

    /// The view of the elements of `value`, which lie at address `data`, read
    /// through `metadata`.
    pub fn with_metadata<DynSliceFromType>(
        value: &'a [DynSliceFromType],
        data: usize,
        metadata: DispatchRecord,
    ) -> (r: Self)
        requires
            !metadata.is_sentinel(),
            metadata.stride == vstd::layout::size_of::<DynSliceFromType>(),
            data + value@.len() * metadata.stride <= usize::MAX,
        ensures
            r.wf(),
            r@ == (SliceView { record: metadata, len: value@.len(), data: data as nat }),
    {
        Self::with_vtable_ptr(value, data, metadata)
    }

    /// The view of `len` elements at address `data`, read through `record`.
    pub fn from_parts(record: DispatchRecord, len: usize, data: usize) -> (r: Self)
        requires
            (SliceView { record, len: len as nat, data: data as nat }).wf(),
        ensures
            r.wf(),
            r@ == (SliceView { record, len: len as nat, data: data as nat }),
    {
        DynSlice { record, len, data, phantom: PhantomData }
    }

    /// The view of `len` elements at address `data`, read through `metadata`.
    pub fn from_parts_with_metadata(metadata: DispatchRecord, len: usize, data: usize) -> (r:
        Self)
        requires
            !metadata.is_sentinel(),
            data + len * metadata.stride <= usize::MAX,
        ensures
            r.wf(),
            r@ == (SliceView { record: metadata, len: len as nat, data: data as nat }),
    {
        Self::from_parts(metadata, len, data)
    }

    /// The table identity of the record; zero where the view holds the sentinel.
    pub fn vtable_ptr(&self) -> (p: usize)
        ensures
            p == self@.record.vtable,
    {
        self.record.vtable
    }

    /// The record of the view, or `None` where it holds the sentinel.
    pub fn metadata(&self) -> (m: Option<DispatchRecord>)
        ensures
            m == if self@.record.is_sentinel() {
                None
            } else {
                Some(self@.record)
            },
    {
        if self.record.vtable != 0 {
            Some(self.record)
        } else {
            None
        }
    }

    /// The number of elements.
    pub fn len(&self) -> (n: usize)
        ensures
            n == self@.len,
    {
        self.len
    }

    /// The address of the first element.
    pub fn as_ptr(&self) -> (p: usize)
        ensures
            p == self@.data,
    {
        self.data
    }

    /// Whether the view has no elements.
    pub fn is_empty(&self) -> (b: bool)
        ensures
            b == (self@.len == 0),
    {
        self.len == 0
    }

    /// The first element of a view that has one.
    pub fn first_unchecked(&self) -> (e: Element<'_, Dyn>)
        requires
            self.wf(),
            self@.len > 0,
        ensures
            e@ == self@.element(0),
    {
        Element { record: self.record, data: self.data, phantom: PhantomData }
    }

    /// The first element, or `None` if the view is empty.
    pub fn first(&self) -> (r: Option<Element<'_, Dyn>>)
        requires
            self.wf(),
        ensures
            r is Some <==> self@.len > 0,
            r matches Some(e) ==> e@ == self@.element(0),
    {
        if !self.is_empty() {
            Some(self.first_unchecked())
        } else {
            None
        }
    }

    /// The last element, or `None` if the view is empty.
    pub fn last(&self) -> (r: Option<Element<'_, Dyn>>)
        requires
            self.wf(),
        ensures
            r is Some <==> self@.len > 0,
            r matches Some(e) ==> e@ == self@.element((self@.len - 1) as nat),
    {
        if !self.is_empty() {
            Some(self.get_unchecked(self.len - 1))
        } else {
            None
        }
    }

    /// The element at `index`, or `None` if `index` is not below the length.
    pub fn get(&self, index: usize) -> (r: Option<Element<'_, Dyn>>)
        requires
            self.wf(),
        ensures
            r is Some <==> index < self@.len,
            r matches Some(e) ==> e@ == self@.element(index as nat),
    {
        if index < self.len {
            Some(self.get_unchecked(index))
        } else {
            None
        }
    }

    /// The address of the element at `index`; for `index == len`, the address
    /// one past the last element.
    pub fn get_ptr_unchecked(&self, index: usize) -> (p: usize)
        requires
            self.wf(),
            index <= self@.len,
        ensures
            p == self@.address(index as nat),
    {
        if index == 0 {
            return self.data;
        }
        let stride = self.record.stride;
        proof {
            lemma_subslice_wf(self@, index as nat, 0);
            assert(stride * index == index * stride) by (nonlinear_arith);
        }
        self.data + stride * index
    }

    /// The element at `index`, which must be below the length.
    pub fn get_unchecked(&self, index: usize) -> (e: Element<'_, Dyn>)
        requires
            self.wf(),
            index < self@.len,
        ensures
            e@ == self@.element(index as nat),
    {
        let data = self.get_ptr_unchecked(index);
        Element { record: self.record, data, phantom: PhantomData }
    }

    /// The element at `index`, which must be below the length.
    pub fn index(&self, index: usize) -> (e: Element<'_, Dyn>)
        requires
            self.wf(),
            index < self@.len,
        ensures
            e@ == self@.element(index as nat),
    {
        self.get_unchecked(index)
    }

    /// The `len` elements that start at index `start`, which must all lie in the
    /// view.
    pub fn slice_unchecked(&self, start: usize, len: usize) -> (r: DynSlice<'_, Dyn>)
        requires
            self.wf(),
            start + len <= self@.len,
        ensures
            r.wf(),
            r@ == self@.subslice(start as nat, len as nat),
    {
        let data = self.get_ptr_unchecked(start);
        proof {
            lemma_subslice_wf(self@, start as nat, len as nat);
        }
        DynSlice { record: self.record, len, data, phantom: PhantomData }
    }

    /// The sub-view that the range from `start` to `end` selects, or `None`
    /// where a bound cannot be resolved, the range ends beyond the view, or it
    /// starts after its own end.
    pub fn slice(&self, start: Bound, end: Bound) -> (r: Option<DynSlice<'_, Dyn>>)
        requires
            self.wf(),
        ensures
            r is Some <==> self@.slice(start, end) is Some,
            r matches Some(s) ==> s.wf() && Some(s@) == self@.slice(start, end),
    {
        let start_inclusive = match resolve_start(start) {
            Some(i) => i,
            None => {
                return None;
            },
        };
        let end_exclusive = match resolve_end(end, self.len) {
            Some(i) => i,
            None => {
                return None;
            },
        };
        if end_exclusive > self.len {
            return None;
        }
        let len = match end_exclusive.checked_sub(start_inclusive) {
            Some(n) => n,
            None => {
                return None;
            },
        };
        Some(self.slice_unchecked(start_inclusive, len))
    }

    /// The two halves of the view around index `mid`, or `None` if `mid` is
    /// beyond the length.
    pub fn split_at(&self, mid: usize) -> (r: Option<(DynSlice<'_, Dyn>, DynSlice<'_, Dyn>)>)
        requires
            self.wf(),
        ensures
            r is Some <==> mid <= self@.len,
            r matches Some(p) ==> p.0.wf() && p.1.wf() && Some((p.0@, p.1@)) == self@.split_at(
                mid as nat,
            ),
    {
        if mid <= self.len {
            Some(self.split_at_unchecked(mid))
        } else {
            None
        }
    }

    /// The two halves of the view around index `mid`, which must not be beyond
    /// the length.
    pub fn split_at_unchecked(&self, mid: usize) -> (r: (DynSlice<'_, Dyn>, DynSlice<'_, Dyn>))
        requires
            self.wf(),
            mid <= self@.len,
        ensures
            r.0.wf(),
            r.1.wf(),
            r.0@ == self@.subslice(0, mid as nat),
            r.1@ == self@.subslice(mid as nat, (self@.len - mid) as nat),
    {
        proof {
            lemma_subslice_wf(self@, 0, mid as nat);
            lemma_subslice_wf(self@, mid as nat, (self@.len - mid) as nat);
        }
        if mid == 0 {
            return (
                DynSlice { record: self.record, len: 0, data: self.data, phantom: PhantomData },
                DynSlice {
                    record: self.record,
                    len: self.len,
                    data: self.data,
                    phantom: PhantomData,
                },
            );
        }
        let second = self.get_ptr_unchecked(mid);
        (
            DynSlice { record: self.record, len: mid, data: self.data, phantom: PhantomData },
            DynSlice {
                record: self.record,
                len: self.len - mid,
                data: second,
                phantom: PhantomData,
            },
        )
    }

    /// The elements as a run of one concrete type. The caller must know that
    /// type to be the one the record is bound to.
    pub fn downcast_unchecked(&self) -> (r: SliceParts)
        ensures
            r.data == self@.data,
            r.len == self@.len,
    {
        SliceParts { data: self.data, len: self.len }
    }

    /// Whether the elements are of the type with key `type_key`. Of an empty
    /// view this holds for every type.
    pub fn is(&self, type_key: u64) -> (b: bool)
        ensures
            b == (self@.len == 0 || self@.record.type_key == type_key),
    {
        if self.len == 0 {
            true
        } else {
            self.record.type_key == type_key
        }
    }

    /// The elements as a run of the type with key `type_key`, or `None` if they
    /// are of another type. An empty view is a run of any type.
    pub fn downcast(&self, type_key: u64) -> (r: Option<SliceParts>)
        ensures
            r is Some <==> self@.len == 0 || self@.record.type_key == type_key,
            r matches Some(parts) ==> parts.data == self@.data && parts.len == self@.len,
    {
        if self.is(type_key) {
            Some(self.downcast_unchecked())
        } else {
            None
        }
    }

    /// An iterator over the elements.
    pub fn iter(&self) -> (r: Iter<'_, Dyn>)
        ensures
            r@ == self@,
    {
        Iter { slice: *self }
    }

    /// An iterator over the elements, for as long as the elements are borrowed.
    pub fn into_iter(self) -> (r: Iter<'a, Dyn>)
        ensures
            r@ == self@,
    {
        Iter { slice: self }
    }

    /// An iterator over the chunks of `chunk_size` elements, counted from the
    /// front; the last chunk has what is left. `chunk_size` must not be zero.
    pub fn chunks_non_zero(&self, chunk_size: usize) -> (r: Chunks<'_, Dyn>)
        requires
            chunk_size > 0,
        ensures
            r@.slice == self@,
            r@.chunk_size == chunk_size,
    {
        Chunks { slice: *self, chunk_size }
    }

    /// An iterator over the chunks of `chunk_size` elements, counted from the
    /// front, or `None` if `chunk_size` is zero.
    pub fn chunks(&self, chunk_size: usize) -> (r: Option<Chunks<'_, Dyn>>)
        ensures
            r is Some <==> chunk_size > 0,
            r matches Some(c) ==> c@.slice == self@ && c@.chunk_size == chunk_size,
    {
        if chunk_size == 0 {
            return None;
        }
        Some(self.chunks_non_zero(chunk_size))
    }

    /// An iterator over the chunks of `chunk_size` elements, counted from the
    /// back; the last chunk, at the front, has what is left. `chunk_size` must
    /// not be zero.
    pub fn rchunks_non_zero(&self, chunk_size: usize) -> (r: RChunks<'_, Dyn>)
        requires
            chunk_size > 0,
        ensures
            r@.slice == self@,
            r@.chunk_size == chunk_size,
    {
        RChunks { slice: *self, chunk_size }
    }

    /// An iterator over the chunks of `chunk_size` elements, counted from the
    /// back, or `None` if `chunk_size` is zero.
    pub fn rchunks(&self, chunk_size: usize) -> (r: Option<RChunks<'_, Dyn>>)
        ensures
            r is Some <==> chunk_size > 0,
            r matches Some(c) ==> c@.slice == self@ && c@.chunk_size == chunk_size,
    {
        if chunk_size == 0 {
            return None;
        }
        Some(self.rchunks_non_zero(chunk_size))
    }

    /// An iterator over the overlapping windows of `window_size` elements.
    /// `window_size` must not be zero.
    pub fn windows_non_zero(&self, window_size: usize) -> (r: Windows<'_, Dyn>)
        requires
            window_size > 0,
        ensures
            r@.slice == self@,
            r@.window_size == window_size,
    {
        Windows { slice: *self, window_size }
    }

    /// An iterator over the overlapping windows of `window_size` elements, or
    /// `None` if `window_size` is zero.
    pub fn windows(&self, window_size: usize) -> (r: Option<Windows<'_, Dyn>>)
        ensures
            r is Some <==> window_size > 0,
            r matches Some(w) ==> w@.slice == self@ && w@.window_size == window_size,
    {
        if window_size == 0 {
            return None;
        }
        Some(self.windows_non_zero(window_size))
    }
}

} // verus!
