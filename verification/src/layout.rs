use vstd::prelude::*;
use crate::record::{Bound, DispatchRecord};

verus! {

/// What an element handle denotes: the address of one element and the record
/// through which it is read.
pub struct ElementView {
    pub record: DispatchRecord,
    pub data: nat,
}

/// What a view denotes: `len` elements that start at address `data` and lie
/// `stride` bytes apart.
pub struct SliceView {
    pub record: DispatchRecord,
    pub len: nat,
    pub data: nat,
}

impl SliceView {
    /// The distance in bytes between two consecutive elements.
    pub open spec fn stride(self) -> nat {
        self.record.stride as nat
    }

    /// A view is well formed when only an empty view holds the sentinel record
    /// and the address one past its last element can be represented.
    pub open spec fn wf(self) -> bool {
        &&& self.record.is_sentinel() ==> self.len == 0
        &&& self.data + self.len * self.stride() <= usize::MAX
    }

    /// The address of the element at `index`; for `index == len`, the address
    /// one past the end.
    pub open spec fn address(self, index: nat) -> nat {
        self.data + index * self.stride()
    }

    /// The element at `index`.
    pub open spec fn element(self, index: nat) -> ElementView
        recommends
            index < self.len,
    {
        ElementView { record: self.record, data: self.address(index) }
    }

    /// The handles of all elements, in order.
    pub open spec fn elements(self) -> Seq<ElementView> {
        Seq::new(self.len, |i: int| self.element(i as nat))
    }

    /// The `len` elements that start at index `start`.
    pub open spec fn subslice(self, start: nat, len: nat) -> SliceView
        recommends
            start + len <= self.len,
    {
        SliceView { record: self.record, len, data: self.address(start) }
    }

    /// The view without its last `n` elements.
    pub open spec fn truncate(self, n: nat) -> SliceView
        recommends
            n <= self.len,
    {
        SliceView { record: self.record, len: (self.len - n) as nat, data: self.data }
    }

    /// The sub-view that a range selects, or `None` where the range cannot be
    /// resolved, ends beyond the view, or starts after its own end.
    pub open spec fn slice(self, start: Bound, end: Bound) -> Option<SliceView> {
        match (start.first_index(), end.end_index(self.len)) {
            (Some(s), Some(e)) => if e <= self.len && s <= e {
                Some(self.subslice(s, (e - s) as nat))
            } else {
                None
            },
            _ => None,
        }
    }

    /// The two halves of the view around index `mid`, or `None` past the end.
    pub open spec fn split_at(self, mid: nat) -> Option<(SliceView, SliceView)> {
        if mid <= self.len {
            Some((self.subslice(0, mid), self.subslice(mid, (self.len - mid) as nat)))
        } else {
            None
        }
    }
}

/// A part of a well-formed view is well formed.
pub proof fn lemma_subslice_wf(v: SliceView, start: nat, len: nat)
    requires
        v.wf(),
        start + len <= v.len,
    ensures
        v.subslice(start, len).wf(),
        v.address(start) + len * v.stride() <= v.data + v.len * v.stride(),
{
    let s = v.stride() as int;
    assert((start + len) * s <= v.len * s) by (nonlinear_arith)
        requires
            start + len <= v.len,
            0 <= s,
    ;
    assert((start + len) * s == start * s + len * s) by (nonlinear_arith);
}

/// A well-formed view without its last elements is well formed, and is the part
/// that starts at index 0.
pub proof fn lemma_truncate_wf(v: SliceView, n: nat)
    requires
        v.wf(),
        n <= v.len,
    ensures
        v.truncate(n).wf(),
        v.truncate(n) == v.subslice(0, (v.len - n) as nat),
{
    lemma_subslice_wf(v, 0, (v.len - n) as nat);
}

/// Taking a part of a part is taking a part of the whole.
pub proof fn lemma_subslice_subslice(v: SliceView, a: nat, n: nat, b: nat, m: nat)
    ensures
        v.subslice(a, n).subslice(b, m) == v.subslice(a + b, m),
{
    let s = v.stride() as int;
    assert((a + b) * s == a * s + b * s) by (nonlinear_arith);
}

/// The part that starts at index 0 and has all elements is the view itself.
pub proof fn lemma_subslice_full(v: SliceView)
    ensures
        v.subslice(0, v.len) == v,
{
}

} // verus!
