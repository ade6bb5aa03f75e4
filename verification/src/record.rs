use vstd::prelude::*;

verus! {

/// The descriptor that lets an address be read as an element of one concrete
/// type through one capability set.
///
/// All elements of a view, and all views derived from it, share one record.
/// The record whose table identity is zero is the sentinel: it stands for "no
/// record", and only an empty view may hold it.
#[derive(Clone, Copy, Debug, PartialEq, Eq, Structural)]
pub struct DispatchRecord {
    /// Identity of the interface table; zero in the sentinel only.
    pub vtable: usize,
    /// Distance in bytes between the starts of two consecutive elements.
    pub stride: usize,
    /// Key of the concrete element type. Two records of one capability set
    /// carry the same key exactly when they are bound to the same type.
    pub type_key: u64,
}

impl DispatchRecord {
    /// Whether this is the sentinel.
    pub open spec fn is_sentinel(self) -> bool {
        self.vtable == 0
    }

    /// The sentinel record.
    pub fn sentinel() -> (r: Self)
        ensures
            r.is_sentinel(),
            r == (DispatchRecord { vtable: 0, stride: 0, type_key: 0 }),
    {
        DispatchRecord { vtable: 0, stride: 0, type_key: 0 }
    }
}

/// One end of a range of indices.
#[derive(Clone, Copy, Debug, PartialEq, Eq, Structural)]
pub enum Bound {
    /// The index itself belongs to the range.
    Included(usize),
    /// The index is the first one outside the range.
    Excluded(usize),
    /// The range reaches to the end of the view on this side.
    Unbounded,
}

impl Bound {
    /// The first index of a range that starts with this bound, if it can be
    /// represented.
    pub open spec fn first_index(self) -> Option<nat> {
        match self {
            Bound::Included(i) => Some(i as nat),
            Bound::Excluded(i) => if i < usize::MAX {
                Some((i + 1) as nat)
            } else {
                None
            },
            Bound::Unbounded => Some(0),
        }
    }

    /// The index one past the last of a range that ends with this bound, in a
    /// view of `len` elements, if it can be represented.
    pub open spec fn end_index(self, len: nat) -> Option<nat> {
        match self {
            Bound::Included(i) => if i < usize::MAX {
                Some((i + 1) as nat)
            } else {
                None
            },
            Bound::Excluded(i) => Some(i as nat),
            Bound::Unbounded => Some(len),
        }
    }
}

} // verus!
