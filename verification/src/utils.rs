use vstd::prelude::*;
use std::marker::PhantomData;
use crate::dyn_slice::DynSlice;
use crate::dyn_slice_mut::DynSliceMut;

verus! {

/// The same view under another lifetime. The caller gives up the view it was
/// made from, so that the two are never used side by side.
pub(crate) fn extend_lifetime<'to, Dyn: ?Sized>(value: DynSlice<'_, Dyn>) -> (r: DynSlice<
    'to,
    Dyn,
>)
    ensures
        r@ == value@,
{
    DynSlice { record: value.record, len: value.len, data: value.data, phantom: PhantomData }
}

/// The same mutable view under another lifetime. The caller gives up the view
/// it was made from.
pub(crate) fn extend_lifetime_mut<'to, Dyn: ?Sized>(value: DynSliceMut<'_, Dyn>) -> (r:
    DynSliceMut<'to, Dyn>)
    ensures
        r@ == value@,
{
    DynSliceMut(
        DynSlice {
            record: value.0.record,
            len: value.0.len,
            data: value.0.data,
            phantom: PhantomData,
        },
        PhantomData,
    )
}

} // verus!
