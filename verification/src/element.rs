use vstd::prelude::*;
use std::marker::PhantomData;
use crate::layout::ElementView;
use crate::record::DispatchRecord;

verus! {

/// A handle to one element of a read-only view: where it lies and through which
/// record it is read. It lives no longer than the view that produced it.
pub struct Element<'a, Dyn: ?Sized> {
    pub(crate) record: DispatchRecord,
    pub(crate) data: usize,
    pub(crate) phantom: PhantomData<&'a Dyn>,
}

impl<'a, Dyn: ?Sized> View for Element<'a, Dyn> {
    type V = ElementView;

    open(crate) spec fn view(&self) -> ElementView {
        ElementView { record: self.record, data: self.data as nat }
    }
}

impl<'a, Dyn: ?Sized> Clone for Element<'a, Dyn> {
    fn clone(&self) -> (r: Self)
        ensures
            r@ == self@,
    {
        Element { record: self.record, data: self.data, phantom: PhantomData }
    }
}

impl<'a, Dyn: ?Sized> Copy for Element<'a, Dyn> {

}

impl<'a, Dyn: ?Sized> Element<'a, Dyn> {
    /// The record through which the element is read.
    pub fn record(&self) -> (r: DispatchRecord)
        ensures
            r == self@.record,
    {
        self.record
    }

    /// The address of the element.
    pub fn as_ptr(&self) -> (p: usize)
        ensures
            p == self@.data,
    {
        self.data
    }
}

/// A run of elements of one concrete type as two plain values: the address of
/// the first element and their number.
#[derive(Clone, Copy, Debug, PartialEq, Eq, Structural)]
pub struct SliceParts {
    pub data: usize,
    pub len: usize,
}

/// A handle to one element of a mutable view. It cannot be copied, and the view
/// that produced it cannot be used while it lives.
pub struct ElementMut<'a, Dyn: ?Sized> {
    pub(crate) record: DispatchRecord,
    pub(crate) data: usize,
    pub(crate) phantom: PhantomData<&'a mut Dyn>,
}

impl<'a, Dyn: ?Sized> View for ElementMut<'a, Dyn> {
    type V = ElementView;

    open(crate) spec fn view(&self) -> ElementView {
        ElementView { record: self.record, data: self.data as nat }
    }
}

impl<'a, Dyn: ?Sized> ElementMut<'a, Dyn> {
    /// The record through which the element is read and written.
    pub fn record(&self) -> (r: DispatchRecord)
        ensures
            r == self@.record,
    {
        self.record
    }

    /// The address of the element.
    pub fn as_ptr(&self) -> (p: usize)
        ensures
            p == self@.data,
    {
        self.data
    }

    /// The address of the element, for writing.
    pub fn as_mut_ptr(&mut self) -> (p: usize)
        ensures
            p == old(self)@.data,
            final(self)@ == old(self)@,
    {
        self.data
    }
}

} // verus!
