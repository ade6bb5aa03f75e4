use vstd::prelude::*;
use vstd::std_specs::convert::IntoSpec;

verus! {

/// A conversion from a reference to a value.
pub trait To<T> {
    /// Converts what `self` refers to into a `T`.
    fn to(&self) -> T;
}

impl<T, F: Into<T> + Copy> To<T> for F {
    /// The copy of `self`, converted by `Into`.
    fn to(&self) -> (r: T)
        ensures
            F::obeys_into_spec() ==> r == (*self).into_spec(),
    {
        (*self).into()
    }
}

} // verus!
