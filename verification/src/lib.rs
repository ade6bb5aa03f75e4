//! Type-erased slices: a view over a run of elements of one concrete type that
//! is known only through a dispatch record, the iterators over such views, and
//! the generator of the modules that construct them.
//!
//! A view is three plain values: the dispatch record shared by all elements, the
//! number of elements, and the address of the first one. Every operation on a
//! view is arithmetic on those values, and every contract says which elements,
//! at which addresses, a result covers. Reading an element through its handle
//! is left to the caller, who knows what lies at the address.
//!
//! The generator takes the declaration of a combination of traits and gives the
//! text of a module with the aliases and the two constructors for the views of
//! that combination; on the way, every path of the declaration is rewritten
//! for use one module further in.

pub mod dyn_slice;
pub mod dyn_slice_mut;
pub mod element;
pub mod generator;
pub mod iter;
pub mod laws;
pub mod layout;
pub mod record;
pub mod sequence;
pub mod standard;
mod utils;

pub use dyn_slice::DynSlice;
pub use dyn_slice_mut::DynSliceMut;
pub use element::{Element, ElementMut, SliceParts};
pub use iter::{Iter, IterMut};
pub use layout::{ElementView, SliceView};
pub use record::{Bound, DispatchRecord};
pub use standard::To;
