//! The generator of constructor modules: from the declaration of a combination
//! of traits to the text of the module that holds the aliases and the two
//! constructors for its views.

pub mod copy;
pub mod declare_new_fns;
pub mod error;
pub mod expand;
pub mod path_ext;
pub mod render;
pub mod syntax;
