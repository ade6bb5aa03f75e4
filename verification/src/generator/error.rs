use vstd::prelude::*;
use vstd::string::StringExecFns;

verus! {

/// Why a declaration cannot be expanded.
#[derive(Clone, Copy, Debug, PartialEq, Eq, Structural)]
pub enum ExpandError {
    /// A path that should name something has no segment.
    EmptyPath,
    /// The value of the `crate` attribute is not a path.
    CrateAttributeNotPath,
    /// The text of the generated module is not one Rust module.
    NotAModule,
}

impl ExpandError {
    /// The words that the error is reported with.
    pub open spec fn message_text(self) -> Seq<char> {
        match self {
            ExpandError::EmptyPath => "empty path"@,
            ExpandError::CrateAttributeNotPath => "'crate' attribute value must be the crate path"@,
            ExpandError::NotAModule => "the declaration does not expand to a module"@,
        }
    }

    /// The words that the error is reported with.
    pub fn message(&self) -> (r: String)
        ensures
            r@ == self.message_text(),
    {
        match self {
            ExpandError::EmptyPath => String::from_str("empty path"),
            ExpandError::CrateAttributeNotPath => String::from_str(
                "'crate' attribute value must be the crate path",
            ),
            ExpandError::NotAModule => String::from_str(
                "the declaration does not expand to a module",
            ),
        }
    }
}

} // verus!
