//! From a declaration to the text of its module, which is handed out only
//! where it is one Rust module.

use vstd::prelude::*;
use crate::generator::declare_new_fns::{declare_new_fns, expansion, DeclareNewFns};
use crate::generator::error::ExpandError;
use crate::generator::render::{module_source, render_module};

verus! {

/// Calls `syn::parse_str::<syn::ItemMod>` and says whether it succeeded, that
/// is whether `syn` parses the text as one module item. Nothing is claimed of
/// the answer: the text is split into tokens by the compiler where the call is
/// made from a macro, and by `proc-macro2` elsewhere.
#[verifier::external_body]
fn is_module(source: &str) -> (r: bool) {
    syn::parse_str::<syn::ItemMod>(source).is_ok()
}

/// Hands the text out where it was accepted as a module, and the error where
/// it was not.
pub fn checked_source(source: String, accepted: bool) -> (r: Result<String, ExpandError>)
    ensures
        r is Ok <==> accepted,
        r matches Ok(text) ==> text == source,
        r matches Err(e) ==> e == ExpandError::NotAModule,
{
    if accepted {
        Ok(source)
    } else {
        Err(ExpandError::NotAModule)
    }
}

/// Generates the text of the module for a declaration. A declaration that
/// cannot be expanded gives its error. One that can gives the text of the
/// module it expands to, unless that text is not accepted as one Rust module,
/// as happens when a piece that is held as text is not Rust.
pub fn generate(input: DeclareNewFns) -> (r: Result<String, ExpandError>)
    ensures
        expansion(input@) matches Err(e) ==> r == Err::<String, ExpandError>(e),
        expansion(input@) matches Ok(module) ==> match r {
            Ok(text) => text@ == module_source(module),
            Err(e) => e == ExpandError::NotAModule,
        },
{
    let module = match declare_new_fns(input) {
        Ok(m) => m,
        Err(e) => {
            return Err(e);
        },
    };
    let source = render_module(&module);
    let accepted = is_module(source.as_str());
    checked_source(source, accepted)
}

} // verus!
