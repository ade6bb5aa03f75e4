//! Copies of the syntax.

use vstd::prelude::*;
use crate::generator::syntax::{
    bounds_view, fn_args_view, generic_arguments_view, optional_arguments_view,
    optional_expr_view, optional_qself_view, optional_type_view, segments_view, text_view,
    texts_view, types_view, BareFnArg, Expr, GenericArgument, GenericParam, Path, PathArguments,
    PathSegment, QSelf, TraitBound, Type, TypeParamBound,
};

verus! {

/// A copy of an optional piece of text.
pub fn copied_text(text: &Option<String>) -> (r: Option<String>)
    ensures
        text_view(r) == text_view(*text),
{
    match text {
        Some(t) => Some(t.clone()),
        None => None,
    }
}

/// A copy of a list of pieces of text.
pub fn copied_texts(texts: &Vec<String>) -> (r: Vec<String>)
    ensures
        texts_view(r@) == texts_view(texts@),
{
    let mut out: Vec<String> = Vec::new();
    let mut i: usize = 0;
    while i < texts.len()
        invariant
            i <= texts.len(),
            out.len() == i,
            forall|j: int| 0 <= j < i ==> (#[trigger] out@[j])@ == texts@[j]@,
        decreases texts.len() - i,
    {
        out.push(texts[i].clone());
        i += 1;
    }
    proof {
        assert(texts_view(out@) =~= texts_view(texts@));
    }
    out
}

/// A copy of a path.
pub fn copied_path(path: &Path) -> (r: Path)
    ensures
        r@ == path@,
    decreases path, 1nat,
{
    Path { leading_colon: path.leading_colon, segments: copied_segments(&path.segments) }
}

/// A copy of a path segment.
pub fn copied_segment(segment: &PathSegment) -> (r: PathSegment)
    ensures
        r@ == segment@,
    decreases segment, 1nat,
{
    PathSegment { ident: segment.ident.clone(), arguments: copied_arguments(&segment.arguments) }
}

/// Copies of the segments of a path.
pub fn copied_segments(items: &Vec<PathSegment>) -> (r: Vec<PathSegment>)
    ensures
        segments_view(r@) == segments_view(items@),
    decreases items, 0nat,
{
    let mut out: Vec<PathSegment> = Vec::new();
    let mut i: usize = 0;
    while i < items.len()
        invariant
            i <= items.len(),
            out.len() == i,
            forall|j: int| 0 <= j < i ==> (#[trigger] out@[j])@ == items@[j]@,
        decreases items.len() - i,
    {
        out.push(copied_segment(&items[i]));
        i += 1;
    }
    proof {
        assert(segments_view(out@) =~= segments_view(items@));
    }
    out
}

/// A copy of the arguments of a path segment.
pub fn copied_arguments(arguments: &PathArguments) -> (r: PathArguments)
    ensures
        r@ == arguments@,
    decreases arguments, 1nat,
{
    match arguments {
        PathArguments::Empty => PathArguments::Empty,
        PathArguments::AngleBracketed { colon2_token, args } => PathArguments::AngleBracketed {
            colon2_token: *colon2_token,
            args: copied_generic_arguments(args),
        },
        PathArguments::Parenthesized { inputs, output } => PathArguments::Parenthesized {
            inputs: copied_types(inputs),
            output: copied_optional_type(output),
        },
    }
}

/// Copies of generic arguments.
pub fn copied_generic_arguments(items: &Vec<GenericArgument>) -> (r: Vec<GenericArgument>)
    ensures
        generic_arguments_view(r@) == generic_arguments_view(items@),
    decreases items, 0nat,
{
    let mut out: Vec<GenericArgument> = Vec::new();
    let mut i: usize = 0;
    while i < items.len()
        invariant
            i <= items.len(),
            out.len() == i,
            forall|j: int| 0 <= j < i ==> (#[trigger] out@[j])@ == items@[j]@,
        decreases items.len() - i,
    {
        out.push(copied_generic_argument(&items[i]));
        i += 1;
    }
    proof {
        assert(generic_arguments_view(out@) =~= generic_arguments_view(items@));
    }
    out
}

/// A copy of the generic arguments of a binding.
fn copied_optional_arguments(args: &Option<Vec<GenericArgument>>) -> (r: Option<
    Vec<GenericArgument>,
>)
    ensures
        optional_arguments_view(r) == optional_arguments_view(*args),
    decreases args, 1nat,
{
    match args {
        Some(a) => Some(copied_generic_arguments(a)),
        None => None,
    }
}

/// A copy of a generic argument.
pub fn copied_generic_argument(argument: &GenericArgument) -> (r: GenericArgument)
    ensures
        r@ == argument@,
    decreases argument, 1nat,
{
    match argument {
        GenericArgument::Lifetime(lifetime) => GenericArgument::Lifetime(lifetime.clone()),
        GenericArgument::Type(ty) => GenericArgument::Type(copied_type(ty)),
        GenericArgument::Const(expr) => GenericArgument::Const(copied_expr(expr)),
        GenericArgument::AssocType { ident, generics, ty } => GenericArgument::AssocType {
            ident: ident.clone(),
            generics: copied_optional_arguments(generics),
            ty: copied_type(ty),
        },
        GenericArgument::AssocConst { ident, generics, value } => GenericArgument::AssocConst {
            ident: ident.clone(),
            generics: copied_optional_arguments(generics),
            value: copied_expr(value),
        },
        GenericArgument::Constraint { ident, generics, bounds } => GenericArgument::Constraint {
            ident: ident.clone(),
            generics: copied_optional_arguments(generics),
            bounds: copied_bounds(bounds),
        },
    }
}

/// A copy of a qualifying type.
fn copied_qself(qself: &Option<QSelf>) -> (r: Option<QSelf>)
    ensures
        optional_qself_view(r) == optional_qself_view(*qself),
    decreases qself, 1nat,
{
    match qself {
        Some(q) => Some(
            QSelf {
                ty: Box::new(copied_type(&*q.ty)),
                position: q.position,
                as_token: q.as_token,
            },
        ),
        None => None,
    }
}

/// A copy of an expression.
pub fn copied_expr(expr: &Expr) -> (r: Expr)
    ensures
        r@ == expr@,
    decreases expr, 1nat,
{
    match expr {
        Expr::Path { qself, path } => Expr::Path {
            qself: copied_qself(qself),
            path: copied_path(path),
        },
        Expr::Verbatim(text) => Expr::Verbatim(text.clone()),
    }
}

/// A copy of an optional expression.
fn copied_optional_expr(expr: &Option<Expr>) -> (r: Option<Expr>)
    ensures
        optional_expr_view(r) == optional_expr_view(*expr),
{
    match expr {
        Some(e) => Some(copied_expr(e)),
        None => None,
    }
}

/// Copies of types.
pub fn copied_types(items: &Vec<Type>) -> (r: Vec<Type>)
    ensures
        types_view(r@) == types_view(items@),
    decreases items, 0nat,
{
    let mut out: Vec<Type> = Vec::new();
    let mut i: usize = 0;
    while i < items.len()
        invariant
            i <= items.len(),
            out.len() == i,
            forall|j: int| 0 <= j < i ==> (#[trigger] out@[j])@ == items@[j]@,
        decreases items.len() - i,
    {
        out.push(copied_type(&items[i]));
        i += 1;
    }
    proof {
        assert(types_view(out@) =~= types_view(items@));
    }
    out
}

/// A copy of an optional type.
fn copied_optional_type(ty: &Option<Box<Type>>) -> (r: Option<Box<Type>>)
    ensures
        optional_type_view(r) == optional_type_view(*ty),
    decreases ty, 1nat,
{
    match ty {
        Some(t) => Some(Box::new(copied_type(&**t))),
        None => None,
    }
}

/// A copy of an argument of a function pointer type.
fn copied_fn_arg(arg: &BareFnArg) -> (r: BareFnArg)
    ensures
        r@ == arg@,
    decreases arg, 1nat,
{
    BareFnArg { name: copied_text(&arg.name), ty: copied_type(&arg.ty) }
}

/// Copies of the arguments of a function pointer type.
fn copied_fn_args(items: &Vec<BareFnArg>) -> (r: Vec<BareFnArg>)
    ensures
        fn_args_view(r@) == fn_args_view(items@),
    decreases items, 0nat,
{
    let mut out: Vec<BareFnArg> = Vec::new();
    let mut i: usize = 0;
    while i < items.len()
        invariant
            i <= items.len(),
            out.len() == i,
            forall|j: int| 0 <= j < i ==> (#[trigger] out@[j])@ == items@[j]@,
        decreases items.len() - i,
    {
        out.push(copied_fn_arg(&items[i]));
        i += 1;
    }
    proof {
        assert(fn_args_view(out@) =~= fn_args_view(items@));
    }
    out
}

/// A copy of a type.
pub fn copied_type(ty: &Type) -> (r: Type)
    ensures
        r@ == ty@,
    decreases ty, 1nat,
{
    match ty {
        Type::Array { elem, len } => Type::Array {
            elem: Box::new(copied_type(&**elem)),
            len: copied_expr(len),
        },
        Type::BareFn { qualifiers, inputs, variadic, output } => Type::BareFn {
            qualifiers: qualifiers.clone(),
            inputs: copied_fn_args(inputs),
            variadic: copied_text(variadic),
            output: copied_optional_type(output),
        },
        Type::Macro { path, body } => Type::Macro { path: copied_path(path), body: body.clone() },
        Type::Paren(elem) => Type::Paren(Box::new(copied_type(&**elem))),
        Type::Ptr { mutable, elem } => Type::Ptr {
            mutable: *mutable,
            elem: Box::new(copied_type(&**elem)),
        },
        Type::Reference { lifetime, mutable, elem } => Type::Reference {
            lifetime: copied_text(lifetime),
            mutable: *mutable,
            elem: Box::new(copied_type(&**elem)),
        },
        Type::Slice(elem) => Type::Slice(Box::new(copied_type(&**elem))),
        Type::Path { qself, path } => Type::Path {
            qself: copied_qself(qself),
            path: copied_path(path),
        },
        Type::TraitObject { dyn_token, bounds } => Type::TraitObject {
            dyn_token: *dyn_token,
            bounds: copied_bounds(bounds),
        },
        Type::Tuple(elems) => Type::Tuple(copied_types(elems)),
        Type::Verbatim(text) => Type::Verbatim(text.clone()),
    }
}

/// A copy of a bound.
pub fn copied_bound(bound: &TypeParamBound) -> (r: TypeParamBound)
    ensures
        r@ == bound@,
    decreases bound, 1nat,
{
    match bound {
        TypeParamBound::Trait(b) => TypeParamBound::Trait(
            TraitBound {
                paren_token: b.paren_token,
                maybe: b.maybe,
                lifetimes: copied_text(&b.lifetimes),
                path: copied_path(&b.path),
            },
        ),
        TypeParamBound::Verbatim(text) => TypeParamBound::Verbatim(text.clone()),
    }
}

/// Copies of bounds.
pub fn copied_bounds(items: &Vec<TypeParamBound>) -> (r: Vec<TypeParamBound>)
    ensures
        bounds_view(r@) == bounds_view(items@),
    decreases items, 0nat,
{
    let mut out: Vec<TypeParamBound> = Vec::new();
    let mut i: usize = 0;
    while i < items.len()
        invariant
            i <= items.len(),
            out.len() == i,
            forall|j: int| 0 <= j < i ==> (#[trigger] out@[j])@ == items@[j]@,
        decreases items.len() - i,
    {
        out.push(copied_bound(&items[i]));
        i += 1;
    }
    proof {
        assert(bounds_view(out@) =~= bounds_view(items@));
    }
    out
}

/// A copy of a generic parameter.
pub fn copied_param(param: &GenericParam) -> (r: GenericParam)
    ensures
        r@ == param@,
{
    match param {
        GenericParam::Lifetime { attrs, lifetime, bounds } => GenericParam::Lifetime {
            attrs: attrs.clone(),
            lifetime: lifetime.clone(),
            bounds: copied_texts(bounds),
        },
        GenericParam::Type { attrs, ident, bounds, default } => GenericParam::Type {
            attrs: attrs.clone(),
            ident: ident.clone(),
            bounds: copied_bounds(bounds),
            default: copied_text(default),
        },
        GenericParam::Const { attrs, ident, ty, default } => GenericParam::Const {
            attrs: attrs.clone(),
            ident: ident.clone(),
            ty: copied_type(ty),
            default: copied_optional_expr(default),
        },
    }
}

} // verus!
