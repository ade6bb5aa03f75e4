//! The rewrite of the paths of a declaration for use one module further in:
//! the generated module lies one level below the place of the declaration, so a
//! path that is relative to that place is reached through `super`.

use vstd::prelude::*;
use vstd::string::StringExecFns;
use crate::generator::copy::{copied_text, copied_texts};
use crate::generator::error::ExpandError;
use crate::generator::syntax::{
    bounds_view, fn_args_view, generic_arguments_view, optional_arguments_view,
    optional_qself_view, optional_type_view, params_view, predicates_view, segments_view,
    text_view, texts_view, types_view, BareFnArg, BareFnArgView, Expr, ExprView,
    GenericArgument, GenericArgumentView, GenericParam, GenericParamView, Generics,
    GenericsView, Path, PathArguments, PathArgumentsView, PathSegment, PathSegmentView,
    PathView, QSelf, QSelfView, TraitBound, TraitBoundView, Type, TypeParamBound,
    TypeParamBoundView, TypeView, WherePredicate, WherePredicateView,
};

verus! {

/// The names that are never rewritten: the primitive types and the crates of
/// the standard library.
pub fn reserved() -> (r: Vec<String>)
    ensures
        texts_view(r@) == reserved_names(),
{
    let mut names: Vec<String> = Vec::new();
    names.push(String::from_str("i8"));
    names.push(String::from_str("i16"));
    names.push(String::from_str("i32"));
    names.push(String::from_str("i64"));
    names.push(String::from_str("i128"));
    names.push(String::from_str("isize"));
    names.push(String::from_str("u8"));
    names.push(String::from_str("u16"));
    names.push(String::from_str("u32"));
    names.push(String::from_str("u64"));
    names.push(String::from_str("u128"));
    names.push(String::from_str("usize"));
    names.push(String::from_str("f32"));
    names.push(String::from_str("char"));
    names.push(String::from_str("bool"));
    names.push(String::from_str("f64"));
    names.push(String::from_str("core"));
    names.push(String::from_str("alloc"));
    names.push(String::from_str("std"));
    proof {
        assert(texts_view(names@) =~= reserved_names());
    }
    names
}

/// The names that are never rewritten.
pub open spec fn reserved_names() -> Seq<Seq<char>> {
    seq![
        "i8"@,
        "i16"@,
        "i32"@,
        "i64"@,
        "i128"@,
        "isize"@,
        "u8"@,
        "u16"@,
        "u32"@,
        "u64"@,
        "u128"@,
        "usize"@,
        "f32"@,
        "char"@,
        "bool"@,
        "f64"@,
        "core"@,
        "alloc"@,
        "std"@,
    ]
}

/// The segment `super`, without arguments.
pub open spec fn super_segment() -> PathSegmentView {
    PathSegmentView { ident: "super"@, arguments: PathArgumentsView::Empty }
}

/// The path as it reads one module further in. The arguments of every segment
/// are rewritten. The path itself stays as it is where it starts with `::`,
/// with one of `idents` or with `crate`; a leading `self` becomes `super`; any
/// other path gets `super` in front.
pub open spec fn inner_path(path: PathView, idents: Seq<Seq<char>>) -> PathView
    decreases path, 1nat,
{
    let segments = inner_segments(path.segments, idents);
    if path.leading_colon || segments.len() == 0 {
        PathView { leading_colon: path.leading_colon, segments }
    } else if idents.contains(segments[0].ident) || segments[0].ident == "crate"@ {
        PathView { leading_colon: false, segments }
    } else if segments[0].ident == "self"@ {
        PathView {
            leading_colon: false,
            segments: segments.update(
                0,
                PathSegmentView { ident: "super"@, arguments: segments[0].arguments },
            ),
        }
    } else {
        PathView { leading_colon: false, segments: seq![super_segment()] + segments }
    }
}

/// Whether the path, and every path in its arguments, can be rewritten: one
/// that does not start with `::` must have a segment.
pub open spec fn resolves_path(path: PathView) -> bool
    decreases path, 1nat,
{
    &&& resolves_segments(path.segments)
    &&& path.leading_colon || path.segments.len() > 0
}

/// The segments of a path with every path rewritten; see [`inner_path`].
pub open spec fn inner_segments(
    segments: Seq<PathSegmentView>,
    idents: Seq<Seq<char>>,
) -> Seq<PathSegmentView>
    decreases segments, 0nat,
{
    Seq::new(
        segments.len(),
        |i: int|
            if 0 <= i < segments.len() {
                PathSegmentView {
                    ident: segments[i].ident,
                    arguments: inner_arguments(segments[i].arguments, idents),
                }
            } else {
                arbitrary()
            },
    )
}

/// Whether every path in the segments of a path can be rewritten; see [`resolves_path`].
pub open spec fn resolves_segments(segments: Seq<PathSegmentView>) -> bool
    decreases segments, 0nat,
{
    forall|i: int| 0 <= i < segments.len() ==> resolves_arguments(#[trigger] segments[i].arguments)
}

/// The arguments of a path segment with every type, path expression and trait
/// bound in them rewritten.
pub open spec fn inner_arguments(
    arguments: PathArgumentsView,
    idents: Seq<Seq<char>>,
) -> PathArgumentsView
    decreases arguments, 1nat,
{
    match arguments {
        PathArgumentsView::Empty => PathArgumentsView::Empty,
        PathArgumentsView::AngleBracketed { colon2_token, args } => {
            PathArgumentsView::AngleBracketed {
                colon2_token,
                args: inner_generic_arguments(args, idents),
            }
        },
        PathArgumentsView::Parenthesized { inputs, output } => PathArgumentsView::Parenthesized {
            inputs: inner_types(inputs, idents),
            output: inner_optional_type(output, idents),
        },
    }
}

/// Whether every path in the arguments of a path segment can be rewritten; see [`resolves_path`].
pub open spec fn resolves_arguments(arguments: PathArgumentsView) -> bool
    decreases arguments, 1nat,
{
    match arguments {
        PathArgumentsView::Empty => true,
        PathArgumentsView::AngleBracketed { colon2_token, args } => resolves_generic_arguments(
            args,
        ),
        PathArgumentsView::Parenthesized { inputs, output } => resolves_types(inputs)
            && resolves_optional_type(output),
    }
}

/// Generic arguments with every path rewritten; see [`inner_path`].
pub open spec fn inner_generic_arguments(
    args: Seq<GenericArgumentView>,
    idents: Seq<Seq<char>>,
) -> Seq<GenericArgumentView>
    decreases args, 0nat,
{
    Seq::new(
        args.len(),
        |i: int|
            if 0 <= i < args.len() {
                inner_generic_argument(args[i], idents)
            } else {
                arbitrary()
            },
    )
}

/// Whether every path in generic arguments can be rewritten; see [`resolves_path`].
pub open spec fn resolves_generic_arguments(args: Seq<GenericArgumentView>) -> bool
    decreases args, 0nat,
{
    forall|i: int| 0 <= i < args.len() ==> resolves_generic_argument(#[trigger] args[i])
}

/// The generic arguments of a binding with every path rewritten; see [`inner_path`].
pub open spec fn inner_optional_arguments(
    args: Option<Seq<GenericArgumentView>>,
    idents: Seq<Seq<char>>,
) -> Option<Seq<GenericArgumentView>>
    decreases args, 1nat,
{
    match args {
        Some(a) => Some(inner_generic_arguments(a, idents)),
        None => None,
    }
}

/// Whether every path in the generic arguments of a binding can be rewritten; see [`resolves_path`].
pub open spec fn resolves_optional_arguments(args: Option<Seq<GenericArgumentView>>) -> bool
    decreases args, 1nat,
{
    match args {
        Some(a) => resolves_generic_arguments(a),
        None => true,
    }
}

/// The generic argument with what it holds rewritten: a type, a constant that
/// is a path, the type or the constant of a binding, the trait bounds of a
/// constraint. A lifetime and any other constant stay as they are.
pub open spec fn inner_generic_argument(
    argument: GenericArgumentView,
    idents: Seq<Seq<char>>,
) -> GenericArgumentView
    decreases argument, 1nat,
{
    match argument {
        GenericArgumentView::Lifetime(lifetime) => argument,
        GenericArgumentView::Type(ty) => GenericArgumentView::Type(inner_type(ty, idents)),
        GenericArgumentView::Const(expr) => GenericArgumentView::Const(inner_expr(expr, idents)),
        GenericArgumentView::AssocType { ident, generics, ty } => GenericArgumentView::AssocType {
            ident,
            generics: inner_optional_arguments(generics, idents),
            ty: inner_type(ty, idents),
        },
        GenericArgumentView::AssocConst { ident, generics, value } => {
            GenericArgumentView::AssocConst {
                ident,
                generics: inner_optional_arguments(generics, idents),
                value: inner_expr(value, idents),
            }
        },
        GenericArgumentView::Constraint { ident, generics, bounds } => {
            GenericArgumentView::Constraint {
                ident,
                generics: inner_optional_arguments(generics, idents),
                bounds: inner_bounds(bounds, idents),
            }
        },
    }
}

/// Whether every path in a generic argument can be rewritten; see [`resolves_path`].
pub open spec fn resolves_generic_argument(argument: GenericArgumentView) -> bool
    decreases argument, 1nat,
{
    match argument {
        GenericArgumentView::Lifetime(lifetime) => true,
        GenericArgumentView::Type(ty) => resolves_type(ty),
        GenericArgumentView::Const(expr) => resolves_expr(expr),
        GenericArgumentView::AssocType { ident, generics, ty } => resolves_optional_arguments(
            generics,
        ) && resolves_type(ty),
        GenericArgumentView::AssocConst { ident, generics, value } => resolves_optional_arguments(
            generics,
        ) && resolves_expr(value),
        GenericArgumentView::Constraint { ident, generics, bounds } => resolves_optional_arguments(
            generics,
        ) && resolves_bounds(bounds),
    }
}

/// The expression with its path, and the type its path is qualified with,
/// rewritten. An expression that is no path stays as it is.
pub open spec fn inner_expr(expr: ExprView, idents: Seq<Seq<char>>) -> ExprView
    decreases expr, 1nat,
{
    match expr {
        ExprView::Path { qself, path } => ExprView::Path {
            qself: inner_qself(qself, idents),
            path: inner_path(path, idents),
        },
        ExprView::Verbatim(text) => expr,
    }
}

/// Whether every path in an expression can be rewritten; see [`resolves_path`].
pub open spec fn resolves_expr(expr: ExprView) -> bool
    decreases expr, 1nat,
{
    match expr {
        ExprView::Path { qself, path } => resolves_qself(qself) && resolves_path(path),
        ExprView::Verbatim(text) => true,
    }
}

/// A qualifying type with every path rewritten; see [`inner_path`].
pub open spec fn inner_qself(qself: Option<QSelfView>, idents: Seq<Seq<char>>) -> Option<
    QSelfView,
>
    decreases qself, 1nat,
{
    match qself {
        Some(q) => Some(
            QSelfView {
                ty: Box::new(inner_type(*q.ty, idents)),
                position: q.position,
                as_token: q.as_token,
            },
        ),
        None => None,
    }
}

/// Whether every path in a qualifying type can be rewritten; see [`resolves_path`].
pub open spec fn resolves_qself(qself: Option<QSelfView>) -> bool
    decreases qself, 1nat,
{
    match qself {
        Some(q) => resolves_type(*q.ty),
        None => true,
    }
}

/// Types with every path rewritten; see [`inner_path`].
pub open spec fn inner_types(types: Seq<TypeView>, idents: Seq<Seq<char>>) -> Seq<TypeView>
    decreases types, 0nat,
{
    Seq::new(
        types.len(),
        |i: int|
            if 0 <= i < types.len() {
                inner_type(types[i], idents)
            } else {
                arbitrary()
            },
    )
}

/// Whether every path in types can be rewritten; see [`resolves_path`].
pub open spec fn resolves_types(types: Seq<TypeView>) -> bool
    decreases types, 0nat,
{
    forall|i: int| 0 <= i < types.len() ==> resolves_type(#[trigger] types[i])
}

/// An optional type with every path rewritten; see [`inner_path`].
pub open spec fn inner_optional_type(ty: Option<Box<TypeView>>, idents: Seq<Seq<char>>) -> Option<
    Box<TypeView>,
>
    decreases ty, 1nat,
{
    match ty {
        Some(t) => Some(Box::new(inner_type(*t, idents))),
        None => None,
    }
}

/// Whether every path in an optional type can be rewritten; see [`resolves_path`].
pub open spec fn resolves_optional_type(ty: Option<Box<TypeView>>) -> bool
    decreases ty, 1nat,
{
    match ty {
        Some(t) => resolves_type(*t),
        None => true,
    }
}

/// The arguments of a function pointer type with every path rewritten; see [`inner_path`].
pub open spec fn inner_fn_args(args: Seq<BareFnArgView>, idents: Seq<Seq<char>>) -> Seq<
    BareFnArgView,
>
    decreases args, 0nat,
{
    Seq::new(
        args.len(),
        |i: int|
            if 0 <= i < args.len() {
                BareFnArgView { name: args[i].name, ty: inner_type(args[i].ty, idents) }
            } else {
                arbitrary()
            },
    )
}

/// Whether every path in the arguments of a function pointer type can be rewritten; see [`resolves_path`].
pub open spec fn resolves_fn_args(args: Seq<BareFnArgView>) -> bool
    decreases args, 0nat,
{
    forall|i: int| 0 <= i < args.len() ==> resolves_type(#[trigger] args[i].ty)
}

/// The type with every path in it rewritten: in the element of an array, a
/// parenthesis, a pointer, a reference or a slice, in the length of an array
/// where that is a path, in the arguments and the result of a function
/// pointer, in the elements of a tuple, in the trait bounds of a trait object,
/// and the path of a macro call or of a path type with the type it is
/// qualified with. Any other type stays as it is.
pub open spec fn inner_type(ty: TypeView, idents: Seq<Seq<char>>) -> TypeView
    decreases ty, 1nat,
{
    match ty {
        TypeView::Array { elem, len } => TypeView::Array {
            elem: Box::new(inner_type(*elem, idents)),
            len: inner_expr(len, idents),
        },
        TypeView::BareFn { qualifiers, inputs, variadic, output } => TypeView::BareFn {
            qualifiers,
            inputs: inner_fn_args(inputs, idents),
            variadic,
            output: inner_optional_type(output, idents),
        },
        TypeView::Macro { path, body } => TypeView::Macro { path: inner_path(path, idents), body },
        TypeView::Paren(elem) => TypeView::Paren(Box::new(inner_type(*elem, idents))),
        TypeView::Ptr { mutable, elem } => TypeView::Ptr {
            mutable,
            elem: Box::new(inner_type(*elem, idents)),
        },
        TypeView::Reference { lifetime, mutable, elem } => TypeView::Reference {
            lifetime,
            mutable,
            elem: Box::new(inner_type(*elem, idents)),
        },
        TypeView::Slice(elem) => TypeView::Slice(Box::new(inner_type(*elem, idents))),
        TypeView::Path { qself, path } => TypeView::Path {
            qself: inner_qself(qself, idents),
            path: inner_path(path, idents),
        },
        TypeView::TraitObject { dyn_token, bounds } => TypeView::TraitObject {
            dyn_token,
            bounds: inner_bounds(bounds, idents),
        },
        TypeView::Tuple(elems) => TypeView::Tuple(inner_types(elems, idents)),
        TypeView::Verbatim(text) => ty,
    }
}

/// Whether every path in a type can be rewritten; see [`resolves_path`].
pub open spec fn resolves_type(ty: TypeView) -> bool
    decreases ty, 1nat,
{
    match ty {
        TypeView::Array { elem, len } => resolves_type(*elem) && resolves_expr(len),
        TypeView::BareFn { qualifiers, inputs, variadic, output } => resolves_fn_args(inputs)
            && resolves_optional_type(output),
        TypeView::Macro { path, body } => resolves_path(path),
        TypeView::Paren(elem) => resolves_type(*elem),
        TypeView::Ptr { mutable, elem } => resolves_type(*elem),
        TypeView::Reference { lifetime, mutable, elem } => resolves_type(*elem),
        TypeView::Slice(elem) => resolves_type(*elem),
        TypeView::Path { qself, path } => resolves_qself(qself) && resolves_path(path),
        TypeView::TraitObject { dyn_token, bounds } => resolves_bounds(bounds),
        TypeView::Tuple(elems) => resolves_types(elems),
        TypeView::Verbatim(text) => true,
    }
}

/// The bound with the path of its trait rewritten; a bound that is no trait
/// stays as it is.
pub open spec fn inner_bound(bound: TypeParamBoundView, idents: Seq<Seq<char>>) -> TypeParamBoundView
    decreases bound, 1nat,
{
    match bound {
        TypeParamBoundView::Trait(b) => TypeParamBoundView::Trait(
            TraitBoundView {
                paren_token: b.paren_token,
                maybe: b.maybe,
                lifetimes: b.lifetimes,
                path: inner_path(b.path, idents),
            },
        ),
        TypeParamBoundView::Verbatim(text) => bound,
    }
}

/// Whether every path in a bound can be rewritten; see [`resolves_path`].
pub open spec fn resolves_bound(bound: TypeParamBoundView) -> bool
    decreases bound, 1nat,
{
    match bound {
        TypeParamBoundView::Trait(b) => resolves_path(b.path),
        TypeParamBoundView::Verbatim(text) => true,
    }
}

/// Bounds with every path rewritten; see [`inner_path`].
pub open spec fn inner_bounds(bounds: Seq<TypeParamBoundView>, idents: Seq<Seq<char>>) -> Seq<
    TypeParamBoundView,
>
    decreases bounds, 0nat,
{
    Seq::new(
        bounds.len(),
        |i: int|
            if 0 <= i < bounds.len() {
                inner_bound(bounds[i], idents)
            } else {
                arbitrary()
            },
    )
}

/// Whether every path in bounds can be rewritten; see [`resolves_path`].
pub open spec fn resolves_bounds(bounds: Seq<TypeParamBoundView>) -> bool
    decreases bounds, 0nat,
{
    forall|i: int| 0 <= i < bounds.len() ==> resolves_bound(#[trigger] bounds[i])
}


/// Whether `ident` is one of `idents`.
pub fn is_listed(idents: &[String], ident: &String) -> (r: bool)
    ensures
        r == texts_view(idents@).contains(ident@),
{
    let mut i: usize = 0;
    while i < idents.len()
        invariant
            i <= idents@.len(),
            forall|j: int| 0 <= j < i ==> texts_view(idents@)[j] != ident@,
        decreases idents@.len() - i,
    {
        if idents[i] == *ident {
            assert(texts_view(idents@)[i as int] == ident@);
            return true;
        }
        i += 1;
    }
    false
}

/// The rewritten copy of `path`; see [`inner_path`].
pub fn rewritten_path(path: &Path, idents: &[String]) -> (r: Result<Path, ExpandError>)
    ensures
        r is Ok <==> resolves_path(path@),
        r matches Ok(p) ==> p@ == inner_path(path@, texts_view(idents@)),
        r matches Err(e) ==> e == ExpandError::EmptyPath,
    decreases path, 1nat,
{
    let mut segments = match rewritten_segments(&path.segments, idents) {
        Ok(s) => s,
        Err(e) => {
            return Err(e);
        },
    };
    proof {
        assert(segments_view(segments@).len() == path.segments@.len());
    }
    if path.leading_colon {
        return Ok(Path { leading_colon: true, segments });
    }
    if segments.len() == 0 {
        return Err(ExpandError::EmptyPath);
    }
    if is_listed(idents, &segments[0].ident) {
        return Ok(Path { leading_colon: false, segments });
    }
    if segments[0].ident == String::from_str("crate") {
        return Ok(Path { leading_colon: false, segments });
    }
    let ghost before = segments_view(segments@);
    if segments[0].ident == String::from_str("self") {
        let first = segments.remove(0);
        segments.insert(
            0,
            PathSegment { ident: String::from_str("super"), arguments: first.arguments },
        );
        proof {
            assert(segments_view(segments@) =~= before.update(
                0,
                PathSegmentView { ident: "super"@, arguments: before[0].arguments },
            ));
        }
        return Ok(Path { leading_colon: false, segments });
    }
    segments.insert(
        0,
        PathSegment { ident: String::from_str("super"), arguments: PathArguments::Empty },
    );
    proof {
        assert(segments_view(segments@) =~= seq![super_segment()] + before);
    }
    Ok(Path { leading_colon: false, segments })
}

fn rewritten_segments(segments: &Vec<PathSegment>, idents: &[String]) -> (r: Result<
    Vec<PathSegment>,
    ExpandError,
>)
    ensures
        r is Ok <==> resolves_segments(segments_view(segments@)),
        r matches Ok(s) ==> segments_view(s@) == inner_segments(
            segments_view(segments@),
            texts_view(idents@),
        ),
        r matches Err(e) ==> e == ExpandError::EmptyPath,
    decreases segments, 0nat,
{
    let mut out: Vec<PathSegment> = Vec::new();
    let mut i: usize = 0;
    while i < segments.len()
        invariant
            i <= segments.len(),
            out.len() == i,
            forall|j: int| 0 <= j < i ==> resolves_arguments(segments@[j]@.arguments),
            forall|j: int|
                0 <= j < i ==> (#[trigger] out@[j])@ == (PathSegmentView {
                    ident: segments@[j]@.ident,
                    arguments: inner_arguments(segments@[j]@.arguments, texts_view(idents@)),
                }),
        decreases segments.len() - i,
    {
        let arguments = match rewritten_arguments(&segments[i].arguments, idents) {
            Ok(a) => a,
            Err(e) => {
                proof {
                    assert(segments_view(segments@)[i as int] == segments@[i as int]@);
                }
                return Err(e);
            },
        };
        out.push(PathSegment { ident: segments[i].ident.clone(), arguments });
        i += 1;
    }
    proof {
        assert(segments_view(out@) =~= inner_segments(
            segments_view(segments@),
            texts_view(idents@),
        ));
    }
    Ok(out)
}

/// The rewritten copy of `arguments`; see [`inner_arguments`].
pub fn rewritten_arguments(arguments: &PathArguments, idents: &[String]) -> (r: Result<
    PathArguments,
    ExpandError,
>)
    ensures
        r is Ok <==> resolves_arguments(arguments@),
        r matches Ok(a) ==> a@ == inner_arguments(arguments@, texts_view(idents@)),
        r matches Err(e) ==> e == ExpandError::EmptyPath,
    decreases arguments, 1nat,
{
    match arguments {
        PathArguments::Empty => Ok(PathArguments::Empty),
        PathArguments::AngleBracketed { colon2_token, args } => {
            match rewritten_generic_arguments(args, idents) {
                Ok(a) => Ok(PathArguments::AngleBracketed { colon2_token: *colon2_token, args: a }),
                Err(e) => Err(e),
            }
        },
        PathArguments::Parenthesized { inputs, output } => {
            let output = match rewritten_optional_type(output, idents) {
                Ok(o) => o,
                Err(e) => {
                    return Err(e);
                },
            };
            match rewritten_types(inputs, idents) {
                Ok(i) => Ok(PathArguments::Parenthesized { inputs: i, output }),
                Err(e) => Err(e),
            }
        },
    }
}

fn rewritten_generic_arguments(args: &Vec<GenericArgument>, idents: &[String]) -> (r: Result<
    Vec<GenericArgument>,
    ExpandError,
>)
    ensures
        r is Ok <==> resolves_generic_arguments(generic_arguments_view(args@)),
        r matches Ok(a) ==> generic_arguments_view(a@) == inner_generic_arguments(
            generic_arguments_view(args@),
            texts_view(idents@),
        ),
        r matches Err(e) ==> e == ExpandError::EmptyPath,
    decreases args, 0nat,
{
    let mut out: Vec<GenericArgument> = Vec::new();
    let mut i: usize = 0;
    while i < args.len()
        invariant
            i <= args.len(),
            out.len() == i,
            forall|j: int| 0 <= j < i ==> resolves_generic_argument(args@[j]@),
            forall|j: int|
                0 <= j < i ==> (#[trigger] out@[j])@ == inner_generic_argument(
                    args@[j]@,
                    texts_view(idents@),
                ),
        decreases args.len() - i,
    {
        let argument = match rewritten_generic_argument(&args[i], idents) {
            Ok(a) => a,
            Err(e) => {
                proof {
                    assert(generic_arguments_view(args@)[i as int] == args@[i as int]@);
                }
                return Err(e);
            },
        };
        out.push(argument);
        i += 1;
    }
    proof {
        assert(generic_arguments_view(out@) =~= inner_generic_arguments(
            generic_arguments_view(args@),
            texts_view(idents@),
        ));
    }
    Ok(out)
}

fn rewritten_optional_arguments(args: &Option<Vec<GenericArgument>>, idents: &[String]) -> (r:
    Result<Option<Vec<GenericArgument>>, ExpandError>)
    ensures
        r is Ok <==> resolves_optional_arguments(optional_arguments_view(*args)),
        r matches Ok(a) ==> optional_arguments_view(a) == inner_optional_arguments(
            optional_arguments_view(*args),
            texts_view(idents@),
        ),
        r matches Err(e) ==> e == ExpandError::EmptyPath,
    decreases args, 1nat,
{
    match args {
        Some(a) => match rewritten_generic_arguments(a, idents) {
            Ok(done) => Ok(Some(done)),
            Err(e) => Err(e),
        },
        None => Ok(None),
    }
}

/// The rewritten copy of `argument`; see [`inner_generic_argument`].
pub fn rewritten_generic_argument(argument: &GenericArgument, idents: &[String]) -> (r: Result<
    GenericArgument,
    ExpandError,
>)
    ensures
        r is Ok <==> resolves_generic_argument(argument@),
        r matches Ok(a) ==> a@ == inner_generic_argument(argument@, texts_view(idents@)),
        r matches Err(e) ==> e == ExpandError::EmptyPath,
    decreases argument, 1nat,
{
    match argument {
        GenericArgument::Lifetime(lifetime) => Ok(GenericArgument::Lifetime(lifetime.clone())),
        GenericArgument::Type(ty) => match rewritten_type(ty, idents) {
            Ok(t) => Ok(GenericArgument::Type(t)),
            Err(e) => Err(e),
        },
        GenericArgument::Const(expr) => match rewritten_expr(expr, idents) {
            Ok(x) => Ok(GenericArgument::Const(x)),
            Err(e) => Err(e),
        },
        GenericArgument::AssocType { ident, generics, ty } => {
            let generics = match rewritten_optional_arguments(generics, idents) {
                Ok(g) => g,
                Err(e) => {
                    return Err(e);
                },
            };
            match rewritten_type(ty, idents) {
                Ok(t) => Ok(GenericArgument::AssocType { ident: ident.clone(), generics, ty: t }),
                Err(e) => Err(e),
            }
        },
        GenericArgument::AssocConst { ident, generics, value } => {
            let generics = match rewritten_optional_arguments(generics, idents) {
                Ok(g) => g,
                Err(e) => {
                    return Err(e);
                },
            };
            match rewritten_expr(value, idents) {
                Ok(v) => Ok(
                    GenericArgument::AssocConst { ident: ident.clone(), generics, value: v },
                ),
                Err(e) => Err(e),
            }
        },
        GenericArgument::Constraint { ident, generics, bounds } => {
            let generics = match rewritten_optional_arguments(generics, idents) {
                Ok(g) => g,
                Err(e) => {
                    return Err(e);
                },
            };
            match rewritten_bounds(bounds, idents) {
                Ok(b) => Ok(
                    GenericArgument::Constraint { ident: ident.clone(), generics, bounds: b },
                ),
                Err(e) => Err(e),
            }
        },
    }
}

/// The rewritten copy of `expr`; see [`inner_expr`].
pub fn rewritten_expr(expr: &Expr, idents: &[String]) -> (r: Result<Expr, ExpandError>)
    ensures
        r is Ok <==> resolves_expr(expr@),
        r matches Ok(x) ==> x@ == inner_expr(expr@, texts_view(idents@)),
        r matches Err(e) ==> e == ExpandError::EmptyPath,
    decreases expr, 1nat,
{
    match expr {
        Expr::Path { qself, path } => {
            let qself = match rewritten_qself(qself, idents) {
                Ok(q) => q,
                Err(e) => {
                    return Err(e);
                },
            };
            match rewritten_path(path, idents) {
                Ok(p) => Ok(Expr::Path { qself, path: p }),
                Err(e) => Err(e),
            }
        },
        Expr::Verbatim(text) => Ok(Expr::Verbatim(text.clone())),
    }
}

fn rewritten_qself(qself: &Option<QSelf>, idents: &[String]) -> (r: Result<
    Option<QSelf>,
    ExpandError,
>)
    ensures
        r is Ok <==> resolves_qself(optional_qself_view(*qself)),
        r matches Ok(q) ==> optional_qself_view(q) == inner_qself(
            optional_qself_view(*qself),
            texts_view(idents@),
        ),
        r matches Err(e) ==> e == ExpandError::EmptyPath,
    decreases qself, 1nat,
{
    match qself {
        Some(q) => match rewritten_type(&*q.ty, idents) {
            Ok(t) => Ok(
                Some(QSelf { ty: Box::new(t), position: q.position, as_token: q.as_token }),
            ),
            Err(e) => Err(e),
        },
        None => Ok(None),
    }
}

fn rewritten_types(types: &Vec<Type>, idents: &[String]) -> (r: Result<Vec<Type>, ExpandError>)
    ensures
        r is Ok <==> resolves_types(types_view(types@)),
        r matches Ok(t) ==> types_view(t@) == inner_types(
            types_view(types@),
            texts_view(idents@),
        ),
        r matches Err(e) ==> e == ExpandError::EmptyPath,
    decreases types, 0nat,
{
    let mut out: Vec<Type> = Vec::new();
    let mut i: usize = 0;
    while i < types.len()
        invariant
            i <= types.len(),
            out.len() == i,
            forall|j: int| 0 <= j < i ==> resolves_type(types@[j]@),
            forall|j: int|
                0 <= j < i ==> (#[trigger] out@[j])@ == inner_type(
                    types@[j]@,
                    texts_view(idents@),
                ),
        decreases types.len() - i,
    {
        let ty = match rewritten_type(&types[i], idents) {
            Ok(t) => t,
            Err(e) => {
                proof {
                    assert(types_view(types@)[i as int] == types@[i as int]@);
                }
                return Err(e);
            },
        };
        out.push(ty);
        i += 1;
    }
    proof {
        assert(types_view(out@) =~= inner_types(types_view(types@), texts_view(idents@)));
    }
    Ok(out)
}

fn rewritten_optional_type(ty: &Option<Box<Type>>, idents: &[String]) -> (r: Result<
    Option<Box<Type>>,
    ExpandError,
>)
    ensures
        r is Ok <==> resolves_optional_type(optional_type_view(*ty)),
        r matches Ok(t) ==> optional_type_view(t) == inner_optional_type(
            optional_type_view(*ty),
            texts_view(idents@),
        ),
        r matches Err(e) ==> e == ExpandError::EmptyPath,
    decreases ty, 1nat,
{
    match ty {
        Some(t) => match rewritten_type(&**t, idents) {
            Ok(done) => Ok(Some(Box::new(done))),
            Err(e) => Err(e),
        },
        None => Ok(None),
    }
}

fn rewritten_fn_args(args: &Vec<BareFnArg>, idents: &[String]) -> (r: Result<
    Vec<BareFnArg>,
    ExpandError,
>)
    ensures
        r is Ok <==> resolves_fn_args(fn_args_view(args@)),
        r matches Ok(a) ==> fn_args_view(a@) == inner_fn_args(
            fn_args_view(args@),
            texts_view(idents@),
        ),
        r matches Err(e) ==> e == ExpandError::EmptyPath,
    decreases args, 0nat,
{
    let mut out: Vec<BareFnArg> = Vec::new();
    let mut i: usize = 0;
    while i < args.len()
        invariant
            i <= args.len(),
            out.len() == i,
            forall|j: int| 0 <= j < i ==> resolves_type(args@[j]@.ty),
            forall|j: int|
                0 <= j < i ==> (#[trigger] out@[j])@ == (BareFnArgView {
                    name: args@[j]@.name,
                    ty: inner_type(args@[j]@.ty, texts_view(idents@)),
                }),
        decreases args.len() - i,
    {
        let ty = match rewritten_type(&args[i].ty, idents) {
            Ok(t) => t,
            Err(e) => {
                proof {
                    assert(fn_args_view(args@)[i as int] == args@[i as int]@);
                }
                return Err(e);
            },
        };
        out.push(BareFnArg { name: copied_text(&args[i].name), ty });
        i += 1;
    }
    proof {
        assert(fn_args_view(out@) =~= inner_fn_args(fn_args_view(args@), texts_view(idents@)));
    }
    Ok(out)
}

/// The rewritten copy of `ty`; see [`inner_type`].
pub fn rewritten_type(ty: &Type, idents: &[String]) -> (r: Result<Type, ExpandError>)
    ensures
        r is Ok <==> resolves_type(ty@),
        r matches Ok(t) ==> t@ == inner_type(ty@, texts_view(idents@)),
        r matches Err(e) ==> e == ExpandError::EmptyPath,
    decreases ty, 1nat,
{
    match ty {
        Type::Array { elem, len } => {
            let elem = match rewritten_type(&**elem, idents) {
                Ok(t) => t,
                Err(e) => {
                    return Err(e);
                },
            };
            match rewritten_expr(len, idents) {
                Ok(l) => Ok(Type::Array { elem: Box::new(elem), len: l }),
                Err(e) => Err(e),
            }
        },
        Type::BareFn { qualifiers, inputs, variadic, output } => {
            let inputs = match rewritten_fn_args(inputs, idents) {
                Ok(i) => i,
                Err(e) => {
                    return Err(e);
                },
            };
            match rewritten_optional_type(output, idents) {
                Ok(o) => Ok(
                    Type::BareFn {
                        qualifiers: qualifiers.clone(),
                        inputs,
                        variadic: copied_text(variadic),
                        output: o,
                    },
                ),
                Err(e) => Err(e),
            }
        },
        Type::Macro { path, body } => match rewritten_path(path, idents) {
            Ok(p) => Ok(Type::Macro { path: p, body: body.clone() }),
            Err(e) => Err(e),
        },
        Type::Paren(elem) => match rewritten_type(&**elem, idents) {
            Ok(t) => Ok(Type::Paren(Box::new(t))),
            Err(e) => Err(e),
        },
        Type::Ptr { mutable, elem } => match rewritten_type(&**elem, idents) {
            Ok(t) => Ok(Type::Ptr { mutable: *mutable, elem: Box::new(t) }),
            Err(e) => Err(e),
        },
        Type::Reference { lifetime, mutable, elem } => match rewritten_type(&**elem, idents) {
            Ok(t) => Ok(
                Type::Reference {
                    lifetime: copied_text(lifetime),
                    mutable: *mutable,
                    elem: Box::new(t),
                },
            ),
            Err(e) => Err(e),
        },
        Type::Slice(elem) => match rewritten_type(&**elem, idents) {
            Ok(t) => Ok(Type::Slice(Box::new(t))),
            Err(e) => Err(e),
        },
        Type::Path { qself, path } => {
            let qself = match rewritten_qself(qself, idents) {
                Ok(q) => q,
                Err(e) => {
                    return Err(e);
                },
            };
            match rewritten_path(path, idents) {
                Ok(p) => Ok(Type::Path { qself, path: p }),
                Err(e) => Err(e),
            }
        },
        Type::TraitObject { dyn_token, bounds } => match rewritten_bounds(bounds, idents) {
            Ok(b) => Ok(Type::TraitObject { dyn_token: *dyn_token, bounds: b }),
            Err(e) => Err(e),
        },
        Type::Tuple(elems) => match rewritten_types(elems, idents) {
            Ok(t) => Ok(Type::Tuple(t)),
            Err(e) => Err(e),
        },
        Type::Verbatim(text) => Ok(Type::Verbatim(text.clone())),
    }
}

/// The rewritten copy of `bound`; see [`inner_bound`].
pub fn rewritten_bound(bound: &TypeParamBound, idents: &[String]) -> (r: Result<
    TypeParamBound,
    ExpandError,
>)
    ensures
        r is Ok <==> resolves_bound(bound@),
        r matches Ok(b) ==> b@ == inner_bound(bound@, texts_view(idents@)),
        r matches Err(e) ==> e == ExpandError::EmptyPath,
    decreases bound, 1nat,
{
    match type_param_bound_select_trait(bound) {
        Some(trait_bound) => match rewritten_path(&trait_bound.path, idents) {
            Ok(p) => Ok(
                TypeParamBound::Trait(
                    TraitBound {
                        paren_token: trait_bound.paren_token,
                        maybe: trait_bound.maybe,
                        lifetimes: copied_text(&trait_bound.lifetimes),
                        path: p,
                    },
                ),
            ),
            Err(e) => Err(e),
        },
        None => match bound {
            TypeParamBound::Verbatim(text) => Ok(TypeParamBound::Verbatim(text.clone())),
            TypeParamBound::Trait(_) => Err(ExpandError::EmptyPath),
        },
    }
}

/// The trait of a bound, or `None` for a bound that is no trait.
pub fn type_param_bound_select_trait(bound: &TypeParamBound) -> (r: Option<&TraitBound>)
    ensures
        r is Some <==> bound is Trait,
        r matches Some(t) ==> *bound == TypeParamBound::Trait(*t),
{
    if let TypeParamBound::Trait(trait_bound) = bound {
        Some(trait_bound)
    } else {
        None
    }
}

/// The rewritten copies of `bounds`; see [`inner_bounds`].
pub fn rewritten_bounds(bounds: &Vec<TypeParamBound>, idents: &[String]) -> (r: Result<
    Vec<TypeParamBound>,
    ExpandError,
>)
    ensures
        r is Ok <==> resolves_bounds(bounds_view(bounds@)),
        r matches Ok(b) ==> bounds_view(b@) == inner_bounds(
            bounds_view(bounds@),
            texts_view(idents@),
        ),
        r matches Err(e) ==> e == ExpandError::EmptyPath,
    decreases bounds, 0nat,
{
    let mut out: Vec<TypeParamBound> = Vec::new();
    let mut i: usize = 0;
    while i < bounds.len()
        invariant
            i <= bounds.len(),
            out.len() == i,
            forall|j: int| 0 <= j < i ==> resolves_bound(bounds@[j]@),
            forall|j: int|
                0 <= j < i ==> (#[trigger] out@[j])@ == inner_bound(
                    bounds@[j]@,
                    texts_view(idents@),
                ),
        decreases bounds.len() - i,
    {
        let bound = match rewritten_bound(&bounds[i], idents) {
            Ok(b) => b,
            Err(e) => {
                proof {
                    assert(bounds_view(bounds@)[i as int] == bounds@[i as int]@);
                }
                return Err(e);
            },
        };
        out.push(bound);
        i += 1;
    }
    proof {
        assert(bounds_view(out@) =~= inner_bounds(bounds_view(bounds@), texts_view(idents@)));
    }
    Ok(out)
}


/// The generic parameter with the trait bounds of a type parameter, and the
/// type and the default of a constant parameter, rewritten. A lifetime stays
/// as it is.
pub open spec fn inner_param(param: GenericParamView, idents: Seq<Seq<char>>) -> GenericParamView {
    match param {
        GenericParamView::Lifetime { attrs, lifetime, bounds } => param,
        GenericParamView::Type { attrs, ident, bounds, default } => GenericParamView::Type {
            attrs,
            ident,
            bounds: inner_bounds(bounds, idents),
            default,
        },
        GenericParamView::Const { attrs, ident, ty, default } => GenericParamView::Const {
            attrs,
            ident,
            ty: inner_type(ty, idents),
            default: match default {
                Some(e) => Some(inner_expr(e, idents)),
                None => None,
            },
        },
    }
}

/// Whether every path in a generic parameter can be rewritten; see [`resolves_path`].
pub open spec fn resolves_param(param: GenericParamView) -> bool {
    match param {
        GenericParamView::Lifetime { attrs, lifetime, bounds } => true,
        GenericParamView::Type { attrs, ident, bounds, default } => resolves_bounds(bounds),
        GenericParamView::Const { attrs, ident, ty, default } => resolves_type(ty) && match default {
            Some(e) => resolves_expr(e),
            None => true,
        },
    }
}

/// The predicate with its type and its trait bounds rewritten.
pub open spec fn inner_predicate(
    predicate: WherePredicateView,
    idents: Seq<Seq<char>>,
) -> WherePredicateView {
    match predicate {
        WherePredicateView::Type { lifetimes, bounded_ty, bounds } => WherePredicateView::Type {
            lifetimes,
            bounded_ty: inner_type(bounded_ty, idents),
            bounds: inner_bounds(bounds, idents),
        },
        WherePredicateView::Verbatim(text) => predicate,
    }
}

/// Whether every path in a predicate can be rewritten; see [`resolves_path`].
pub open spec fn resolves_predicate(predicate: WherePredicateView) -> bool {
    match predicate {
        WherePredicateView::Type { lifetimes, bounded_ty, bounds } => resolves_type(bounded_ty)
            && resolves_bounds(bounds),
        WherePredicateView::Verbatim(text) => true,
    }
}

/// Generic parameters with every path rewritten; see [`inner_path`].
pub open spec fn inner_params(params: Seq<GenericParamView>, idents: Seq<Seq<char>>) -> Seq<
    GenericParamView,
> {
    Seq::new(params.len(), |i: int| inner_param(params[i], idents))
}

/// Whether every path in generic parameters can be rewritten; see [`resolves_path`].
pub open spec fn resolves_params(params: Seq<GenericParamView>) -> bool {
    forall|i: int| 0 <= i < params.len() ==> resolves_param(#[trigger] params[i])
}

/// The predicates of a `where` clause with every path rewritten; see [`inner_path`].
pub open spec fn inner_predicates(
    predicates: Seq<WherePredicateView>,
    idents: Seq<Seq<char>>,
) -> Seq<WherePredicateView> {
    Seq::new(predicates.len(), |i: int| inner_predicate(predicates[i], idents))
}

/// Whether every path in the predicates of a `where` clause can be rewritten; see [`resolves_path`].
pub open spec fn resolves_predicates(predicates: Seq<WherePredicateView>) -> bool {
    forall|i: int| 0 <= i < predicates.len() ==> resolves_predicate(#[trigger] predicates[i])
}

/// The generics with every parameter and every predicate of the `where` clause
/// rewritten.
pub open spec fn inner_generics(generics: GenericsView, idents: Seq<Seq<char>>) -> GenericsView {
    GenericsView {
        params: inner_params(generics.params, idents),
        where_clause: match generics.where_clause {
            Some(predicates) => Some(inner_predicates(predicates, idents)),
            None => None,
        },
    }
}

/// Whether every path in generics can be rewritten; see [`resolves_path`].
pub open spec fn resolves_generics(generics: GenericsView) -> bool {
    &&& resolves_params(generics.params)
    &&& match generics.where_clause {
        Some(predicates) => resolves_predicates(predicates),
        None => true,
    }
}

/// The rewritten copy of `param`; see [`inner_param`].
pub fn rewritten_param(param: &GenericParam, idents: &[String]) -> (r: Result<
    GenericParam,
    ExpandError,
>)
    ensures
        r is Ok <==> resolves_param(param@),
        r matches Ok(p) ==> p@ == inner_param(param@, texts_view(idents@)),
        r matches Err(e) ==> e == ExpandError::EmptyPath,
{
    match param {
        GenericParam::Lifetime { attrs, lifetime, bounds } => Ok(
            GenericParam::Lifetime {
                attrs: attrs.clone(),
                lifetime: lifetime.clone(),
                bounds: copied_texts(bounds),
            },
        ),
        GenericParam::Type { attrs, ident, bounds, default } => {
            match rewritten_bounds(bounds, idents) {
                Ok(b) => Ok(
                    GenericParam::Type {
                        attrs: attrs.clone(),
                        ident: ident.clone(),
                        bounds: b,
                        default: copied_text(default),
                    },
                ),
                Err(e) => Err(e),
            }
        },
        GenericParam::Const { attrs, ident, ty, default } => {
            let ty = match rewritten_type(ty, idents) {
                Ok(t) => t,
                Err(e) => {
                    return Err(e);
                },
            };
            let default = match default {
                Some(d) => match rewritten_expr(d, idents) {
                    Ok(x) => Some(x),
                    Err(e) => {
                        return Err(e);
                    },
                },
                None => None,
            };
            Ok(GenericParam::Const { attrs: attrs.clone(), ident: ident.clone(), ty, default })
        },
    }
}

/// The rewritten copy of `predicate`; see [`inner_predicate`].
pub fn rewritten_predicate(predicate: &WherePredicate, idents: &[String]) -> (r: Result<
    WherePredicate,
    ExpandError,
>)
    ensures
        r is Ok <==> resolves_predicate(predicate@),
        r matches Ok(p) ==> p@ == inner_predicate(predicate@, texts_view(idents@)),
        r matches Err(e) ==> e == ExpandError::EmptyPath,
{
    match predicate {
        WherePredicate::Type { lifetimes, bounded_ty, bounds } => {
            let bounded_ty = match rewritten_type(bounded_ty, idents) {
                Ok(t) => t,
                Err(e) => {
                    return Err(e);
                },
            };
            match rewritten_bounds(bounds, idents) {
                Ok(b) => Ok(
                    WherePredicate::Type {
                        lifetimes: copied_text(lifetimes),
                        bounded_ty,
                        bounds: b,
                    },
                ),
                Err(e) => Err(e),
            }
        },
        WherePredicate::Verbatim(text) => Ok(WherePredicate::Verbatim(text.clone())),
    }
}

/// The rewritten copies of `params`; see [`inner_params`].
pub fn rewritten_params(params: &Vec<GenericParam>, idents: &[String]) -> (r: Result<
    Vec<GenericParam>,
    ExpandError,
>)
    ensures
        r is Ok <==> resolves_params(params_view(params@)),
        r matches Ok(p) ==> params_view(p@) == inner_params(
            params_view(params@),
            texts_view(idents@),
        ),
        r matches Err(e) ==> e == ExpandError::EmptyPath,
{
    let mut out: Vec<GenericParam> = Vec::new();
    let mut i: usize = 0;
    while i < params.len()
        invariant
            i <= params.len(),
            out.len() == i,
            forall|j: int| 0 <= j < i ==> resolves_param(params@[j]@),
            forall|j: int|
                0 <= j < i ==> (#[trigger] out@[j])@ == inner_param(
                    params@[j]@,
                    texts_view(idents@),
                ),
        decreases params.len() - i,
    {
        let param = match rewritten_param(&params[i], idents) {
            Ok(p) => p,
            Err(e) => {
                proof {
                    assert(params_view(params@)[i as int] == params@[i as int]@);
                }
                return Err(e);
            },
        };
        out.push(param);
        i += 1;
    }
    proof {
        assert(params_view(out@) =~= inner_params(params_view(params@), texts_view(idents@)));
    }
    Ok(out)
}

/// The rewritten copies of `predicates`; see [`inner_predicates`].
pub fn rewritten_predicates(predicates: &Vec<WherePredicate>, idents: &[String]) -> (r: Result<
    Vec<WherePredicate>,
    ExpandError,
>)
    ensures
        r is Ok <==> resolves_predicates(predicates_view(predicates@)),
        r matches Ok(p) ==> predicates_view(p@) == inner_predicates(
            predicates_view(predicates@),
            texts_view(idents@),
        ),
        r matches Err(e) ==> e == ExpandError::EmptyPath,
{
    let mut out: Vec<WherePredicate> = Vec::new();
    let mut i: usize = 0;
    while i < predicates.len()
        invariant
            i <= predicates.len(),
            out.len() == i,
            forall|j: int| 0 <= j < i ==> resolves_predicate(predicates@[j]@),
            forall|j: int|
                0 <= j < i ==> (#[trigger] out@[j])@ == inner_predicate(
                    predicates@[j]@,
                    texts_view(idents@),
                ),
        decreases predicates.len() - i,
    {
        let predicate = match rewritten_predicate(&predicates[i], idents) {
            Ok(p) => p,
            Err(e) => {
                proof {
                    assert(predicates_view(predicates@)[i as int] == predicates@[i as int]@);
                }
                return Err(e);
            },
        };
        out.push(predicate);
        i += 1;
    }
    proof {
        assert(predicates_view(out@) =~= inner_predicates(
            predicates_view(predicates@),
            texts_view(idents@),
        ));
    }
    Ok(out)
}

/// The rewritten copy of `generics`; see [`inner_generics`].
pub fn rewritten_generics(generics: &Generics, idents: &[String]) -> (r: Result<
    Generics,
    ExpandError,
>)
    ensures
        r is Ok <==> resolves_generics(generics@),
        r matches Ok(g) ==> g@ == inner_generics(generics@, texts_view(idents@)),
        r matches Err(e) ==> e == ExpandError::EmptyPath,
{
    let params = match rewritten_params(&generics.params, idents) {
        Ok(p) => p,
        Err(e) => {
            return Err(e);
        },
    };
    let where_clause = match &generics.where_clause {
        Some(predicates) => match rewritten_predicates(predicates, idents) {
            Ok(p) => Some(p),
            Err(e) => {
                return Err(e);
            },
        },
        None => None,
    };
    Ok(Generics { params, where_clause })
}

/// Rewrites `path` in place for use one module further in; see [`inner_path`].
/// A path that cannot be rewritten is left as it was.
pub fn make_inner_path(path: &mut Path, generic_idents: &[String]) -> (r: Result<
    (),
    ExpandError,
>)
    ensures
        r is Ok <==> resolves_path(old(path)@),
        r is Ok ==> final(path)@ == inner_path(old(path)@, texts_view(generic_idents@)),
        r matches Err(e) ==> e == ExpandError::EmptyPath && *final(path) == *old(path),
{
    match rewritten_path(path, generic_idents) {
        Ok(p) => {
            *path = p;
            Ok(())
        },
        Err(e) => Err(e),
    }
}

/// Rewrites the arguments of a path segment in place; see [`inner_arguments`].
/// Arguments that cannot be rewritten are left as they were.
pub fn make_inner_path_arguments(arguments: &mut PathArguments, generic_idents: &[String]) -> (r:
    Result<(), ExpandError>)
    ensures
        r is Ok <==> resolves_arguments(old(arguments)@),
        r is Ok ==> final(arguments)@ == inner_arguments(
            old(arguments)@,
            texts_view(generic_idents@),
        ),
        r matches Err(e) ==> e == ExpandError::EmptyPath && *final(arguments) == *old(arguments),
{
    match rewritten_arguments(arguments, generic_idents) {
        Ok(a) => {
            *arguments = a;
            Ok(())
        },
        Err(e) => Err(e),
    }
}

/// Rewrites a generic argument in place; see [`inner_generic_argument`]. An
/// argument that cannot be rewritten is left as it was.
pub fn make_inner_path_generic_argument(
    argument: &mut GenericArgument,
    generic_idents: &[String],
) -> (r: Result<(), ExpandError>)
    ensures
        r is Ok <==> resolves_generic_argument(old(argument)@),
        r is Ok ==> final(argument)@ == inner_generic_argument(
            old(argument)@,
            texts_view(generic_idents@),
        ),
        r matches Err(e) ==> e == ExpandError::EmptyPath && *final(argument) == *old(argument),
{
    match rewritten_generic_argument(argument, generic_idents) {
        Ok(a) => {
            *argument = a;
            Ok(())
        },
        Err(e) => Err(e),
    }
}

/// Rewrites a type in place; see [`inner_type`]. A type that cannot be
/// rewritten is left as it was.
pub fn make_inner_path_type(ty: &mut Type, generic_idents: &[String]) -> (r: Result<
    (),
    ExpandError,
>)
    ensures
        r is Ok <==> resolves_type(old(ty)@),
        r is Ok ==> final(ty)@ == inner_type(old(ty)@, texts_view(generic_idents@)),
        r matches Err(e) ==> e == ExpandError::EmptyPath && *final(ty) == *old(ty),
{
    match rewritten_type(ty, generic_idents) {
        Ok(t) => {
            *ty = t;
            Ok(())
        },
        Err(e) => Err(e),
    }
}

/// Rewrites the parameters and the `where` clause of `generics` in place; see
/// [`inner_generics`]. Generics that cannot be rewritten are left as they were.
pub fn make_generics_inner_path(generics: &mut Generics, generic_idents: &[String]) -> (r:
    Result<(), ExpandError>)
    ensures
        r is Ok <==> resolves_generics(old(generics)@),
        r is Ok ==> final(generics)@ == inner_generics(
            old(generics)@,
            texts_view(generic_idents@),
        ),
        r matches Err(e) ==> e == ExpandError::EmptyPath && *final(generics) == *old(generics),
{
    match rewritten_generics(generics, generic_idents) {
        Ok(g) => {
            *generics = g;
            Ok(())
        },
        Err(e) => Err(e),
    }
}

} // verus!
