//! The text of the syntax and of the generated module.

use vstd::prelude::*;
use vstd::string::StringExecFns;
use crate::generator::declare_new_fns::{Module, ModuleView};
use crate::generator::syntax::{
    attributes_view, bounds_view, fn_args_view, generic_arguments_view, optional_arguments_view,
    optional_qself_view, optional_type_view, params_view, predicates_view, segments_view,
    text_view, texts_view, types_view, Attribute, AttributeView, BareFnArg, BareFnArgView, Expr,
    ExprView, GenericArgument, GenericArgumentView, GenericParam, GenericParamView, Path,
    PathArguments, PathArgumentsView, PathSegment, PathSegmentView, PathView, QSelf, QSelfView,
    Type, TypeParamBound, TypeParamBoundView, TypeView, WherePredicate, WherePredicateView,
};

verus! {

/// The parts in order, with the separator between each two.
pub open spec fn joined(parts: Seq<Seq<char>>, separator: Seq<char>) -> Seq<char>
    decreases parts.len(),
{
    if parts.len() == 0 {
        Seq::empty()
    } else if parts.len() == 1 {
        parts[0]
    } else {
        joined(parts.drop_last(), separator) + separator + parts.last()
    }
}

/// The parts in order, each followed by the terminator.
pub open spec fn terminated(parts: Seq<Seq<char>>, terminator: Seq<char>) -> Seq<char>
    decreases parts.len(),
{
    if parts.len() == 0 {
        Seq::empty()
    } else {
        terminated(parts.drop_last(), terminator) + parts.last() + terminator
    }
}

/// The text, or nothing where there is none.
pub open spec fn text_or_empty(text: Option<Seq<char>>) -> Seq<char> {
    match text {
        Some(t) => t,
        None => Seq::empty(),
    }
}

/// The text followed by a space, or nothing where there is none.
pub open spec fn text_and_space(text: Option<Seq<char>>) -> Seq<char> {
    match text {
        Some(t) => t + " "@,
        None => Seq::empty(),
    }
}

/// `text` where `present`, else nothing.
pub open spec fn when(present: bool, text: Seq<char>) -> Seq<char> {
    if present {
        text
    } else {
        Seq::empty()
    }
}

/// The texts of the segments from index `from` up to `to`.
pub open spec fn segments_parts(segments: Seq<PathSegmentView>, from: int, to: int) -> Seq<
    Seq<char>,
>
    decreases segments, 0nat,
{
    Seq::new(
        (to - from) as nat,
        |i: int|
            if 0 <= from + i < segments.len() {
                segments[from + i].ident + arguments_source(segments[from + i].arguments)
            } else {
                Seq::empty()
            },
    )
}

/// The segments from index `from` up to `to`, joined by `::`.
pub open spec fn segments_source(segments: Seq<PathSegmentView>, from: int, to: int) -> Seq<char>
    decreases segments, 1nat,
{
    joined(segments_parts(segments, from, to), "::"@)
}

/// A path as it is written.
pub open spec fn path_source(path: PathView) -> Seq<char>
    decreases path, 2nat,
{
    when(path.leading_colon, "::"@) + segments_source(
        path.segments,
        0,
        path.segments.len() as int,
    )
}

/// The arguments of a path segment as they are written.
pub open spec fn arguments_source(arguments: PathArgumentsView) -> Seq<char>
    decreases arguments, 2nat,
{
    match arguments {
        PathArgumentsView::Empty => Seq::empty(),
        PathArgumentsView::AngleBracketed { colon2_token, args } => when(colon2_token, "::"@)
            + "<"@ + generic_arguments_source(args) + ">"@,
        PathArgumentsView::Parenthesized { inputs, output } => "("@ + types_source(inputs) + ")"@
            + result_source(output),
    }
}

/// The result of a function as it is written: ` -> type`, or nothing.
pub open spec fn result_source(output: Option<Box<TypeView>>) -> Seq<char>
    decreases output, 2nat,
{
    match output {
        Some(t) => " -> "@ + type_source(*t),
        None => Seq::empty(),
    }
}

/// Generic arguments as they are written, separated by commas.
pub open spec fn generic_arguments_source(args: Seq<GenericArgumentView>) -> Seq<char>
    decreases args, 1nat,
{
    joined(generic_arguments_parts(args), ", "@)
}

/// The texts of generic arguments.
pub open spec fn generic_arguments_parts(args: Seq<GenericArgumentView>) -> Seq<Seq<char>>
    decreases args, 0nat,
{
    Seq::new(
        args.len(),
        |i: int|
            if 0 <= i < args.len() {
                generic_argument_source(args[i])
            } else {
                Seq::empty()
            },
    )
}

/// The generic arguments of a binding as they are written: `<...>`, or nothing.
pub open spec fn optional_arguments_source(args: Option<Seq<GenericArgumentView>>) -> Seq<char>
    decreases args, 2nat,
{
    match args {
        Some(a) => "<"@ + generic_arguments_source(a) + ">"@,
        None => Seq::empty(),
    }
}

/// A generic argument as it is written.
pub open spec fn generic_argument_source(argument: GenericArgumentView) -> Seq<char>
    decreases argument, 2nat,
{
    match argument {
        GenericArgumentView::Lifetime(lifetime) => lifetime,
        GenericArgumentView::Type(ty) => type_source(ty),
        GenericArgumentView::Const(expr) => expr_source(expr),
        GenericArgumentView::AssocType { ident, generics, ty } => ident
            + optional_arguments_source(generics) + " = "@ + type_source(ty),
        GenericArgumentView::AssocConst { ident, generics, value } => ident
            + optional_arguments_source(generics) + " = "@ + expr_source(value),
        GenericArgumentView::Constraint { ident, generics, bounds } => ident
            + optional_arguments_source(generics) + ": "@ + bounds_source(bounds),
    }
}

/// An expression as it is written.
pub open spec fn expr_source(expr: ExprView) -> Seq<char>
    decreases expr, 2nat,
{
    match expr {
        ExprView::Path { qself, path } => match qself {
            None => path_source(path),
            Some(q) => qualified_parts(
                type_source(*q.ty),
                q.as_token,
                path.leading_colon,
                segments_source(path.segments, 0, trait_segments(q, path)),
                trait_segments(q, path) < path.segments.len(),
                segments_source(
                    path.segments,
                    trait_segments(q, path),
                    path.segments.len() as int,
                ),
            ),
        },
        ExprView::Verbatim(text) => text,
    }
}

/// The number of segments of `path` that belong to the trait of a qualified
/// path.
pub open spec fn trait_segments(qself: QSelfView, path: PathView) -> int {
    if qself.position <= path.segments.len() {
        qself.position as int
    } else {
        path.segments.len() as int
    }
}

/// A qualified path as it is written, `<T as a::Trait>::Item`, from the texts of
/// its parts: the qualifying type, the segments of the trait and the segments
/// after it.
pub open spec fn qualified_parts(
    ty: Seq<char>,
    as_token: bool,
    leading_colon: bool,
    head: Seq<char>,
    has_tail: bool,
    tail: Seq<char>,
) -> Seq<char> {
    "<"@ + ty + when(as_token, " as "@ + when(leading_colon, "::"@) + head) + ">"@ + when(
        has_tail,
        "::"@ + tail,
    )
}

/// Types as they are written, separated by commas.
pub open spec fn types_source(types: Seq<TypeView>) -> Seq<char>
    decreases types, 1nat,
{
    joined(types_parts(types), ", "@)
}

/// The texts of types.
pub open spec fn types_parts(types: Seq<TypeView>) -> Seq<Seq<char>>
    decreases types, 0nat,
{
    Seq::new(
        types.len(),
        |i: int|
            if 0 <= i < types.len() {
                type_source(types[i])
            } else {
                Seq::empty()
            },
    )
}

/// The arguments of a function pointer type as they are written, each with its
/// name, followed by the variadic argument where there is one.
pub open spec fn fn_args_source(args: Seq<BareFnArgView>, variadic: Option<Seq<char>>) -> Seq<
    char,
>
    decreases args, 1nat,
{
    joined(
        match variadic {
            Some(v) => fn_args_parts(args).push(v),
            None => fn_args_parts(args),
        },
        ", "@,
    )
}

/// The texts of the arguments of a function pointer type, each with its name.
pub open spec fn fn_args_parts(args: Seq<BareFnArgView>) -> Seq<Seq<char>>
    decreases args, 0nat,
{
    Seq::new(
        args.len(),
        |i: int|
            if 0 <= i < args.len() {
                text_or_empty(args[i].name) + type_source(args[i].ty)
            } else {
                Seq::empty()
            },
    )
}

/// A type as it is written.
pub open spec fn type_source(ty: TypeView) -> Seq<char>
    decreases ty, 2nat,
{
    match ty {
        TypeView::Array { elem, len } => "["@ + type_source(*elem) + "; "@ + expr_source(len)
            + "]"@,
        TypeView::BareFn { qualifiers, inputs, variadic, output } => qualifiers + " fn("@
            + fn_args_source(inputs, variadic) + ")"@ + result_source(output),
        TypeView::Macro { path, body } => path_source(path) + body,
        TypeView::Paren(elem) => "("@ + type_source(*elem) + ")"@,
        TypeView::Ptr { mutable, elem } => (if mutable {
            "*mut "@
        } else {
            "*const "@
        }) + type_source(*elem),
        TypeView::Reference { lifetime, mutable, elem } => "&"@ + text_and_space(lifetime) + when(
            mutable,
            "mut "@,
        ) + type_source(*elem),
        TypeView::Slice(elem) => "["@ + type_source(*elem) + "]"@,
        TypeView::Path { qself, path } => match qself {
            None => path_source(path),
            Some(q) => qualified_parts(
                type_source(*q.ty),
                q.as_token,
                path.leading_colon,
                segments_source(path.segments, 0, trait_segments(q, path)),
                trait_segments(q, path) < path.segments.len(),
                segments_source(
                    path.segments,
                    trait_segments(q, path),
                    path.segments.len() as int,
                ),
            ),
        },
        TypeView::TraitObject { dyn_token, bounds } => when(dyn_token, "dyn "@) + bounds_source(
            bounds,
        ),
        TypeView::Tuple(elems) => "("@ + types_source(elems) + when(elems.len() == 1, ","@)
            + ")"@,
        TypeView::Verbatim(text) => text,
    }
}

/// A bound as it is written.
pub open spec fn bound_source(bound: TypeParamBoundView) -> Seq<char>
    decreases bound, 2nat,
{
    match bound {
        TypeParamBoundView::Trait(b) => when(b.paren_token, "("@) + when(b.maybe, "?"@)
            + text_and_space(b.lifetimes) + path_source(b.path) + when(b.paren_token, ")"@),
        TypeParamBoundView::Verbatim(text) => text,
    }
}

/// Bounds as they are written, joined by `+`.
pub open spec fn bounds_source(bounds: Seq<TypeParamBoundView>) -> Seq<char>
    decreases bounds, 1nat,
{
    joined(bounds_parts(bounds), " + "@)
}

/// The texts of bounds.
pub open spec fn bounds_parts(bounds: Seq<TypeParamBoundView>) -> Seq<Seq<char>>
    decreases bounds, 0nat,
{
    Seq::new(
        bounds.len(),
        |i: int|
            if 0 <= i < bounds.len() {
                bound_source(bounds[i])
            } else {
                Seq::empty()
            },
    )
}


/// The parts in order, with the separator between each two; see [`joined`].
pub fn join(parts: &Vec<String>, separator: &str) -> (r: String)
    ensures
        r@ == joined(texts_view(parts@), separator@),
{
    let ghost all = texts_view(parts@);
    let mut text = String::new();
    let mut i: usize = 0;
    while i < parts.len()
        invariant
            i <= parts.len(),
            all == texts_view(parts@),
            text@ == joined(all.take(i as int), separator@),
        decreases parts.len() - i,
    {
        proof {
            assert(all.take(i + 1).drop_last() =~= all.take(i as int));
            assert(all.take(i + 1).last() == parts@[i as int]@);
            assert(all.take(1)[0] == all[0]);
        }
        let ghost before = text@;
        if i > 0 {
            text.append(separator);
        }
        text.append(parts[i].as_str());
        proof {
            if i == 0 {
                assert(before =~= Seq::<char>::empty());
                assert(text@ =~= parts@[i as int]@);
            }
        }
        i += 1;
    }
    proof {
        assert(all.take(i as int) =~= all);
    }
    text
}

/// The parts in order, each followed by the terminator; see [`terminated`].
pub fn terminate(parts: &Vec<String>, terminator: &str) -> (r: String)
    ensures
        r@ == terminated(texts_view(parts@), terminator@),
{
    let ghost all = texts_view(parts@);
    let mut text = String::new();
    let mut i: usize = 0;
    while i < parts.len()
        invariant
            i <= parts.len(),
            all == texts_view(parts@),
            text@ == terminated(all.take(i as int), terminator@),
        decreases parts.len() - i,
    {
        proof {
            assert(all.take(i + 1).drop_last() =~= all.take(i as int));
            assert(all.take(i + 1).last() == parts@[i as int]@);
        }
        text.append(parts[i].as_str());
        text.append(terminator);
        i += 1;
    }
    proof {
        assert(all.take(i as int) =~= all);
    }
    text
}

/// Appends `piece` where `present`.
fn append_when(text: &mut String, present: bool, piece: &str)
    ensures
        final(text)@ == old(text)@ + when(present, piece@),
{
    if present {
        text.append(piece);
    } else {
        proof {
            assert(text@ + Seq::<char>::empty() =~= text@);
        }
    }
}

/// Appends the text, where there is one, and then `after`.
fn append_optional(text: &mut String, piece: &Option<String>, after: &str)
    ensures
        final(text)@ == old(text)@ + match text_view(*piece) {
            Some(t) => t + after@,
            None => Seq::empty(),
        },
{
    match piece {
        Some(p) => {
            let ghost before = text@;
            text.append(p.as_str());
            text.append(after);
            proof {
                assert(text@ =~= before + (p@ + after@));
            }
        },
        None => {
            proof {
                assert(text@ + Seq::<char>::empty() =~= text@);
            }
        },
    }
}

/// The segments from index `from` up to `to`, joined by `::`; see
/// [`segments_source`].
pub fn render_segments(segments: &Vec<PathSegment>, from: usize, to: usize) -> (r: String)
    requires
        from <= to <= segments.len(),
    ensures
        r@ == segments_source(segments_view(segments@), from as int, to as int),
    decreases segments, 0nat,
{
    let ghost views = segments_view(segments@);
    let mut parts: Vec<String> = Vec::new();
    let mut i: usize = from;
    while i < to
        invariant
            from <= i <= to <= segments.len(),
            views == segments_view(segments@),
            parts.len() == i - from,
            forall|j: int|
                0 <= j < i - from ==> (#[trigger] parts@[j])@ == views[from + j].ident
                    + arguments_source(views[from + j].arguments),
        decreases to - i,
    {
        let mut part = segments[i].ident.clone();
        let arguments = render_arguments(&segments[i].arguments);
        part.append(arguments.as_str());
        proof {
            assert(views[i as int] == segments@[i as int]@);
        }
        parts.push(part);
        i += 1;
    }
    proof {
        assert(texts_view(parts@) =~= segments_parts(views, from as int, to as int));
    }
    join(&parts, "::")
}

/// The path as it is written; see [`path_source`].
pub fn render_path(path: &Path) -> (r: String)
    ensures
        r@ == path_source(path@),
    decreases path, 1nat,
{
    let mut text = String::new();
    append_when(&mut text, path.leading_colon, "::");
    let segments = render_segments(&path.segments, 0, path.segments.len());
    text.append(segments.as_str());
    proof {
        assert(segments_view(path.segments@).len() == path.segments@.len());
        assert(text@ =~= path_source(path@));
    }
    text
}

/// The arguments of a path segment as they are written; see
/// [`arguments_source`].
pub fn render_arguments(arguments: &PathArguments) -> (r: String)
    ensures
        r@ == arguments_source(arguments@),
    decreases arguments, 1nat,
{
    match arguments {
        PathArguments::Empty => String::new(),
        PathArguments::AngleBracketed { colon2_token, args } => {
            let mut text = String::new();
            append_when(&mut text, *colon2_token, "::");
            text.append("<");
            text.append(render_generic_arguments(args).as_str());
            text.append(">");
            proof {
                assert(text@ =~= arguments_source(arguments@));
            }
            text
        },
        PathArguments::Parenthesized { inputs, output } => {
            let mut text = String::from_str("(");
            text.append(render_types(inputs).as_str());
            text.append(")");
            text.append(render_result(output).as_str());
            text
        },
    }
}

/// The result of a function as it is written; see [`result_source`].
fn render_result(output: &Option<Box<Type>>) -> (r: String)
    ensures
        r@ == result_source(optional_type_view(*output)),
    decreases output, 1nat,
{
    match output {
        Some(t) => {
            let mut text = String::from_str(" -> ");
            text.append(render_type(&**t).as_str());
            text
        },
        None => String::new(),
    }
}

/// Generic arguments as they are written; see [`generic_arguments_source`].
pub fn render_generic_arguments(args: &Vec<GenericArgument>) -> (r: String)
    ensures
        r@ == generic_arguments_source(generic_arguments_view(args@)),
    decreases args, 0nat,
{
    let ghost views = generic_arguments_view(args@);
    let mut parts: Vec<String> = Vec::new();
    let mut i: usize = 0;
    while i < args.len()
        invariant
            i <= args.len(),
            parts.len() == i,
            forall|j: int|
                0 <= j < i ==> (#[trigger] parts@[j])@ == generic_argument_source(args@[j]@),
        decreases args.len() - i,
    {
        parts.push(render_generic_argument(&args[i]));
        i += 1;
    }
    proof {
        assert(texts_view(parts@) =~= generic_arguments_parts(views));
    }
    join(&parts, ", ")
}

/// The generic arguments of a binding as they are written; see
/// [`optional_arguments_source`].
fn render_optional_arguments(args: &Option<Vec<GenericArgument>>) -> (r: String)
    ensures
        r@ == optional_arguments_source(optional_arguments_view(*args)),
    decreases args, 1nat,
{
    match args {
        Some(a) => {
            let mut text = String::from_str("<");
            text.append(render_generic_arguments(a).as_str());
            text.append(">");
            text
        },
        None => String::new(),
    }
}

/// The generic argument as it is written; see [`generic_argument_source`].
pub fn render_generic_argument(argument: &GenericArgument) -> (r: String)
    ensures
        r@ == generic_argument_source(argument@),
    decreases argument, 1nat,
{
    match argument {
        GenericArgument::Lifetime(lifetime) => lifetime.clone(),
        GenericArgument::Type(ty) => render_type(ty),
        GenericArgument::Const(expr) => render_expr(expr),
        GenericArgument::AssocType { ident, generics, ty } => {
            let mut text = ident.clone();
            text.append(render_optional_arguments(generics).as_str());
            text.append(" = ");
            text.append(render_type(ty).as_str());
            text
        },
        GenericArgument::AssocConst { ident, generics, value } => {
            let mut text = ident.clone();
            text.append(render_optional_arguments(generics).as_str());
            text.append(" = ");
            text.append(render_expr(value).as_str());
            text
        },
        GenericArgument::Constraint { ident, generics, bounds } => {
            let mut text = ident.clone();
            text.append(render_optional_arguments(generics).as_str());
            text.append(": ");
            text.append(render_bounds(bounds).as_str());
            text
        },
    }
}

/// A qualified path as it is written, from the texts of its parts; see
/// [`qualified_parts`].
fn qualified(
    ty: &String,
    as_token: bool,
    leading_colon: bool,
    head: &String,
    has_tail: bool,
    tail: &String,
) -> (r: String)
    ensures
        r@ == qualified_parts(ty@, as_token, leading_colon, head@, has_tail, tail@),
{
    let mut text = String::from_str("<");
    text.append(ty.as_str());
    let mut of_trait = String::from_str(" as ");
    append_when(&mut of_trait, leading_colon, "::");
    of_trait.append(head.as_str());
    append_when(&mut text, as_token, of_trait.as_str());
    text.append(">");
    let mut rest = String::from_str("::");
    rest.append(tail.as_str());
    append_when(&mut text, has_tail, rest.as_str());
    text
}

/// The number of segments of `path` that belong to the trait of a qualified
/// path; see [`trait_segments`].
fn trait_end(qself: &QSelf, path: &Path) -> (r: usize)
    ensures
        r == trait_segments(qself@, path@),
        r <= path.segments.len(),
{
    proof {
        assert(path@.segments.len() == path.segments@.len());
    }
    if qself.position <= path.segments.len() {
        qself.position
    } else {
        path.segments.len()
    }
}

/// The expression as it is written; see [`expr_source`].
pub fn render_expr(expr: &Expr) -> (r: String)
    ensures
        r@ == expr_source(expr@),
    decreases expr, 1nat,
{
    match expr {
        Expr::Path { qself, path } => match qself {
            None => render_path(path),
            Some(q) => {
                let position = trait_end(q, path);
                let ty = render_type(&*q.ty);
                let head = render_segments(&path.segments, 0, position);
                let tail = render_segments(&path.segments, position, path.segments.len());
                proof {
                    assert(path@.segments.len() == path.segments@.len());
                }
                qualified(
                    &ty,
                    q.as_token,
                    path.leading_colon,
                    &head,
                    position < path.segments.len(),
                    &tail,
                )
            },
        },
        Expr::Verbatim(text) => text.clone(),
    }
}

/// Types as they are written, separated by commas; see [`types_source`].
pub fn render_types(types: &Vec<Type>) -> (r: String)
    ensures
        r@ == types_source(types_view(types@)),
    decreases types, 0nat,
{
    let ghost views = types_view(types@);
    let mut parts: Vec<String> = Vec::new();
    let mut i: usize = 0;
    while i < types.len()
        invariant
            i <= types.len(),
            parts.len() == i,
            forall|j: int| 0 <= j < i ==> (#[trigger] parts@[j])@ == type_source(types@[j]@),
        decreases types.len() - i,
    {
        parts.push(render_type(&types[i]));
        i += 1;
    }
    proof {
        assert(texts_view(parts@) =~= types_parts(views));
    }
    join(&parts, ", ")
}

/// The arguments of a function pointer type as they are written; see
/// [`fn_args_source`].
fn render_fn_args(args: &Vec<BareFnArg>, variadic: &Option<String>) -> (r: String)
    ensures
        r@ == fn_args_source(fn_args_view(args@), text_view(*variadic)),
    decreases args, 0nat,
{
    let ghost views = fn_args_view(args@);
    let mut parts: Vec<String> = Vec::new();
    let mut i: usize = 0;
    while i < args.len()
        invariant
            i <= args.len(),
            parts.len() == i,
            forall|j: int|
                0 <= j < i ==> (#[trigger] parts@[j])@ == text_or_empty(args@[j]@.name)
                    + type_source(args@[j]@.ty),
        decreases args.len() - i,
    {
        let mut part = match &args[i].name {
            Some(name) => name.clone(),
            None => String::new(),
        };
        part.append(render_type(&args[i].ty).as_str());
        parts.push(part);
        i += 1;
    }
    let ghost named = fn_args_parts(views);
    proof {
        assert(texts_view(parts@) =~= named);
    }
    match variadic {
        Some(v) => {
            parts.push(v.clone());
            proof {
                assert(texts_view(parts@) =~= named.push(v@));
            }
        },
        None => {},
    }
    join(&parts, ", ")
}

/// The type as it is written; see [`type_source`].
pub fn render_type(ty: &Type) -> (r: String)
    ensures
        r@ == type_source(ty@),
    decreases ty, 1nat,
{
    match ty {
        Type::Array { elem, len } => {
            let mut text = String::from_str("[");
            text.append(render_type(&**elem).as_str());
            text.append("; ");
            text.append(render_expr(len).as_str());
            text.append("]");
            text
        },
        Type::BareFn { qualifiers, inputs, variadic, output } => {
            let mut text = qualifiers.clone();
            text.append(" fn(");
            text.append(render_fn_args(inputs, variadic).as_str());
            text.append(")");
            text.append(render_result(output).as_str());
            text
        },
        Type::Macro { path, body } => {
            let mut text = render_path(path);
            text.append(body.as_str());
            text
        },
        Type::Paren(elem) => {
            let mut text = String::from_str("(");
            text.append(render_type(&**elem).as_str());
            text.append(")");
            text
        },
        Type::Ptr { mutable, elem } => {
            let mut text = if *mutable {
                String::from_str("*mut ")
            } else {
                String::from_str("*const ")
            };
            text.append(render_type(&**elem).as_str());
            text
        },
        Type::Reference { lifetime, mutable, elem } => {
            let mut text = String::from_str("&");
            append_optional(&mut text, lifetime, " ");
            append_when(&mut text, *mutable, "mut ");
            text.append(render_type(&**elem).as_str());
            text
        },
        Type::Slice(elem) => {
            let mut text = String::from_str("[");
            text.append(render_type(&**elem).as_str());
            text.append("]");
            text
        },
        Type::Path { qself, path } => match qself {
            None => {
                let text = render_path(path);
                proof {
                    assert(ty@->Path_qself == optional_qself_view(*qself));
                }
                text
            },
            Some(q) => {
                let position = trait_end(q, path);
                let of = render_type(&*q.ty);
                let head = render_segments(&path.segments, 0, position);
                let tail = render_segments(&path.segments, position, path.segments.len());
                proof {
                    assert(path@.segments.len() == path.segments@.len());
                }
                let text = qualified(
                    &of,
                    q.as_token,
                    path.leading_colon,
                    &head,
                    position < path.segments.len(),
                    &tail,
                );
                proof {
                    assert(ty@->Path_qself == optional_qself_view(*qself));
                }
                text
            },
        },
        Type::TraitObject { dyn_token, bounds } => {
            let mut text = String::new();
            append_when(&mut text, *dyn_token, "dyn ");
            text.append(render_bounds(bounds).as_str());
            proof {
                assert(text@ =~= type_source(ty@));
            }
            text
        },
        Type::Tuple(elems) => {
            let mut text = String::from_str("(");
            text.append(render_types(elems).as_str());
            append_when(&mut text, elems.len() == 1, ",");
            text.append(")");
            proof {
                assert(types_view(elems@).len() == elems@.len());
            }
            text
        },
        Type::Verbatim(verbatim) => {
            let text = verbatim.clone();
            text
        },
    }
}

/// The bound as it is written; see [`bound_source`].
pub fn render_bound(bound: &TypeParamBound) -> (r: String)
    ensures
        r@ == bound_source(bound@),
    decreases bound, 1nat,
{
    match bound {
        TypeParamBound::Trait(b) => {
            let mut text = String::new();
            append_when(&mut text, b.paren_token, "(");
            append_when(&mut text, b.maybe, "?");
            append_optional(&mut text, &b.lifetimes, " ");
            text.append(render_path(&b.path).as_str());
            append_when(&mut text, b.paren_token, ")");
            proof {
                assert(text@ =~= bound_source(bound@));
            }
            text
        },
        TypeParamBound::Verbatim(text) => text.clone(),
    }
}

/// Bounds as they are written, joined by `+`; see [`bounds_source`].
pub fn render_bounds(bounds: &Vec<TypeParamBound>) -> (r: String)
    ensures
        r@ == bounds_source(bounds_view(bounds@)),
    decreases bounds, 0nat,
{
    let ghost views = bounds_view(bounds@);
    let mut parts: Vec<String> = Vec::new();
    let mut i: usize = 0;
    while i < bounds.len()
        invariant
            i <= bounds.len(),
            parts.len() == i,
            forall|j: int| 0 <= j < i ==> (#[trigger] parts@[j])@ == bound_source(bounds@[j]@),
        decreases bounds.len() - i,
    {
        parts.push(render_bound(&bounds[i]));
        i += 1;
    }
    proof {
        assert(texts_view(parts@) =~= bounds_parts(views));
    }
    join(&parts, " + ")
}


/// A generic parameter as it is written, with its attributes in front.
pub open spec fn param_source(param: GenericParamView) -> Seq<char> {
    match param {
        GenericParamView::Lifetime { attrs, lifetime, bounds } => attrs + " "@ + lifetime + when(
            bounds.len() > 0,
            ": "@ + joined(bounds, " + "@),
        ),
        GenericParamView::Type { attrs, ident, bounds, default } => attrs + " "@ + ident + when(
            bounds.len() > 0,
            ": "@ + bounds_source(bounds),
        ) + match default {
            Some(d) => " = "@ + d,
            None => Seq::empty(),
        },
        GenericParamView::Const { attrs, ident, ty, default } => attrs + " const "@ + ident
            + ": "@ + type_source(ty) + match default {
            Some(e) => " = "@ + expr_source(e),
            None => Seq::empty(),
        },
    }
}

/// The texts of generic parameters.
pub open spec fn params_parts(params: Seq<GenericParamView>) -> Seq<Seq<char>> {
    Seq::new(params.len(), |i: int| param_source(params[i]))
}

/// A predicate of a `where` clause as it is written.
pub open spec fn predicate_source(predicate: WherePredicateView) -> Seq<char> {
    match predicate {
        WherePredicateView::Type { lifetimes, bounded_ty, bounds } => text_and_space(lifetimes)
            + type_source(bounded_ty) + ": "@ + bounds_source(bounds),
        WherePredicateView::Verbatim(text) => text,
    }
}

/// The texts of the predicates of a `where` clause.
pub open spec fn predicates_parts(predicates: Seq<WherePredicateView>) -> Seq<Seq<char>> {
    Seq::new(predicates.len(), |i: int| predicate_source(predicates[i]))
}

/// An attribute as it is written.
pub open spec fn attribute_source(attr: AttributeView) -> Seq<char> {
    match attr {
        AttributeView::NameValue { path, value } => "#["@ + path_source(path) + " = "@
            + expr_source(value) + "]"@,
        AttributeView::Verbatim(text) => text,
    }
}

/// The texts of attributes.
pub open spec fn attributes_parts(attrs: Seq<AttributeView>) -> Seq<Seq<char>> {
    Seq::new(attrs.len(), |i: int| attribute_source(attrs[i]))
}

/// The generic parameter as it is written; see [`param_source`].
pub fn render_param(param: &GenericParam) -> (r: String)
    ensures
        r@ == param_source(param@),
{
    match param {
        GenericParam::Lifetime { attrs, lifetime, bounds } => {
            let mut text = attrs.clone();
            text.append(" ");
            text.append(lifetime.as_str());
            let mut bounded = String::from_str(": ");
            bounded.append(join(bounds, " + ").as_str());
            append_when(&mut text, bounds.len() > 0, bounded.as_str());
            proof {
                assert(texts_view(bounds@).len() == bounds@.len());
            }
            text
        },
        GenericParam::Type { attrs, ident, bounds, default } => {
            let mut text = attrs.clone();
            text.append(" ");
            text.append(ident.as_str());
            let mut bounded = String::from_str(": ");
            bounded.append(render_bounds(bounds).as_str());
            append_when(&mut text, bounds.len() > 0, bounded.as_str());
            proof {
                assert(bounds_view(bounds@).len() == bounds@.len());
            }
            let mut assigned = String::from_str(" = ");
            match default {
                Some(d) => {
                    assigned.append(d.as_str());
                    text.append(assigned.as_str());
                },
                None => {
                    proof {
                        assert(text@ + Seq::<char>::empty() =~= text@);
                    }
                },
            }
            text
        },
        GenericParam::Const { attrs, ident, ty, default } => {
            let mut text = attrs.clone();
            text.append(" const ");
            text.append(ident.as_str());
            text.append(": ");
            text.append(render_type(ty).as_str());
            let mut assigned = String::from_str(" = ");
            match default {
                Some(e) => {
                    assigned.append(render_expr(e).as_str());
                    text.append(assigned.as_str());
                },
                None => {
                    proof {
                        assert(text@ + Seq::<char>::empty() =~= text@);
                    }
                },
            }
            text
        },
    }
}

/// Generic parameters as they are written, each followed by a comma.
pub fn render_params(params: &Vec<GenericParam>) -> (r: String)
    ensures
        r@ == terminated(params_parts(params_view(params@)), ", "@),
{
    let mut parts: Vec<String> = Vec::new();
    let mut i: usize = 0;
    while i < params.len()
        invariant
            i <= params.len(),
            parts.len() == i,
            forall|j: int| 0 <= j < i ==> (#[trigger] parts@[j])@ == param_source(params@[j]@),
        decreases params.len() - i,
    {
        parts.push(render_param(&params[i]));
        i += 1;
    }
    proof {
        assert(texts_view(parts@) =~= params_parts(params_view(params@)));
    }
    terminate(&parts, ", ")
}

/// Generic arguments as they are written, each followed by a comma.
pub fn render_argument_list(args: &Vec<GenericArgument>) -> (r: String)
    ensures
        r@ == terminated(generic_arguments_parts(generic_arguments_view(args@)), ", "@),
{
    let mut parts: Vec<String> = Vec::new();
    let mut i: usize = 0;
    while i < args.len()
        invariant
            i <= args.len(),
            parts.len() == i,
            forall|j: int|
                0 <= j < i ==> (#[trigger] parts@[j])@ == generic_argument_source(args@[j]@),
        decreases args.len() - i,
    {
        parts.push(render_generic_argument(&args[i]));
        i += 1;
    }
    proof {
        assert(texts_view(parts@) =~= generic_arguments_parts(generic_arguments_view(args@)));
    }
    terminate(&parts, ", ")
}

/// The predicate as it is written; see [`predicate_source`].
pub fn render_predicate(predicate: &WherePredicate) -> (r: String)
    ensures
        r@ == predicate_source(predicate@),
{
    match predicate {
        WherePredicate::Type { lifetimes, bounded_ty, bounds } => {
            let mut text = String::new();
            append_optional(&mut text, lifetimes, " ");
            text.append(render_type(bounded_ty).as_str());
            text.append(": ");
            text.append(render_bounds(bounds).as_str());
            proof {
                assert(text@ =~= predicate_source(predicate@));
            }
            text
        },
        WherePredicate::Verbatim(text) => text.clone(),
    }
}

/// The predicates of a `where` clause as they are written, each followed by a
/// comma.
pub fn render_predicates(predicates: &Vec<WherePredicate>) -> (r: String)
    ensures
        r@ == terminated(predicates_parts(predicates_view(predicates@)), ", "@),
{
    let mut parts: Vec<String> = Vec::new();
    let mut i: usize = 0;
    while i < predicates.len()
        invariant
            i <= predicates.len(),
            parts.len() == i,
            forall|j: int|
                0 <= j < i ==> (#[trigger] parts@[j])@ == predicate_source(predicates@[j]@),
        decreases predicates.len() - i,
    {
        parts.push(render_predicate(&predicates[i]));
        i += 1;
    }
    proof {
        assert(texts_view(parts@) =~= predicates_parts(predicates_view(predicates@)));
    }
    terminate(&parts, ", ")
}

/// The attribute as it is written; see [`attribute_source`].
pub fn render_attribute(attr: &Attribute) -> (r: String)
    ensures
        r@ == attribute_source(attr@),
{
    match attr {
        Attribute::NameValue { path, value } => {
            let mut text = String::from_str("#[");
            text.append(render_path(path).as_str());
            text.append(" = ");
            text.append(render_expr(value).as_str());
            text.append("]");
            text
        },
        Attribute::Verbatim(text) => text.clone(),
    }
}

/// Attributes as they are written, one on each line.
pub fn render_attributes(attrs: &Vec<Attribute>) -> (r: String)
    ensures
        r@ == terminated(attributes_parts(attributes_view(attrs@)), "\n"@),
{
    let mut parts: Vec<String> = Vec::new();
    let mut i: usize = 0;
    while i < attrs.len()
        invariant
            i <= attrs.len(),
            parts.len() == i,
            forall|j: int| 0 <= j < i ==> (#[trigger] parts@[j])@ == attribute_source(attrs@[j]@),
        decreases attrs.len() - i,
    {
        parts.push(render_attribute(&attrs[i]));
        i += 1;
    }
    proof {
        assert(texts_view(parts@) =~= attributes_parts(attributes_view(attrs@)));
    }
    terminate(&parts, "\n")
}

/// The texts that the items of a module are made of: the generic parameters
/// with and without bounds, the parameters as arguments, the combination, and
/// the predicates of the `where` clause.
pub struct Pieces {
    pub full: String,
    pub stripped: String,
    pub arguments: String,
    pub object: String,
    pub predicates: String,
}

/// What [`Pieces`] denote.
pub struct PiecesView {
    pub full: Seq<char>,
    pub stripped: Seq<char>,
    pub arguments: Seq<char>,
    pub object: Seq<char>,
    pub predicates: Seq<char>,
}

impl View for Pieces {
    type V = PiecesView;

    open spec fn view(&self) -> PiecesView {
        PiecesView {
            full: self.full@,
            stripped: self.stripped@,
            arguments: self.arguments@,
            object: self.object@,
            predicates: self.predicates@,
        }
    }
}

/// The pieces of a module.
pub open spec fn pieces_of(module: ModuleView) -> PiecesView {
    PiecesView {
        full: terminated(params_parts(module.full_generics), ", "@),
        stripped: terminated(params_parts(module.stripped_generics), ", "@),
        arguments: terminated(generic_arguments_parts(module.arguments), ", "@),
        object: bounds_source(module.object_bounds),
        predicates: match module.where_predicates {
            Some(predicates) => terminated(predicates_parts(predicates), ", "@),
            None => Seq::empty(),
        },
    }
}

/// A documentation attribute.
pub open spec fn doc_source(doc: Seq<char>) -> Seq<char> {
    "#[doc = \""@ + doc + "\"]\n"@
}

/// An alias of the module: `pub type name<'__slice, stripped> = target<'__slice,
/// Dyn<arguments>>;` with its documentation.
pub open spec fn alias_source(
    doc: Seq<char>,
    name: Seq<char>,
    target: Seq<char>,
    pieces: PiecesView,
) -> Seq<char> {
    "    "@ + doc_source(doc) + "    pub type "@ + name + "<'__slice, "@ + pieces.stripped
        + "> = "@ + target + "<'__slice, Dyn<"@ + pieces.arguments + ">>;\n\n"@
}

/// The `where` clause of a function of the module.
pub open spec fn where_source(pieces: PiecesView) -> Seq<char> {
    "    where\n        "@ + pieces.predicates + "DynSliceFromType: 'static + "@ + pieces.object
        + ",\n"@
}

/// The function that reads an address as an element.
pub open spec fn interpret_source(pieces: PiecesView) -> Seq<char> {
    "    unsafe fn interpret<"@ + pieces.full
        + "DynSliceFromType>(data: *mut ()) -> *mut Dyn<"@ + pieces.arguments + ">\n"@
        + where_source(pieces) + "    {\n        data.cast::<DynSliceFromType>() as *mut Dyn<"@
        + pieces.arguments + ">\n    }\n\n"@
}

/// A constructor of the module: `pub fn name<full DynSliceFromType>(value:
/// borrow [DynSliceFromType]) -> alias<'_, arguments>`, which wraps `value` in
/// the view `target`.
pub open spec fn constructor_source(
    doc: Seq<char>,
    name: Seq<char>,
    borrow: Seq<char>,
    alias: Seq<char>,
    target: Seq<char>,
    pieces: PiecesView,
) -> Seq<char> {
    "    #[allow(unused)]\n    #[must_use]\n    "@ + doc_source(doc) + "    pub fn "@ + name + "<"@
        + pieces.full + "DynSliceFromType>(value: "@ + borrow + "[DynSliceFromType]) -> "@ + alias
        + "<'_, "@ + pieces.arguments + ">\n"@ + where_source(pieces) + "    {\n        unsafe { "@
        + target + "::with_interpretation(value, interpret::<"@ + pieces.arguments
        + "DynSliceFromType>) }\n    }\n"@
}

/// The text of the generated module: the alias for the element type, the
/// aliases for the two views, the function that reads an address as an
/// element, and the two constructors.
pub open spec fn module_source(module: ModuleView) -> Seq<char> {
    let pieces = pieces_of(module);
    doc_source(module.docs.module) + terminated(attributes_parts(module.attrs), "\n"@)
        + module.vis + " mod "@ + module.ident + " {\n    use "@ + path_source(
        module.crate_path,
    ) + " as dyn_slice;\n    use dyn_slice::slice::{DynSlice, DynSliceMut};\n\n    "@
        + doc_source(module.docs.dyn_alias) + "    pub type Dyn<"@ + pieces.stripped
        + "> = dyn "@ + pieces.object + ";\n\n"@ + alias_source(
        module.docs.slice_alias,
        "Slice"@,
        "DynSlice"@,
        pieces,
    ) + alias_source(module.docs.slice_mut_alias, "SliceMut"@, "DynSliceMut"@, pieces)
        + interpret_source(pieces) + constructor_source(
        module.docs.new,
        "new"@,
        "&"@,
        "Slice"@,
        "DynSlice"@,
        pieces,
    ) + "\n"@ + constructor_source(
        module.docs.new_mut,
        "new_mut"@,
        "&mut "@,
        "SliceMut"@,
        "DynSliceMut"@,
        pieces,
    ) + "}\n"@
}

/// The pieces of a module; see [`pieces_of`].
pub fn render_pieces(module: &Module) -> (r: Pieces)
    ensures
        r@ == pieces_of(module@),
{
    Pieces {
        full: render_params(&module.full_generics),
        stripped: render_params(&module.stripped_generics),
        arguments: render_argument_list(&module.arguments),
        object: render_bounds(&module.object_bounds),
        predicates: match &module.where_predicates {
            Some(predicates) => render_predicates(predicates),
            None => String::new(),
        },
    }
}

/// Appends a documentation attribute.
fn append_doc(text: &mut String, doc: &String)
    ensures
        final(text)@ == old(text)@ + doc_source(doc@),
{
    let mut attr = String::from_str("#[doc = \"");
    attr.append(doc.as_str());
    attr.append("\"]\n");
    text.append(attr.as_str());
}

/// Appends an alias; see [`alias_source`].
fn append_alias(text: &mut String, doc: &String, name: &str, target: &str, pieces: &Pieces)
    ensures
        final(text)@ == old(text)@ + alias_source(doc@, name@, target@, pieces@),
{
    let mut item = String::from_str("    ");
    append_doc(&mut item, doc);
    item.append("    pub type ");
    item.append(name);
    item.append("<'__slice, ");
    item.append(pieces.stripped.as_str());
    item.append("> = ");
    item.append(target);
    item.append("<'__slice, Dyn<");
    item.append(pieces.arguments.as_str());
    item.append(">>;\n\n");
    text.append(item.as_str());
}

/// Appends the `where` clause of a function; see [`where_source`].
fn append_where(text: &mut String, pieces: &Pieces)
    ensures
        final(text)@ == old(text)@ + where_source(pieces@),
{
    let mut clause = String::from_str("    where\n        ");
    clause.append(pieces.predicates.as_str());
    clause.append("DynSliceFromType: 'static + ");
    clause.append(pieces.object.as_str());
    clause.append(",\n");
    text.append(clause.as_str());
}

/// Appends the function that reads an address as an element; see
/// [`interpret_source`].
fn append_interpret(text: &mut String, pieces: &Pieces)
    ensures
        final(text)@ == old(text)@ + interpret_source(pieces@),
{
    let mut item = String::from_str("    unsafe fn interpret<");
    item.append(pieces.full.as_str());
    item.append("DynSliceFromType>(data: *mut ()) -> *mut Dyn<");
    item.append(pieces.arguments.as_str());
    item.append(">\n");
    append_where(&mut item, pieces);
    item.append("    {\n        data.cast::<DynSliceFromType>() as *mut Dyn<");
    item.append(pieces.arguments.as_str());
    item.append(">\n    }\n\n");
    text.append(item.as_str());
}

/// Appends a constructor; see [`constructor_source`].
fn append_constructor(
    text: &mut String,
    doc: &String,
    name: &str,
    borrow: &str,
    alias: &str,
    target: &str,
    pieces: &Pieces,
)
    ensures
        final(text)@ == old(text)@ + constructor_source(
            doc@,
            name@,
            borrow@,
            alias@,
            target@,
            pieces@,
        ),
{
    let mut item = String::from_str("    #[allow(unused)]\n    #[must_use]\n    ");
    append_doc(&mut item, doc);
    item.append("    pub fn ");
    item.append(name);
    item.append("<");
    item.append(pieces.full.as_str());
    item.append("DynSliceFromType>(value: ");
    item.append(borrow);
    item.append("[DynSliceFromType]) -> ");
    item.append(alias);
    item.append("<'_, ");
    item.append(pieces.arguments.as_str());
    item.append(">\n");
    append_where(&mut item, pieces);
    item.append("    {\n        unsafe { ");
    item.append(target);
    item.append("::with_interpretation(value, interpret::<");
    item.append(pieces.arguments.as_str());
    item.append("DynSliceFromType>) }\n    }\n");
    text.append(item.as_str());
}

/// The text of the generated module; see [`module_source`].
pub fn render_module(module: &Module) -> (r: String)
    ensures
        r@ == module_source(module@),
{
    let pieces = render_pieces(module);
    let mut text = String::new();
    append_doc(&mut text, &module.docs.module);
    proof {
        assert(text@ =~= doc_source(module@.docs.module));
    }
    text.append(render_attributes(&module.attrs).as_str());
    text.append(module.vis.as_str());
    text.append(" mod ");
    text.append(module.ident.as_str());
    text.append(" {\n    use ");
    text.append(render_path(&module.crate_path).as_str());
    text.append(" as dyn_slice;\n    use dyn_slice::slice::{DynSlice, DynSliceMut};\n\n    ");
    append_doc(&mut text, &module.docs.dyn_alias);
    text.append("    pub type Dyn<");
    text.append(pieces.stripped.as_str());
    text.append("> = dyn ");
    text.append(pieces.object.as_str());
    text.append(";\n\n");
    append_alias(&mut text, &module.docs.slice_alias, "Slice", "DynSlice", &pieces);
    append_alias(&mut text, &module.docs.slice_mut_alias, "SliceMut", "DynSliceMut", &pieces);
    append_interpret(&mut text, &pieces);
    append_constructor(&mut text, &module.docs.new, "new", "&", "Slice", "DynSlice", &pieces);
    text.append("\n");
    append_constructor(
        &mut text,
        &module.docs.new_mut,
        "new_mut",
        "&mut ",
        "SliceMut",
        "DynSliceMut",
        &pieces,
    );
    text.append("}\n");
    text
}

} // verus!
