//! The syntax that a declaration is made of, as far as the generator reads it.
//! What it only carries through is held as text.

use vstd::prelude::*;

verus! {

/// A path such as `core::fmt::Debug` or `::alloc::vec::Vec<T>`.
#[derive(Debug, PartialEq, Eq)]
pub struct Path {
    /// Whether the path starts with `::`.
    pub leading_colon: bool,
    pub segments: Vec<PathSegment>,
}

/// One segment of a path, with its arguments.
#[derive(Debug, PartialEq, Eq)]
pub struct PathSegment {
    pub ident: String,
    pub arguments: PathArguments,
}

/// The arguments of a path segment.
#[derive(Debug, PartialEq, Eq)]
pub enum PathArguments {
    /// No arguments.
    Empty,
    /// The `<'a, T>` in `Iter<'a, T>`; `colon2_token` says whether `::` stands
    /// before the `<`.
    AngleBracketed { colon2_token: bool, args: Vec<GenericArgument> },
    /// The `(A, B) -> C` in `Fn(A, B) -> C`.
    Parenthesized { inputs: Vec<Type>, output: Option<Box<Type>> },
}

/// One generic argument.
#[derive(Debug, PartialEq, Eq)]
pub enum GenericArgument {
    /// A lifetime, as text.
    Lifetime(String),
    /// A type.
    Type(Type),
    /// A constant expression.
    Const(Expr),
    /// A binding of an associated type: `Item = u8`.
    AssocType { ident: String, generics: Option<Vec<GenericArgument>>, ty: Type },
    /// A binding of an associated constant: `PANIC = false`.
    AssocConst { ident: String, generics: Option<Vec<GenericArgument>>, value: Expr },
    /// A bound on an associated type: `Item: Display`.
    Constraint { ident: String, generics: Option<Vec<GenericArgument>>, bounds: Vec<TypeParamBound> },
}

/// The `T` in `<T as Trait>::Item`, and how many segments of the path belong to
/// the trait.
#[derive(Debug, PartialEq, Eq)]
pub struct QSelf {
    pub ty: Box<Type>,
    pub position: usize,
    pub as_token: bool,
}

/// An expression: a path, or anything else as text.
#[derive(Debug, PartialEq, Eq)]
pub enum Expr {
    Path { qself: Option<QSelf>, path: Path },
    Verbatim(String),
}

/// A type.
#[derive(Debug, PartialEq, Eq)]
pub enum Type {
    /// `[elem; len]`
    Array { elem: Box<Type>, len: Expr },
    /// `qualifiers fn(inputs, variadic) -> output`, where `qualifiers` is the
    /// text before `fn`.
    BareFn {
        qualifiers: String,
        inputs: Vec<BareFnArg>,
        variadic: Option<String>,
        output: Option<Box<Type>>,
    },
    /// A macro call in type position; `body` is the text after the path.
    Macro { path: Path, body: String },
    /// `(elem)`
    Paren(Box<Type>),
    /// `*const elem` or `*mut elem`
    Ptr { mutable: bool, elem: Box<Type> },
    /// `&'lifetime mut elem`
    Reference { lifetime: Option<String>, mutable: bool, elem: Box<Type> },
    /// `[elem]`
    Slice(Box<Type>),
    /// A path, possibly qualified.
    Path { qself: Option<QSelf>, path: Path },
    /// `dyn A + B`
    TraitObject { dyn_token: bool, bounds: Vec<TypeParamBound> },
    /// `(A, B)`
    Tuple(Vec<Type>),
    /// Any other type, as text.
    Verbatim(String),
}

/// An argument of a function pointer type; `name` is the text before the type.
#[derive(Debug, PartialEq, Eq)]
pub struct BareFnArg {
    pub name: Option<String>,
    pub ty: Type,
}

/// A bound on a type: a trait, or anything else (a lifetime) as text.
#[derive(Debug, PartialEq, Eq)]
pub enum TypeParamBound {
    Trait(TraitBound),
    Verbatim(String),
}

/// A trait as a bound: `(?for<'a> path)`.
#[derive(Debug, PartialEq, Eq)]
pub struct TraitBound {
    pub paren_token: bool,
    pub maybe: bool,
    pub lifetimes: Option<String>,
    pub path: Path,
}

/// One generic parameter of a declaration.
#[allow(inconsistent_fields)]
#[derive(Debug, PartialEq, Eq)]
pub enum GenericParam {
    Lifetime { attrs: String, lifetime: String, bounds: Vec<String> },
    Type { attrs: String, ident: String, bounds: Vec<TypeParamBound>, default: Option<String> },
    Const { attrs: String, ident: String, ty: Type, default: Option<Expr> },
}

/// One predicate of a `where` clause: a bound on a type, or anything else as
/// text.
#[derive(Debug, PartialEq, Eq)]
pub enum WherePredicate {
    Type { lifetimes: Option<String>, bounded_ty: Type, bounds: Vec<TypeParamBound> },
    Verbatim(String),
}

/// The generic parameters of a declaration and its `where` clause.
#[derive(Debug, PartialEq, Eq)]
pub struct Generics {
    pub params: Vec<GenericParam>,
    pub where_clause: Option<Vec<WherePredicate>>,
}

/// An attribute: `#[path = value]`, or any other as text.
#[derive(Debug, PartialEq, Eq)]
pub enum Attribute {
    NameValue { path: Path, value: Expr },
    Verbatim(String),
}

/// What a [`Path`] denotes: the same shape, with sequences for lists and
/// sequences of characters for identifiers and text.
pub struct PathView {
    pub leading_colon: bool,
    pub segments: Seq<PathSegmentView>,
}

/// What a [`PathSegment`] denotes: the same shape, with sequences for lists and
/// sequences of characters for identifiers and text.
pub struct PathSegmentView {
    pub ident: Seq<char>,
    pub arguments: PathArgumentsView,
}

/// What a [`PathArguments`] denotes: the same shape, with sequences for lists and
/// sequences of characters for identifiers and text.
pub enum PathArgumentsView {
    Empty,
    AngleBracketed { colon2_token: bool, args: Seq<GenericArgumentView> },
    Parenthesized { inputs: Seq<TypeView>, output: Option<Box<TypeView>> },
}

/// What a [`GenericArgument`] denotes: the same shape, with sequences for lists and
/// sequences of characters for identifiers and text.
pub enum GenericArgumentView {
    Lifetime(Seq<char>),
    Type(TypeView),
    Const(ExprView),
    AssocType { ident: Seq<char>, generics: Option<Seq<GenericArgumentView>>, ty: TypeView },
    AssocConst { ident: Seq<char>, generics: Option<Seq<GenericArgumentView>>, value: ExprView },
    Constraint {
        ident: Seq<char>,
        generics: Option<Seq<GenericArgumentView>>,
        bounds: Seq<TypeParamBoundView>,
    },
}

/// What a [`QSelf`] denotes: the same shape, with sequences for lists and
/// sequences of characters for identifiers and text.
pub struct QSelfView {
    pub ty: Box<TypeView>,
    pub position: usize,
    pub as_token: bool,
}

/// What a [`Expr`] denotes: the same shape, with sequences for lists and
/// sequences of characters for identifiers and text.
pub enum ExprView {
    Path { qself: Option<QSelfView>, path: PathView },
    Verbatim(Seq<char>),
}

/// What a [`Type`] denotes: the same shape, with sequences for lists and
/// sequences of characters for identifiers and text.
pub enum TypeView {
    Array { elem: Box<TypeView>, len: ExprView },
    BareFn {
        qualifiers: Seq<char>,
        inputs: Seq<BareFnArgView>,
        variadic: Option<Seq<char>>,
        output: Option<Box<TypeView>>,
    },
    Macro { path: PathView, body: Seq<char> },
    Paren(Box<TypeView>),
    Ptr { mutable: bool, elem: Box<TypeView> },
    Reference { lifetime: Option<Seq<char>>, mutable: bool, elem: Box<TypeView> },
    Slice(Box<TypeView>),
    Path { qself: Option<QSelfView>, path: PathView },
    TraitObject { dyn_token: bool, bounds: Seq<TypeParamBoundView> },
    Tuple(Seq<TypeView>),
    Verbatim(Seq<char>),
}

/// What a [`BareFnArg`] denotes: the same shape, with sequences for lists and
/// sequences of characters for identifiers and text.
pub struct BareFnArgView {
    pub name: Option<Seq<char>>,
    pub ty: TypeView,
}

/// What a [`TypeParamBound`] denotes: the same shape, with sequences for lists and
/// sequences of characters for identifiers and text.
pub enum TypeParamBoundView {
    Trait(TraitBoundView),
    Verbatim(Seq<char>),
}

/// What a [`TraitBound`] denotes: the same shape, with sequences for lists and
/// sequences of characters for identifiers and text.
pub struct TraitBoundView {
    pub paren_token: bool,
    pub maybe: bool,
    pub lifetimes: Option<Seq<char>>,
    pub path: PathView,
}

/// What a [`GenericParam`] denotes: the same shape, with sequences for lists and
/// sequences of characters for identifiers and text.
#[allow(inconsistent_fields)]
pub enum GenericParamView {
    Lifetime { attrs: Seq<char>, lifetime: Seq<char>, bounds: Seq<Seq<char>> },
    Type {
        attrs: Seq<char>,
        ident: Seq<char>,
        bounds: Seq<TypeParamBoundView>,
        default: Option<Seq<char>>,
    },
    Const { attrs: Seq<char>, ident: Seq<char>, ty: TypeView, default: Option<ExprView> },
}

/// What a [`WherePredicate`] denotes: the same shape, with sequences for lists and
/// sequences of characters for identifiers and text.
pub enum WherePredicateView {
    Type { lifetimes: Option<Seq<char>>, bounded_ty: TypeView, bounds: Seq<TypeParamBoundView> },
    Verbatim(Seq<char>),
}

/// What a [`Generics`] denotes: the same shape, with sequences for lists and
/// sequences of characters for identifiers and text.
pub struct GenericsView {
    pub params: Seq<GenericParamView>,
    pub where_clause: Option<Seq<WherePredicateView>>,
}

/// What a [`Attribute`] denotes: the same shape, with sequences for lists and
/// sequences of characters for identifiers and text.
pub enum AttributeView {
    NameValue { path: PathView, value: ExprView },
    Verbatim(Seq<char>),
}

/// The text of an optional piece.
pub open spec fn text_view(text: Option<String>) -> Option<Seq<char>> {
    match text {
        Some(t) => Some(t@),
        None => None,
    }
}

/// The texts of a list of pieces.
pub open spec fn texts_view(texts: Seq<String>) -> Seq<Seq<char>> {
    Seq::new(texts.len(), |i: int| texts[i]@)
}

/// The views of the segments of a path.
pub open spec fn segments_view(segments: Seq<PathSegment>) -> Seq<PathSegmentView>
    decreases segments,
{
    Seq::new(
        segments.len(),
        |i: int|
            if 0 <= i < segments.len() {
                segment_view(segments[i])
            } else {
                arbitrary()
            },
    )
}

/// The views of a list of generic arguments.
pub open spec fn generic_arguments_view(args: Seq<GenericArgument>) -> Seq<GenericArgumentView>
    decreases args,
{
    Seq::new(
        args.len(),
        |i: int|
            if 0 <= i < args.len() {
                generic_argument_view(args[i])
            } else {
                arbitrary()
            },
    )
}

/// The views of a list of types.
pub open spec fn types_view(types: Seq<Type>) -> Seq<TypeView>
    decreases types,
{
    Seq::new(
        types.len(),
        |i: int|
            if 0 <= i < types.len() {
                type_view(types[i])
            } else {
                arbitrary()
            },
    )
}

/// The views of the arguments of a function pointer type.
pub open spec fn fn_args_view(args: Seq<BareFnArg>) -> Seq<BareFnArgView>
    decreases args,
{
    Seq::new(
        args.len(),
        |i: int|
            if 0 <= i < args.len() {
                fn_arg_view(args[i])
            } else {
                arbitrary()
            },
    )
}

/// The views of a list of bounds.
pub open spec fn bounds_view(bounds: Seq<TypeParamBound>) -> Seq<TypeParamBoundView>
    decreases bounds,
{
    Seq::new(
        bounds.len(),
        |i: int|
            if 0 <= i < bounds.len() {
                bound_view(bounds[i])
            } else {
                arbitrary()
            },
    )
}

/// The views of an optional list of generic arguments.
pub open spec fn optional_arguments_view(args: Option<Vec<GenericArgument>>) -> Option<
    Seq<GenericArgumentView>,
>
    decreases args,
{
    match args {
        Some(a) => Some(generic_arguments_view(a@)),
        None => None,
    }
}

/// The view of an optional type.
pub open spec fn optional_type_view(ty: Option<Box<Type>>) -> Option<Box<TypeView>>
    decreases ty,
{
    match ty {
        Some(t) => Some(Box::new(type_view(*t))),
        None => None,
    }
}

/// The view of an optional qualifying type.
pub open spec fn optional_qself_view(qself: Option<QSelf>) -> Option<QSelfView>
    decreases qself,
{
    match qself {
        Some(q) => Some(qself_view(q)),
        None => None,
    }
}

/// The view of an optional expression.
pub open spec fn optional_expr_view(expr: Option<Expr>) -> Option<ExprView>
    decreases expr,
{
    match expr {
        Some(e) => Some(expr_view(e)),
        None => None,
    }
}

/// The view of a path.
pub open spec fn path_view(path: Path) -> PathView
    decreases path,
{
    PathView { leading_colon: path.leading_colon, segments: segments_view(path.segments@) }
}

/// The view of a path segment.
pub open spec fn segment_view(segment: PathSegment) -> PathSegmentView
    decreases segment,
{
    PathSegmentView { ident: segment.ident@, arguments: arguments_view(segment.arguments) }
}

/// The view of the arguments of a path segment.
pub open spec fn arguments_view(arguments: PathArguments) -> PathArgumentsView
    decreases arguments,
{
    match arguments {
        PathArguments::Empty => PathArgumentsView::Empty,
        PathArguments::AngleBracketed { colon2_token, args } => PathArgumentsView::AngleBracketed {
            colon2_token,
            args: generic_arguments_view(args@),
        },
        PathArguments::Parenthesized { inputs, output } => PathArgumentsView::Parenthesized {
            inputs: types_view(inputs@),
            output: optional_type_view(output),
        },
    }
}

/// The view of a generic argument.
pub open spec fn generic_argument_view(argument: GenericArgument) -> GenericArgumentView
    decreases argument,
{
    match argument {
        GenericArgument::Lifetime(lifetime) => GenericArgumentView::Lifetime(lifetime@),
        GenericArgument::Type(ty) => GenericArgumentView::Type(type_view(ty)),
        GenericArgument::Const(expr) => GenericArgumentView::Const(expr_view(expr)),
        GenericArgument::AssocType { ident, generics, ty } => GenericArgumentView::AssocType {
            ident: ident@,
            generics: optional_arguments_view(generics),
            ty: type_view(ty),
        },
        GenericArgument::AssocConst { ident, generics, value } => GenericArgumentView::AssocConst {
            ident: ident@,
            generics: optional_arguments_view(generics),
            value: expr_view(value),
        },
        GenericArgument::Constraint { ident, generics, bounds } => GenericArgumentView::Constraint {
            ident: ident@,
            generics: optional_arguments_view(generics),
            bounds: bounds_view(bounds@),
        },
    }
}

/// The view of a qualifying type.
pub open spec fn qself_view(qself: QSelf) -> QSelfView
    decreases qself,
{
    QSelfView {
        ty: Box::new(type_view(*qself.ty)),
        position: qself.position,
        as_token: qself.as_token,
    }
}

/// The view of an expression.
pub open spec fn expr_view(expr: Expr) -> ExprView
    decreases expr,
{
    match expr {
        Expr::Path { qself, path } => ExprView::Path {
            qself: optional_qself_view(qself),
            path: path_view(path),
        },
        Expr::Verbatim(text) => ExprView::Verbatim(text@),
    }
}

/// The view of a type.
pub open spec fn type_view(ty: Type) -> TypeView
    decreases ty,
{
    match ty {
        Type::Array { elem, len } => TypeView::Array {
            elem: Box::new(type_view(*elem)),
            len: expr_view(len),
        },
        Type::BareFn { qualifiers, inputs, variadic, output } => TypeView::BareFn {
            qualifiers: qualifiers@,
            inputs: fn_args_view(inputs@),
            variadic: text_view(variadic),
            output: optional_type_view(output),
        },
        Type::Macro { path, body } => TypeView::Macro { path: path_view(path), body: body@ },
        Type::Paren(elem) => TypeView::Paren(Box::new(type_view(*elem))),
        Type::Ptr { mutable, elem } => TypeView::Ptr { mutable, elem: Box::new(type_view(*elem)) },
        Type::Reference { lifetime, mutable, elem } => TypeView::Reference {
            lifetime: text_view(lifetime),
            mutable,
            elem: Box::new(type_view(*elem)),
        },
        Type::Slice(elem) => TypeView::Slice(Box::new(type_view(*elem))),
        Type::Path { qself, path } => TypeView::Path {
            qself: optional_qself_view(qself),
            path: path_view(path),
        },
        Type::TraitObject { dyn_token, bounds } => TypeView::TraitObject {
            dyn_token,
            bounds: bounds_view(bounds@),
        },
        Type::Tuple(elems) => TypeView::Tuple(types_view(elems@)),
        Type::Verbatim(text) => TypeView::Verbatim(text@),
    }
}

/// The view of an argument of a function pointer type.
pub open spec fn fn_arg_view(arg: BareFnArg) -> BareFnArgView
    decreases arg,
{
    BareFnArgView { name: text_view(arg.name), ty: type_view(arg.ty) }
}

/// The view of a bound.
pub open spec fn bound_view(bound: TypeParamBound) -> TypeParamBoundView
    decreases bound,
{
    match bound {
        TypeParamBound::Trait(b) => TypeParamBoundView::Trait(trait_bound_view(b)),
        TypeParamBound::Verbatim(text) => TypeParamBoundView::Verbatim(text@),
    }
}

/// The view of a trait as a bound.
pub open spec fn trait_bound_view(bound: TraitBound) -> TraitBoundView
    decreases bound,
{
    TraitBoundView {
        paren_token: bound.paren_token,
        maybe: bound.maybe,
        lifetimes: text_view(bound.lifetimes),
        path: path_view(bound.path),
    }
}

/// The views of the generic parameters of a declaration.
pub open spec fn params_view(params: Seq<GenericParam>) -> Seq<GenericParamView> {
    Seq::new(params.len(), |i: int| params[i]@)
}

/// The views of the predicates of a `where` clause.
pub open spec fn predicates_view(predicates: Seq<WherePredicate>) -> Seq<WherePredicateView> {
    Seq::new(predicates.len(), |i: int| predicates[i]@)
}

/// The views of a list of attributes.
pub open spec fn attributes_view(attrs: Seq<Attribute>) -> Seq<AttributeView> {
    Seq::new(attrs.len(), |i: int| attrs[i]@)
}

impl View for Path {
    type V = PathView;

    open spec fn view(&self) -> PathView {
        path_view(*self)
    }
}

impl View for PathSegment {
    type V = PathSegmentView;

    open spec fn view(&self) -> PathSegmentView {
        segment_view(*self)
    }
}

impl View for PathArguments {
    type V = PathArgumentsView;

    open spec fn view(&self) -> PathArgumentsView {
        arguments_view(*self)
    }
}

impl View for GenericArgument {
    type V = GenericArgumentView;

    open spec fn view(&self) -> GenericArgumentView {
        generic_argument_view(*self)
    }
}

impl View for QSelf {
    type V = QSelfView;

    open spec fn view(&self) -> QSelfView {
        qself_view(*self)
    }
}

impl View for Expr {
    type V = ExprView;

    open spec fn view(&self) -> ExprView {
        expr_view(*self)
    }
}

impl View for Type {
    type V = TypeView;

    open spec fn view(&self) -> TypeView {
        type_view(*self)
    }
}

impl View for BareFnArg {
    type V = BareFnArgView;

    open spec fn view(&self) -> BareFnArgView {
        fn_arg_view(*self)
    }
}

impl View for TypeParamBound {
    type V = TypeParamBoundView;

    open spec fn view(&self) -> TypeParamBoundView {
        bound_view(*self)
    }
}

impl View for TraitBound {
    type V = TraitBoundView;

    open spec fn view(&self) -> TraitBoundView {
        trait_bound_view(*self)
    }
}

impl View for GenericParam {
    type V = GenericParamView;

    open spec fn view(&self) -> GenericParamView {
        match self {
            GenericParam::Lifetime { attrs, lifetime, bounds } => GenericParamView::Lifetime {
                attrs: attrs@,
                lifetime: lifetime@,
                bounds: texts_view(bounds@),
            },
            GenericParam::Type { attrs, ident, bounds, default } => GenericParamView::Type {
                attrs: attrs@,
                ident: ident@,
                bounds: bounds_view(bounds@),
                default: text_view(*default),
            },
            GenericParam::Const { attrs, ident, ty, default } => GenericParamView::Const {
                attrs: attrs@,
                ident: ident@,
                ty: ty@,
                default: optional_expr_view(*default),
            },
        }
    }
}

impl View for WherePredicate {
    type V = WherePredicateView;

    open spec fn view(&self) -> WherePredicateView {
        match self {
            WherePredicate::Type { lifetimes, bounded_ty, bounds } => WherePredicateView::Type {
                lifetimes: text_view(*lifetimes),
                bounded_ty: bounded_ty@,
                bounds: bounds_view(bounds@),
            },
            WherePredicate::Verbatim(text) => WherePredicateView::Verbatim(text@),
        }
    }
}

impl View for Generics {
    type V = GenericsView;

    open spec fn view(&self) -> GenericsView {
        GenericsView {
            params: params_view(self.params@),
            where_clause: match self.where_clause {
                Some(predicates) => Some(predicates_view(predicates@)),
                None => None,
            },
        }
    }
}

impl View for Attribute {
    type V = AttributeView;

    open spec fn view(&self) -> AttributeView {
        match self {
            Attribute::NameValue { path, value } => AttributeView::NameValue {
                path: path@,
                value: value@,
            },
            Attribute::Verbatim(text) => AttributeView::Verbatim(text@),
        }
    }
}



} // verus!
