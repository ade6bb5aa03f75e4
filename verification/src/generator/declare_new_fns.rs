//! From a declaration to the parts of the module that is generated for it.

use vstd::prelude::*;
use vstd::string::StringExecFns;
use crate::generator::copy::{copied_param, copied_text};
use crate::generator::error::ExpandError;
use crate::generator::path_ext::{
    inner_bound, inner_bounds, inner_generics, inner_path, inner_segments, reserved,
    reserved_names, resolves_bounds, resolves_generics, rewritten_bounds, rewritten_generics,
};
use crate::generator::syntax::{
    attributes_view, bounds_view, generic_arguments_view, params_view, predicates_view,
    segments_view, texts_view, Attribute, AttributeView, Expr, ExprView, GenericArgument,
    GenericArgumentView, GenericParam, GenericParamView, Generics, GenericsView, Path,
    PathArguments, PathArgumentsView, PathSegment, PathSegmentView, PathView, Type,
    TypeParamBound, TypeParamBoundView, TypeView, WherePredicate, WherePredicateView,
};

verus! {

/// The declaration of the constructors for one capability combination:
/// `attrs vis ident<generics> object_bounds where ...`.
#[derive(Debug, PartialEq, Eq)]
pub struct DeclareNewFns {
    /// The attributes for the module.
    pub attrs: Vec<Attribute>,
    /// The visibility of the module, as text.
    pub vis: String,
    /// The name of the module.
    pub ident: String,
    /// The free generic parameters and the `where` clause.
    pub generics: Generics,
    /// The capability combination: the traits, and lifetimes, joined by `+`.
    pub object_bounds: Vec<TypeParamBound>,
}

/// What a [`DeclareNewFns`] denotes: the same shape, with sequences for lists and
/// sequences of characters for identifiers and text.
pub struct DeclareNewFnsView {
    pub attrs: Seq<AttributeView>,
    pub vis: Seq<char>,
    pub ident: Seq<char>,
    pub generics: GenericsView,
    pub object_bounds: Seq<TypeParamBoundView>,
}

impl View for DeclareNewFns {
    type V = DeclareNewFnsView;

    open spec fn view(&self) -> DeclareNewFnsView {
        DeclareNewFnsView {
            attrs: attributes_view(self.attrs@),
            vis: self.vis@,
            ident: self.ident@,
            generics: self.generics@,
            object_bounds: bounds_view(self.object_bounds@),
        }
    }
}

/// The identifiers of the segments of a path, joined by `::`.
pub open spec fn path_text(segments: Seq<PathSegmentView>) -> Seq<char>
    decreases segments.len(),
{
    if segments.len() == 0 {
        Seq::empty()
    } else if segments.len() == 1 {
        segments[0].ident
    } else {
        path_text(segments.drop_last()) + "::"@ + segments.last().ident
    }
}

/// The identifiers of the segments of `path`, joined by `::`; a path without
/// segments is an error.
pub fn stringify_basic_path(path: &Path) -> (r: Result<String, ExpandError>)
    ensures
        r is Ok <==> path@.segments.len() > 0,
        r matches Ok(text) ==> text@ == path_text(path@.segments),
        r matches Err(e) ==> e == ExpandError::EmptyPath,
{
    let ghost segments = path@.segments;
    if path.segments.len() == 0 {
        return Err(ExpandError::EmptyPath);
    }
    let mut text = path.segments[0].ident.clone();
    proof {
        assert(segments.take(1).len() == 1);
        assert(segments.take(1)[0] == segments[0]);
    }
    let mut i: usize = 1;
    while i < path.segments.len()
        invariant
            1 <= i <= path.segments.len(),
            segments == segments_view(path.segments@),
            text@ == path_text(segments.take(i as int)),
        decreases path.segments.len() - i,
    {
        text.append("::");
        text.append(path.segments[i].ident.as_str());
        proof {
            let next = segments.take(i + 1);
            assert(next.drop_last() =~= segments.take(i as int));
            assert(next.last() == segments[i as int]);
        }
        i += 1;
    }
    proof {
        assert(segments.take(i as int) =~= segments);
    }
    Ok(text)
}

/// Whether the path is the single identifier `name`: no leading `::`, one
/// segment, no arguments.
pub open spec fn is_ident(path: PathView, name: Seq<char>) -> bool {
    &&& !path.leading_colon
    &&& path.segments.len() == 1
    &&& path.segments[0].arguments is Empty
    &&& path.segments[0].ident == name
}

/// Whether the attribute is `#[crate = ...]`.
pub open spec fn is_crate_attr(attr: AttributeView) -> bool {
    attr matches AttributeView::NameValue { path, value } && is_ident(path, "crate"@)
}

/// The position of the first `crate` attribute, or the number of attributes
/// where there is none.
pub open spec fn crate_attr_index(attrs: Seq<AttributeView>) -> nat
    decreases attrs.len(),
{
    if attrs.len() == 0 {
        0
    } else if is_crate_attr(attrs[0]) {
        0
    } else {
        1 + crate_attr_index(attrs.drop_first())
    }
}

/// The first `crate` attribute is at `i` when none stands before it.
pub proof fn lemma_crate_attr_index(attrs: Seq<AttributeView>, i: nat)
    requires
        i <= attrs.len(),
        forall|j: int| 0 <= j < i ==> !is_crate_attr(#[trigger] attrs[j]),
        i < attrs.len() ==> is_crate_attr(attrs[i as int]),
    ensures
        crate_attr_index(attrs) == i,
    decreases attrs.len(),
{
    if attrs.len() > 0 && i > 0 {
        let rest = attrs.drop_first();
        assert forall|j: int| 0 <= j < i - 1 implies !is_crate_attr(#[trigger] rest[j]) by {
            assert(rest[j] == attrs[j + 1]);
        }
        lemma_crate_attr_index(rest, (i - 1) as nat);
    }
}

/// The path of this crate where no attribute names another: `dyn_slice`.
pub open spec fn default_crate() -> PathView {
    PathView {
        leading_colon: false,
        segments: seq![PathSegmentView { ident: "dyn_slice"@, arguments: PathArgumentsView::Empty }],
    }
}

/// The path under which the generated module reaches this crate: the value of
/// the first `crate` attribute, which must be a path, or else `dyn_slice`.
pub open spec fn crate_path(attrs: Seq<AttributeView>) -> Result<PathView, ExpandError> {
    let index = crate_attr_index(attrs);
    if index < attrs.len() {
        match attrs[index as int] {
            AttributeView::NameValue { path, value: ExprView::Path { qself, path: named } } => Ok(
                named,
            ),
            _ => Err(ExpandError::CrateAttributeNotPath),
        }
    } else {
        Ok(default_crate())
    }
}

/// The attributes without the first `crate` attribute.
pub open spec fn without_crate_attr(attrs: Seq<AttributeView>) -> Seq<AttributeView> {
    let index = crate_attr_index(attrs);
    if index < attrs.len() {
        attrs.remove(index as int)
    } else {
        attrs
    }
}

/// Whether `attr` is `#[crate = ...]`.
fn names_crate(attr: &Attribute) -> (r: bool)
    ensures
        r == is_crate_attr(attr@),
{
    match attr {
        Attribute::NameValue { path, value } => {
            if path.leading_colon || path.segments.len() != 1 {
                return false;
            }
            proof {
                assert(path@.segments[0] == path.segments@[0]@);
            }
            match &path.segments[0].arguments {
                PathArguments::Empty => path.segments[0].ident == String::from_str("crate"),
                _ => false,
            }
        },
        Attribute::Verbatim(_) => false,
    }
}

/// Takes the path of this crate from the attributes: the value of the first
/// `crate` attribute, which is removed, or else `dyn_slice`. Where that value
/// is not a path, the attributes stay as they are.
pub fn get_crate(attrs: &mut Vec<Attribute>) -> (r: Result<Path, ExpandError>)
    ensures
        r is Ok <==> crate_path(attributes_view(old(attrs)@)) is Ok,
        r matches Ok(path) ==> Ok::<PathView, ExpandError>(path@) == crate_path(
            attributes_view(old(attrs)@),
        ) && attributes_view(final(attrs)@) == without_crate_attr(attributes_view(old(attrs)@)),
        r matches Err(e) ==> e == ExpandError::CrateAttributeNotPath && *final(attrs) == *old(
            attrs,
        ),
{
    let ghost before = attributes_view(attrs@);
    let mut i: usize = 0;
    while i < attrs.len() && !names_crate(&attrs[i])
        invariant
            i <= attrs.len(),
            *attrs == *old(attrs),
            before == attributes_view(attrs@),
            forall|j: int| 0 <= j < i ==> !is_crate_attr(#[trigger] before[j]),
        decreases attrs.len() - i,
    {
        i += 1;
    }
    proof {
        if i < attrs.len() {
            assert(before[i as int] == attrs@[i as int]@);
        }
        lemma_crate_attr_index(before, i as nat);
    }
    if i == attrs.len() {
        let mut segments: Vec<PathSegment> = Vec::new();
        segments.push(
            PathSegment { ident: String::from_str("dyn_slice"), arguments: PathArguments::Empty },
        );
        let path = Path { leading_colon: false, segments };
        proof {
            assert(path@.segments =~= default_crate().segments);
        }
        return Ok(path);
    }
    let is_path = match &attrs[i] {
        Attribute::NameValue { path, value } => match value {
            Expr::Path { qself, path } => true,
            Expr::Verbatim(_) => false,
        },
        Attribute::Verbatim(_) => false,
    };
    if !is_path {
        return Err(ExpandError::CrateAttributeNotPath);
    }
    let attr = attrs.remove(i);
    proof {
        assert(attributes_view(attrs@) =~= before.remove(i as int));
    }
    match attr {
        Attribute::NameValue { path, value } => match value {
            Expr::Path { qself, path: named } => Ok(named),
            Expr::Verbatim(_) => Err(ExpandError::CrateAttributeNotPath),
        },
        Attribute::Verbatim(_) => Err(ExpandError::CrateAttributeNotPath),
    }
}

/// The path that is the single identifier `ident`.
pub open spec fn ident_path(ident: Seq<char>) -> PathView {
    PathView {
        leading_colon: false,
        segments: seq![PathSegmentView { ident, arguments: PathArgumentsView::Empty }],
    }
}

/// The generic argument that names a generic parameter: its lifetime, or its
/// identifier as a type or as a constant.
pub open spec fn argument_of(param: GenericParamView) -> GenericArgumentView {
    match param {
        GenericParamView::Lifetime { attrs, lifetime, bounds } => GenericArgumentView::Lifetime(
            lifetime,
        ),
        GenericParamView::Type { attrs, ident, bounds, default } => GenericArgumentView::Type(
            TypeView::Path { qself: None, path: ident_path(ident) },
        ),
        GenericParamView::Const { attrs, ident, ty, default } => GenericArgumentView::Const(
            ExprView::Path { qself: None, path: ident_path(ident) },
        ),
    }
}

/// The generic arguments that name the generic parameters, in order.
pub open spec fn arguments_of(params: Seq<GenericParamView>) -> Seq<GenericArgumentView> {
    Seq::new(params.len(), |i: int| argument_of(params[i]))
}

/// The path that is the single identifier `ident`.
fn path_of(ident: &String) -> (r: Path)
    ensures
        r@ == ident_path(ident@),
{
    let mut segments: Vec<PathSegment> = Vec::new();
    segments.push(PathSegment { ident: ident.clone(), arguments: PathArguments::Empty });
    let path = Path { leading_colon: false, segments };
    proof {
        assert(path@.segments =~= ident_path(ident@).segments);
    }
    path
}

/// The generic arguments that name the generic parameters, in order; see
/// [`argument_of`].
pub fn get_arguments(generics: &Vec<GenericParam>) -> (r: Vec<GenericArgument>)
    ensures
        generic_arguments_view(r@) == arguments_of(params_view(generics@)),
{
    let mut arguments: Vec<GenericArgument> = Vec::new();
    let mut i: usize = 0;
    while i < generics.len()
        invariant
            i <= generics.len(),
            arguments.len() == i,
            forall|j: int| 0 <= j < i ==> (#[trigger] arguments@[j])@ == argument_of(generics@[j]@),
        decreases generics.len() - i,
    {
        let argument = match &generics[i] {
            GenericParam::Lifetime { attrs, lifetime, bounds } => GenericArgument::Lifetime(
                lifetime.clone(),
            ),
            GenericParam::Type { attrs, ident, bounds, default } => GenericArgument::Type(
                Type::Path { qself: None, path: path_of(ident) },
            ),
            GenericParam::Const { attrs, ident, ty, default } => GenericArgument::Const(
                Expr::Path { qself: None, path: path_of(ident) },
            ),
        };
        arguments.push(argument);
        i += 1;
    }
    proof {
        assert(generic_arguments_view(arguments@) =~= arguments_of(params_view(generics@)));
    }
    arguments
}

/// The generic parameter without the bounds of a lifetime or of a type; a
/// constant parameter stays as it is.
pub open spec fn without_bounds(param: GenericParamView) -> GenericParamView {
    match param {
        GenericParamView::Lifetime { attrs, lifetime, bounds } => GenericParamView::Lifetime {
            attrs,
            lifetime,
            bounds: Seq::empty(),
        },
        GenericParamView::Type { attrs, ident, bounds, default } => GenericParamView::Type {
            attrs,
            ident,
            bounds: Seq::empty(),
            default,
        },
        GenericParamView::Const { attrs, ident, ty, default } => param,
    }
}

/// The generic parameters without their bounds, in order.
pub open spec fn all_without_bounds(params: Seq<GenericParamView>) -> Seq<GenericParamView> {
    Seq::new(params.len(), |i: int| without_bounds(params[i]))
}

/// The generic parameters without their bounds, for use in a type alias; see
/// [`without_bounds`].
pub fn remove_generic_bounds(generics: &Vec<GenericParam>) -> (r: Vec<GenericParam>)
    ensures
        params_view(r@) == all_without_bounds(params_view(generics@)),
{
    let mut stripped: Vec<GenericParam> = Vec::new();
    let mut i: usize = 0;
    while i < generics.len()
        invariant
            i <= generics.len(),
            stripped.len() == i,
            forall|j: int|
                0 <= j < i ==> (#[trigger] stripped@[j])@ == without_bounds(generics@[j]@),
        decreases generics.len() - i,
    {
        let param = match &generics[i] {
            GenericParam::Lifetime { attrs, lifetime, bounds } => GenericParam::Lifetime {
                attrs: attrs.clone(),
                lifetime: lifetime.clone(),
                bounds: Vec::new(),
            },
            GenericParam::Type { attrs, ident, bounds, default } => GenericParam::Type {
                attrs: attrs.clone(),
                ident: ident.clone(),
                bounds: Vec::new(),
                default: copied_text(default),
            },
            GenericParam::Const { attrs, ident, ty, default } => copied_param(&generics[i]),
        };
        proof {
            match param@ {
                GenericParamView::Lifetime { attrs, lifetime, bounds } => {
                    assert(bounds =~= Seq::empty());
                },
                GenericParamView::Type { attrs, ident, bounds, default } => {
                    assert(bounds =~= Seq::empty());
                },
                GenericParamView::Const { attrs, ident, ty, default } => {},
            }
        }
        stripped.push(param);
        i += 1;
    }
    proof {
        assert(params_view(stripped@) =~= all_without_bounds(params_view(generics@)));
    }
    stripped
}

/// The identifiers of the type and constant parameters, in order.
pub open spec fn declared_names(params: Seq<GenericParamView>) -> Seq<Seq<char>>
    decreases params.len(),
{
    if params.len() == 0 {
        Seq::empty()
    } else {
        let rest = declared_names(params.drop_last());
        match params.last() {
            GenericParamView::Lifetime { attrs, lifetime, bounds } => rest,
            GenericParamView::Type { attrs, ident, bounds, default } => rest.push(ident),
            GenericParamView::Const { attrs, ident, ty, default } => rest.push(ident),
        }
    }
}

/// The names that start a path which is not rewritten: the reserved names and
/// the identifiers of the type and constant parameters.
pub open spec fn generic_names(params: Seq<GenericParamView>) -> Seq<Seq<char>> {
    reserved_names() + declared_names(params)
}

/// The names that start a path which is not rewritten; see [`generic_names`].
pub fn generic_idents(params: &Vec<GenericParam>) -> (r: Vec<String>)
    ensures
        texts_view(r@) == generic_names(params_view(params@)),
{
    let ghost all = params_view(params@);
    let mut idents = reserved();
    let mut i: usize = 0;
    proof {
        assert(texts_view(idents@) =~= reserved_names() + declared_names(all.take(0)));
    }
    while i < params.len()
        invariant
            i <= params.len(),
            all == params_view(params@),
            texts_view(idents@) == reserved_names() + declared_names(all.take(i as int)),
        decreases params.len() - i,
    {
        let ghost before = texts_view(idents@);
        proof {
            assert(all.take(i + 1).drop_last() =~= all.take(i as int));
            assert(all.take(i + 1).last() == params@[i as int]@);
        }
        match &params[i] {
            GenericParam::Lifetime { attrs, lifetime, bounds } => {},
            GenericParam::Type { attrs, ident, bounds, default } => {
                idents.push(ident.clone());
                proof {
                    assert(texts_view(idents@) =~= before.push(ident@));
                    assert(before.push(ident@) =~= reserved_names() + declared_names(
                        all.take(i + 1),
                    ));
                }
            },
            GenericParam::Const { attrs, ident, ty, default } => {
                idents.push(ident.clone());
                proof {
                    assert(texts_view(idents@) =~= before.push(ident@));
                    assert(before.push(ident@) =~= reserved_names() + declared_names(
                        all.take(i + 1),
                    ));
                }
            },
        }
        i += 1;
    }
    proof {
        assert(all.take(i as int) =~= all);
    }
    idents
}

/// The paths of the traits among the bounds, in order.
pub open spec fn trait_paths(bounds: Seq<TypeParamBoundView>) -> Seq<PathView>
    decreases bounds.len(),
{
    if bounds.len() == 0 {
        Seq::empty()
    } else {
        let rest = trait_paths(bounds.drop_last());
        match bounds.last() {
            TypeParamBoundView::Trait(b) => rest.push(b.path),
            TypeParamBoundView::Verbatim(text) => rest,
        }
    }
}

/// Whether every path has a segment.
pub open spec fn all_named(paths: Seq<PathView>) -> bool {
    forall|i: int| 0 <= i < paths.len() ==> (#[trigger] paths[i]).segments.len() > 0
}

/// The texts of the paths; see [`path_text`].
pub open spec fn path_texts(paths: Seq<PathView>) -> Seq<Seq<char>> {
    Seq::new(paths.len(), |i: int| path_text(paths[i].segments))
}

/// The identifier of the last segment of each path.
pub open spec fn last_idents(paths: Seq<PathView>) -> Seq<Seq<char>> {
    Seq::new(paths.len(), |i: int| paths[i].segments.last().ident)
}

/// The trait paths of rewritten bounds are the rewritten trait paths, and each
/// has at least the segments it had.
pub proof fn lemma_trait_paths_inner(bounds: Seq<TypeParamBoundView>, idents: Seq<Seq<char>>)
    ensures
        trait_paths(inner_bounds(bounds, idents)).len() == trait_paths(bounds).len(),
        forall|i: int|
            0 <= i < trait_paths(bounds).len() ==> (#[trigger] trait_paths(
                inner_bounds(bounds, idents),
            )[i]) == inner_path(trait_paths(bounds)[i], idents),
        all_named(trait_paths(bounds)) ==> all_named(trait_paths(inner_bounds(bounds, idents))),
    decreases bounds.len(),
{
    if bounds.len() > 0 {
        lemma_trait_paths_inner(bounds.drop_last(), idents);
        let inner = inner_bounds(bounds, idents);
        assert(inner.drop_last() =~= inner_bounds(bounds.drop_last(), idents));
        assert(inner.last() == inner_bound(bounds.last(), idents));
    }
    if all_named(trait_paths(bounds)) {
        let inner = trait_paths(inner_bounds(bounds, idents));
        assert forall|i: int| 0 <= i < inner.len() implies (#[trigger] inner[i]).segments.len()
            > 0 by {
            let p = trait_paths(bounds)[i];
            assert(p.segments.len() > 0);
            assert(inner[i] == inner_path(p, idents));
            assert(inner_segments(p.segments, idents).len() == p.segments.len());
        }
    }
}

/// The texts of the paths of the traits among `bounds`, and the identifiers of
/// their last segments; a trait path without segments is an error.
pub fn trait_path_texts(bounds: &Vec<TypeParamBound>) -> (r: Result<
    (Vec<String>, Vec<String>),
    ExpandError,
>)
    ensures
        r is Ok <==> all_named(trait_paths(bounds_view(bounds@))),
        r matches Ok(t) ==> texts_view(t.0@) == path_texts(trait_paths(bounds_view(bounds@)))
            && texts_view(t.1@) == last_idents(trait_paths(bounds_view(bounds@))),
        r matches Err(e) ==> e == ExpandError::EmptyPath,
{
    let ghost all = bounds_view(bounds@);
    let mut texts: Vec<String> = Vec::new();
    let mut names: Vec<String> = Vec::new();
    let mut i: usize = 0;
    while i < bounds.len()
        invariant
            i <= bounds.len(),
            all == bounds_view(bounds@),
            all_named(trait_paths(all.take(i as int))),
            texts_view(texts@) == path_texts(trait_paths(all.take(i as int))),
            texts_view(names@) == last_idents(trait_paths(all.take(i as int))),
        decreases bounds.len() - i,
    {
        let ghost paths = trait_paths(all.take(i as int));
        proof {
            assert(all.take(i + 1).drop_last() =~= all.take(i as int));
            assert(all.take(i + 1).last() == bounds@[i as int]@);
        }
        match &bounds[i] {
            TypeParamBound::Trait(trait_bound) => {
                let ghost path = trait_bound.path@;
                proof {
                    assert(trait_paths(all.take(i + 1)) == paths.push(path));
                }
                let text = match stringify_basic_path(&trait_bound.path) {
                    Ok(t) => t,
                    Err(e) => {
                        proof {
                            lemma_trait_paths_prefix(all, i + 1);
                            assert(paths.push(path)[paths.len() as int] == path);
                        }
                        return Err(e);
                    },
                };
                let last = trait_bound.path.segments.len() - 1;
                proof {
                    assert(path.segments[last as int] == trait_bound.path.segments@[last as int]@);
                }
                let name = trait_bound.path.segments[last].ident.clone();
                let ghost texts_before = texts_view(texts@);
                let ghost names_before = texts_view(names@);
                texts.push(text);
                names.push(name);
                proof {
                    assert(texts_view(texts@) =~= texts_before.push(path_text(path.segments)));
                    assert(texts_view(names@) =~= names_before.push(path.segments.last().ident));
                    assert(path_texts(paths.push(path)) =~= texts_before.push(
                        path_text(path.segments),
                    ));
                    assert(last_idents(paths.push(path)) =~= names_before.push(
                        path.segments.last().ident,
                    ));
                }
            },
            TypeParamBound::Verbatim(_) => {},
        }
        i += 1;
    }
    proof {
        assert(all.take(i as int) =~= all);
    }
    Ok((texts, names))
}

/// The trait paths of the first `n` bounds are the first of all trait paths.
pub proof fn lemma_trait_paths_prefix(bounds: Seq<TypeParamBoundView>, n: int)
    requires
        0 <= n <= bounds.len(),
    ensures
        trait_paths(bounds.take(n)).len() <= trait_paths(bounds).len(),
        forall|i: int|
            0 <= i < trait_paths(bounds.take(n)).len() ==> (#[trigger] trait_paths(
                bounds.take(n),
            )[i]) == trait_paths(bounds)[i],
    decreases bounds.len() - n,
{
    if n < bounds.len() {
        lemma_trait_paths_prefix(bounds, n + 1);
        let longer = bounds.take(n + 1);
        assert(longer.drop_last() =~= bounds.take(n));
        assert forall|i: int| 0 <= i < trait_paths(bounds.take(n)).len() implies (
        #[trigger] trait_paths(bounds.take(n))[i]) == trait_paths(bounds)[i] by {
            assert(trait_paths(bounds.take(n))[i] == trait_paths(longer)[i]);
        }
    } else {
        assert(bounds.take(n) =~= bounds);
    }
}

/// The link to a trait in documentation: its name and where it lies.
pub open spec fn trait_link(name: Seq<char>, path: Seq<char>) -> Seq<char> {
    "[`"@ + name + "`]("@ + path + ")"@
}

/// The links to the traits of a combination, joined as the combination is
/// written.
pub open spec fn trait_list(names: Seq<Seq<char>>, paths: Seq<Seq<char>>) -> Seq<char>
    decreases names.len(),
{
    if names.len() == 0 || paths.len() != names.len() {
        Seq::empty()
    } else if names.len() == 1 {
        trait_link(names[0], paths[0])
    } else {
        trait_list(names.drop_last(), paths.drop_last()) + "` + `"@ + trait_link(
            names.last(),
            paths.last(),
        )
    }
}

/// The links to the traits of a combination; see [`trait_list`].
pub fn linked_traits(names: &Vec<String>, paths: &Vec<String>) -> (r: String)
    requires
        names.len() == paths.len(),
    ensures
        r@ == trait_list(texts_view(names@), texts_view(paths@)),
{
    let ghost all_names = texts_view(names@);
    let ghost all_paths = texts_view(paths@);
    let mut text = String::new();
    let mut i: usize = 0;
    while i < names.len()
        invariant
            i <= names.len(),
            names.len() == paths.len(),
            all_names == texts_view(names@),
            all_paths == texts_view(paths@),
            text@ == trait_list(all_names.take(i as int), all_paths.take(i as int)),
        decreases names.len() - i,
    {
        proof {
            assert(all_names.take(i + 1).drop_last() =~= all_names.take(i as int));
            assert(all_paths.take(i + 1).drop_last() =~= all_paths.take(i as int));
            assert(all_names.take(i + 1).last() == names@[i as int]@);
            assert(all_paths.take(i + 1).last() == paths@[i as int]@);
            assert(all_names.take(1)[0] == all_names[0]);
            assert(all_paths.take(1)[0] == all_paths[0]);
        }
        let ghost before = text@;
        if i > 0 {
            text.append("` + `");
        }
        text.append("[`");
        text.append(names[i].as_str());
        text.append("`](");
        text.append(paths[i].as_str());
        text.append(")");
        proof {
            let link = trait_link(names@[i as int]@, paths@[i as int]@);
            if i > 0 {
                assert(text@ =~= before + "` + `"@ + link);
            } else {
                assert(before =~= Seq::<char>::empty());
                assert(text@ =~= link);
            }
        }
        i += 1;
    }
    proof {
        assert(all_names.take(i as int) =~= all_names);
        assert(all_paths.take(i as int) =~= all_paths);
    }
    text
}

/// The documentation of the generated module and of its items.
#[derive(Debug, PartialEq, Eq)]
pub struct ModuleDocs {
    pub module: String,
    pub dyn_alias: String,
    pub slice_alias: String,
    pub slice_mut_alias: String,
    pub new: String,
    pub new_mut: String,
}

/// What a [`ModuleDocs`] denotes: the same shape, with sequences for lists and
/// sequences of characters for identifiers and text.
pub struct ModuleDocsView {
    pub module: Seq<char>,
    pub dyn_alias: Seq<char>,
    pub slice_alias: Seq<char>,
    pub slice_mut_alias: Seq<char>,
    pub new: Seq<char>,
    pub new_mut: Seq<char>,
}

impl View for ModuleDocs {
    type V = ModuleDocsView;

    open spec fn view(&self) -> ModuleDocsView {
        ModuleDocsView {
            module: self.module@,
            dyn_alias: self.dyn_alias@,
            slice_alias: self.slice_alias@,
            slice_mut_alias: self.slice_mut_alias@,
            new: self.new@,
            new_mut: self.new_mut@,
        }
    }
}

/// The documentation for a combination of traits with the given names, which
/// lie at `outer` as seen from the declaration and at `inner` as seen from
/// inside the module.
pub open spec fn docs_of(
    names: Seq<Seq<char>>,
    outer: Seq<Seq<char>>,
    inner: Seq<Seq<char>>,
) -> ModuleDocsView {
    ModuleDocsView {
        module: "new functions for `&dyn [`"@ + trait_list(names, outer) + "`]`"@,
        dyn_alias: "An alias for `dyn `"@ + trait_list(names, inner),
        slice_alias: "An alias for `&dyn [`"@ + trait_list(names, inner)
            + "`]` ([`DynSlice<Dyn>`])"@,
        slice_mut_alias: "An alias for `&mut dyn [`"@ + trait_list(names, inner)
            + "`]` ([`DynSliceMut<Dyn>`])"@,
        new: "Create a dyn slice from a slice of a type that implements "@ + trait_list(
            names,
            inner,
        ),
        new_mut: "Create a mutable dyn slice from a mutable slice of a type that implements "@
            + trait_list(names, inner),
    }
}

/// The names of the traits of a combination, and where they lie as seen from
/// the declaration and from inside the module.
#[derive(Debug, PartialEq, Eq)]
pub struct TraitDocs {
    pub names: Vec<String>,
    pub outer_paths: Vec<String>,
    pub inner_paths: Vec<String>,
}

/// The documentation of the module and of its items; see [`docs_of`].
pub fn module_docs(docs: &TraitDocs) -> (r: ModuleDocs)
    requires
        docs.names.len() == docs.outer_paths.len(),
        docs.names.len() == docs.inner_paths.len(),
    ensures
        r@ == docs_of(
            texts_view(docs.names@),
            texts_view(docs.outer_paths@),
            texts_view(docs.inner_paths@),
        ),
{
    let outer = linked_traits(&docs.names, &docs.outer_paths);
    let inner = linked_traits(&docs.names, &docs.inner_paths);
    let mut module = String::from_str("new functions for `&dyn [`");
    module.append(outer.as_str());
    module.append("`]`");
    let mut dyn_alias = String::from_str("An alias for `dyn `");
    dyn_alias.append(inner.as_str());
    let mut slice_alias = String::from_str("An alias for `&dyn [`");
    slice_alias.append(inner.as_str());
    slice_alias.append("`]` ([`DynSlice<Dyn>`])");
    let mut slice_mut_alias = String::from_str("An alias for `&mut dyn [`");
    slice_mut_alias.append(inner.as_str());
    slice_mut_alias.append("`]` ([`DynSliceMut<Dyn>`])");
    let mut new = String::from_str("Create a dyn slice from a slice of a type that implements ");
    new.append(inner.as_str());
    let mut new_mut = String::from_str(
        "Create a mutable dyn slice from a mutable slice of a type that implements ",
    );
    new_mut.append(inner.as_str());
    ModuleDocs { module, dyn_alias, slice_alias, slice_mut_alias, new, new_mut }
}

/// The parts of a declaration after its paths were rewritten and the `crate`
/// attribute was taken out.
#[derive(Debug, PartialEq, Eq)]
pub struct Data {
    pub attrs: Vec<Attribute>,
    pub vis: String,
    pub ident: String,
    pub generics: Generics,
    pub object_bounds: Vec<TypeParamBound>,
}

/// The parts of the generated module: what stands in front of it, the path of
/// this crate, the generic parameters in the three forms in which the items
/// use them, the combination and the predicates of the `where` clause as seen
/// from inside the module, and the documentation.
#[derive(Debug, PartialEq, Eq)]
pub struct Module {
    pub attrs: Vec<Attribute>,
    pub vis: String,
    pub ident: String,
    pub crate_path: Path,
    /// The parameters with their bounds, for the constructors.
    pub full_generics: Vec<GenericParam>,
    /// The parameters without bounds, for the aliases.
    pub stripped_generics: Vec<GenericParam>,
    /// The parameters as arguments, for uses of the aliases.
    pub arguments: Vec<GenericArgument>,
    pub object_bounds: Vec<TypeParamBound>,
    pub where_predicates: Option<Vec<WherePredicate>>,
    pub docs: ModuleDocs,
}

/// What a [`Module`] denotes: the same shape, with sequences for lists and
/// sequences of characters for identifiers and text.
pub struct ModuleView {
    pub attrs: Seq<AttributeView>,
    pub vis: Seq<char>,
    pub ident: Seq<char>,
    pub crate_path: PathView,
    pub full_generics: Seq<GenericParamView>,
    pub stripped_generics: Seq<GenericParamView>,
    pub arguments: Seq<GenericArgumentView>,
    pub object_bounds: Seq<TypeParamBoundView>,
    pub where_predicates: Option<Seq<WherePredicateView>>,
    pub docs: ModuleDocsView,
}

impl View for Module {
    type V = ModuleView;

    open spec fn view(&self) -> ModuleView {
        ModuleView {
            attrs: attributes_view(self.attrs@),
            vis: self.vis@,
            ident: self.ident@,
            crate_path: self.crate_path@,
            full_generics: params_view(self.full_generics@),
            stripped_generics: params_view(self.stripped_generics@),
            arguments: generic_arguments_view(self.arguments@),
            object_bounds: bounds_view(self.object_bounds@),
            where_predicates: match self.where_predicates {
                Some(predicates) => Some(predicates_view(predicates@)),
                None => None,
            },
            docs: self.docs@,
        }
    }
}

/// The module for the rewritten parts of a declaration.
pub open spec fn module_of(
    attrs: Seq<AttributeView>,
    vis: Seq<char>,
    ident: Seq<char>,
    generics: GenericsView,
    object_bounds: Seq<TypeParamBoundView>,
    crate_path: PathView,
    docs: ModuleDocsView,
) -> ModuleView {
    ModuleView {
        attrs,
        vis,
        ident,
        crate_path,
        full_generics: generics.params,
        stripped_generics: all_without_bounds(generics.params),
        arguments: arguments_of(generics.params),
        object_bounds,
        where_predicates: generics.where_clause,
        docs,
    }
}

/// Puts the module together from the rewritten parts of a declaration, the
/// path of this crate and the names and places of the traits.
pub fn declare_new_fns_quote(data: Data, crate_: Path, trait_docs: &TraitDocs) -> (r: Module)
    requires
        trait_docs.names.len() == trait_docs.outer_paths.len(),
        trait_docs.names.len() == trait_docs.inner_paths.len(),
    ensures
        r@ == module_of(
            attributes_view(data.attrs@),
            data.vis@,
            data.ident@,
            data.generics@,
            bounds_view(data.object_bounds@),
            crate_@,
            docs_of(
                texts_view(trait_docs.names@),
                texts_view(trait_docs.outer_paths@),
                texts_view(trait_docs.inner_paths@),
            ),
        ),
{
    let Data { attrs, vis, ident, generics, object_bounds } = data;
    let Generics { params, where_clause } = generics;
    let stripped_generics = remove_generic_bounds(&params);
    let arguments = get_arguments(&params);
    let docs = module_docs(trait_docs);
    Module {
        attrs,
        vis,
        ident,
        crate_path: crate_,
        full_generics: params,
        stripped_generics,
        arguments,
        object_bounds,
        where_predicates: where_clause,
        docs,
    }
}

/// What a declaration expands to: the module with the `crate` attribute taken
/// out and every path rewritten for use inside it, or the reason why there is
/// none.
pub open spec fn expansion(decl: DeclareNewFnsView) -> Result<ModuleView, ExpandError> {
    match crate_path(decl.attrs) {
        Err(e) => Err(e),
        Ok(crate_) => {
            let idents = generic_names(decl.generics.params);
            let outer = trait_paths(decl.object_bounds);
            if !resolves_bounds(decl.object_bounds) || !resolves_generics(decl.generics)
                || !all_named(outer) {
                Err(ExpandError::EmptyPath)
            } else {
                let bounds = inner_bounds(decl.object_bounds, idents);
                let inner = trait_paths(bounds);
                Ok(
                    module_of(
                        without_crate_attr(decl.attrs),
                        decl.vis,
                        decl.ident,
                        inner_generics(decl.generics, idents),
                        bounds,
                        crate_,
                        docs_of(last_idents(inner), path_texts(outer), path_texts(inner)),
                    ),
                )
            }
        },
    }
}

/// Expands a declaration: takes the path of this crate from the attributes,
/// rewrites every path of the combination and of the generics for use inside
/// the module, and puts the module together.
pub fn declare_new_fns(input: DeclareNewFns) -> (r: Result<Module, ExpandError>)
    ensures
        r is Ok <==> expansion(input@) is Ok,
        r matches Ok(module) ==> Ok::<ModuleView, ExpandError>(module@) == expansion(input@),
        r matches Err(e) ==> Err::<ModuleView, ExpandError>(e) == expansion(input@),
{
    let ghost decl = input@;
    let DeclareNewFns { attrs, vis, ident, generics, object_bounds } = input;
    let mut attrs = attrs;
    let crate_ = match get_crate(&mut attrs) {
        Ok(path) => path,
        Err(e) => {
            return Err(e);
        },
    };
    let idents = generic_idents(&generics.params);
    let ghost names = texts_view(idents@);
    let (outer_paths, _) = match trait_path_texts(&object_bounds) {
        Ok(t) => t,
        Err(e) => {
            return Err(e);
        },
    };
    let inner_bounds = match rewritten_bounds(&object_bounds, idents.as_slice()) {
        Ok(b) => b,
        Err(e) => {
            return Err(e);
        },
    };
    let inner_generics = match rewritten_generics(&generics, idents.as_slice()) {
        Ok(g) => g,
        Err(e) => {
            return Err(e);
        },
    };
    proof {
        lemma_trait_paths_inner(decl.object_bounds, names);
    }
    let (inner_paths, trait_names) = match trait_path_texts(&inner_bounds) {
        Ok(t) => t,
        Err(e) => {
            return Err(e);
        },
    };
    let trait_docs = TraitDocs { names: trait_names, outer_paths, inner_paths };
    let data = Data { attrs, vis, ident, generics: inner_generics, object_bounds: inner_bounds };
    Ok(declare_new_fns_quote(data, crate_, &trait_docs))
}

} // verus!
