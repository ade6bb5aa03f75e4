use dyn_slice::generator::declare_new_fns::{
    declare_new_fns, declare_new_fns_quote, generic_idents, get_arguments, get_crate,
    linked_traits, module_docs, remove_generic_bounds, stringify_basic_path, trait_path_texts,
    Data, DeclareNewFns, TraitDocs,
};
use dyn_slice::generator::copy::{
    copied_bound, copied_expr, copied_param, copied_path, copied_type,
};
use dyn_slice::generator::error::ExpandError;
use dyn_slice::generator::expand::{checked_source, generate};
use dyn_slice::generator::path_ext::{
    is_listed, make_generics_inner_path, make_inner_path, make_inner_path_arguments,
    make_inner_path_generic_argument, make_inner_path_type, reserved, rewritten_bound,
    rewritten_expr, type_param_bound_select_trait,
};
use dyn_slice::generator::render::{
    join, render_attribute, render_attributes, render_bound, render_expr,
    render_generic_argument, render_module, render_param, render_params, render_path,
    render_predicate, render_predicates, render_segments, render_type, terminate,
};
use dyn_slice::generator::syntax::{
    Attribute, BareFnArg, Expr, GenericArgument, GenericParam, Generics, Path, PathArguments,
    PathSegment, QSelf, TraitBound, Type, TypeParamBound, WherePredicate,
};

fn text(s: &str) -> String {
    s.to_string()
}

fn segment(ident: &str) -> PathSegment {
    PathSegment { ident: text(ident), arguments: PathArguments::Empty }
}

/// The path written as `a::b::c`, or `::a::b::c`, without arguments.
fn path(written: &str) -> Path {
    let (leading_colon, rest) = match written.strip_prefix("::") {
        Some(rest) => (true, rest),
        None => (false, written),
    };
    let segments = if rest.is_empty() {
        Vec::new()
    } else {
        rest.split("::").map(segment).collect()
    };
    Path { leading_colon, segments }
}

/// The path `written` with the generic arguments `args` on its last segment.
fn path_with(written: &str, args: Vec<GenericArgument>) -> Path {
    let mut path = path(written);
    path.segments.last_mut().unwrap().arguments =
        PathArguments::AngleBracketed { colon2_token: false, args };
    path
}

fn type_path(written: &str) -> Type {
    Type::Path { qself: None, path: path(written) }
}

fn trait_bound(path: Path) -> TypeParamBound {
    TypeParamBound::Trait(TraitBound { paren_token: false, maybe: false, lifetimes: None, path })
}

fn names(list: &[&str]) -> Vec<String> {
    list.iter().map(|s| s.to_string()).collect()
}

fn type_param(ident: &str, bounds: Vec<TypeParamBound>) -> GenericParam {
    GenericParam::Type { attrs: String::new(), ident: text(ident), bounds, default: None }
}

#[test]
fn reserved_names_are_the_primitives_and_the_standard_crates() {
    assert_eq!(
        reserved(),
        names(&[
            "i8", "i16", "i32", "i64", "i128", "isize", "u8", "u16", "u32", "u64", "u128",
            "usize", "f32", "char", "bool", "f64", "core", "alloc", "std",
        ])
    );
    assert!(is_listed(&reserved(), &text("core")));
    assert!(!is_listed(&reserved(), &text("Core")));
    assert!(!is_listed(&[], &text("u8")));
}

#[test]
fn relative_path_gets_super() {
    let mut p = path("Display");
    assert_eq!(make_inner_path(&mut p, &reserved()), Ok(()));
    assert_eq!(p, path("super::Display"));

    let mut p = path("fmt::Display");
    assert_eq!(make_inner_path(&mut p, &reserved()), Ok(()));
    assert_eq!(p, path("super::fmt::Display"));

    let mut p = path("super::Display");
    assert_eq!(make_inner_path(&mut p, &reserved()), Ok(()));
    assert_eq!(p, path("super::super::Display"));
}

#[test]
fn self_becomes_super() {
    let mut p = path("self::Display");
    assert_eq!(make_inner_path(&mut p, &reserved()), Ok(()));
    assert_eq!(p, path("super::Display"));

    let mut p = path("self");
    assert_eq!(make_inner_path(&mut p, &reserved()), Ok(()));
    assert_eq!(p, path("super"));
}

#[test]
fn rooted_reserved_and_generic_paths_stay() {
    for written in ["::std::fmt::Display", "crate::Trait", "std::fmt::Debug", "core::any::Any", "u8", "T", "T::Item"] {
        let mut p = path(written);
        assert_eq!(make_inner_path(&mut p, &generic_idents(&vec![type_param("T", vec![])])), Ok(()));
        assert_eq!(p, path(written), "{written}");
    }
    let mut p = path("T");
    assert_eq!(make_inner_path(&mut p, &reserved()), Ok(()));
    assert_eq!(p, path("super::T"));
}

#[test]
fn empty_path_is_an_error_and_stays() {
    let mut p = path("");
    assert_eq!(make_inner_path(&mut p, &reserved()), Err(ExpandError::EmptyPath));
    assert_eq!(p, path(""));

    // with a leading `::` there is nothing to rewrite
    let mut p = Path { leading_colon: true, segments: Vec::new() };
    assert_eq!(make_inner_path(&mut p, &reserved()), Ok(()));
    assert_eq!(p, Path { leading_colon: true, segments: Vec::new() });

    let mut ty = Type::Tuple(vec![type_path("A"), type_path("")]);
    assert_eq!(make_inner_path_type(&mut ty, &reserved()), Err(ExpandError::EmptyPath));
    assert_eq!(ty, Type::Tuple(vec![type_path("A"), type_path("")]));
}

#[test]
fn arguments_of_every_segment_are_rewritten() {
    let idents = generic_idents(&vec![type_param("Rhs", vec![])]);
    let mut p = path_with(
        "std::ops::Add",
        vec![
            GenericArgument::Type(type_path("Rhs")),
            GenericArgument::Type(type_path("Other")),
            GenericArgument::Lifetime(text("'a")),
        ],
    );
    assert_eq!(make_inner_path(&mut p, &idents), Ok(()));
    assert_eq!(
        p,
        path_with(
            "std::ops::Add",
            vec![
                GenericArgument::Type(type_path("Rhs")),
                GenericArgument::Type(type_path("super::Other")),
                GenericArgument::Lifetime(text("'a")),
            ],
        )
    );

    let mut p = path_with("Ped", vec![GenericArgument::Type(type_path("Rhs"))]);
    assert_eq!(make_inner_path(&mut p, &idents), Ok(()));
    assert_eq!(p, path_with("super::Ped", vec![GenericArgument::Type(type_path("Rhs"))]));
}

#[test]
fn parenthesized_arguments_are_rewritten() {
    let mut arguments = PathArguments::Parenthesized {
        inputs: vec![type_path("A"), type_path("u8")],
        output: Some(Box::new(type_path("self::B"))),
    };
    assert_eq!(make_inner_path_arguments(&mut arguments, &reserved()), Ok(()));
    assert_eq!(
        arguments,
        PathArguments::Parenthesized {
            inputs: vec![type_path("super::A"), type_path("u8")],
            output: Some(Box::new(type_path("super::B"))),
        }
    );
    let mut arguments = PathArguments::Empty;
    assert_eq!(make_inner_path_arguments(&mut arguments, &reserved()), Ok(()));
    assert_eq!(arguments, PathArguments::Empty);
}

#[test]
fn generic_arguments_are_rewritten() {
    let idents = reserved();

    let mut argument = GenericArgument::AssocType {
        ident: text("Item"),
        generics: Some(vec![GenericArgument::Type(type_path("G"))]),
        ty: type_path("Thing"),
    };
    assert_eq!(make_inner_path_generic_argument(&mut argument, &idents), Ok(()));
    assert_eq!(
        argument,
        GenericArgument::AssocType {
            ident: text("Item"),
            generics: Some(vec![GenericArgument::Type(type_path("super::G"))]),
            ty: type_path("super::Thing"),
        }
    );

    let mut argument = GenericArgument::AssocConst {
        ident: text("N"),
        generics: None,
        value: Expr::Path { qself: None, path: path("LIMIT") },
    };
    assert_eq!(make_inner_path_generic_argument(&mut argument, &idents), Ok(()));
    assert_eq!(
        argument,
        GenericArgument::AssocConst {
            ident: text("N"),
            generics: None,
            value: Expr::Path { qself: None, path: path("super::LIMIT") },
        }
    );

    let mut argument = GenericArgument::Constraint {
        ident: text("Item"),
        generics: None,
        bounds: vec![trait_bound(path("Display")), TypeParamBound::Verbatim(text("'static"))],
    };
    assert_eq!(make_inner_path_generic_argument(&mut argument, &idents), Ok(()));
    assert_eq!(
        argument,
        GenericArgument::Constraint {
            ident: text("Item"),
            generics: None,
            bounds: vec![
                trait_bound(path("super::Display")),
                TypeParamBound::Verbatim(text("'static")),
            ],
        }
    );

    let mut argument = GenericArgument::Const(Expr::Verbatim(text("{ 1 + 2 }")));
    assert_eq!(make_inner_path_generic_argument(&mut argument, &idents), Ok(()));
    assert_eq!(argument, GenericArgument::Const(Expr::Verbatim(text("{ 1 + 2 }"))));

    let mut argument = GenericArgument::Const(Expr::Path { qself: None, path: path("N") });
    assert_eq!(make_inner_path_generic_argument(&mut argument, &idents), Ok(()));
    assert_eq!(argument, GenericArgument::Const(Expr::Path { qself: None, path: path("super::N") }));

    let mut argument = GenericArgument::Constraint {
        ident: text("Item"),
        generics: None,
        bounds: vec![trait_bound(path(""))],
    };
    assert_eq!(
        make_inner_path_generic_argument(&mut argument, &idents),
        Err(ExpandError::EmptyPath)
    );
}

#[test]
fn types_are_rewritten() {
    let idents = reserved();
    let cases: Vec<(Type, Type)> = vec![
        (
            Type::Array {
                elem: Box::new(type_path("A")),
                len: Expr::Path { qself: None, path: path("N") },
            },
            Type::Array {
                elem: Box::new(type_path("super::A")),
                len: Expr::Path { qself: None, path: path("super::N") },
            },
        ),
        (
            Type::Array { elem: Box::new(type_path("u8")), len: Expr::Verbatim(text("4")) },
            Type::Array { elem: Box::new(type_path("u8")), len: Expr::Verbatim(text("4")) },
        ),
        (
            Type::BareFn {
                qualifiers: text("unsafe extern \"C\""),
                inputs: vec![
                    BareFnArg { name: Some(text("a:")), ty: type_path("A") },
                    BareFnArg { name: None, ty: type_path("bool") },
                ],
                variadic: None,
                output: Some(Box::new(type_path("B"))),
            },
            Type::BareFn {
                qualifiers: text("unsafe extern \"C\""),
                inputs: vec![
                    BareFnArg { name: Some(text("a:")), ty: type_path("super::A") },
                    BareFnArg { name: None, ty: type_path("bool") },
                ],
                variadic: None,
                output: Some(Box::new(type_path("super::B"))),
            },
        ),
        (
            Type::Macro { path: path("make"), body: text("!(x)") },
            Type::Macro { path: path("super::make"), body: text("!(x)") },
        ),
        (Type::Paren(Box::new(type_path("A"))), Type::Paren(Box::new(type_path("super::A")))),
        (
            Type::Ptr { mutable: true, elem: Box::new(type_path("A")) },
            Type::Ptr { mutable: true, elem: Box::new(type_path("super::A")) },
        ),
        (
            Type::Reference { lifetime: Some(text("'a")), mutable: false, elem: Box::new(type_path("A")) },
            Type::Reference {
                lifetime: Some(text("'a")),
                mutable: false,
                elem: Box::new(type_path("super::A")),
            },
        ),
        (Type::Slice(Box::new(type_path("self::A"))), Type::Slice(Box::new(type_path("super::A")))),
        (
            Type::Path {
                qself: Some(QSelf { ty: Box::new(type_path("A")), position: 1, as_token: true }),
                path: path("Trait::Item"),
            },
            Type::Path {
                qself: Some(QSelf {
                    ty: Box::new(type_path("super::A")),
                    position: 1,
                    as_token: true,
                }),
                path: path("super::Trait::Item"),
            },
        ),
        (
            Type::TraitObject {
                dyn_token: true,
                bounds: vec![trait_bound(path("Display")), TypeParamBound::Verbatim(text("'a"))],
            },
            Type::TraitObject {
                dyn_token: true,
                bounds: vec![
                    trait_bound(path("super::Display")),
                    TypeParamBound::Verbatim(text("'a")),
                ],
            },
        ),
        (
            Type::Tuple(vec![type_path("A"), type_path("::b::B"), Type::Tuple(vec![])]),
            Type::Tuple(vec![type_path("super::A"), type_path("::b::B"), Type::Tuple(vec![])]),
        ),
        (Type::Verbatim(text("impl Display")), Type::Verbatim(text("impl Display"))),
    ];
    for (mut ty, expected) in cases {
        assert_eq!(make_inner_path_type(&mut ty, &idents), Ok(()));
        assert_eq!(ty, expected);
    }
}

#[test]
fn bounds_and_expressions_are_rewritten() {
    let bound = trait_bound(path("A"));
    assert_eq!(rewritten_bound(&bound, &reserved()), Ok(trait_bound(path("super::A"))));
    let bound = TypeParamBound::Verbatim(text("'a"));
    assert_eq!(rewritten_bound(&bound, &reserved()), Ok(TypeParamBound::Verbatim(text("'a"))));
    assert!(type_param_bound_select_trait(&bound).is_none());
    let bound = trait_bound(path("A"));
    assert_eq!(type_param_bound_select_trait(&bound).unwrap().path, path("A"));
    let expr = Expr::Path {
        qself: Some(QSelf { ty: Box::new(type_path("A")), position: 0, as_token: false }),
        path: path("B"),
    };
    assert_eq!(
        rewritten_expr(&expr, &reserved()),
        Ok(Expr::Path {
            qself: Some(QSelf { ty: Box::new(type_path("super::A")), position: 0, as_token: false }),
            path: path("super::B"),
        })
    );
}

#[test]
fn generics_are_rewritten() {
    let mut generics = Generics {
        params: vec![
            GenericParam::Lifetime { attrs: String::new(), lifetime: text("'a"), bounds: names(&["'b"]) },
            type_param("Hasher", vec![trait_bound(path("hash::Hasher"))]),
            GenericParam::Const {
                attrs: String::new(),
                ident: text("N"),
                ty: type_path("Size"),
                default: Some(Expr::Path { qself: None, path: path("DEFAULT") }),
            },
        ],
        where_clause: Some(vec![
            WherePredicate::Type {
                lifetimes: None,
                bounded_ty: type_path("Hasher"),
                bounds: vec![trait_bound(path("Clone")), trait_bound(path("std::fmt::Debug"))],
            },
            WherePredicate::Verbatim(text("'a: 'b")),
        ]),
    };
    let idents = generic_idents(&generics.params);
    assert_eq!(idents[..19], reserved()[..]);
    assert_eq!(idents[19..], names(&["Hasher", "N"])[..]);
    assert_eq!(make_generics_inner_path(&mut generics, &idents), Ok(()));
    assert_eq!(
        generics,
        Generics {
            params: vec![
                GenericParam::Lifetime {
                    attrs: String::new(),
                    lifetime: text("'a"),
                    bounds: names(&["'b"])
                },
                type_param("Hasher", vec![trait_bound(path("super::hash::Hasher"))]),
                GenericParam::Const {
                    attrs: String::new(),
                    ident: text("N"),
                    ty: type_path("super::Size"),
                    default: Some(Expr::Path { qself: None, path: path("super::DEFAULT") }),
                },
            ],
            where_clause: Some(vec![
                WherePredicate::Type {
                    lifetimes: None,
                    bounded_ty: type_path("Hasher"),
                    bounds: vec![
                        trait_bound(path("super::Clone")),
                        trait_bound(path("std::fmt::Debug"))
                    ],
                },
                WherePredicate::Verbatim(text("'a: 'b")),
            ]),
        }
    );

    let mut broken = Generics {
        params: vec![type_param("T", vec![trait_bound(path(""))])],
        where_clause: None,
    };
    assert_eq!(make_generics_inner_path(&mut broken, &idents), Err(ExpandError::EmptyPath));
    assert_eq!(broken.params, vec![type_param("T", vec![trait_bound(path(""))])]);
}

#[test]
fn stringify_joins_the_identifiers() {
    assert_eq!(stringify_basic_path(&path("Display")), Ok(text("Display")));
    assert_eq!(stringify_basic_path(&path("::core::fmt::Display")), Ok(text("core::fmt::Display")));
    assert_eq!(
        stringify_basic_path(&path_with("a::B", vec![GenericArgument::Type(type_path("C"))])),
        Ok(text("a::B"))
    );
    assert_eq!(stringify_basic_path(&path("")), Err(ExpandError::EmptyPath));
}

#[test]
fn crate_path_comes_from_the_first_crate_attribute() {
    let doc = || Attribute::Verbatim(text("#[doc = \"x\"]"));
    let krate = |written: &str| Attribute::NameValue {
        path: path("crate"),
        value: Expr::Path { qself: None, path: path(written) },
    };

    let mut attrs = vec![doc()];
    assert_eq!(get_crate(&mut attrs), Ok(path("dyn_slice")));
    assert_eq!(attrs, vec![doc()]);

    let mut attrs = vec![doc(), krate("other::dyn_slice"), doc(), krate("second")];
    assert_eq!(get_crate(&mut attrs), Ok(path("other::dyn_slice")));
    assert_eq!(attrs, vec![doc(), doc(), krate("second")]);

    let mut attrs = vec![
        doc(),
        Attribute::NameValue { path: path("crate"), value: Expr::Verbatim(text("\"name\"")) },
    ];
    assert_eq!(get_crate(&mut attrs), Err(ExpandError::CrateAttributeNotPath));
    assert_eq!(attrs.len(), 2);

    // not the single identifier `crate`
    let mut attrs = vec![
        Attribute::NameValue {
            path: path("::crate"),
            value: Expr::Path { qself: None, path: path("a") },
        },
        Attribute::NameValue {
            path: path("crate::x"),
            value: Expr::Path { qself: None, path: path("b") },
        },
        Attribute::NameValue {
            path: path_with("crate", vec![]),
            value: Expr::Path { qself: None, path: path("c") },
        },
        Attribute::NameValue {
            path: path("doc"),
            value: Expr::Path { qself: None, path: path("d") },
        },
    ];
    assert_eq!(get_crate(&mut attrs), Ok(path("dyn_slice")));
    assert_eq!(attrs.len(), 4);
    let mut none: Vec<Attribute> = Vec::new();
    assert_eq!(get_crate(&mut none), Ok(path("dyn_slice")));
}

fn sample_params() -> Vec<GenericParam> {
    vec![
        GenericParam::Lifetime { attrs: String::new(), lifetime: text("'a"), bounds: names(&["'b", "'c"]) },
        GenericParam::Type {
            attrs: text("#[x]"),
            ident: text("T"),
            bounds: vec![trait_bound(path("Clone"))],
            default: Some(text("u8")),
        },
        GenericParam::Const {
            attrs: String::new(),
            ident: text("N"),
            ty: type_path("usize"),
            default: None,
        },
    ]
}

#[test]
fn arguments_name_the_parameters() {
    assert_eq!(
        get_arguments(&sample_params()),
        vec![
            GenericArgument::Lifetime(text("'a")),
            GenericArgument::Type(type_path("T")),
            GenericArgument::Const(Expr::Path { qself: None, path: path("N") }),
        ]
    );
    assert_eq!(get_arguments(&Vec::new()), Vec::new());
}

#[test]
fn bounds_are_removed() {
    assert_eq!(
        remove_generic_bounds(&sample_params()),
        vec![
            GenericParam::Lifetime { attrs: String::new(), lifetime: text("'a"), bounds: vec![] },
            GenericParam::Type {
                attrs: text("#[x]"),
                ident: text("T"),
                bounds: vec![],
                default: Some(text("u8")),
            },
            GenericParam::Const {
                attrs: String::new(),
                ident: text("N"),
                ty: type_path("usize"),
                default: None,
            },
        ]
    );
}

#[test]
fn traits_are_linked() {
    assert_eq!(linked_traits(&names(&["Any"]), &names(&["core::any::Any"])), "[`Any`](core::any::Any)");
    assert_eq!(
        linked_traits(&names(&["Any", "Send"]), &names(&["Any", "super::Send"])),
        "[`Any`](Any)` + `[`Send`](super::Send)"
    );
    assert_eq!(linked_traits(&[].to_vec(), &[].to_vec()), "");
    let bounds = vec![
        trait_bound(path("fmt::Debug")),
        TypeParamBound::Verbatim(text("'static")),
        trait_bound(path("Send")),
    ];
    assert_eq!(
        trait_path_texts(&bounds),
        Ok((names(&["fmt::Debug", "Send"]), names(&["Debug", "Send"])))
    );
    assert_eq!(
        trait_path_texts(&vec![trait_bound(path("A")), trait_bound(path("::"))]),
        Err(ExpandError::EmptyPath)
    );
}

#[test]
fn documentation_names_every_trait() {
    let docs = module_docs(&TraitDocs {
        names: names(&["Any", "Sync", "Send"]),
        outer_paths: names(&["Any", "Sync", "Send"]),
        inner_paths: names(&["super::Any", "super::Sync", "super::Send"]),
    });
    assert_eq!(
        docs.module,
        "new functions for `&dyn [`[`Any`](Any)` + `[`Sync`](Sync)` + `[`Send`](Send)`]`"
    );
    assert_eq!(
        docs.dyn_alias,
        "An alias for `dyn `[`Any`](super::Any)` + `[`Sync`](super::Sync)` + `[`Send`](super::Send)"
    );
    assert_eq!(
        docs.slice_alias,
        "An alias for `&dyn [`[`Any`](super::Any)` + `[`Sync`](super::Sync)` + `[`Send`](super::Send)`]` ([`DynSlice<Dyn>`])"
    );
    assert_eq!(
        docs.slice_mut_alias,
        "An alias for `&mut dyn [`[`Any`](super::Any)` + `[`Sync`](super::Sync)` + `[`Send`](super::Send)`]` ([`DynSliceMut<Dyn>`])"
    );
    assert_eq!(
        docs.new,
        "Create a dyn slice from a slice of a type that implements [`Any`](super::Any)` + `[`Sync`](super::Sync)` + `[`Send`](super::Send)"
    );
    assert_eq!(
        docs.new_mut,
        "Create a mutable dyn slice from a mutable slice of a type that implements [`Any`](super::Any)` + `[`Sync`](super::Sync)` + `[`Send`](super::Send)"
    );
}

fn ped_declaration() -> DeclareNewFns {
    DeclareNewFns {
        attrs: vec![
            Attribute::NameValue {
                path: path("crate"),
                value: Expr::Path { qself: None, path: path("crate") },
            },
            Attribute::Verbatim(text("#[doc = \"ped\"]")),
        ],
        vis: text("pub"),
        ident: text("ped"),
        generics: Generics { params: vec![type_param("Rhs", vec![])], where_clause: None },
        object_bounds: vec![trait_bound(path_with(
            "Ped",
            vec![GenericArgument::Type(type_path("Rhs"))],
        ))],
    }
}

#[test]
fn declaration_expands_to_a_module() {
    let module = declare_new_fns(ped_declaration()).unwrap();
    assert_eq!(module.attrs, vec![Attribute::Verbatim(text("#[doc = \"ped\"]"))]);
    assert_eq!(module.vis, "pub");
    assert_eq!(module.ident, "ped");
    assert_eq!(module.crate_path, path("crate"));
    assert_eq!(module.full_generics, vec![type_param("Rhs", vec![])]);
    assert_eq!(module.stripped_generics, vec![type_param("Rhs", vec![])]);
    assert_eq!(module.arguments, vec![GenericArgument::Type(type_path("Rhs"))]);
    assert_eq!(
        module.object_bounds,
        vec![trait_bound(path_with("super::Ped", vec![GenericArgument::Type(type_path("Rhs"))]))]
    );
    assert_eq!(module.where_predicates, None);
    assert_eq!(module.docs.module, "new functions for `&dyn [`[`Ped`](Ped)`]`");
    assert_eq!(module.docs.dyn_alias, "An alias for `dyn `[`Ped`](super::Ped)");
    assert_eq!(
        module.docs.new,
        "Create a dyn slice from a slice of a type that implements [`Ped`](super::Ped)"
    );
}

#[test]
fn declaration_with_bounds_and_where_clause_expands() {
    let declaration = DeclareNewFns {
        attrs: vec![],
        vis: String::new(),
        ident: text("build_hasher"),
        generics: Generics {
            params: vec![type_param("Hasher", vec![trait_bound(path("hash::Hasher"))])],
            where_clause: Some(vec![WherePredicate::Type {
                lifetimes: None,
                bounded_ty: type_path("Hasher"),
                bounds: vec![trait_bound(path("Mine"))],
            }]),
        },
        object_bounds: vec![
            trait_bound(path_with(
                "std::hash::BuildHasher",
                vec![GenericArgument::AssocType {
                    ident: text("Hasher"),
                    generics: None,
                    ty: type_path("Hasher"),
                }],
            )),
            trait_bound(path("self::Extra")),
            TypeParamBound::Verbatim(text("'static")),
        ],
    };
    let module = declare_new_fns(declaration).unwrap();
    assert_eq!(module.crate_path, path("dyn_slice"));
    assert_eq!(
        module.full_generics,
        vec![type_param("Hasher", vec![trait_bound(path("super::hash::Hasher"))])]
    );
    assert_eq!(module.stripped_generics, vec![type_param("Hasher", vec![])]);
    assert_eq!(module.arguments, vec![GenericArgument::Type(type_path("Hasher"))]);
    assert_eq!(
        module.where_predicates,
        Some(vec![WherePredicate::Type {
            lifetimes: None,
            bounded_ty: type_path("Hasher"),
            bounds: vec![trait_bound(path("super::Mine"))],
        }])
    );
    assert_eq!(
        module.object_bounds,
        vec![
            trait_bound(path_with(
                "std::hash::BuildHasher",
                vec![GenericArgument::AssocType {
                    ident: text("Hasher"),
                    generics: None,
                    ty: type_path("Hasher"),
                }],
            )),
            trait_bound(path("super::Extra")),
            TypeParamBound::Verbatim(text("'static")),
        ]
    );
    assert_eq!(
        module.docs.module,
        "new functions for `&dyn [`[`BuildHasher`](std::hash::BuildHasher)` + `[`Extra`](self::Extra)`]`"
    );
    assert_eq!(
        module.docs.slice_alias,
        "An alias for `&dyn [`[`BuildHasher`](std::hash::BuildHasher)` + `[`Extra`](super::Extra)`]` ([`DynSlice<Dyn>`])"
    );
}

#[test]
fn malformed_declarations_are_rejected() {
    let mut declaration = ped_declaration();
    declaration.object_bounds = vec![trait_bound(path(""))];
    assert_eq!(declare_new_fns(declaration), Err(ExpandError::EmptyPath));

    let mut declaration = ped_declaration();
    declaration.object_bounds = vec![trait_bound(path("::"))];
    assert_eq!(declare_new_fns(declaration), Err(ExpandError::EmptyPath));

    let mut declaration = ped_declaration();
    declaration.generics.params = vec![type_param("T", vec![trait_bound(path(""))])];
    assert_eq!(declare_new_fns(declaration), Err(ExpandError::EmptyPath));

    let mut declaration = ped_declaration();
    declaration.attrs = vec![Attribute::NameValue {
        path: path("crate"),
        value: Expr::Verbatim(text("\"dyn_slice\"")),
    }];
    declaration.object_bounds = vec![trait_bound(path(""))];
    assert_eq!(declare_new_fns(declaration), Err(ExpandError::CrateAttributeNotPath));
}

#[test]
fn errors_have_their_words() {
    assert_eq!(ExpandError::EmptyPath.message(), "empty path");
    assert_eq!(
        ExpandError::CrateAttributeNotPath.message(),
        "'crate' attribute value must be the crate path"
    );
}

#[test]
fn module_is_put_together_from_its_parts() {
    let data = Data {
        attrs: vec![],
        vis: text("pub(crate)"),
        ident: text("debug"),
        generics: Generics { params: sample_params(), where_clause: None },
        object_bounds: vec![trait_bound(path("super::Debug"))],
    };
    let docs = TraitDocs {
        names: names(&["Debug"]),
        outer_paths: names(&["Debug"]),
        inner_paths: names(&["super::Debug"]),
    };
    let module = declare_new_fns_quote(data, path("dyn_slice"), &docs);
    assert_eq!(module.full_generics, sample_params());
    assert_eq!(module.stripped_generics, remove_generic_bounds(&sample_params()));
    assert_eq!(module.arguments, get_arguments(&sample_params()));
    assert_eq!(module.vis, "pub(crate)");
    assert_eq!(module.docs, module_docs(&docs));
}

#[test]
fn paths_and_types_are_written_out() {
    assert_eq!(render_path(&path("::core::fmt::Display")), "::core::fmt::Display");
    assert_eq!(render_path(&path("")), "");
    assert_eq!(
        render_path(&path_with(
            "super::Ped",
            vec![
                GenericArgument::Lifetime(text("'a")),
                GenericArgument::Type(type_path("Rhs")),
                GenericArgument::AssocType {
                    ident: text("Item"),
                    generics: Some(vec![GenericArgument::Type(type_path("G"))]),
                    ty: type_path("u8"),
                },
                GenericArgument::AssocConst {
                    ident: text("N"),
                    generics: None,
                    value: Expr::Verbatim(text("3")),
                },
                GenericArgument::Constraint {
                    ident: text("Out"),
                    generics: None,
                    bounds: vec![trait_bound(path("A")), TypeParamBound::Verbatim(text("'b"))],
                },
            ],
        )),
        "super::Ped<'a, Rhs, Item<G> = u8, N = 3, Out: A + 'b>"
    );
    let mut turbofish = path("a::B");
    turbofish.segments[0].arguments = PathArguments::AngleBracketed {
        colon2_token: true,
        args: vec![GenericArgument::Type(type_path("C"))],
    };
    assert_eq!(render_path(&turbofish), "a::<C>::B");
    assert_eq!(render_segments(&path("a::b::c::d").segments, 1, 3), "b::c");
    assert_eq!(render_segments(&path("a::b").segments, 2, 2), "");

    let mut function = path("Fn");
    function.segments[0].arguments = PathArguments::Parenthesized {
        inputs: vec![type_path("A"), type_path("B")],
        output: Some(Box::new(type_path("C"))),
    };
    assert_eq!(render_path(&function), "Fn(A, B) -> C");

    let qualified = |position: usize, as_token: bool| Type::Path {
        qself: Some(QSelf { ty: Box::new(type_path("T")), position, as_token }),
        path: path("a::Trait::Item"),
    };
    assert_eq!(render_type(&qualified(2, true)), "<T as a::Trait>::Item");
    assert_eq!(render_type(&qualified(0, false)), "<T>::a::Trait::Item");
    assert_eq!(render_type(&qualified(3, true)), "<T as a::Trait::Item>");
    assert_eq!(render_type(&qualified(9, true)), "<T as a::Trait::Item>");
    assert_eq!(
        render_expr(&Expr::Path {
            qself: Some(QSelf { ty: Box::new(type_path("T")), position: 1, as_token: true }),
            path: path("::a::N"),
        }),
        "<T as ::a>::N"
    );

    let cases: Vec<(Type, &str)> = vec![
        (
            Type::Array { elem: Box::new(type_path("u8")), len: Expr::Verbatim(text("4")) },
            "[u8; 4]",
        ),
        (
            Type::BareFn {
                qualifiers: text("unsafe"),
                inputs: vec![
                    BareFnArg { name: Some(text("a:")), ty: type_path("A") },
                    BareFnArg { name: None, ty: type_path("B") },
                ],
                variadic: Some(text("...")),
                output: Some(Box::new(type_path("C"))),
            },
            "unsafe fn(a:A, B, ...) -> C",
        ),
        (
            Type::BareFn { qualifiers: text(""), inputs: vec![], variadic: None, output: None },
            " fn()",
        ),
        (Type::Macro { path: path("make"), body: text("!(x)") }, "make!(x)"),
        (Type::Paren(Box::new(type_path("A"))), "(A)"),
        (Type::Ptr { mutable: true, elem: Box::new(type_path("A")) }, "*mut A"),
        (Type::Ptr { mutable: false, elem: Box::new(type_path("A")) }, "*const A"),
        (
            Type::Reference { lifetime: Some(text("'a")), mutable: true, elem: Box::new(type_path("A")) },
            "&'a mut A",
        ),
        (Type::Reference { lifetime: None, mutable: false, elem: Box::new(type_path("A")) }, "&A"),
        (Type::Slice(Box::new(type_path("A"))), "[A]"),
        (
            Type::TraitObject {
                dyn_token: true,
                bounds: vec![trait_bound(path("A")), TypeParamBound::Verbatim(text("'a"))],
            },
            "dyn A + 'a",
        ),
        (Type::Tuple(vec![]), "()"),
        (Type::Tuple(vec![type_path("A")]), "(A,)"),
        (Type::Tuple(vec![type_path("A"), type_path("B")]), "(A, B)"),
        (Type::Verbatim(text("impl A")), "impl A"),
    ];
    for (ty, expected) in cases {
        assert_eq!(render_type(&ty), expected);
    }
    assert_eq!(
        render_bound(&TypeParamBound::Trait(TraitBound {
            paren_token: true,
            maybe: true,
            lifetimes: Some(text("for<'a>")),
            path: path("Sized"),
        })),
        "(?for<'a> Sized)"
    );
    assert_eq!(render_generic_argument(&GenericArgument::Lifetime(text("'x"))), "'x");
}

#[test]
fn lists_are_joined_and_terminated() {
    assert_eq!(join(&names(&["a", "b", "c"]), ", "), "a, b, c");
    assert_eq!(join(&names(&["a"]), ", "), "a");
    assert_eq!(join(&names(&[]), ", "), "");
    assert_eq!(terminate(&names(&["a", "b"]), ", "), "a, b, ");
    assert_eq!(terminate(&names(&[]), ", "), "");
    let params = sample_params();
    assert_eq!(render_param(&params[0]), " 'a: 'b + 'c");
    assert_eq!(render_param(&params[1]), "#[x] T: Clone = u8");
    assert_eq!(render_param(&params[2]), " const N: usize");
    assert_eq!(
        render_param(&GenericParam::Const {
            attrs: String::new(),
            ident: text("N"),
            ty: type_path("usize"),
            default: Some(Expr::Verbatim(text("3"))),
        }),
        " const N: usize = 3"
    );
    assert_eq!(render_params(&params), " 'a: 'b + 'c, #[x] T: Clone = u8,  const N: usize, ");
    assert_eq!(render_params(&remove_generic_bounds(&sample_params())), " 'a, #[x] T = u8,  const N: usize, ");
    let predicate = WherePredicate::Type {
        lifetimes: Some(text("for<'a>")),
        bounded_ty: type_path("T"),
        bounds: vec![trait_bound(path("A")), trait_bound(path("B"))],
    };
    assert_eq!(render_predicate(&predicate), "for<'a> T: A + B");
    assert_eq!(
        render_predicates(&vec![predicate, WherePredicate::Verbatim(text("'a: 'b"))]),
        "for<'a> T: A + B, 'a: 'b, "
    );
    let attr = Attribute::NameValue {
        path: path("crate"),
        value: Expr::Path { qself: None, path: path("other::dyn_slice") },
    };
    assert_eq!(render_attribute(&attr), "#[crate = other::dyn_slice]");
    assert_eq!(
        render_attributes(&vec![attr, Attribute::Verbatim(text("#[cfg(test)]"))]),
        "#[crate = other::dyn_slice]\n#[cfg(test)]\n"
    );
}

#[test]
fn module_is_written_out() {
    let module = declare_new_fns(ped_declaration()).unwrap();
    let expected = "#[doc = \"new functions for `&dyn [`[`Ped`](Ped)`]`\"]
#[doc = \"ped\"]
pub mod ped {
    use crate as dyn_slice;
    use dyn_slice::slice::{DynSlice, DynSliceMut};

    #[doc = \"An alias for `dyn `[`Ped`](super::Ped)\"]
    pub type Dyn< Rhs, > = dyn super::Ped<Rhs>;

    #[doc = \"An alias for `&dyn [`[`Ped`](super::Ped)`]` ([`DynSlice<Dyn>`])\"]
    pub type Slice<'__slice,  Rhs, > = DynSlice<'__slice, Dyn<Rhs, >>;

    #[doc = \"An alias for `&mut dyn [`[`Ped`](super::Ped)`]` ([`DynSliceMut<Dyn>`])\"]
    pub type SliceMut<'__slice,  Rhs, > = DynSliceMut<'__slice, Dyn<Rhs, >>;

    unsafe fn interpret< Rhs, DynSliceFromType>(data: *mut ()) -> *mut Dyn<Rhs, >
    where
        DynSliceFromType: 'static + super::Ped<Rhs>,
    {
        data.cast::<DynSliceFromType>() as *mut Dyn<Rhs, >
    }

    #[allow(unused)]
    #[must_use]
    #[doc = \"Create a dyn slice from a slice of a type that implements [`Ped`](super::Ped)\"]
    pub fn new< Rhs, DynSliceFromType>(value: &[DynSliceFromType]) -> Slice<'_, Rhs, >
    where
        DynSliceFromType: 'static + super::Ped<Rhs>,
    {
        unsafe { DynSlice::with_interpretation(value, interpret::<Rhs, DynSliceFromType>) }
    }

    #[allow(unused)]
    #[must_use]
    #[doc = \"Create a mutable dyn slice from a mutable slice of a type that implements [`Ped`](super::Ped)\"]
    pub fn new_mut< Rhs, DynSliceFromType>(value: &mut [DynSliceFromType]) -> SliceMut<'_, Rhs, >
    where
        DynSliceFromType: 'static + super::Ped<Rhs>,
    {
        unsafe { DynSliceMut::with_interpretation(value, interpret::<Rhs, DynSliceFromType>) }
    }
}
";
    assert_eq!(render_module(&module), expected);
}

#[test]
fn written_module_is_rust() {
    let declaration = DeclareNewFns {
        attrs: vec![],
        vis: text("pub(crate)"),
        ident: text("hashers"),
        generics: Generics {
            params: vec![
                GenericParam::Lifetime { attrs: String::new(), lifetime: text("'h"), bounds: vec![] },
                type_param("Hasher", vec![trait_bound(path("hash::Hasher"))]),
                GenericParam::Const {
                    attrs: String::new(),
                    ident: text("N"),
                    ty: type_path("usize"),
                    default: None,
                },
            ],
            where_clause: Some(vec![WherePredicate::Type {
                lifetimes: None,
                bounded_ty: type_path("Hasher"),
                bounds: vec![trait_bound(path("Clone"))],
            }]),
        },
        object_bounds: vec![
            trait_bound(path_with(
                "std::hash::BuildHasher",
                vec![GenericArgument::AssocType {
                    ident: text("Hasher"),
                    generics: None,
                    ty: type_path("Hasher"),
                }],
            )),
            trait_bound(path("Send")),
        ],
    };
    let module = declare_new_fns(declaration).unwrap();
    let source = render_module(&module);
    let file = syn::parse_file(&source).expect("the module is a Rust item");
    assert_eq!(file.items.len(), 1);
    let syn::Item::Mod(item) = &file.items[0] else {
        panic!("expected a module");
    };
    assert_eq!(item.ident.to_string(), "hashers");
    let (_, items) = item.content.as_ref().expect("the module has a body");
    let mut functions = Vec::new();
    let mut aliases = Vec::new();
    for item in items {
        match item {
            syn::Item::Fn(function) => functions.push(function.sig.ident.to_string()),
            syn::Item::Type(alias) => aliases.push(alias.ident.to_string()),
            _ => {}
        }
    }
    assert_eq!(functions, vec!["interpret", "new", "new_mut"]);
    assert_eq!(aliases, vec!["Dyn", "Slice", "SliceMut"]);
}

#[test]
fn copies_are_equal() {
    let ty = Type::BareFn {
        qualifiers: text("unsafe"),
        inputs: vec![BareFnArg {
            name: Some(text("a:")),
            ty: Type::Path {
                qself: Some(QSelf { ty: Box::new(type_path("T")), position: 1, as_token: true }),
                path: path_with(
                    "Trait::Item",
                    vec![GenericArgument::Constraint {
                        ident: text("Out"),
                        generics: Some(vec![GenericArgument::Lifetime(text("'a"))]),
                        bounds: vec![trait_bound(path("A")), TypeParamBound::Verbatim(text("'b"))],
                    }],
                ),
            },
        }],
        variadic: Some(text("...")),
        output: Some(Box::new(Type::Tuple(vec![
            Type::Array { elem: Box::new(type_path("u8")), len: Expr::Verbatim(text("4")) },
            Type::Reference { lifetime: None, mutable: true, elem: Box::new(type_path("B")) },
        ]))),
    };
    assert_eq!(copied_type(&ty), ty);
    for param in sample_params() {
        assert_eq!(copied_param(&param), param);
    }
    assert_eq!(copied_path(&path("::a::b")), path("::a::b"));
    let expr = Expr::Path { qself: None, path: path("N") };
    assert_eq!(copied_expr(&expr), expr);
    assert_eq!(copied_bound(&trait_bound(path("A"))), trait_bound(path("A")));
}

#[test]
fn generated_text_is_the_written_module() {
    let text = generate(ped_declaration()).unwrap();
    assert_eq!(text, render_module(&declare_new_fns(ped_declaration()).unwrap()));
    assert!(text.contains("pub fn new< Rhs, DynSliceFromType>"));
}

#[test]
fn text_that_is_no_module_is_not_handed_out() {
    let mut declaration = ped_declaration();
    declaration.vis = text("pub pub");
    assert_eq!(generate(declaration), Err(ExpandError::NotAModule));

    let mut declaration = ped_declaration();
    declaration.object_bounds.push(TypeParamBound::Verbatim(text("}")));
    assert_eq!(generate(declaration), Err(ExpandError::NotAModule));

    let mut declaration = ped_declaration();
    declaration.ident = text("a b");
    assert_eq!(generate(declaration), Err(ExpandError::NotAModule));

    let mut declaration = ped_declaration();
    declaration.object_bounds = vec![trait_bound(path(""))];
    assert_eq!(generate(declaration), Err(ExpandError::EmptyPath));

    assert_eq!(checked_source(text("mod a {}"), true), Ok(text("mod a {}")));
    assert_eq!(checked_source(text("mod a {}"), false), Err(ExpandError::NotAModule));
    assert_eq!(
        ExpandError::NotAModule.message(),
        "the declaration does not expand to a module"
    );
}
