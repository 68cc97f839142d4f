use shallowclone::assemble::{ExtraBound, GeneratedUnit, HktArg, ImplParam};
use shallowclone::attributes::{is_generic_skipped, resolve_exclusions};
use shallowclone::decl::{
    ConstParam, DeriveType, Diagnostic, Fatal, FieldList, GenericParam, LifetimeParam, Marker,
    MarkerArg, NamedField, Shape, TypeDeclaration, TypeParam, Variant,
};
use shallowclone::gen_impl::{gen_impl, Body, BodyStyle, FieldAccess, FieldInit, Place};
use shallowclone::target_type::{get_target_type, TargetArg};

fn type_param(name: &str, markers: Vec<Marker>) -> GenericParam {
    GenericParam::Type(TypeParam { name: name.to_string(), bounds: vec![], markers })
}

fn lifetime_param(name: &str) -> GenericParam {
    GenericParam::Lifetime(LifetimeParam { name: name.to_string(), bounds: vec![], markers: vec![] })
}

fn const_param(name: &str, ty: &str, markers: Vec<Marker>) -> GenericParam {
    GenericParam::Const(ConstParam { name: name.to_string(), ty: ty.to_string(), markers })
}

fn skip_marker(tag: &str) -> Marker {
    Marker { tag: tag.to_string(), arg: MarkerArg::Word("skip".to_string()) }
}

fn named(name: &str, ty: &str) -> NamedField {
    NamedField { name: name.to_string(), ty: ty.to_string() }
}

fn decl(name: &str, generics: Vec<GenericParam>, shape: Shape) -> TypeDeclaration {
    TypeDeclaration { name: name.to_string(), generics, where_bounds: vec![], shape }
}

#[test]
fn shallow_struct_body_has_one_init_per_named_field() {
    let d = decl(
        "Struct",
        vec![],
        Shape::Struct(FieldList::Named(vec![
            named("field1", "u16"),
            named("field2", "u32"),
            named("field3", "String"),
        ])),
    );
    let b = gen_impl(DeriveType::ShallowClone, &d).unwrap();
    match b {
        Body::Struct { name, style, fields } => {
            assert_eq!(name, "Struct");
            assert_eq!(style, BodyStyle::Named);
            assert_eq!(fields.len(), 3);
            let expected = ["field1", "field2", "field3"];
            for (i, f) in fields.iter().enumerate() {
                assert_eq!(f.name, Some(expected[i].to_string()));
                assert_eq!(
                    f.access,
                    FieldAccess::Ref(Place::Named(expected[i].to_string()))
                );
            }
        }
        _ => panic!("a struct declaration synthesizes a struct body"),
    }
}

#[test]
fn detach_struct_body_moves_fields() {
    let d = decl(
        "TupleStruct",
        vec![],
        Shape::Struct(FieldList::Positional(vec![
            "u16".to_string(),
            "u32".to_string(),
            "String".to_string(),
        ])),
    );
    let b = gen_impl(DeriveType::MakeOwned, &d).unwrap();
    match b {
        Body::Struct { name, style, fields } => {
            assert_eq!(name, "TupleStruct");
            assert_eq!(style, BodyStyle::Positional);
            assert_eq!(fields.len(), 3);
            for (i, f) in fields.iter().enumerate() {
                assert_eq!(f.name, None);
                assert_eq!(f.access, FieldAccess::Val(Place::Indexed(i)));
            }
        }
        _ => panic!("a struct declaration synthesizes a struct body"),
    }
}

#[test]
fn enum_body_has_one_arm_per_variant_in_order() {
    let d = decl(
        "Enum",
        vec![],
        Shape::Enum(vec![
            Variant { name: "UnitVariant".to_string(), fields: FieldList::Unit },
            Variant {
                name: "TupleVariant".to_string(),
                fields: FieldList::Positional(vec![
                    "u16".to_string(),
                    "u32".to_string(),
                    "String".to_string(),
                ]),
            },
            Variant {
                name: "StructVariant".to_string(),
                fields: FieldList::Named(vec![
                    named("field1", "u16"),
                    named("field2", "T"),
                    named("field3", "Text"),
                ]),
            },
        ]),
    );
    let b = gen_impl(DeriveType::ShallowClone, &d).unwrap();
    match b {
        Body::Match { name, arms } => {
            assert_eq!(name, "Enum");
            assert_eq!(arms.len(), 3);

            assert_eq!(arms[0].variant, "UnitVariant");
            assert_eq!(arms[0].style, BodyStyle::Unit);
            assert_eq!(arms[0].bindings.len(), 0);
            assert_eq!(arms[0].fields.len(), 0);

            assert_eq!(arms[1].variant, "TupleVariant");
            assert_eq!(arms[1].style, BodyStyle::Positional);
            assert_eq!(
                arms[1].bindings,
                vec![Place::Indexed(0), Place::Indexed(1), Place::Indexed(2)]
            );
            assert_eq!(arms[1].fields.len(), 3);
            assert_eq!(arms[1].fields[0].access, FieldAccess::Bound(Place::Indexed(0)));

            assert_eq!(arms[2].variant, "StructVariant");
            assert_eq!(arms[2].style, BodyStyle::Named);
            assert_eq!(
                arms[2].bindings,
                vec![
                    Place::Named("field1".to_string()),
                    Place::Named("field2".to_string()),
                    Place::Named("field3".to_string()),
                ]
            );
            assert_eq!(
                arms[2].fields[1],
                FieldInit {
                    name: Some("field2".to_string()),
                    access: FieldAccess::Bound(Place::Named("field2".to_string())),
                }
            );
        }
        _ => panic!("an enum declaration synthesizes a match body"),
    }
}

#[test]
fn union_shape_is_fatal() {
    let d = decl("Raw", vec![], Shape::Union);
    assert_eq!(gen_impl(DeriveType::ShallowClone, &d), Err(Fatal::UnsupportedShape));
    let mut diags: Vec<Diagnostic> = Vec::new();
    assert_eq!(
        shallowclone::assemble::derive(&d, DeriveType::MakeOwned, &mut diags),
        Err(Fatal::UnsupportedShape)
    );
    assert_eq!(diags.len(), 0);
}

#[test]
fn target_type_rewrites_per_kind() {
    let d = decl(
        "Enum",
        vec![lifetime_param("a"), type_param("T", vec![])],
        Shape::Struct(FieldList::Unit),
    );
    let mut diags: Vec<Diagnostic> = Vec::new();
    let skipped = resolve_exclusions(DeriveType::ShallowClone, &d, &mut diags).unwrap();
    let t = get_target_type(&d, DeriveType::ShallowClone, &skipped);
    assert_eq!(t.name, "Enum");
    assert_eq!(
        t.args,
        vec![TargetArg::BorrowLifetime, TargetArg::ShallowTarget("T".to_string())]
    );

    let skipped = resolve_exclusions(DeriveType::MakeOwned, &d, &mut diags).unwrap();
    let t = get_target_type(&d, DeriveType::MakeOwned, &skipped);
    assert_eq!(
        t.args,
        vec![TargetArg::StaticLifetime, TargetArg::OwnedType("T".to_string())]
    );
    assert_eq!(diags.len(), 0);
}

#[test]
fn const_param_passes_through_unchanged() {
    let d = decl(
        "Array",
        vec![const_param("K", "usize", vec![]), type_param("T", vec![])],
        Shape::Struct(FieldList::Named(vec![named("data", "[T; K]")])),
    );
    for kind in [DeriveType::ShallowClone, DeriveType::MakeOwned] {
        let mut diags: Vec<Diagnostic> = Vec::new();
        let u = shallowclone::assemble::derive(&d, kind, &mut diags).unwrap();
        assert_eq!(diags.len(), 0);
        assert_eq!(u.target.args[0], TargetArg::Keep("K".to_string()));
        assert_eq!(
            u.impl_params[0],
            ImplParam::Const { name: "K".to_string(), ty: "usize".to_string() }
        );
        // no constraint mentions the const parameter
        for b in &u.extra_bounds {
            match b {
                ExtraBound::LifetimeOutlivesBorrow(n)
                | ExtraBound::TypeStatic(n)
                | ExtraBound::TypeShallowClone(n)
                | ExtraBound::TypeMakeOwned(n)
                | ExtraBound::OwnedKeepsBounds(n) => assert_ne!(n, "K"),
                ExtraBound::SelfCloneForAll { .. } => {}
            }
        }
    }
}

#[test]
fn skipped_param_gets_no_transform_bound() {
    // a type parameter wrapped only in a zero-size marker field, opted out
    let d = decl(
        "WithPhantom",
        vec![type_param("T", vec![skip_marker("makeowned")])],
        Shape::Struct(FieldList::Named(vec![named("inner", "PhantomData<T>")])),
    );
    let mut diags: Vec<Diagnostic> = Vec::new();
    let u = shallowclone::assemble::derive(&d, DeriveType::MakeOwned, &mut diags).unwrap();
    assert_eq!(diags.len(), 0);
    assert_eq!(u.target.args, vec![TargetArg::Keep("T".to_string())]);
    assert_eq!(u.extra_bounds.len(), 2);
    assert_eq!(u.extra_bounds[0], ExtraBound::TypeStatic("T".to_string()));
    assert_eq!(
        u.extra_bounds[1],
        ExtraBound::SelfCloneForAll {
            name: "WithPhantom".to_string(),
            args: vec![HktArg::Named("T".to_string())],
        }
    );

    let d = decl(
        "WithPhantom",
        vec![type_param("T", vec![skip_marker("shallowclone")])],
        Shape::Struct(FieldList::Named(vec![named("inner", "PhantomData<T>")])),
    );
    let u = shallowclone::assemble::derive(&d, DeriveType::ShallowClone, &mut diags).unwrap();
    assert_eq!(diags.len(), 0);
    assert_eq!(u.target.args, vec![TargetArg::Keep("T".to_string())]);
    assert_eq!(u.extra_bounds.len(), 0);
}

#[test]
fn skipped_lifetime_is_kept_and_unconstrained() {
    let lp = GenericParam::Lifetime(LifetimeParam {
        name: "a".to_string(),
        bounds: vec![],
        markers: vec![skip_marker("shallowclone")],
    });
    let d = decl("Keeper", vec![lp], Shape::Struct(FieldList::Unit));
    let mut diags: Vec<Diagnostic> = Vec::new();
    let u = shallowclone::assemble::derive(&d, DeriveType::ShallowClone, &mut diags).unwrap();
    assert_eq!(diags.len(), 0);
    // the excluded lifetime passes through and gets no outlives constraint
    assert_eq!(u.target.args, vec![TargetArg::Keep("a".to_string())]);
    assert_eq!(u.extra_bounds.len(), 0);
}

#[test]
fn malformed_marker_reports_one_diagnostic_and_no_exclusion() {
    let p = type_param(
        "T",
        vec![Marker { tag: "shallowclone".to_string(), arg: MarkerArg::Word("foo".to_string()) }],
    );
    let mut diags: Vec<Diagnostic> = Vec::new();
    let r = is_generic_skipped(DeriveType::ShallowClone, &p, &mut diags);
    assert_eq!(r, Ok(false));
    assert_eq!(
        diags,
        vec![Diagnostic::UnknownAttribute { param: "T".to_string(), marker: 0 }]
    );
}

#[test]
fn unparseable_marker_reports_one_diagnostic() {
    let p = type_param(
        "T",
        vec![Marker { tag: "makeowned".to_string(), arg: MarkerArg::Unparsed }],
    );
    let mut diags: Vec<Diagnostic> = Vec::new();
    let r = is_generic_skipped(DeriveType::MakeOwned, &p, &mut diags);
    assert_eq!(r, Ok(false));
    assert_eq!(diags.len(), 1);
}

#[test]
fn other_kinds_tag_is_not_recognized() {
    // the two root tags are never cross-recognized
    let p = type_param("T", vec![skip_marker("makeowned")]);
    let mut diags: Vec<Diagnostic> = Vec::new();
    assert_eq!(is_generic_skipped(DeriveType::ShallowClone, &p, &mut diags), Ok(false));
    assert_eq!(is_generic_skipped(DeriveType::MakeOwned, &p, &mut diags), Ok(true));
    assert_eq!(diags.len(), 0);
}

#[test]
fn diagnostics_accumulate_across_parameters() {
    let bad = |tag: &str| Marker { tag: tag.to_string(), arg: MarkerArg::Word("oops".to_string()) };
    let d = decl(
        "Multi",
        vec![
            type_param("A", vec![bad("shallowclone")]),
            type_param("B", vec![bad("shallowclone")]),
        ],
        Shape::Struct(FieldList::Unit),
    );
    let mut diags: Vec<Diagnostic> = Vec::new();
    let skipped = resolve_exclusions(DeriveType::ShallowClone, &d, &mut diags).unwrap();
    assert_eq!(skipped, vec![false, false]);
    assert_eq!(
        diags,
        vec![
            Diagnostic::UnknownAttribute { param: "A".to_string(), marker: 0 },
            Diagnostic::UnknownAttribute { param: "B".to_string(), marker: 0 },
        ]
    );
}

#[test]
fn const_param_with_marker_is_fatal() {
    let d = decl(
        "Bad",
        vec![const_param("N", "usize", vec![skip_marker("shallowclone")])],
        Shape::Struct(FieldList::Unit),
    );
    let mut diags: Vec<Diagnostic> = Vec::new();
    assert_eq!(
        shallowclone::assemble::derive(&d, DeriveType::ShallowClone, &mut diags),
        Err(Fatal::MarkerOnConstParam { param: "N".to_string() })
    );
    // the marker belongs to the other kind's resolver: not fatal there
    let u = shallowclone::assemble::derive(&d, DeriveType::MakeOwned, &mut diags);
    assert!(u.is_ok());
}

#[test]
fn derive_assembles_bounds_per_kind() {
    let d = TypeDeclaration {
        name: "Enum".to_string(),
        generics: vec![
            GenericParam::Lifetime(LifetimeParam {
                name: "a".to_string(),
                bounds: vec!["'b".to_string()],
                markers: vec![],
            }),
            GenericParam::Type(TypeParam {
                name: "T".to_string(),
                bounds: vec!["Clone".to_string()],
                markers: vec![],
            }),
        ],
        where_bounds: vec!["T: Send".to_string()],
        shape: Shape::Struct(FieldList::Unit),
    };

    let mut diags: Vec<Diagnostic> = Vec::new();
    let u: GeneratedUnit = shallowclone::assemble::derive(&d, DeriveType::ShallowClone, &mut diags).unwrap();
    assert_eq!(u.kind, DeriveType::ShallowClone);
    assert_eq!(
        u.impl_params,
        vec![
            ImplParam::Lifetime { name: "a".to_string(), bounds: vec!["'b".to_string()] },
            ImplParam::Type { name: "T".to_string(), bounds: vec!["Clone".to_string()] },
        ]
    );
    assert_eq!(
        u.extra_bounds,
        vec![
            ExtraBound::LifetimeOutlivesBorrow("a".to_string()),
            ExtraBound::TypeShallowClone("T".to_string()),
        ]
    );
    // the trailing constraint clause is reproduced verbatim
    assert_eq!(u.where_bounds, vec!["T: Send".to_string()]);

    let u = shallowclone::assemble::derive(&d, DeriveType::MakeOwned, &mut diags).unwrap();
    assert_eq!(
        u.extra_bounds,
        vec![
            ExtraBound::TypeMakeOwned("T".to_string()),
            ExtraBound::OwnedKeepsBounds("T".to_string()),
            ExtraBound::SelfCloneForAll {
                name: "Enum".to_string(),
                args: vec![HktArg::AnyLifetime, HktArg::Named("T".to_string())],
            },
        ]
    );
    // reproduced verbatim for detachment too: deliberately not rewritten onto
    // the projected owned types
    assert_eq!(u.where_bounds, vec!["T: Send".to_string()]);
    assert_eq!(diags.len(), 0);
}
