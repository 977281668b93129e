use derive_constructor::ast::GenericParam;
use derive_constructor::ast::NamedField;
use derive_constructor::ast::TypeDecl;
use derive_constructor::ast::Variant;
use derive_constructor::ast::VariantFields;
use derive_constructor::deriver::bare_ref;
use derive_constructor::deriver::constructor_derive;
use derive_constructor::deriver::derive_trait_name;
use derive_constructor::ident::placeholder_name;
use derive_constructor::output::ConstructExpr;
use derive_constructor::output::ImplMember;
use derive_constructor::output::Param;
use derive_constructor::output::TraitMember;

fn s(text: &str) -> String {
    text.to_owned()
}

fn param(name: &str, ty: &str) -> Param {
    Param { name: s(name), ty: s(ty) }
}

/// The declaration of
/// `enum Foo<'a, T: Clone> where T: Copy { A, B, X(i32, &'a str, T), Y { foo: i32, bar: &'a str } }`.
fn foo_decl() -> TypeDecl {
    TypeDecl {
        name: s("Foo"),
        generics: vec![
            GenericParam::Lifetime { lifetime: s("'a"), bounds: None },
            GenericParam::Type { ident: s("T"), bounds: Some(s("Clone")) },
        ],
        where_clause: Some(s("T: Copy")),
        variants: vec![
            Variant { name: s("A"), fields: VariantFields::Positional(vec![]) },
            Variant { name: s("B"), fields: VariantFields::Positional(vec![]) },
            Variant {
                name: s("X"),
                fields: VariantFields::Positional(vec![s("i32"), s("&'a str"), s("T")]),
            },
            Variant {
                name: s("Y"),
                fields: VariantFields::Named(vec![
                    NamedField { name: s("foo"), ty: s("i32") },
                    NamedField { name: s("bar"), ty: s("&'a str") },
                ]),
            },
        ],
    }
}

#[test]
fn test() {
    let decl = foo_decl();
    let (gt, gi) = constructor_derive(&decl);

    assert_eq!(gt.name, s("FooConstructor"));
    assert_eq!(gt.generics, foo_decl().generics);
    assert_eq!(gt.where_clause, Some(s("T: Copy")));
    assert_eq!(
        gt.members,
        vec![
            TraitMember::Constant { name: s("A") },
            TraitMember::Constant { name: s("B") },
            TraitMember::Function {
                name: s("X"),
                params: vec![
                    param("__binding_0", "i32"),
                    param("__binding_1", "&'a str"),
                    param("__binding_2", "T"),
                ],
            },
            TraitMember::Function {
                name: s("Y"),
                params: vec![param("foo", "i32"), param("bar", "&'a str")],
            },
        ]
    );

    assert_eq!(gi.trait_name, s("FooConstructor"));
    assert_eq!(gi.ty_name, s("Foo"));
    assert_eq!(gi.generics, foo_decl().generics);
    assert_eq!(gi.generic_args, vec![s("'a"), s("T")]);
    assert_eq!(gi.where_clause, Some(s("T: Copy")));
    assert_eq!(
        gi.members,
        vec![
            ImplMember::Constant { name: s("A") },
            ImplMember::Constant { name: s("B") },
            ImplMember::Function {
                name: s("X"),
                params: vec![
                    param("__binding_0", "i32"),
                    param("__binding_1", "&'a str"),
                    param("__binding_2", "T"),
                ],
                body: ConstructExpr {
                    ty_name: s("Foo"),
                    variant: s("X"),
                    named: false,
                    args: vec![s("__binding_0"), s("__binding_1"), s("__binding_2")],
                },
            },
            ImplMember::Function {
                name: s("Y"),
                params: vec![param("foo", "i32"), param("bar", "&'a str")],
                body: ConstructExpr {
                    ty_name: s("Foo"),
                    variant: s("Y"),
                    named: true,
                    args: vec![s("foo"), s("bar")],
                },
            },
        ]
    );
}

#[test]
fn single_fieldless_variant() {
    let decl = TypeDecl {
        name: s("Unit"),
        generics: vec![],
        where_clause: None,
        variants: vec![Variant { name: s("Only"), fields: VariantFields::Positional(vec![]) }],
    };
    let (gt, gi) = constructor_derive(&decl);
    assert_eq!(gt.name, s("UnitConstructor"));
    assert_eq!(gt.generics, vec![]);
    assert_eq!(gt.where_clause, None);
    assert_eq!(gt.members, vec![TraitMember::Constant { name: s("Only") }]);
    assert_eq!(gi.generic_args, Vec::<String>::new());
    assert_eq!(gi.members, vec![ImplMember::Constant { name: s("Only") }]);
}

#[test]
fn empty_named_fields_give_a_constant() {
    let decl = TypeDecl {
        name: s("E"),
        generics: vec![],
        where_clause: None,
        variants: vec![Variant { name: s("V"), fields: VariantFields::Named(vec![]) }],
    };
    let (gt, gi) = constructor_derive(&decl);
    assert_eq!(gt.members, vec![TraitMember::Constant { name: s("V") }]);
    assert_eq!(gi.members, vec![ImplMember::Constant { name: s("V") }]);
}

#[test]
fn member_count_and_order() {
    let decl = foo_decl();
    let (gt, gi) = constructor_derive(&decl);
    assert_eq!(gt.members.len(), decl.variants.len());
    assert_eq!(gi.members.len(), gt.members.len());
    let trait_names: Vec<&String> = gt
        .members
        .iter()
        .map(|m| match m {
            TraitMember::Constant { name } => name,
            TraitMember::Function { name, .. } => name,
        })
        .collect();
    let impl_names: Vec<&String> = gi
        .members
        .iter()
        .map(|m| match m {
            ImplMember::Constant { name } => name,
            ImplMember::Function { name, .. } => name,
        })
        .collect();
    let variant_names: Vec<&String> = decl.variants.iter().map(|v| &v.name).collect();
    assert_eq!(trait_names, variant_names);
    assert_eq!(impl_names, variant_names);
}

#[test]
fn kind_follows_field_count() {
    let decl = foo_decl();
    let (gt, _) = constructor_derive(&decl);
    assert!(matches!(&gt.members[0], TraitMember::Constant { .. }));
    assert!(matches!(&gt.members[1], TraitMember::Constant { .. }));
    match &gt.members[2] {
        TraitMember::Function { params, .. } => assert_eq!(params.len(), 3),
        other => panic!("expected a function member, got {:?}", other),
    }
    match &gt.members[3] {
        TraitMember::Function { params, .. } => assert_eq!(params.len(), 2),
        other => panic!("expected a function member, got {:?}", other),
    }
}

#[test]
fn bodies_forward_parameters_in_order() {
    let decl = foo_decl();
    let (_, gi) = constructor_derive(&decl);
    for member in &gi.members {
        if let ImplMember::Function { params, body, .. } = member {
            let names: Vec<String> = params.iter().map(|p| p.name.clone()).collect();
            assert_eq!(&body.args, &names);
            assert_eq!(body.ty_name, s("Foo"));
        }
    }
    match &gi.members[2] {
        ImplMember::Function { body, .. } => assert!(!body.named),
        other => panic!("expected a function member, got {:?}", other),
    }
    match &gi.members[3] {
        ImplMember::Function { body, .. } => assert!(body.named),
        other => panic!("expected a function member, got {:?}", other),
    }
}

/// Stand-ins for `Foo`'s variants with uniform field types, used to carry
/// out the construction that the derived bodies describe.
#[derive(Debug, PartialEq)]
enum Built {
    X(i32, i32, i32),
    Y { foo: i32, bar: i32 },
}

/// Evaluates a derived body's argument list under an environment binding
/// parameter names to values, as the generated function's caller would bind
/// them.
fn eval_args(args: &[String], env: &[(String, i32)]) -> Vec<i32> {
    args.iter()
        .map(|a| env.iter().find(|(n, _)| n == a).expect("a bound parameter").1)
        .collect()
}

#[test]
fn round_trip_construction() {
    let decl = foo_decl();
    let (_, gi) = constructor_derive(&decl);

    // Positional variant: bind the derived parameter names to values, look
    // the body's arguments up by name, and construct. The result equals
    // direct construction from the same values.
    match &gi.members[2] {
        ImplMember::Function { params, body, .. } => {
            assert_eq!(body.variant, s("X"));
            assert_eq!(body.ty_name, s("Foo"));
            assert!(!body.named);
            let vals = vec![10, 20, 30];
            let env: Vec<(String, i32)> = params
                .iter()
                .map(|p| p.name.clone())
                .zip(vals.iter().copied())
                .collect();
            let forwarded = eval_args(&body.args, &env);
            assert_eq!(forwarded, vals);
            assert_eq!(Built::X(forwarded[0], forwarded[1], forwarded[2]), Built::X(10, 20, 30));
        }
        other => panic!("expected a function member, got {:?}", other),
    }

    // Named variant: the same, with named-field construction.
    match &gi.members[3] {
        ImplMember::Function { params, body, .. } => {
            assert_eq!(body.variant, s("Y"));
            assert!(body.named);
            let vals = vec![1, 2];
            let env: Vec<(String, i32)> = params
                .iter()
                .map(|p| p.name.clone())
                .zip(vals.iter().copied())
                .collect();
            let forwarded = eval_args(&body.args, &env);
            assert_eq!(forwarded, vals);
            assert_eq!(Built::Y { foo: forwarded[0], bar: forwarded[1] }, Built::Y { foo: 1, bar: 2 });
        }
        other => panic!("expected a function member, got {:?}", other),
    }
}

#[test]
fn placeholder_names_by_position() {
    assert_eq!(placeholder_name(0), s("__binding_0"));
    assert_eq!(placeholder_name(1), s("__binding_1"));
    assert_eq!(placeholder_name(9), s("__binding_9"));
    assert_eq!(placeholder_name(10), s("__binding_10"));
    assert_eq!(placeholder_name(205), s("__binding_205"));
}

#[test]
fn placeholder_names_are_reproducible_and_distinct() {
    for i in 0..50usize {
        assert_eq!(placeholder_name(i), placeholder_name(i));
        for j in 0..i {
            assert_ne!(placeholder_name(i), placeholder_name(j));
        }
    }
}

#[test]
fn deriving_twice_is_identical() {
    let decl = foo_decl();
    let first = constructor_derive(&decl);
    let second = constructor_derive(&decl);
    assert_eq!(first, second);
}

#[test]
fn trait_name_is_concatenation() {
    assert_eq!(derive_trait_name(&s("Foo")), s("FooConstructor"));
    assert_eq!(derive_trait_name(&s("X")), s("XConstructor"));
}

#[test]
fn bare_references_of_generic_parameters() {
    assert_eq!(
        bare_ref(&GenericParam::Type { ident: s("T"), bounds: Some(s("Clone")) }),
        s("T")
    );
    assert_eq!(
        bare_ref(&GenericParam::Lifetime { lifetime: s("'a"), bounds: None }),
        s("'a")
    );
    assert_eq!(bare_ref(&GenericParam::Const { ident: s("N"), ty: s("usize") }), s("N"));
}
