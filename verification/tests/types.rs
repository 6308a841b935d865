use hecs_component_provider::accessor::{AccessorImpl, Capability, Source, StructType};
use hecs_component_provider::component_provider::{
    count_lifetime_params, derive_muts, derive_option_muts, derive_option_refs, derive_refs, extract_option_type,
    extract_ref_type, extract_wrapped_reference, is_mutable_type_ref, remove_type_lifetime,
    remove_type_mutability,
};
use hecs_component_provider::render::{
    compile_error_text, decimal_text, impl_text, impls_text, list_text, member_text, type_text,
};
use hecs_component_provider::syntax::{
    clone_name, clone_types, Data, DeriveInput, Fields, GenericParam, Member, TypeExpr,
};

fn named(name: &str) -> TypeExpr {
    TypeExpr::Path { name: name.to_string(), args: vec![] }
}

fn generic(name: &str, args: Vec<TypeExpr>) -> TypeExpr {
    TypeExpr::Path { name: name.to_string(), args }
}

fn reference(lifetime: Option<&str>, mutable: bool, elem: TypeExpr) -> TypeExpr {
    TypeExpr::Reference {
        lifetime: lifetime.map(|l| l.to_string()),
        mutable,
        elem: Box::new(elem),
    }
}

fn option(inner: TypeExpr) -> TypeExpr {
    generic("Option", vec![inner])
}

fn tuple(elems: Vec<TypeExpr>) -> TypeExpr {
    TypeExpr::Tuple { elems }
}

fn verbatim(text: &str) -> TypeExpr {
    TypeExpr::Verbatim { text: text.to_string() }
}

fn query(types: Vec<TypeExpr>) -> DeriveInput {
    DeriveInput {
        ident: "Q".to_string(),
        generics: vec![GenericParam::Lifetime("a".to_string())],
        data: Data::Struct(Fields::Unnamed(types)),
    }
}

#[test]
fn ref_type_is_what_a_reference_borrows() {
    assert_eq!(extract_ref_type(&reference(Some("a"), false, named("T"))), Some(named("T")));
    assert_eq!(extract_ref_type(&reference(None, true, named("T"))), Some(named("T")));
    assert_eq!(
        extract_ref_type(&reference(Some("a"), false, reference(Some("a"), true, named("str")))),
        Some(reference(Some("a"), true, named("str")))
    );
    assert_eq!(extract_ref_type(&named("T")), None);
    assert_eq!(extract_ref_type(&option(reference(None, false, named("T")))), None);
    assert_eq!(extract_ref_type(&tuple(vec![reference(None, false, named("T"))])), None);
    assert_eq!(extract_ref_type(&verbatim("&T")), None);
}

#[test]
fn option_type_is_what_an_optional_reference_borrows() {
    assert_eq!(extract_option_type(&option(reference(Some("a"), false, named("T")))), Some(named("T")));
    assert_eq!(extract_option_type(&option(reference(None, true, named("T")))), Some(named("T")));
    assert_eq!(extract_option_type(&option(named("T"))), None);
    assert_eq!(extract_option_type(&generic("Option", vec![])), None);
    assert_eq!(extract_option_type(&reference(None, false, named("T"))), None);
    assert_eq!(extract_option_type(&generic("Vec", vec![reference(None, false, named("T"))])), None);
    assert_eq!(
        extract_option_type(&generic("std::option::Option", vec![reference(None, false, named("T"))])),
        None
    );
    assert_eq!(extract_option_type(&tuple(vec![option(reference(None, false, named("T")))])), None);
    assert_eq!(extract_option_type(&verbatim("Option<&T>")), None);
    assert_eq!(
        extract_option_type(&generic(
            "Option",
            vec![reference(None, false, named("T")), named("U")]
        )),
        Some(named("T"))
    );
    assert_eq!(
        extract_option_type(&generic(
            "Option",
            vec![named("U"), reference(None, false, named("T"))]
        )),
        None
    );
}

#[test]
fn wrapped_reference_is_the_first_argument() {
    let ty = option(reference(Some("a"), true, named("T")));
    assert_eq!(extract_wrapped_reference(&ty), Some(&reference(Some("a"), true, named("T"))));
    assert_eq!(extract_wrapped_reference(&named("Option")), None);
}

#[test]
fn mutable_type_ref_looks_at_outermost_references() {
    assert!(is_mutable_type_ref(&reference(None, true, named("T"))));
    assert!(!is_mutable_type_ref(&reference(None, false, named("T"))));
    assert!(!is_mutable_type_ref(&named("T")));
    assert!(!is_mutable_type_ref(&verbatim("&mut T")));
    assert!(is_mutable_type_ref(&option(reference(Some("a"), true, named("T")))));
    assert!(!is_mutable_type_ref(&option(reference(Some("a"), false, named("T")))));
    // A mutable reference below a shared one does not count.
    assert!(!is_mutable_type_ref(&reference(None, false, reference(None, true, named("T")))));
    assert!(is_mutable_type_ref(&reference(None, true, reference(None, false, named("T")))));
    assert!(is_mutable_type_ref(&tuple(vec![named("A"), reference(None, true, named("B"))])));
    assert!(!is_mutable_type_ref(&tuple(vec![named("A"), reference(None, false, named("B"))])));
    assert!(!is_mutable_type_ref(&tuple(vec![])));
    assert!(is_mutable_type_ref(&generic(
        "Map",
        vec![named("K"), generic("Vec", vec![tuple(vec![reference(None, true, named("V"))])])]
    )));
}

#[test]
fn removing_mutability_touches_outermost_references_only() {
    assert_eq!(
        remove_type_mutability(&reference(Some("a"), true, named("T"))),
        reference(Some("a"), false, named("T"))
    );
    assert_eq!(
        remove_type_mutability(&reference(None, true, reference(None, true, named("T")))),
        reference(None, false, reference(None, true, named("T")))
    );
    assert_eq!(
        remove_type_mutability(&option(reference(Some("a"), true, named("T")))),
        option(reference(Some("a"), false, named("T")))
    );
    assert_eq!(
        remove_type_mutability(&tuple(vec![reference(None, true, named("A")), named("B")])),
        tuple(vec![reference(None, false, named("A")), named("B")])
    );
    assert_eq!(remove_type_mutability(&named("T")), named("T"));
    assert_eq!(remove_type_mutability(&verbatim("&mut T")), verbatim("&mut T"));
}

#[test]
fn removing_lifetimes_touches_outermost_references_only() {
    assert_eq!(
        remove_type_lifetime(&reference(Some("a"), true, named("T"))),
        reference(None, true, named("T"))
    );
    assert_eq!(
        remove_type_lifetime(&reference(Some("a"), false, reference(Some("a"), false, named("str")))),
        reference(None, false, reference(Some("a"), false, named("str")))
    );
    assert_eq!(
        remove_type_lifetime(&option(reference(Some("a"), true, named("T")))),
        option(reference(None, true, named("T")))
    );
    assert_eq!(
        remove_type_lifetime(&tuple(vec![reference(Some("b"), false, named("A")), named("B")])),
        tuple(vec![reference(None, false, named("A")), named("B")])
    );
    assert_eq!(remove_type_lifetime(&named("T")), named("T"));
    assert_eq!(remove_type_lifetime(&verbatim("&'a T")), verbatim("&'a T"));
}

#[test]
fn unsupported_field_shapes_are_skipped() {
    let input = query(vec![
        named("Owned"),
        tuple(vec![reference(Some("a"), true, named("A"))]),
        generic("Vec", vec![reference(Some("a"), true, named("B"))]),
        option(named("C")),
        verbatim("[&'a mut D; 2]"),
        reference(Some("a"), false, named("E")),
    ]);
    let refs = derive_refs(&input).unwrap();
    assert_eq!(refs.len(), 1);
    assert_eq!(refs[0].source, Source::Field(Member::Unnamed(5)));
    assert_eq!(derive_muts(&input), Ok(vec![]));
    assert_eq!(derive_option_refs(&input), Ok(vec![]));
    assert_eq!(derive_option_muts(&input), Ok(vec![]));
}

#[test]
fn shared_reference_never_gains_get_mut() {
    let input = query(vec![
        reference(Some("a"), false, named("A")),
        reference(Some("a"), false, reference(Some("a"), true, named("B"))),
        option(reference(Some("a"), false, named("C"))),
    ]);
    assert_eq!(derive_muts(&input), Ok(vec![]));
    assert_eq!(derive_option_muts(&input), Ok(vec![]));
    assert_eq!(derive_refs(&input).unwrap().len(), 2);
    assert_eq!(derive_option_refs(&input).unwrap().len(), 1);
}

#[test]
fn optional_mutability_is_that_of_the_wrapped_reference() {
    let input = query(vec![
        generic("Option", vec![reference(Some("a"), false, named("A")), reference(None, true, named("X"))]),
        generic("Option", vec![reference(Some("a"), true, named("B")), named("Y")]),
    ]);
    let muts = derive_option_muts(&input).unwrap();
    assert_eq!(muts.len(), 1);
    assert_eq!(muts[0].component, named("B"));
    assert_eq!(muts[0].source, Source::Field(Member::Unnamed(1)));
    assert_eq!(derive_option_refs(&input).unwrap().len(), 2);
}

#[test]
fn type_text_writes_each_kind_of_type() {
    assert_eq!(type_text(&named("i32")), "i32");
    assert_eq!(type_text(&reference(None, false, named("T"))), "&T");
    assert_eq!(type_text(&reference(None, true, named("T"))), "&mut T");
    assert_eq!(type_text(&reference(Some("a"), false, named("T"))), "&'a T");
    assert_eq!(type_text(&reference(Some("a"), true, named("T"))), "&'a mut T");
    assert_eq!(type_text(&option(reference(Some("a"), true, named("T")))), "Option<&'a mut T>");
    assert_eq!(type_text(&generic("Map", vec![named("K"), named("V")])), "Map<K, V>");
    assert_eq!(type_text(&tuple(vec![])), "()");
    assert_eq!(type_text(&tuple(vec![named("A")])), "(A,)");
    assert_eq!(type_text(&tuple(vec![named("A"), named("B"), named("C")])), "(A, B, C)");
    assert_eq!(type_text(&verbatim("[u8; 4]")), "[u8; 4]");
    assert_eq!(
        type_text(&reference(None, false, reference(Some("a"), false, named("str")))),
        "&&'a str"
    );
    assert_eq!(
        type_text(&tuple(vec![tuple(vec![tuple(vec![tuple(vec![reference(
            None,
            true,
            named("T")
        )])])])])),
        "((((&mut T,),),),)"
    );
    assert_eq!(list_text(&vec![]), "");
    assert_eq!(list_text(&vec![named("A"), named("B")]), "A, B");
}

#[test]
fn decimal_text_writes_numbers() {
    assert_eq!(decimal_text(0), "0");
    assert_eq!(decimal_text(7), "7");
    assert_eq!(decimal_text(9), "9");
    assert_eq!(decimal_text(10), "10");
    assert_eq!(decimal_text(123), "123");
    assert_eq!(decimal_text(4056), "4056");
    assert_eq!(decimal_text(1234567890), "1234567890");
    assert_eq!(decimal_text(usize::MAX), usize::MAX.to_string());
}

#[test]
fn member_text_writes_names_and_positions() {
    assert_eq!(member_text(&Member::Named("position".to_string())), "position");
    assert_eq!(member_text(&Member::Unnamed(12)), "12");
}

#[test]
fn impl_text_writes_each_capability() {
    let optional = AccessorImpl {
        capability: Capability::GetOptional,
        struct_type: StructType::Query,
        ident: "Q".to_string(),
        component: named("T"),
        source: Source::Field(Member::Unnamed(10)),
        return_type: option(reference(None, false, named("T"))),
    };
    assert_eq!(
        impl_text(&optional),
        "impl<'a> ::hecs_component_provider::ComponentProviderOptional<T> for Q<'a> \
         { fn get_optional(&self) -> Option<&T> \
         { if let Some(v) = &self.10 { Some(&*v) } else { None } } }\n"
    );
    let optional_mut = AccessorImpl {
        capability: Capability::GetOptionalMut,
        struct_type: StructType::Query,
        ident: "Q".to_string(),
        component: named("T"),
        source: Source::Field(Member::Named("t".to_string())),
        return_type: option(reference(None, true, named("T"))),
    };
    assert_eq!(
        impl_text(&optional_mut),
        "impl<'a> ::hecs_component_provider::ComponentProviderOptionalMut<T> for Q<'a> \
         { fn get_optional_mut(&mut self) -> Option<&mut T> \
         { if let Some(v) = &mut self.t { Some(&mut *v) } else { None } } }\n"
    );
    assert_eq!(impls_text(&vec![]), "");
    assert_eq!(
        impls_text(&vec![optional.clone(), optional_mut.clone()]),
        format!("{}{}", impl_text(&optional), impl_text(&optional_mut))
    );
}

#[test]
fn compile_error_text_quotes_the_message() {
    assert_eq!(compile_error_text("no"), "::core::compile_error! { \"no\" }\n");
}

#[test]
fn clones_are_equal_to_what_they_copy() {
    let ty = generic(
        "Map",
        vec![
            reference(Some("a"), true, tuple(vec![named("A"), verbatim("[u8]")])),
            option(reference(None, false, named("B"))),
        ],
    );
    assert_eq!(ty.clone(), ty);
    assert_eq!(clone_types(&vec![ty.clone(), named("C")]), vec![ty, named("C")]);
    assert_eq!(clone_name(&Some("a".to_string())), Some("a".to_string()));
    assert_eq!(clone_name(&None), None);
    assert_eq!(Member::Named("x".to_string()).clone(), Member::Named("x".to_string()));
    assert_eq!(Member::Unnamed(3).clone(), Member::Unnamed(3));
}

#[test]
fn lifetime_parameters_are_counted() {
    assert_eq!(count_lifetime_params(&vec![]), 0);
    assert_eq!(
        count_lifetime_params(&vec![
            GenericParam::Lifetime("a".to_string()),
            GenericParam::Type("T".to_string()),
            GenericParam::Lifetime("b".to_string()),
            GenericParam::Const("N".to_string()),
        ]),
        2
    );
}
