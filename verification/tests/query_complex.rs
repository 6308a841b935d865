use hecs::World;
use hecs_component_provider::accessor::{AccessorImpl, Capability, Source, StructType};
use hecs_component_provider::component_provider;
use hecs_component_provider::component_provider::{
    derive_muts, derive_option_muts, derive_option_refs, derive_refs,
};
use hecs_component_provider::syntax::{
    Data, DeriveInput, Fields, GenericParam, Member, NamedField, TypeExpr,
};
use hecs_component_provider::{
    query_component_provider_derive, ComponentProvider, ComponentProviderMut,
    ComponentProviderOptional, ComponentProviderOptionalMut,
};

fn named(name: &str) -> TypeExpr {
    TypeExpr::Path { name: name.to_string(), args: vec![] }
}

fn reference(lifetime: Option<&str>, mutable: bool, elem: TypeExpr) -> TypeExpr {
    TypeExpr::Reference {
        lifetime: lifetime.map(|l| l.to_string()),
        mutable,
        elem: Box::new(elem),
    }
}

fn option(inner: TypeExpr) -> TypeExpr {
    TypeExpr::Path { name: "Option".to_string(), args: vec![inner] }
}

fn field(ident: &str, ty: TypeExpr) -> NamedField {
    NamedField { ident: ident.to_string(), ty }
}

/// ```text
/// struct MyQuery<'a> {
///     integer: &'a mut i32,
///     boolean: Option<&'a bool>,
///     component: Option<&'a mut MyComponent>,
///     string: &'a &'a str,
/// }
/// ```
fn my_query() -> DeriveInput {
    DeriveInput {
        ident: "MyQuery".to_string(),
        generics: vec![GenericParam::Lifetime("a".to_string())],
        data: Data::Struct(Fields::Named(vec![
            field("integer", reference(Some("a"), true, named("i32"))),
            field("boolean", option(reference(Some("a"), false, named("bool")))),
            field("component", option(reference(Some("a"), true, named("MyComponent")))),
            field("string", reference(Some("a"), false, reference(Some("a"), false, named("str")))),
        ])),
    }
}

fn accessor(
    capability: Capability,
    component: TypeExpr,
    field: &str,
    return_type: TypeExpr,
) -> AccessorImpl {
    AccessorImpl {
        capability,
        struct_type: StructType::Query,
        ident: "MyQuery".to_string(),
        component,
        source: Source::Field(Member::Named(field.to_string())),
        return_type,
    }
}

#[derive(Debug, Eq, PartialEq)]
struct MyComponent(i32);

struct MyQuery<'a> {
    integer: &'a mut i32,
    boolean: Option<&'a bool>,
    component: Option<&'a mut MyComponent>,
    string: &'a &'a str,
}

// What the expansion for `MyQuery` says, written out.
impl<'a> ComponentProvider<i32> for MyQuery<'a> {
    fn get(&self) -> &i32 {
        self.integer
    }
}

impl<'a> ComponentProvider<&'a str> for MyQuery<'a> {
    fn get(&self) -> &&'a str {
        self.string
    }
}

impl<'a> ComponentProviderMut<i32> for MyQuery<'a> {
    fn get_mut(&mut self) -> &mut i32 {
        self.integer
    }
}

impl<'a> ComponentProviderOptional<bool> for MyQuery<'a> {
    fn get_optional(&self) -> Option<&bool> {
        if let Some(v) = &self.boolean { Some(&*v) } else { None }
    }
}

impl<'a> ComponentProviderOptional<MyComponent> for MyQuery<'a> {
    fn get_optional(&self) -> Option<&MyComponent> {
        if let Some(v) = &self.component { Some(&*v) } else { None }
    }
}

impl<'a> ComponentProviderOptionalMut<MyComponent> for MyQuery<'a> {
    fn get_optional_mut(&mut self) -> Option<&mut MyComponent> {
        if let Some(v) = &mut self.component { Some(&mut *v) } else { None }
    }
}

const EXPANSION: &str = "\
impl<'a> ::hecs_component_provider::ComponentProvider<i32> for MyQuery<'a> { fn get(&self) -> &i32 { self.integer } }
impl<'a> ::hecs_component_provider::ComponentProvider<&'a str> for MyQuery<'a> { fn get(&self) -> &&'a str { self.string } }
impl<'a> ::hecs_component_provider::ComponentProviderMut<i32> for MyQuery<'a> { fn get_mut(&mut self) -> &mut i32 { self.integer } }
impl<'a> ::hecs_component_provider::ComponentProviderOptional<bool> for MyQuery<'a> { fn get_optional(&self) -> Option<&bool> { if let Some(v) = &self.boolean { Some(&*v) } else { None } } }
impl<'a> ::hecs_component_provider::ComponentProviderOptional<MyComponent> for MyQuery<'a> { fn get_optional(&self) -> Option<&MyComponent> { if let Some(v) = &self.component { Some(&*v) } else { None } } }
impl<'a> ::hecs_component_provider::ComponentProviderOptionalMut<MyComponent> for MyQuery<'a> { fn get_optional_mut(&mut self) -> Option<&mut MyComponent> { if let Some(v) = &mut self.component { Some(&mut *v) } else { None } } }
";

#[test]
fn query_component_provider_complex_test() {
    assert_eq!(query_component_provider_derive(&my_query()), EXPANSION);

    let mut world = World::new();
    world.spawn((123, true, MyComponent(456), "abc"));
    world.spawn((42, false, MyComponent(789)));

    let mut query =
        world.query::<(&mut i32, Option<&bool>, Option<&mut MyComponent>, &&'static str)>();
    let mut query_iter = query.iter();
    let (integer, boolean, component, string) =
        query_iter.next().expect("At least one entity should be returned");
    assert!(query_iter.next().is_none(), "Only one entity should be returned");
    let mut entity = MyQuery { integer, boolean, component, string };

    let integer: &i32 = entity.get();
    assert_eq!(*integer, 123);

    let integer: &mut i32 = entity.get_mut();
    assert_eq!(*integer, 123);

    let boolean: Option<&bool> = entity.get_optional();
    assert_eq!(boolean, Some(&true));

    let component: Option<&MyComponent> = entity.get_optional();
    assert_eq!(component, Some(&MyComponent(456)));

    let component: Option<&mut MyComponent> = entity.get_optional_mut();
    assert_eq!(component, Some(&mut MyComponent(456)));

    let string: &&str = entity.get();
    assert_eq!(*string, "abc");
}

#[test]
fn query_get_is_emitted_for_every_reference() {
    assert_eq!(
        derive_refs(&my_query()).unwrap(),
        vec![
            accessor(Capability::Get, named("i32"), "integer", reference(None, false, named("i32"))),
            accessor(
                Capability::Get,
                reference(Some("a"), false, named("str")),
                "string",
                reference(None, false, reference(Some("a"), false, named("str"))),
            ),
        ]
    );
}

#[test]
fn query_get_mut_is_emitted_for_mutable_references_only() {
    assert_eq!(
        derive_muts(&my_query()).unwrap(),
        vec![accessor(
            Capability::GetMut,
            named("i32"),
            "integer",
            reference(None, true, named("i32")),
        )]
    );
}

#[test]
fn query_get_optional_is_emitted_for_every_optional_reference() {
    assert_eq!(
        derive_option_refs(&my_query()).unwrap(),
        vec![
            accessor(
                Capability::GetOptional,
                named("bool"),
                "boolean",
                option(reference(None, false, named("bool"))),
            ),
            accessor(
                Capability::GetOptional,
                named("MyComponent"),
                "component",
                option(reference(None, false, named("MyComponent"))),
            ),
        ]
    );
}

#[test]
fn query_get_optional_mut_is_emitted_for_mutable_optional_references_only() {
    assert_eq!(
        derive_option_muts(&my_query()).unwrap(),
        vec![accessor(
            Capability::GetOptionalMut,
            named("MyComponent"),
            "component",
            option(reference(None, true, named("MyComponent"))),
        )]
    );
}

#[test]
fn query_accessors_come_capability_by_capability() {
    let input = my_query();
    let mut expected = derive_refs(&input).unwrap();
    expected.extend(derive_muts(&input).unwrap());
    expected.extend(derive_option_refs(&input).unwrap());
    expected.extend(derive_option_muts(&input).unwrap());
    assert_eq!(component_provider::derive(&input).unwrap(), expected);
    assert_eq!(expected.len(), 6);
}

#[test]
fn query_get_mut_changes_the_component() {
    let mut world = World::new();
    world.spawn((123, true, MyComponent(456), "abc"));
    {
        let mut query =
            world.query::<(&mut i32, Option<&bool>, Option<&mut MyComponent>, &&'static str)>();
        let (integer, boolean, component, string) = query.iter().next().unwrap();
        let mut entity = MyQuery { integer, boolean, component, string };
        *ComponentProviderMut::<i32>::get_mut(&mut entity) += 1;
        if let Some(c) = ComponentProviderOptionalMut::<MyComponent>::get_optional_mut(&mut entity)
        {
            c.0 = 7;
        }
    }
    let mut query = world.query::<(&i32, &MyComponent)>();
    let (integer, component) = query.iter().next().unwrap();
    assert_eq!(*integer, 124);
    assert_eq!(component, &MyComponent(7));
}
