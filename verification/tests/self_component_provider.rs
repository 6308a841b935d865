use hecs_component_provider::accessor::{AccessorImpl, Capability, Source, StructType};
use hecs_component_provider::error::DeriveError;
use hecs_component_provider::self_component_provider;
use hecs_component_provider::syntax::{Data, DeriveInput, Fields, GenericParam, TypeExpr};
use hecs_component_provider::{
    default_trait_impl, self_component_provider_derive, ComponentProvider, ComponentProviderMut,
};
use hecs_component_provider::syntax::ItemTrait;

fn named(name: &str) -> TypeExpr {
    TypeExpr::Path { name: name.to_string(), args: vec![] }
}

fn reference(mutable: bool, elem: TypeExpr) -> TypeExpr {
    TypeExpr::Reference { lifetime: None, mutable, elem: Box::new(elem) }
}

/// `struct MyComponent(i32);`
fn my_component() -> DeriveInput {
    DeriveInput {
        ident: "MyComponent".to_string(),
        generics: vec![],
        data: Data::Struct(Fields::Unnamed(vec![named("i32")])),
    }
}

struct MyComponent(i32);

// What the expansion for `MyComponent` says, written out.
impl ComponentProvider<MyComponent> for MyComponent {
    fn get(&self) -> &MyComponent {
        self
    }
}

impl ComponentProviderMut<MyComponent> for MyComponent {
    fn get_mut(&mut self) -> &mut MyComponent {
        self
    }
}

trait ReturnInner: ComponentProvider<MyComponent> {
    fn return_inner(&self) -> i32 {
        let c: &MyComponent = self.get();
        c.0
    }
}

// What the forwarder emits for `ReturnInner`, written out.
impl<T> ReturnInner for T where T: ComponentProvider<MyComponent> {}

const GET: &str = "impl ::hecs_component_provider::ComponentProvider<MyComponent> for MyComponent \
                   { fn get(&self) -> &MyComponent { self } }\n";
const GET_MUT: &str = "impl ::hecs_component_provider::ComponentProviderMut<MyComponent> for \
                       MyComponent { fn get_mut(&mut self) -> &mut MyComponent { self } }\n";

#[test]
fn self_component_provider_test() {
    let expansion = self_component_provider_derive(&my_component());
    assert_eq!(expansion, format!("{}{}", GET, GET_MUT));

    let declaration = "trait ReturnInner: ComponentProvider<MyComponent> { fn return_inner(&self) \
                       -> i32 { let c: &MyComponent = self.get(); c.0 } }";
    let forwarded = default_trait_impl(
        "",
        &ItemTrait {
            ident: "ReturnInner".to_string(),
            supertraits: vec!["ComponentProvider<MyComponent>".to_string()],
            declaration: declaration.to_string(),
        },
    );
    assert_eq!(
        forwarded,
        format!(
            "{}\nimpl<T> ReturnInner for T where T: ComponentProvider<MyComponent> {{}}\n",
            declaration
        )
    );

    let c1 = MyComponent(123);
    assert_eq!(c1.return_inner(), 123);
}

#[test]
fn self_accessors_target_the_struct_itself() {
    let impls = self_component_provider::derive(&my_component()).unwrap();
    assert_eq!(
        impls,
        vec![
            AccessorImpl {
                capability: Capability::Get,
                struct_type: StructType::Bundle,
                ident: "MyComponent".to_string(),
                component: named("MyComponent"),
                source: Source::Itself,
                return_type: reference(false, named("MyComponent")),
            },
            AccessorImpl {
                capability: Capability::GetMut,
                struct_type: StructType::Bundle,
                ident: "MyComponent".to_string(),
                component: named("MyComponent"),
                source: Source::Itself,
                return_type: reference(true, named("MyComponent")),
            },
        ]
    );
}

#[test]
fn self_accessor_get_mut_reaches_the_value() {
    let mut c = MyComponent(1);
    let inner: &mut MyComponent = c.get_mut();
    inner.0 = 7;
    assert_eq!(c.return_inner(), 7);
}

#[test]
fn self_accessors_are_refused_on_an_enum() {
    let mut input = my_component();
    input.data = Data::Enum;
    assert_eq!(self_component_provider::derive(&input), Err(DeriveError::NotAStruct));
    input.data = Data::Union;
    assert_eq!(self_component_provider::derive(&input), Err(DeriveError::NotAStruct));
}

#[test]
fn self_accessors_are_refused_with_a_lifetime() {
    let mut input = my_component();
    input.generics = vec![GenericParam::Lifetime("a".to_string())];
    assert_eq!(self_component_provider::derive(&input), Err(DeriveError::LifetimeParameters));
    assert_eq!(
        self_component_provider_derive(&input),
        "::core::compile_error! { \"no lifetime parameters allowed\" }\n"
    );
}

#[test]
fn self_accessors_are_refused_with_a_type_parameter() {
    let mut input = my_component();
    input.generics = vec![GenericParam::Type("T".to_string())];
    assert_eq!(self_component_provider::derive(&input), Err(DeriveError::TypeParameters));
    input.generics = vec![GenericParam::Const("N".to_string())];
    assert_eq!(self_component_provider::derive(&input), Err(DeriveError::TypeParameters));
    assert_eq!(
        self_component_provider_derive(&input),
        "::core::compile_error! { \"no type parameters allowed\" }\n"
    );
}

#[test]
fn self_accessors_report_a_lifetime_before_a_type_parameter() {
    let mut input = my_component();
    input.generics =
        vec![GenericParam::Type("T".to_string()), GenericParam::Lifetime("a".to_string())];
    assert_eq!(self_component_provider::derive(&input), Err(DeriveError::LifetimeParameters));
    input.data = Data::Enum;
    assert_eq!(self_component_provider::derive(&input), Err(DeriveError::NotAStruct));
}

#[test]
fn self_accessors_do_not_depend_on_the_fields() {
    let mut input = my_component();
    input.data = Data::Struct(Fields::Unit);
    assert_eq!(self_component_provider_derive(&input), format!("{}{}", GET, GET_MUT));
}
