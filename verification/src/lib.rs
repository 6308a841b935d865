//! Component providers for entities of an entity-component-system: typed
//! accessor traits, and the generators that write their implementations for
//! bundle and query structs.
//!
//! A behaviour is a trait with default methods over the components it needs:
//! `trait ApplyVelocity: ComponentProviderMut<Position> + ComponentProvider<Velocity>`.
//! Every entity that provides those components has the behaviour. The
//! generators supply the providers:
//!
//! - [`component_provider`] derives the accessors of a struct's fields, for a
//!   bundle that owns its components and for a query that borrows them;
//! - [`self_component_provider`] makes a component the provider of itself;
//! - [`default_trait_impl`](mod@default_trait_impl) gives a behaviour to
//!   every type that meets its supertrait bounds;
//! - [`tuple_query`] turns a tuple of component references into a query
//!   struct.
//!
//! The generators read plain descriptions of declarations ([`syntax`]) and
//! emit implementations ([`accessor`]) and their source text ([`render`]).
//! What each emits is stated in its contract and proved.

pub mod accessor;
pub mod component_provider;
pub mod default_trait_impl;
pub mod error;
pub mod render;
pub mod self_component_provider;
pub mod syntax;
pub mod tuple_query;

pub use crate::tuple_query::gen_tuple_query_component_providers;

use vstd::prelude::*;
use crate::accessor::AccessorModel;
use crate::component_provider::derived_all;
use crate::default_trait_impl::forwarded_source;
use crate::error::DeriveError;
use crate::render::{compile_error_source, compile_error_text, impls_source, impls_text};
use crate::self_component_provider::self_derived;
use crate::syntax::{DeriveInput, ItemTrait};

verus! {

/// Gives shared access to the one component of type `Component` that a value holds.
pub trait ComponentProvider<Component> {
    fn get(&self) -> &Component;
}

/// Gives exclusive access to the one component of type `Component` that a value holds.
pub trait ComponentProviderMut<Component>: ComponentProvider<Component> {
    fn get_mut(&mut self) -> &mut Component;
}

/// Gives shared access to a component of type `Component` that a value may hold.
pub trait ComponentProviderOptional<Component> {
    fn get_optional(&self) -> Option<&Component>;
}

/// Gives exclusive access to a component of type `Component` that a value may hold.
pub trait ComponentProviderOptionalMut<Component>: ComponentProviderOptional<Component> {
    fn get_optional_mut(&mut self) -> Option<&mut Component>;
}

/// The source text that an expansion hands back: the implementations, or
/// for a refused declaration the compile error that reports why.
pub open spec fn expansion_source(outcome: Result<Seq<AccessorModel>, DeriveError>) -> Seq<char> {
    match outcome {
        Ok(impls) => impls_source(impls),
        Err(e) => compile_error_source(e.message_text()),
    }
}

/// Expands `derive(SelfComponentProvider)` on a declaration: the source text
/// of `get` and `get_mut` for the struct's own type, or of a compile error.
pub fn self_component_provider_derive(input: &DeriveInput) -> (r: String)
    ensures
        r@ == expansion_source(self_derived(*input)),
{
    match self_component_provider::derive(input) {
        Ok(impls) => impls_text(&impls),
        Err(e) => compile_error_text(e.message().as_str()),
    }
}

/// Expands `derive(ComponentProvider)` on a declaration: the source text of
/// the accessors that its fields give rise to, or of a compile error.
pub fn query_component_provider_derive(input: &DeriveInput) -> (r: String)
    ensures
        r@ == expansion_source(derived_all(*input)),
{
    match component_provider::derive(input) {
        Ok(impls) => impls_text(&impls),
        Err(e) => compile_error_text(e.message().as_str()),
    }
}

/// Expands the attribute `default_trait_impl` on a trait: the source text of
/// the trait followed by its blanket implementation. The attribute takes no
/// arguments; what it is given is not read.
pub fn default_trait_impl(_attr: &str, input: &ItemTrait) -> (r: String)
    ensures
        r@ == forwarded_source(*input),
{
    match default_trait_impl::generate(input) {
        Ok(text) => text,
        Err(e) => compile_error_text(e.message().as_str()),
    }
}

} // verus!
