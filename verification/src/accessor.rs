//! Accessor capabilities and the implementations that the generators emit.

use vstd::prelude::*;
use crate::syntax::{Member, MemberModel, TypeExpr, TypeModel};

verus! {

/// One of the four ways to reach a component.
#[derive(Debug, Clone, Copy, PartialEq, Eq, Structural)]
pub enum Capability {
    /// `ComponentProvider::get`
    Get,
    /// `ComponentProviderMut::get_mut`
    GetMut,
    /// `ComponentProviderOptional::get_optional`
    GetOptional,
    /// `ComponentProviderOptionalMut::get_optional_mut`
    GetOptionalMut,
}

/// The kind of a struct: a bundle owns its components, a query borrows them.
#[derive(Debug, Clone, Copy, PartialEq, Eq, Structural)]
pub enum StructType {
    /// No lifetime parameter.
    Bundle,
    /// Exactly one lifetime parameter.
    Query,
}

/// What an accessor hands out.
#[derive(Debug, PartialEq, Eq)]
pub enum Source {
    /// One field of the value.
    Field(Member),
    /// The value itself.
    Itself,
}

/// The mathematical model of a [`Source`].
pub enum SourceModel {
    Field(MemberModel),
    Itself,
}

impl View for Source {
    type V = SourceModel;

    open spec fn view(&self) -> SourceModel {
        match self {
            Source::Field(member) => SourceModel::Field(member@),
            Source::Itself => SourceModel::Itself,
        }
    }
}

impl Clone for Source {
    fn clone(&self) -> (r: Self)
        ensures
            r@ == self@,
    {
        match self {
            Source::Field(member) => Source::Field(member.clone()),
            Source::Itself => Source::Itself,
        }
    }
}

/// One emitted implementation: the capability `capability` for the component
/// type `component`, on the struct named `ident`.
#[derive(Debug, PartialEq, Eq)]
pub struct AccessorImpl {
    pub capability: Capability,
    pub struct_type: StructType,
    /// The name of the struct that gains the implementation.
    pub ident: String,
    /// The capability trait's type argument.
    pub component: TypeExpr,
    pub source: Source,
    /// The declared return type of the accessor method.
    pub return_type: TypeExpr,
}

/// The mathematical model of an [`AccessorImpl`].
pub struct AccessorModel {
    pub capability: Capability,
    pub struct_type: StructType,
    pub ident: Seq<char>,
    pub component: TypeModel,
    pub source: SourceModel,
    pub return_type: TypeModel,
}

impl View for AccessorImpl {
    type V = AccessorModel;

    open spec fn view(&self) -> AccessorModel {
        AccessorModel {
            capability: self.capability,
            struct_type: self.struct_type,
            ident: self.ident@,
            component: self.component@,
            source: self.source@,
            return_type: self.return_type@,
        }
    }
}

impl Clone for AccessorImpl {
    fn clone(&self) -> (r: Self)
        ensures
            r@ == self@,
    {
        AccessorImpl {
            capability: self.capability,
            struct_type: self.struct_type,
            ident: self.ident.clone(),
            component: self.component.clone(),
            source: self.source.clone(),
            return_type: self.return_type.clone(),
        }
    }
}

/// The models of a list of implementations, in order.
pub open spec fn accessors_model(impls: Seq<AccessorImpl>) -> Seq<AccessorModel> {
    impls.map_values(|a: AccessorImpl| a@)
}

/// The model of an optional implementation.
pub open spec fn accessor_option_model(a: Option<AccessorImpl>) -> Option<AccessorModel> {
    match a {
        Some(a) => Some(a@),
        None => None,
    }
}

} // verus!
