//! The self-accessor generator: a struct without generic parameters becomes
//! the provider of itself.

use vstd::prelude::*;
use crate::accessor::{
    accessors_model, AccessorImpl, AccessorModel, Capability, Source, SourceModel, StructType,
};
use crate::component_provider::{count_lifetime_params, outcome_model};
use crate::error::DeriveError;
use crate::syntax::{Data, DeriveInput, TypeExpr, TypeModel};

verus! {

/// The identity accessor of capability `cap` on the struct named `ident`:
/// its component type is the struct's own type, and it hands out the value
/// itself, as `&ident` or, for `get_mut`, as `&mut ident`.
pub open spec fn self_accessor(ident: Seq<char>, cap: Capability) -> AccessorModel {
    let own = TypeModel::Path { name: ident, args: Seq::empty() };
    AccessorModel {
        capability: cap,
        struct_type: StructType::Bundle,
        ident,
        component: own,
        source: SourceModel::Itself,
        return_type: TypeModel::Reference {
            lifetime: None,
            mutable: cap == Capability::GetMut,
            elem: Box::new(own),
        },
    }
}

/// What deriving the self accessors for a declaration gives. The declaration
/// must be a struct without any generic parameter, lifetimes included; it
/// then gains `get` and `get_mut` for its own type.
pub open spec fn self_derived(input: DeriveInput) -> Result<Seq<AccessorModel>, DeriveError> {
    if !(input.data is Struct) {
        Err(DeriveError::NotAStruct)
    } else if input.lifetime_count() > 0 {
        Err(DeriveError::LifetimeParameters)
    } else if input.generics@.len() > 0 {
        Err(DeriveError::TypeParameters)
    } else {
        Ok(
            seq![
                self_accessor(input.ident@, Capability::Get),
                self_accessor(input.ident@, Capability::GetMut),
            ],
        )
    }
}

/// The struct's own type, as a type expression.
fn own_type(ident: &String) -> (r: TypeExpr)
    ensures
        r@ == (TypeModel::Path { name: ident@, args: Seq::empty() }),
{
    let r = TypeExpr::Path { name: ident.clone(), args: Vec::new() };
    proof {
        assert(crate::syntax::types_model(Seq::<TypeExpr>::empty()) =~= Seq::<TypeModel>::empty());
    }
    r
}

/// Builds the identity accessor of capability `cap`.
fn self_impl(ident: &String, cap: Capability) -> (r: AccessorImpl)
    ensures
        r@ == self_accessor(ident@, cap),
{
    let mutable = match cap {
        Capability::GetMut => true,
        _ => false,
    };
    AccessorImpl {
        capability: cap,
        struct_type: StructType::Bundle,
        ident: ident.clone(),
        component: own_type(ident),
        source: Source::Itself,
        return_type: TypeExpr::Reference {
            lifetime: None,
            mutable,
            elem: Box::new(own_type(ident)),
        },
    }
}

/// Derives the self accessors of a struct: `get` and `get_mut` for the
/// struct's own type. A declaration that is no struct, or has a lifetime or
/// any other generic parameter, is refused.
pub fn derive(input: &DeriveInput) -> (r: Result<Vec<AccessorImpl>, DeriveError>)
    ensures
        outcome_model(r) == self_derived(*input),
{
    match &input.data {
        Data::Struct(_) => {},
        _ => {
            return Err(DeriveError::NotAStruct);
        },
    }
    let lifetimes = count_lifetime_params(&input.generics);
    if lifetimes > 0 {
        return Err(DeriveError::LifetimeParameters);
    }
    if input.generics.len() > 0 {
        return Err(DeriveError::TypeParameters);
    }
    let mut out: Vec<AccessorImpl> = Vec::new();
    out.push(self_impl(&input.ident, Capability::Get));
    out.push(self_impl(&input.ident, Capability::GetMut));
    proof {
        assert(accessors_model(out@) =~= seq![
            self_accessor(input.ident@, Capability::Get),
            self_accessor(input.ident@, Capability::GetMut),
        ]);
    }
    Ok(out)
}

/// A declaration that carries a lifetime or any other generic parameter is
/// refused. An accepted one, a struct named `X`, gains exactly `get` and
/// `get_mut`, both for the component type `X` and both handing out the value
/// itself, as `&X` and as `&mut X`.
pub proof fn lemma_self_accessors(input: DeriveInput)
    ensures
        input.generics@.len() > 0 ==> self_derived(input) is Err,
        input.lifetime_count() > 0 ==> self_derived(input) is Err,
        self_derived(input) matches Ok(impls) ==> {
            let own = TypeModel::Path { name: input.ident@, args: Seq::empty() };
            &&& input.data is Struct
            &&& input.generics@.len() == 0
            &&& impls.len() == 2
            &&& impls[0].capability == Capability::Get
            &&& impls[1].capability == Capability::GetMut
            &&& impls[0].return_type == (TypeModel::Reference {
                lifetime: None,
                mutable: false,
                elem: Box::new(own),
            })
            &&& impls[1].return_type == (TypeModel::Reference {
                lifetime: None,
                mutable: true,
                elem: Box::new(own),
            })
            &&& forall|k: int|
                0 <= k < 2 ==> (#[trigger] impls[k]).component == own && impls[k].source
                    == SourceModel::Itself && impls[k].ident == input.ident@
        },
{
}

} // verus!
