//! The accessor-derivation generator: which accessor capabilities a struct's
//! fields give rise to.

use vstd::prelude::*;
use vstd::string::StringExecFns;
use crate::accessor::{
    accessor_option_model, accessors_model, AccessorImpl, AccessorModel, Capability, Source,
    SourceModel, StructType,
};
use crate::error::DeriveError;
use crate::syntax::{
    clone_name, count_lifetimes, lemma_types_model, lemma_types_model_push, type_model,
    types_model, Data, DeriveInput, Fields, GenericParam, Member, MemberModel, TypeExpr, TypeModel,
};

verus! {

/// The type that a reference borrows, if `t` is a reference.
pub open spec fn ref_target(t: TypeModel) -> Option<TypeModel> {
    match t {
        TypeModel::Reference { elem, .. } => Some(*elem),
        _ => None,
    }
}

/// The reference that `t` wraps, if `t` is `Option` applied first to a reference.
pub open spec fn wrapped_reference(t: TypeModel) -> Option<TypeModel> {
    match t {
        TypeModel::Path { name, args } => if name == "Option"@ && args.len() > 0
            && args[0] is Reference {
            Some(args[0])
        } else {
            None
        },
        _ => None,
    }
}

/// The type that the wrapped reference borrows, if `t` is an optional reference.
pub open spec fn option_target(t: TypeModel) -> Option<TypeModel> {
    match wrapped_reference(t) {
        Some(r) => ref_target(r),
        None => None,
    }
}

/// Whether an outermost reference of `t` is mutable: `t` itself if it is a
/// reference, else one met on the way down through generic arguments and
/// tuple elements, never one below another reference.
pub open spec fn has_mutable_reference(t: TypeModel) -> bool
    decreases t,
{
    match t {
        TypeModel::Reference { mutable, .. } => mutable,
        TypeModel::Path { args, .. } => any_mutable_reference(args),
        TypeModel::Tuple { elems } => any_mutable_reference(elems),
        TypeModel::Verbatim { .. } => false,
    }
}

/// Whether one of `ts` has a mutable outermost reference.
pub open spec fn any_mutable_reference(ts: Seq<TypeModel>) -> bool
    decreases ts,
{
    if ts.len() == 0 {
        false
    } else {
        any_mutable_reference(ts.drop_last()) || has_mutable_reference(ts.last())
    }
}

/// `t` with each outermost reference made immutable.
pub open spec fn without_mutability(t: TypeModel) -> TypeModel
    decreases t,
{
    match t {
        TypeModel::Reference { lifetime, mutable, elem } => TypeModel::Reference {
            lifetime,
            mutable: false,
            elem,
        },
        TypeModel::Path { name, args } => TypeModel::Path { name, args: all_without_mutability(args) },
        TypeModel::Tuple { elems } => TypeModel::Tuple { elems: all_without_mutability(elems) },
        TypeModel::Verbatim { text } => t,
    }
}

/// Each of `ts` with its outermost references made immutable.
pub open spec fn all_without_mutability(ts: Seq<TypeModel>) -> Seq<TypeModel>
    decreases ts,
{
    if ts.len() == 0 {
        Seq::empty()
    } else {
        all_without_mutability(ts.drop_last()).push(without_mutability(ts.last()))
    }
}

/// `t` with the lifetime of each outermost reference taken away.
pub open spec fn without_lifetime(t: TypeModel) -> TypeModel
    decreases t,
{
    match t {
        TypeModel::Reference { lifetime, mutable, elem } => TypeModel::Reference {
            lifetime: None,
            mutable,
            elem,
        },
        TypeModel::Path { name, args } => TypeModel::Path { name, args: all_without_lifetime(args) },
        TypeModel::Tuple { elems } => TypeModel::Tuple { elems: all_without_lifetime(elems) },
        TypeModel::Verbatim { text } => t,
    }
}

/// Each of `ts` with the lifetimes of its outermost references taken away.
pub open spec fn all_without_lifetime(ts: Seq<TypeModel>) -> Seq<TypeModel>
    decreases ts,
{
    if ts.len() == 0 {
        Seq::empty()
    } else {
        all_without_lifetime(ts.drop_last()).push(without_lifetime(ts.last()))
    }
}

/// The model of an optional type expression.
pub open spec fn option_model(t: Option<TypeExpr>) -> Option<TypeModel> {
    match t {
        Some(t) => Some(t@),
        None => None,
    }
}

/// The type behind a reference: `Some(T)` for `&T` and `&mut T`, `None` for
/// any other type.
pub fn extract_ref_type(t: &TypeExpr) -> (r: Option<TypeExpr>)
    ensures
        option_model(r) == ref_target(t@),
{
    match t {
        TypeExpr::Reference { elem, .. } => Some((**elem).clone()),
        _ => None,
    }
}

/// The reference that an optional reference wraps: the first generic
/// argument of a type named `Option`, if that argument is a reference.
pub fn extract_wrapped_reference(t: &TypeExpr) -> (r: Option<&TypeExpr>)
    ensures
        match r {
            Some(inner) => wrapped_reference(t@) == Some(inner@),
            None => wrapped_reference(t@) is None,
        },
{
    match t {
        TypeExpr::Path { name, args } => {
            let option = String::from_str("Option");
            if *name == option && args.len() > 0 {
                proof {
                    lemma_types_model(args@);
                    assert(types_model(args@)[0] == type_model(args@[0]));
                }
                match &args[0] {
                    TypeExpr::Reference { .. } => Some(&args[0]),
                    _ => None,
                }
            } else {
                None
            }
        },
        _ => None,
    }
}

/// The type behind an optional reference: `Some(T)` for `Option<&T>` and
/// `Option<&mut T>`, `None` for any other type.
pub fn extract_option_type(t: &TypeExpr) -> (r: Option<TypeExpr>)
    ensures
        option_model(r) == option_target(t@),
{
    match extract_wrapped_reference(t) {
        Some(inner) => extract_ref_type(inner),
        None => None,
    }
}

/// Whether one of the expressions has a mutable outermost reference.
fn any_mutable_type_ref(ts: &Vec<TypeExpr>) -> (r: bool)
    ensures
        r == any_mutable_reference(types_model(ts@)),
    decreases ts,
{
    let mut found = false;
    let mut i: usize = 0;
    while i < ts.len()
        invariant
            i <= ts.len(),
            found == any_mutable_reference(types_model(ts@.take(i as int))),
        decreases ts.len() - i,
    {
        let here = is_mutable_type_ref(&ts[i]);
        proof {
            let before = ts@.take(i as int);
            assert(ts@.take(i + 1) == before.push(ts@[i as int]));
            lemma_types_model_push(before, ts@[i as int]);
            assert(types_model(before).push(ts@[i as int]@).drop_last() == types_model(before));
        }
        found = found || here;
        i += 1;
    }
    proof {
        assert(ts@.take(i as int) == ts@);
    }
    found
}

/// Whether a type borrows mutably: whether one of its outermost references is
/// declared `mut`.
pub fn is_mutable_type_ref(ty: &TypeExpr) -> (r: bool)
    ensures
        r == has_mutable_reference(ty@),
    decreases ty,
{
    match ty {
        TypeExpr::Reference { mutable, .. } => *mutable,
        TypeExpr::Path { args, .. } => any_mutable_type_ref(args),
        TypeExpr::Tuple { elems } => any_mutable_type_ref(elems),
        TypeExpr::Verbatim { .. } => false,
    }
}

/// Each of the expressions with its outermost references made immutable.
fn remove_mutability_of_all(ts: &Vec<TypeExpr>) -> (r: Vec<TypeExpr>)
    ensures
        types_model(r@) == all_without_mutability(types_model(ts@)),
    decreases ts,
{
    let mut out: Vec<TypeExpr> = Vec::new();
    let mut i: usize = 0;
    while i < ts.len()
        invariant
            i <= ts.len(),
            types_model(out@) == all_without_mutability(types_model(ts@.take(i as int))),
        decreases ts.len() - i,
    {
        let item = remove_type_mutability(&ts[i]);
        proof {
            let before = ts@.take(i as int);
            assert(ts@.take(i + 1) == before.push(ts@[i as int]));
            lemma_types_model_push(before, ts@[i as int]);
            lemma_types_model_push(out@, item);
            assert(types_model(before).push(ts@[i as int]@).drop_last() == types_model(before));
        }
        out.push(item);
        i += 1;
    }
    proof {
        assert(ts@.take(i as int) == ts@);
    }
    out
}

/// The type with each of its outermost references made immutable: `&mut T`
/// becomes `&T`, and `Option<&mut T>` becomes `Option<&T>`.
pub fn remove_type_mutability(ty: &TypeExpr) -> (r: TypeExpr)
    ensures
        r@ == without_mutability(ty@),
    decreases ty,
{
    match ty {
        TypeExpr::Reference { lifetime, elem, .. } => TypeExpr::Reference {
            lifetime: clone_name(lifetime),
            mutable: false,
            elem: Box::new((**elem).clone()),
        },
        TypeExpr::Path { name, args } => TypeExpr::Path {
            name: name.clone(),
            args: remove_mutability_of_all(args),
        },
        TypeExpr::Tuple { elems } => TypeExpr::Tuple { elems: remove_mutability_of_all(elems) },
        TypeExpr::Verbatim { text } => TypeExpr::Verbatim { text: text.clone() },
    }
}

/// Each of the expressions with the lifetimes of its outermost references
/// taken away.
fn remove_lifetime_of_all(ts: &Vec<TypeExpr>) -> (r: Vec<TypeExpr>)
    ensures
        types_model(r@) == all_without_lifetime(types_model(ts@)),
    decreases ts,
{
    let mut out: Vec<TypeExpr> = Vec::new();
    let mut i: usize = 0;
    while i < ts.len()
        invariant
            i <= ts.len(),
            types_model(out@) == all_without_lifetime(types_model(ts@.take(i as int))),
        decreases ts.len() - i,
    {
        let item = remove_type_lifetime(&ts[i]);
        proof {
            let before = ts@.take(i as int);
            assert(ts@.take(i + 1) == before.push(ts@[i as int]));
            lemma_types_model_push(before, ts@[i as int]);
            lemma_types_model_push(out@, item);
            assert(types_model(before).push(ts@[i as int]@).drop_last() == types_model(before));
        }
        out.push(item);
        i += 1;
    }
    proof {
        assert(ts@.take(i as int) == ts@);
    }
    out
}

/// The type with the lifetime of each of its outermost references taken
/// away: `&'a T` becomes `&T`, and `Option<&'a T>` becomes `Option<&T>`.
pub fn remove_type_lifetime(ty: &TypeExpr) -> (r: TypeExpr)
    ensures
        r@ == without_lifetime(ty@),
    decreases ty,
{
    match ty {
        TypeExpr::Reference { mutable, elem, .. } => TypeExpr::Reference {
            lifetime: None,
            mutable: *mutable,
            elem: Box::new((**elem).clone()),
        },
        TypeExpr::Path { name, args } => TypeExpr::Path {
            name: name.clone(),
            args: remove_lifetime_of_all(args),
        },
        TypeExpr::Tuple { elems } => TypeExpr::Tuple { elems: remove_lifetime_of_all(elems) },
        TypeExpr::Verbatim { text } => TypeExpr::Verbatim { text: text.clone() },
    }
}

/// The models of a list of field names, in order.
pub open spec fn members_model(members: Seq<Member>) -> Seq<MemberModel> {
    members.map_values(|m: Member| m@)
}

/// The models of a list of optional type expressions, in order.
pub open spec fn options_model(ts: Seq<Option<TypeExpr>>) -> Seq<Option<TypeModel>> {
    ts.map_values(|t: Option<TypeExpr>| option_model(t))
}

/// Whether a declaration is accepted, and as which kind of struct: it must
/// be a struct, with at most one lifetime parameter and no other generic
/// parameter.
pub open spec fn struct_kind(input: DeriveInput) -> Result<StructType, DeriveError> {
    if !(input.data is Struct) {
        Err(DeriveError::NotAStruct)
    } else if input.lifetime_count() > 1 {
        Err(DeriveError::TooManyLifetimes)
    } else if input.generics@.len() != input.lifetime_count() {
        Err(DeriveError::TypeParameters)
    } else if input.lifetime_count() == 0 {
        Ok(StructType::Bundle)
    } else {
        Ok(StructType::Query)
    }
}

/// A struct taken apart: its name, and for each field, in declaration order,
/// the field's name, its type, the type behind it if it is a reference, and
/// the type behind it if it is an optional reference.
#[derive(Debug, Clone, PartialEq, Eq)]
pub struct InputDecomposition {
    pub ident: String,
    pub fields: Vec<Member>,
    pub types: Vec<TypeExpr>,
    pub ref_types: Vec<Option<TypeExpr>>,
    pub option_types: Vec<Option<TypeExpr>>,
    pub struct_type: StructType,
}

impl InputDecomposition {
    /// The four lists speak of the same fields.
    pub open spec fn consistent(&self) -> bool {
        &&& self.fields@.len() == self.types@.len()
        &&& self.ref_types@.len() == self.types@.len()
        &&& self.option_types@.len() == self.types@.len()
        &&& options_model(self.ref_types@) == types_model(self.types@).map_values(
            |t: TypeModel| ref_target(t),
        )
        &&& options_model(self.option_types@) == types_model(self.types@).map_values(
            |t: TypeModel| option_target(t),
        )
    }

    /// The decomposition is that of the accepted declaration `input`.
    pub open spec fn describes(&self, input: DeriveInput) -> bool {
        &&& self.consistent()
        &&& self.ident@ == input.ident@
        &&& members_model(self.fields@) == input.members()
        &&& types_model(self.types@) == input.types()
        &&& struct_kind(input) == Ok::<StructType, DeriveError>(self.struct_type)
    }
}

/// Counts the lifetime parameters.
pub fn count_lifetime_params(params: &Vec<GenericParam>) -> (r: usize)
    ensures
        r == count_lifetimes(params@),
        r <= params.len(),
{
    let mut count: usize = 0;
    let mut i: usize = 0;
    while i < params.len()
        invariant
            i <= params.len(),
            count <= i,
            count == count_lifetimes(params@.take(i as int)),
        decreases params.len() - i,
    {
        proof {
            assert(params@.take(i + 1).drop_last() == params@.take(i as int));
        }
        match &params[i] {
            GenericParam::Lifetime(_) => {
                count += 1;
            },
            _ => {},
        }
        i += 1;
    }
    proof {
        assert(params@.take(i as int) == params@);
    }
    count
}

/// The names and types of the fields, in declaration order.
fn members_and_types(fields: &Fields) -> (r: (Vec<Member>, Vec<TypeExpr>))
    ensures
        members_model(r.0@) == fields.members(),
        types_model(r.1@) == fields.types(),
{
    let mut members: Vec<Member> = Vec::new();
    let mut types: Vec<TypeExpr> = Vec::new();
    match fields {
        Fields::Named(named) => {
            let mut i: usize = 0;
            while i < named.len()
                invariant
                    i <= named.len(),
                    members.len() == i,
                    types.len() == i,
                    forall|j: int| 0 <= j < i ==> (#[trigger] members[j])@ == MemberModel::Named(
                        named[j].ident@,
                    ),
                    forall|j: int| 0 <= j < i ==> (#[trigger] types[j])@ == named[j].ty@,
                decreases named.len() - i,
            {
                members.push(Member::Named(named[i].ident.clone()));
                types.push(named[i].ty.clone());
                i += 1;
            }
        },
        Fields::Unnamed(unnamed) => {
            let mut i: usize = 0;
            while i < unnamed.len()
                invariant
                    i <= unnamed.len(),
                    members.len() == i,
                    types.len() == i,
                    forall|j: int| 0 <= j < i ==> (#[trigger] members[j])@ == MemberModel::Unnamed(
                        j as nat,
                    ),
                    forall|j: int| 0 <= j < i ==> (#[trigger] types[j])@ == unnamed[j]@,
                decreases unnamed.len() - i,
            {
                members.push(Member::Unnamed(i));
                types.push(unnamed[i].clone());
                i += 1;
            }
        },
        Fields::Unit => {},
    }
    proof {
        lemma_types_model(types@);
    }
    (members, types)
}

/// Takes a declaration apart. The declaration must be a struct, with at most
/// one lifetime parameter and no other generic parameter; with no lifetime
/// parameter it is a bundle, with one it is a query.
pub fn decompose_derive_input(input: &DeriveInput) -> (r: Result<InputDecomposition, DeriveError>)
    ensures
        match r {
            Ok(d) => d.describes(*input),
            Err(e) => struct_kind(*input) == Err::<StructType, DeriveError>(e),
        },
{
    let fields = match &input.data {
        Data::Struct(fields) => fields,
        _ => {
            return Err(DeriveError::NotAStruct);
        },
    };
    let lifetimes = count_lifetime_params(&input.generics);
    if lifetimes > 1 {
        return Err(DeriveError::TooManyLifetimes);
    }
    if input.generics.len() != lifetimes {
        return Err(DeriveError::TypeParameters);
    }
    let (members, types) = members_and_types(fields);
    let mut ref_types: Vec<Option<TypeExpr>> = Vec::new();
    let mut option_types: Vec<Option<TypeExpr>> = Vec::new();
    proof {
        lemma_types_model(types@);
    }
    let mut i: usize = 0;
    while i < types.len()
        invariant
            i <= types.len(),
            ref_types.len() == i,
            option_types.len() == i,
            forall|j: int| 0 <= j < i ==> option_model(#[trigger] ref_types[j]) == ref_target(types[j]@),
            forall|j: int|
                0 <= j < i ==> option_model(#[trigger] option_types[j]) == option_target(types[j]@),
        decreases types.len() - i,
    {
        ref_types.push(extract_ref_type(&types[i]));
        option_types.push(extract_option_type(&types[i]));
        i += 1;
    }
    let d = InputDecomposition {
        ident: input.ident.clone(),
        fields: members,
        types,
        ref_types,
        option_types,
        struct_type: if lifetimes == 0 {
            StructType::Bundle
        } else {
            StructType::Query
        },
    };
    proof {
        assert(input.members().len() == input.types().len());
        assert(options_model(d.ref_types@) =~= types_model(d.types@).map_values(
            |t: TypeModel| ref_target(t),
        ));
        assert(options_model(d.option_types@) =~= types_model(d.types@).map_values(
            |t: TypeModel| option_target(t),
        ));
    }
    Ok(d)
}

/// The implementation of capability `cap` that one field gives rise to, if
/// any, in a struct of kind `kind` named `ident`.
///
/// A bundle owns its components: every field of type `T` gives `get`,
/// returning `&T`, and `get_mut`, returning `&mut T`, both for the component
/// type `T`, and nothing else.
///
/// A query borrows them. A field `&T` or `&mut T` gives `get` for `T`, and
/// `get_mut` too if it is declared `mut`. A field `Option<&T>` or
/// `Option<&mut T>` gives `get_optional` for `T`, and `get_optional_mut` too
/// if the wrapped reference is declared `mut`. A field of any other type
/// gives nothing. The accessor's return type is the field's type without the
/// lifetimes of its outermost references, and for the two shared accessors
/// without their mutability.
pub open spec fn field_accessor(
    kind: StructType,
    cap: Capability,
    ident: Seq<char>,
    member: MemberModel,
    ty: TypeModel,
) -> Option<AccessorModel> {
    let target: Option<(TypeModel, TypeModel)> = match kind {
        StructType::Bundle => match cap {
            Capability::Get => Some(
                (ty, TypeModel::Reference { lifetime: None, mutable: false, elem: Box::new(ty) }),
            ),
            Capability::GetMut => Some(
                (ty, TypeModel::Reference { lifetime: None, mutable: true, elem: Box::new(ty) }),
            ),
            _ => None,
        },
        StructType::Query => match cap {
            Capability::Get => match ref_target(ty) {
                Some(component) => Some((component, without_lifetime(without_mutability(ty)))),
                None => None,
            },
            Capability::GetMut => match ref_target(ty) {
                Some(component) => if has_mutable_reference(ty) {
                    Some((component, without_lifetime(ty)))
                } else {
                    None
                },
                None => None,
            },
            Capability::GetOptional => match option_target(ty) {
                Some(component) => Some((component, without_lifetime(without_mutability(ty)))),
                None => None,
            },
            Capability::GetOptionalMut => match wrapped_reference(ty) {
                Some(inner) => if has_mutable_reference(inner) {
                    Some((ref_target(inner)->0, without_lifetime(ty)))
                } else {
                    None
                },
                None => None,
            },
        },
    };
    match target {
        Some((component, return_type)) => Some(
            AccessorModel {
                capability: cap,
                struct_type: kind,
                ident,
                component,
                source: SourceModel::Field(member),
                return_type,
            },
        ),
        None => None,
    }
}

/// The implementations of capability `cap` that the first `n` fields give
/// rise to, in the order of the fields.
pub open spec fn collect_accessors(
    kind: StructType,
    cap: Capability,
    ident: Seq<char>,
    members: Seq<MemberModel>,
    types: Seq<TypeModel>,
    n: nat,
) -> Seq<AccessorModel>
    decreases n,
{
    if n == 0 {
        Seq::empty()
    } else {
        let before = collect_accessors(kind, cap, ident, members, types, (n - 1) as nat);
        match field_accessor(kind, cap, ident, members[n - 1], types[n - 1]) {
            Some(a) => before.push(a),
            None => before,
        }
    }
}

/// The implementations of capability `cap` for a declaration accepted as a
/// struct of kind `kind`.
pub open spec fn accessors(input: DeriveInput, kind: StructType, cap: Capability) -> Seq<
    AccessorModel,
> {
    collect_accessors(
        kind,
        cap,
        input.ident@,
        input.members(),
        input.types(),
        input.types().len(),
    )
}

/// What deriving capability `cap` for a declaration gives: its
/// implementations, or the reason why the declaration is refused.
pub open spec fn derived(input: DeriveInput, cap: Capability) -> Result<
    Seq<AccessorModel>,
    DeriveError,
> {
    match struct_kind(input) {
        Ok(kind) => Ok(accessors(input, kind, cap)),
        Err(e) => Err(e),
    }
}

/// What a list of implementations, or a refusal, stands for.
pub open spec fn outcome_model(r: Result<Vec<AccessorImpl>, DeriveError>) -> Result<
    Seq<AccessorModel>,
    DeriveError,
> {
    match r {
        Ok(impls) => Ok(accessors_model(impls@)),
        Err(e) => Err(e),
    }
}

/// Builds the implementation for the field at `i`.
fn field_impl(
    d: &InputDecomposition,
    i: usize,
    cap: Capability,
    component: TypeExpr,
    return_type: TypeExpr,
) -> (r: AccessorImpl)
    requires
        i < d.fields.len(),
    ensures
        r@ == (AccessorModel {
            capability: cap,
            struct_type: d.struct_type,
            ident: d.ident@,
            component: component@,
            source: SourceModel::Field(d.fields[i as int]@),
            return_type: return_type@,
        }),
{
    AccessorImpl {
        capability: cap,
        struct_type: d.struct_type,
        ident: d.ident.clone(),
        component,
        source: Source::Field(d.fields[i].clone()),
        return_type,
    }
}

/// The implementation of capability `cap` that the field at `i` gives rise
/// to, if any.
fn accessor_of_field(d: &InputDecomposition, i: usize, cap: Capability) -> (r: Option<
    AccessorImpl,
>)
    requires
        d.consistent(),
        i < d.fields.len(),
    ensures
        accessor_option_model(r) == field_accessor(
            d.struct_type,
            cap,
            d.ident@,
            d.fields[i as int]@,
            d.types[i as int]@,
        ),
{
    proof {
        lemma_types_model(d.types@);
        assert(options_model(d.ref_types@)[i as int] == ref_target(types_model(d.types@)[i as int]));
        assert(options_model(d.option_types@)[i as int] == option_target(
            types_model(d.types@)[i as int],
        ));
    }
    let ty = &d.types[i];
    match d.struct_type {
        StructType::Bundle => match cap {
            Capability::Get => {
                let return_type = TypeExpr::Reference {
                    lifetime: None,
                    mutable: false,
                    elem: Box::new(ty.clone()),
                };
                Some(field_impl(d, i, cap, ty.clone(), return_type))
            },
            Capability::GetMut => {
                let return_type = TypeExpr::Reference {
                    lifetime: None,
                    mutable: true,
                    elem: Box::new(ty.clone()),
                };
                Some(field_impl(d, i, cap, ty.clone(), return_type))
            },
            _ => None,
        },
        StructType::Query => match cap {
            Capability::Get => match &d.ref_types[i] {
                Some(component) => {
                    let return_type = remove_type_lifetime(&remove_type_mutability(ty));
                    Some(field_impl(d, i, cap, component.clone(), return_type))
                },
                None => None,
            },
            Capability::GetMut => match &d.ref_types[i] {
                Some(component) => {
                    if is_mutable_type_ref(ty) {
                        Some(field_impl(d, i, cap, component.clone(), remove_type_lifetime(ty)))
                    } else {
                        None
                    }
                },
                None => None,
            },
            Capability::GetOptional => match &d.option_types[i] {
                Some(component) => {
                    let return_type = remove_type_lifetime(&remove_type_mutability(ty));
                    Some(field_impl(d, i, cap, component.clone(), return_type))
                },
                None => None,
            },
            Capability::GetOptionalMut => match &d.option_types[i] {
                Some(component) => {
                    let mutable = match extract_wrapped_reference(ty) {
                        Some(inner) => is_mutable_type_ref(inner),
                        None => false,
                    };
                    if mutable {
                        Some(field_impl(d, i, cap, component.clone(), remove_type_lifetime(ty)))
                    } else {
                        None
                    }
                },
                None => None,
            },
        },
    }
}

/// The implementations of capability `cap` for a struct taken apart.
fn collect(d: &InputDecomposition, cap: Capability) -> (r: Vec<AccessorImpl>)
    requires
        d.consistent(),
    ensures
        accessors_model(r@) == collect_accessors(
            d.struct_type,
            cap,
            d.ident@,
            members_model(d.fields@),
            types_model(d.types@),
            types_model(d.types@).len(),
        ),
{
    let mut out: Vec<AccessorImpl> = Vec::new();
    let mut i: usize = 0;
    proof {
        lemma_types_model(d.types@);
    }
    while i < d.fields.len()
        invariant
            d.consistent(),
            i <= d.fields.len(),
            types_model(d.types@).len() == d.types@.len(),
            forall|j: int|
                0 <= j < d.types@.len() ==> #[trigger] types_model(d.types@)[j] == d.types@[j]@,
            accessors_model(out@) == collect_accessors(
                d.struct_type,
                cap,
                d.ident@,
                members_model(d.fields@),
                types_model(d.types@),
                i as nat,
            ),
        decreases d.fields.len() - i,
    {
        match accessor_of_field(d, i, cap) {
            Some(a) => {
                out.push(a);
            },
            None => {},
        }
        i += 1;
    }
    out
}

/// The `get` implementations of a struct: for a bundle one for each field,
/// for a query one for each field that is a reference.
pub fn derive_refs(input: &DeriveInput) -> (r: Result<Vec<AccessorImpl>, DeriveError>)
    ensures
        outcome_model(r) == derived(*input, Capability::Get),
{
    match decompose_derive_input(input) {
        Ok(d) => Ok(collect(&d, Capability::Get)),
        Err(e) => Err(e),
    }
}

/// The `get_mut` implementations of a struct: for a bundle one for each
/// field, for a query one for each field that is a mutable reference.
pub fn derive_muts(input: &DeriveInput) -> (r: Result<Vec<AccessorImpl>, DeriveError>)
    ensures
        outcome_model(r) == derived(*input, Capability::GetMut),
{
    match decompose_derive_input(input) {
        Ok(d) => Ok(collect(&d, Capability::GetMut)),
        Err(e) => Err(e),
    }
}

/// The `get_optional` implementations of a struct: for a bundle none, for a
/// query one for each field that is an optional reference.
pub fn derive_option_refs(input: &DeriveInput) -> (r: Result<Vec<AccessorImpl>, DeriveError>)
    ensures
        outcome_model(r) == derived(*input, Capability::GetOptional),
{
    match decompose_derive_input(input) {
        Ok(d) => Ok(collect(&d, Capability::GetOptional)),
        Err(e) => Err(e),
    }
}

/// The `get_optional_mut` implementations of a struct: for a bundle none,
/// for a query one for each field that is an optional mutable reference.
pub fn derive_option_muts(input: &DeriveInput) -> (r: Result<Vec<AccessorImpl>, DeriveError>)
    ensures
        outcome_model(r) == derived(*input, Capability::GetOptionalMut),
{
    match decompose_derive_input(input) {
        Ok(d) => Ok(collect(&d, Capability::GetOptionalMut)),
        Err(e) => Err(e),
    }
}

/// Everything that deriving the accessors for a declaration gives: the
/// implementations of `get`, then of `get_mut`, of `get_optional` and of
/// `get_optional_mut`, or the reason why the declaration is refused.
pub open spec fn derived_all(input: DeriveInput) -> Result<Seq<AccessorModel>, DeriveError> {
    match struct_kind(input) {
        Ok(kind) => Ok(
            accessors(input, kind, Capability::Get) + accessors(input, kind, Capability::GetMut)
                + accessors(input, kind, Capability::GetOptional) + accessors(
                input,
                kind,
                Capability::GetOptionalMut,
            ),
        ),
        Err(e) => Err(e),
    }
}

/// Derives all accessor implementations of a struct. A refused declaration
/// gives the reason and no implementation.
pub fn derive(input: &DeriveInput) -> (r: Result<Vec<AccessorImpl>, DeriveError>)
    ensures
        outcome_model(r) == derived_all(*input),
{
    let d = match decompose_derive_input(input) {
        Ok(d) => d,
        Err(e) => {
            return Err(e);
        },
    };
    let mut out = collect(&d, Capability::Get);
    let mut muts = collect(&d, Capability::GetMut);
    let mut option_refs = collect(&d, Capability::GetOptional);
    let mut option_muts = collect(&d, Capability::GetOptionalMut);
    proof {
        assert(accessors_model(out@ + muts@ + option_refs@ + option_muts@) =~= accessors_model(out@)
            + accessors_model(muts@) + accessors_model(option_refs@) + accessors_model(
            option_muts@,
        ));
    }
    out.append(&mut muts);
    out.append(&mut option_refs);
    out.append(&mut option_muts);
    Ok(out)
}

/// Every emitted implementation comes from a field: the implementation at
/// `k` is the one that some field among the first `n` gives rise to.
pub proof fn lemma_emitted_has_field(
    kind: StructType,
    cap: Capability,
    ident: Seq<char>,
    members: Seq<MemberModel>,
    types: Seq<TypeModel>,
    n: nat,
    k: int,
)
    requires
        0 <= k < collect_accessors(kind, cap, ident, members, types, n).len(),
    ensures
        exists|i: int|
            0 <= i < n && #[trigger] field_accessor(kind, cap, ident, members[i], types[i]) == Some(
                collect_accessors(kind, cap, ident, members, types, n)[k],
            ),
    decreases n,
{
    if n > 0 {
        let before = collect_accessors(kind, cap, ident, members, types, (n - 1) as nat);
        if k < before.len() {
            lemma_emitted_has_field(kind, cap, ident, members, types, (n - 1) as nat, k);
        }
    }
}

/// Every field that gives rise to an implementation has it emitted: the
/// implementation of the field at `i` stands at some place `k`.
pub proof fn lemma_field_is_emitted(
    kind: StructType,
    cap: Capability,
    ident: Seq<char>,
    members: Seq<MemberModel>,
    types: Seq<TypeModel>,
    n: nat,
    i: int,
)
    requires
        0 <= i < n,
        field_accessor(kind, cap, ident, members[i], types[i]) is Some,
    ensures
        exists|k: int|
            0 <= k < collect_accessors(kind, cap, ident, members, types, n).len()
                && #[trigger] collect_accessors(kind, cap, ident, members, types, n)[k]
                == field_accessor(kind, cap, ident, members[i], types[i])->0,
    decreases n,
{
    let all = collect_accessors(kind, cap, ident, members, types, n);
    let before = collect_accessors(kind, cap, ident, members, types, (n - 1) as nat);
    if i == n - 1 {
        assert(all[before.len() as int] == field_accessor(
            kind,
            cap,
            ident,
            members[i],
            types[i],
        )->0);
    } else {
        lemma_field_is_emitted(kind, cap, ident, members, types, (n - 1) as nat, i);
        let k = choose|k: int|
            0 <= k < before.len() && #[trigger] before[k] == field_accessor(
                kind,
                cap,
                ident,
                members[i],
                types[i],
            )->0;
        assert(all[k] == before[k]);
    }
}

/// When every one of the first `n` fields gives rise to an implementation,
/// the implementations stand field by field.
pub proof fn lemma_all_fields_emitted(
    kind: StructType,
    cap: Capability,
    ident: Seq<char>,
    members: Seq<MemberModel>,
    types: Seq<TypeModel>,
    n: nat,
)
    requires
        forall|i: int|
            0 <= i < n ==> #[trigger] field_accessor(kind, cap, ident, members[i], types[i]) is Some,
    ensures
        collect_accessors(kind, cap, ident, members, types, n).len() == n,
        forall|i: int|
            0 <= i < n ==> #[trigger] collect_accessors(kind, cap, ident, members, types, n)[i]
                == field_accessor(kind, cap, ident, members[i], types[i])->0,
    decreases n,
{
    if n > 0 {
        lemma_all_fields_emitted(kind, cap, ident, members, types, (n - 1) as nat);
    }
}

/// When none of the first `n` fields gives rise to an implementation,
/// nothing is emitted.
pub proof fn lemma_no_field_emitted(
    kind: StructType,
    cap: Capability,
    ident: Seq<char>,
    members: Seq<MemberModel>,
    types: Seq<TypeModel>,
    n: nat,
)
    requires
        forall|i: int|
            0 <= i < n ==> #[trigger] field_accessor(kind, cap, ident, members[i], types[i]) is None,
    ensures
        collect_accessors(kind, cap, ident, members, types, n).len() == 0,
    decreases n,
{
    if n > 0 {
        lemma_no_field_emitted(kind, cap, ident, members, types, (n - 1) as nat);
    }
}

/// A bundle with fields of types `T1..Tn` gains exactly one `get`, returning
/// `&Ti`, and one `get_mut`, returning `&mut Ti`, for each field, each for
/// the field's own type `Ti`, and no `get_optional` nor `get_optional_mut`.
pub proof fn lemma_bundle_accessors(input: DeriveInput)
    requires
        struct_kind(input) == Ok::<StructType, DeriveError>(StructType::Bundle),
    ensures
        ({
            let n = input.types().len();
            let gets = accessors(input, StructType::Bundle, Capability::Get);
            let muts = accessors(input, StructType::Bundle, Capability::GetMut);
            &&& gets.len() == n
            &&& muts.len() == n
            &&& forall|i: int|
                0 <= i < n ==> #[trigger] gets[i] == (AccessorModel {
                    capability: Capability::Get,
                    struct_type: StructType::Bundle,
                    ident: input.ident@,
                    component: input.types()[i],
                    source: SourceModel::Field(input.members()[i]),
                    return_type: TypeModel::Reference {
                        lifetime: None,
                        mutable: false,
                        elem: Box::new(input.types()[i]),
                    },
                })
            &&& forall|i: int|
                0 <= i < n ==> #[trigger] muts[i] == (AccessorModel {
                    capability: Capability::GetMut,
                    struct_type: StructType::Bundle,
                    ident: input.ident@,
                    component: input.types()[i],
                    source: SourceModel::Field(input.members()[i]),
                    return_type: TypeModel::Reference {
                        lifetime: None,
                        mutable: true,
                        elem: Box::new(input.types()[i]),
                    },
                })
            &&& accessors(input, StructType::Bundle, Capability::GetOptional).len() == 0
            &&& accessors(input, StructType::Bundle, Capability::GetOptionalMut).len() == 0
            &&& derived_all(input) == Ok::<Seq<AccessorModel>, DeriveError>(gets + muts)
        }),
{
    let n = input.types().len();
    let kind = StructType::Bundle;
    lemma_all_fields_emitted(kind, Capability::Get, input.ident@, input.members(), input.types(), n);
    lemma_all_fields_emitted(
        kind,
        Capability::GetMut,
        input.ident@,
        input.members(),
        input.types(),
        n,
    );
    lemma_no_field_emitted(
        kind,
        Capability::GetOptional,
        input.ident@,
        input.members(),
        input.types(),
        n,
    );
    lemma_no_field_emitted(
        kind,
        Capability::GetOptionalMut,
        input.ident@,
        input.members(),
        input.types(),
        n,
    );
}

/// Whether `impls` holds an implementation of capability `cap` for the
/// component type `component` that hands out the field `member`.
pub open spec fn provides(
    impls: Seq<AccessorModel>,
    cap: Capability,
    member: MemberModel,
    component: TypeModel,
) -> bool {
    exists|k: int|
        0 <= k < impls.len() && (#[trigger] impls[k]).capability == cap && impls[k].source
            == SourceModel::Field(member) && impls[k].component == component
}

/// In a query, a field that is a reference to `T`, mutable or not, has `get`
/// emitted for `T`; if the reference is mutable it has `get_mut` emitted for
/// `T` as well, and if it is not, the field gives rise to no `get_mut`.
pub proof fn lemma_query_reference_is_provided(input: DeriveInput, i: int)
    requires
        struct_kind(input) == Ok::<StructType, DeriveError>(StructType::Query),
        0 <= i < input.types().len(),
        input.types()[i] is Reference,
    ensures
        provides(
            accessors(input, StructType::Query, Capability::Get),
            Capability::Get,
            input.members()[i],
            *input.types()[i]->elem,
        ),
        input.types()[i]->mutable ==> provides(
            accessors(input, StructType::Query, Capability::GetMut),
            Capability::GetMut,
            input.members()[i],
            *input.types()[i]->elem,
        ),
        !input.types()[i]->mutable ==> field_accessor(
            StructType::Query,
            Capability::GetMut,
            input.ident@,
            input.members()[i],
            input.types()[i],
        ) is None,
{
    let n = input.types().len();
    let kind = StructType::Query;
    lemma_field_is_emitted(
        kind,
        Capability::Get,
        input.ident@,
        input.members(),
        input.types(),
        n,
        i,
    );
    if input.types()[i]->mutable {
        lemma_field_is_emitted(
            kind,
            Capability::GetMut,
            input.ident@,
            input.members(),
            input.types(),
            n,
            i,
        );
    }
}

/// In a query, `get` is emitted only for fields that are references, and
/// `get_mut` only for fields that are mutable references: the implementation
/// at `k` belongs to such a field, and is for the type that the field
/// borrows. A field that is not a mutable reference never gains `get_mut`.
pub proof fn lemma_query_reference_is_needed(input: DeriveInput, cap: Capability, k: int)
    requires
        struct_kind(input) == Ok::<StructType, DeriveError>(StructType::Query),
        cap == Capability::Get || cap == Capability::GetMut,
        0 <= k < accessors(input, StructType::Query, cap).len(),
    ensures
        ({
            let a = accessors(input, StructType::Query, cap)[k];
            exists|i: int|
                {
                    &&& 0 <= i < input.types().len()
                    &&& (#[trigger] input.types()[i]) is Reference
                    &&& cap == Capability::GetMut ==> input.types()[i]->mutable
                    &&& a.capability == cap
                    &&& a.source == SourceModel::Field(input.members()[i])
                    &&& a.component == *input.types()[i]->elem
                }
        }),
{
    lemma_emitted_has_field(
        StructType::Query,
        cap,
        input.ident@,
        input.members(),
        input.types(),
        input.types().len(),
        k,
    );
}

/// In a query, a field that is an optional reference to `T` always has
/// `get_optional` emitted for `T`, and has `get_optional_mut` emitted for
/// `T` if the wrapped reference is mutable; if it is not, the field gives
/// rise to no `get_optional_mut`.
pub proof fn lemma_query_optional_is_provided(input: DeriveInput, i: int)
    requires
        struct_kind(input) == Ok::<StructType, DeriveError>(StructType::Query),
        0 <= i < input.types().len(),
        wrapped_reference(input.types()[i]) is Some,
    ensures
        provides(
            accessors(input, StructType::Query, Capability::GetOptional),
            Capability::GetOptional,
            input.members()[i],
            option_target(input.types()[i])->0,
        ),
        wrapped_reference(input.types()[i])->0->mutable ==> provides(
            accessors(input, StructType::Query, Capability::GetOptionalMut),
            Capability::GetOptionalMut,
            input.members()[i],
            option_target(input.types()[i])->0,
        ),
        !wrapped_reference(input.types()[i])->0->mutable ==> field_accessor(
            StructType::Query,
            Capability::GetOptionalMut,
            input.ident@,
            input.members()[i],
            input.types()[i],
        ) is None,
{
    let n = input.types().len();
    let kind = StructType::Query;
    lemma_field_is_emitted(
        kind,
        Capability::GetOptional,
        input.ident@,
        input.members(),
        input.types(),
        n,
        i,
    );
    if wrapped_reference(input.types()[i])->0->mutable {
        lemma_field_is_emitted(
            kind,
            Capability::GetOptionalMut,
            input.ident@,
            input.members(),
            input.types(),
            n,
            i,
        );
    }
}

/// In a query, `get_optional` is emitted only for fields that are optional
/// references, and `get_optional_mut` only for those whose wrapped reference
/// is mutable: the implementation at `k` belongs to such a field, and is for
/// the type that the wrapped reference borrows.
pub proof fn lemma_query_optional_is_needed(input: DeriveInput, cap: Capability, k: int)
    requires
        struct_kind(input) == Ok::<StructType, DeriveError>(StructType::Query),
        cap == Capability::GetOptional || cap == Capability::GetOptionalMut,
        0 <= k < accessors(input, StructType::Query, cap).len(),
    ensures
        ({
            let a = accessors(input, StructType::Query, cap)[k];
            exists|i: int|
                {
                    &&& 0 <= i < input.types().len()
                    &&& wrapped_reference(#[trigger] input.types()[i]) is Some
                    &&& cap == Capability::GetOptionalMut ==> wrapped_reference(
                        input.types()[i],
                    )->0->mutable
                    &&& a.capability == cap
                    &&& a.source == SourceModel::Field(input.members()[i])
                    &&& Some(a.component) == option_target(input.types()[i])
                }
        }),
{
    lemma_emitted_has_field(
        StructType::Query,
        cap,
        input.ident@,
        input.members(),
        input.types(),
        input.types().len(),
        k,
    );
}

/// In a query, a field that is neither a reference nor an optional
/// reference is passed over: it gives rise to no implementation of any
/// capability, and the declaration is not refused on its account.
pub proof fn lemma_other_fields_are_skipped(input: DeriveInput, cap: Capability, i: int)
    requires
        struct_kind(input) == Ok::<StructType, DeriveError>(StructType::Query),
        0 <= i < input.types().len(),
        !(input.types()[i] is Reference),
        wrapped_reference(input.types()[i]) is None,
    ensures
        field_accessor(
            StructType::Query,
            cap,
            input.ident@,
            input.members()[i],
            input.types()[i],
        ) is None,
        derived(input, cap) is Ok,
{
}

} // verus!
