//! The shapes that the generators read: type expressions, field names and
//! the declarations they belong to, each with its mathematical model.

use vstd::prelude::*;

verus! {

/// A field's declared type.
#[derive(Debug, PartialEq, Eq)]
pub enum TypeExpr {
    /// A borrowed reference `&'lifetime mut elem`. The lifetime's name stands
    /// without its apostrophe.
    Reference { lifetime: Option<String>, mutable: bool, elem: Box<TypeExpr> },
    /// A named type with its generic arguments, such as `i32`, `Option<&T>`
    /// or `std::vec::Vec<u8>`. The name is the path as it is written, so
    /// `Option` and `std::option::Option` are different names.
    Path { name: String, args: Vec<TypeExpr> },
    /// A parenthesized grouping `(A, B, ..)`.
    Tuple { elems: Vec<TypeExpr> },
    /// Any other type, or a generic argument that is no type, kept as its
    /// source text. The generators do not look into it: a reference inside
    /// it is not seen.
    Verbatim { text: String },
}

/// The mathematical model of a [`TypeExpr`].
pub enum TypeModel {
    Reference { lifetime: Option<Seq<char>>, mutable: bool, elem: Box<TypeModel> },
    Path { name: Seq<char>, args: Seq<TypeModel> },
    Tuple { elems: Seq<TypeModel> },
    Verbatim { text: Seq<char> },
}

/// The model of an optional name.
pub open spec fn name_model(name: Option<String>) -> Option<Seq<char>> {
    match name {
        Some(s) => Some(s@),
        None => None,
    }
}

/// The model of one type expression.
pub open spec fn type_model(t: TypeExpr) -> TypeModel
    decreases t,
{
    match t {
        TypeExpr::Reference { lifetime, mutable, elem } => TypeModel::Reference {
            lifetime: name_model(lifetime),
            mutable,
            elem: Box::new(type_model(*elem)),
        },
        TypeExpr::Path { name, args } => TypeModel::Path { name: name@, args: types_model(args@) },
        TypeExpr::Tuple { elems } => TypeModel::Tuple { elems: types_model(elems@) },
        TypeExpr::Verbatim { text } => TypeModel::Verbatim { text: text@ },
    }
}

/// The models of a sequence of type expressions, in order.
pub open spec fn types_model(ts: Seq<TypeExpr>) -> Seq<TypeModel>
    decreases ts,
{
    if ts.len() == 0 {
        Seq::empty()
    } else {
        types_model(ts.drop_last()).push(type_model(ts.last()))
    }
}

impl View for TypeExpr {
    type V = TypeModel;

    open spec fn view(&self) -> TypeModel {
        type_model(*self)
    }
}

/// Appending one type expression appends its model.
pub proof fn lemma_types_model_push(ts: Seq<TypeExpr>, t: TypeExpr)
    ensures
        types_model(ts.push(t)) == types_model(ts).push(type_model(t)),
{
    assert(ts.push(t).drop_last() == ts);
}

/// `types_model` maps element by element.
pub proof fn lemma_types_model(ts: Seq<TypeExpr>)
    ensures
        types_model(ts).len() == ts.len(),
        forall|i: int| 0 <= i < ts.len() ==> #[trigger] types_model(ts)[i] == type_model(ts[i]),
    decreases ts.len(),
{
    if ts.len() > 0 {
        lemma_types_model(ts.drop_last());
    }
}

/// Copies an optional name.
pub fn clone_name(name: &Option<String>) -> (r: Option<String>)
    ensures
        r == *name,
{
    match name {
        Some(s) => Some(s.clone()),
        None => None,
    }
}

/// Copies a list of type expressions.
pub fn clone_types(ts: &Vec<TypeExpr>) -> (r: Vec<TypeExpr>)
    ensures
        types_model(r@) == types_model(ts@),
    decreases ts,
{
    let mut out: Vec<TypeExpr> = Vec::new();
    let mut i: usize = 0;
    while i < ts.len()
        invariant
            i <= ts.len(),
            out.len() == i,
            types_model(out@) == types_model(ts@.take(i as int)),
        decreases ts.len() - i,
    {
        let item = ts[i].clone();
        proof {
            assert(ts@.take(i + 1).drop_last() == ts@.take(i as int));
            assert(out@.push(item).drop_last() == out@);
        }
        out.push(item);
        i += 1;
    }
    proof {
        assert(ts@.take(i as int) == ts@);
    }
    out
}

impl Clone for TypeExpr {
    fn clone(&self) -> (r: Self)
        ensures
            r@ == self@,
        decreases self,
    {
        match self {
            TypeExpr::Reference { lifetime, mutable, elem } => TypeExpr::Reference {
                lifetime: clone_name(lifetime),
                mutable: *mutable,
                elem: Box::new((**elem).clone()),
            },
            TypeExpr::Path { name, args } => TypeExpr::Path {
                name: name.clone(),
                args: clone_types(args),
            },
            TypeExpr::Tuple { elems } => TypeExpr::Tuple { elems: clone_types(elems) },
            TypeExpr::Verbatim { text } => TypeExpr::Verbatim { text: text.clone() },
        }
    }
}

/// The name of a field: an identifier, or a position in a tuple struct.
#[derive(Debug, PartialEq, Eq)]
pub enum Member {
    Named(String),
    Unnamed(usize),
}

/// The mathematical model of a [`Member`].
pub enum MemberModel {
    Named(Seq<char>),
    Unnamed(nat),
}

impl View for Member {
    type V = MemberModel;

    open spec fn view(&self) -> MemberModel {
        match self {
            Member::Named(ident) => MemberModel::Named(ident@),
            Member::Unnamed(index) => MemberModel::Unnamed(*index as nat),
        }
    }
}

impl Clone for Member {
    fn clone(&self) -> (r: Self)
        ensures
            r@ == self@,
    {
        match self {
            Member::Named(ident) => Member::Named(ident.clone()),
            Member::Unnamed(index) => Member::Unnamed(*index),
        }
    }
}

/// A field of a struct with named fields.
#[derive(Debug, Clone, PartialEq, Eq)]
pub struct NamedField {
    pub ident: String,
    pub ty: TypeExpr,
}

/// The fields of a struct, in declaration order.
#[derive(Debug, Clone, PartialEq, Eq)]
pub enum Fields {
    Named(Vec<NamedField>),
    Unnamed(Vec<TypeExpr>),
    Unit,
}

/// What kind of item a declaration is.
#[derive(Debug, Clone, PartialEq, Eq)]
pub enum Data {
    Struct(Fields),
    Enum,
    Union,
}

/// One generic parameter of a declaration.
#[derive(Debug, Clone, PartialEq, Eq)]
pub enum GenericParam {
    Lifetime(String),
    Type(String),
    Const(String),
}

/// A declaration that an accessor generator is applied to.
#[derive(Debug, Clone, PartialEq, Eq)]
pub struct DeriveInput {
    pub ident: String,
    pub generics: Vec<GenericParam>,
    pub data: Data,
}

/// How many of the parameters are lifetimes.
pub open spec fn count_lifetimes(params: Seq<GenericParam>) -> nat
    decreases params.len(),
{
    if params.len() == 0 {
        0
    } else {
        count_lifetimes(params.drop_last()) + if params.last() is Lifetime {
            1nat
        } else {
            0nat
        }
    }
}

impl Fields {
    /// The names of the fields, in order.
    pub open spec fn members(&self) -> Seq<MemberModel> {
        match self {
            Fields::Named(fields) => Seq::new(
                fields.len() as nat,
                |i: int| MemberModel::Named(fields[i].ident@),
            ),
            Fields::Unnamed(types) => Seq::new(
                types.len() as nat,
                |i: int| MemberModel::Unnamed(i as nat),
            ),
            Fields::Unit => Seq::empty(),
        }
    }

    /// The declared types of the fields, in order.
    pub open spec fn types(&self) -> Seq<TypeModel> {
        match self {
            Fields::Named(fields) => Seq::new(fields.len() as nat, |i: int| fields[i].ty@),
            Fields::Unnamed(types) => Seq::new(types.len() as nat, |i: int| types[i]@),
            Fields::Unit => Seq::empty(),
        }
    }
}

impl DeriveInput {
    /// How many lifetime parameters the declaration has.
    pub open spec fn lifetime_count(&self) -> nat {
        count_lifetimes(self.generics@)
    }

    /// The names of the declaration's fields; none unless it is a struct.
    pub open spec fn members(&self) -> Seq<MemberModel> {
        match self.data {
            Data::Struct(fields) => fields.members(),
            _ => Seq::empty(),
        }
    }

    /// The types of the declaration's fields; none unless it is a struct.
    pub open spec fn types(&self) -> Seq<TypeModel> {
        match self.data {
            Data::Struct(fields) => fields.types(),
            _ => Seq::empty(),
        }
    }
}

/// A trait declaration that the default-implementation forwarder is applied to.
#[derive(Debug, Clone, PartialEq, Eq)]
pub struct ItemTrait {
    /// The trait's name.
    pub ident: String,
    /// The source text of each supertrait bound, in order.
    pub supertraits: Vec<String>,
    /// The source text of the whole declaration.
    pub declaration: String,
}

} // verus!
