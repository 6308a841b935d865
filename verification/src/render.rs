//! Source text: how type expressions, field names and emitted
//! implementations are written out as Rust code.

use vstd::prelude::*;
use vstd::string::StringExecFns;
use crate::accessor::{
    accessors_model, AccessorImpl, AccessorModel, Capability, Source, SourceModel, StructType,
};
use crate::syntax::{
    lemma_types_model, lemma_types_model_push, types_model, Member, MemberModel, TypeExpr, TypeModel,
};

verus! {

/// The text of a reference's lifetime: `'name ` with a space after it, or nothing.
pub open spec fn lifetime_source(lifetime: Option<Seq<char>>) -> Seq<char> {
    match lifetime {
        Some(name) => "'"@ + name + " "@,
        None => ""@,
    }
}

/// The text of a reference's mutability: `mut ` with a space after it, or nothing.
pub open spec fn mutability_source(mutable: bool) -> Seq<char> {
    if mutable {
        "mut "@
    } else {
        ""@
    }
}

/// The source text of a type.
pub open spec fn type_source(t: TypeModel) -> Seq<char>
    decreases t,
{
    match t {
        TypeModel::Reference { lifetime, mutable, elem } => "&"@ + lifetime_source(lifetime)
            + mutability_source(mutable) + type_source(*elem),
        TypeModel::Path { name, args } => if args.len() == 0 {
            name
        } else {
            name + "<"@ + list_source(args) + ">"@
        },
        TypeModel::Tuple { elems } => "("@ + list_source(elems) + tuple_end_source(elems.len()),
        TypeModel::Verbatim { text } => text,
    }
}

/// The source text of a list of types, separated by commas.
pub open spec fn list_source(ts: Seq<TypeModel>) -> Seq<char>
    decreases ts,
{
    if ts.len() == 0 {
        ""@
    } else if ts.len() == 1 {
        type_source(ts.last())
    } else {
        list_source(ts.drop_last()) + ", "@ + type_source(ts.last())
    }
}

/// What closes a tuple of `n` elements: a tuple of one element needs a comma
/// before the parenthesis.
pub open spec fn tuple_end_source(n: nat) -> Seq<char> {
    if n == 1 {
        ",)"@
    } else {
        ")"@
    }
}

/// One decimal digit.
pub open spec fn digit_source(d: nat) -> Seq<char> {
    if d == 0 {
        "0"@
    } else if d == 1 {
        "1"@
    } else if d == 2 {
        "2"@
    } else if d == 3 {
        "3"@
    } else if d == 4 {
        "4"@
    } else if d == 5 {
        "5"@
    } else if d == 6 {
        "6"@
    } else if d == 7 {
        "7"@
    } else if d == 8 {
        "8"@
    } else {
        "9"@
    }
}

/// A number in decimal, without leading zeros.
pub open spec fn decimal_source(n: nat) -> Seq<char>
    decreases n,
{
    if n < 10 {
        digit_source(n)
    } else {
        decimal_source(n / 10) + digit_source(n % 10)
    }
}

/// The source text of a field's name.
pub open spec fn member_source(m: MemberModel) -> Seq<char> {
    match m {
        MemberModel::Named(ident) => ident,
        MemberModel::Unnamed(index) => decimal_source(index),
    }
}

fn lifetime_text(lifetime: &Option<String>) -> (r: String)
    ensures
        r@ == lifetime_source(crate::syntax::name_model(*lifetime)),
{
    match lifetime {
        Some(name) => {
            let mut out = String::from_str("'");
            out.append(name.as_str());
            out.append(" ");
            out
        },
        None => String::from_str(""),
    }
}

fn mutability_text(mutable: bool) -> (r: &'static str)
    ensures
        r@ == mutability_source(mutable),
{
    if mutable {
        "mut "
    } else {
        ""
    }
}

/// Writes out a list of types, separated by commas.
pub fn list_text(ts: &Vec<TypeExpr>) -> (r: String)
    ensures
        r@ == list_source(types_model(ts@)),
    decreases ts,
{
    if ts.len() == 0 {
        return String::from_str("");
    }
    let mut out = type_text(&ts[0]);
    let mut i: usize = 1;
    proof {
        lemma_types_model(ts@.take(1));
    }
    while i < ts.len()
        invariant
            1 <= i <= ts.len(),
            out@ == list_source(types_model(ts@.take(i as int))),
        decreases ts.len() - i,
    {
        let item = type_text(&ts[i]);
        proof {
            let before = ts@.take(i as int);
            assert(ts@.take(i + 1) == before.push(ts@[i as int]));
            lemma_types_model_push(before, ts@[i as int]);
            lemma_types_model(before);
            assert(types_model(before).push(ts@[i as int]@).drop_last() == types_model(before));
        }
        out.append(", ");
        out.append(item.as_str());
        i += 1;
    }
    proof {
        assert(ts@.take(i as int) == ts@);
    }
    out
}

fn tuple_end_text(n: usize) -> (r: &'static str)
    ensures
        r@ == tuple_end_source(n as nat),
{
    if n == 1 {
        ",)"
    } else {
        ")"
    }
}

/// Writes out a type.
pub fn type_text(t: &TypeExpr) -> (r: String)
    ensures
        r@ == type_source(t@),
    decreases t,
{
    match t {
        TypeExpr::Reference { lifetime, mutable, elem } => {
            let mut out = String::from_str("&");
            out.append(lifetime_text(lifetime).as_str());
            out.append(mutability_text(*mutable));
            out.append(type_text(&**elem).as_str());
            out
        },
        TypeExpr::Path { name, args } => {
            let mut out = name.clone();
            proof {
                lemma_types_model(args@);
            }
            if args.len() > 0 {
                out.append("<");
                out.append(list_text(args).as_str());
                out.append(">");
            }
            out
        },
        TypeExpr::Tuple { elems } => {
            let mut out = String::from_str("(");
            proof {
                lemma_types_model(elems@);
            }
            out.append(list_text(elems).as_str());
            out.append(tuple_end_text(elems.len()));
            out
        },
        TypeExpr::Verbatim { text } => text.clone(),
    }
}

fn digit_text(d: usize) -> (r: &'static str)
    requires
        d < 10,
    ensures
        r@ == digit_source(d as nat),
{
    if d == 0 {
        "0"
    } else if d == 1 {
        "1"
    } else if d == 2 {
        "2"
    } else if d == 3 {
        "3"
    } else if d == 4 {
        "4"
    } else if d == 5 {
        "5"
    } else if d == 6 {
        "6"
    } else if d == 7 {
        "7"
    } else if d == 8 {
        "8"
    } else {
        "9"
    }
}

/// Writes out a number in decimal.
pub fn decimal_text(n: usize) -> (r: String)
    ensures
        r@ == decimal_source(n as nat),
    decreases n,
{
    if n < 10 {
        String::from_str(digit_text(n))
    } else {
        let mut out = decimal_text(n / 10);
        out.append(digit_text(n % 10));
        out
    }
}

/// Writes out a field's name.
pub fn member_text(m: &Member) -> (r: String)
    ensures
        r@ == member_source(m@),
{
    match m {
        Member::Named(ident) => ident.clone(),
        Member::Unnamed(index) => decimal_text(*index),
    }
}

/// The name of the trait that stands for a capability.
pub open spec fn trait_name(cap: Capability) -> Seq<char> {
    match cap {
        Capability::Get => "ComponentProvider"@,
        Capability::GetMut => "ComponentProviderMut"@,
        Capability::GetOptional => "ComponentProviderOptional"@,
        Capability::GetOptionalMut => "ComponentProviderOptionalMut"@,
    }
}

/// The name of the accessor method of a capability.
pub open spec fn method_name(cap: Capability) -> Seq<char> {
    match cap {
        Capability::Get => "get"@,
        Capability::GetMut => "get_mut"@,
        Capability::GetOptional => "get_optional"@,
        Capability::GetOptionalMut => "get_optional_mut"@,
    }
}

/// The receiver of the accessor method of a capability.
pub open spec fn receiver_source(cap: Capability) -> Seq<char> {
    match cap {
        Capability::Get => "&self"@,
        Capability::GetMut => "&mut self"@,
        Capability::GetOptional => "&self"@,
        Capability::GetOptionalMut => "&mut self"@,
    }
}

/// The lifetime parameter list of a struct of the given kind: none for a
/// bundle, `<'a>` for a query.
pub open spec fn lifetime_params_source(kind: StructType) -> Seq<char> {
    match kind {
        StructType::Bundle => ""@,
        StructType::Query => "<'a>"@,
    }
}

/// What stands before the field's name in the body of an accessor. A bundle
/// owns the field, so the accessor borrows it; a query holds a reference,
/// which the accessor hands on, or reborrows from inside the `Option`.
pub open spec fn body_head_source(kind: StructType, cap: Capability) -> Seq<char> {
    match cap {
        Capability::Get => match kind {
            StructType::Bundle => "&self."@,
            StructType::Query => "self."@,
        },
        Capability::GetMut => match kind {
            StructType::Bundle => "&mut self."@,
            StructType::Query => "self."@,
        },
        Capability::GetOptional => "if let Some(v) = &self."@,
        Capability::GetOptionalMut => "if let Some(v) = &mut self."@,
    }
}

/// What stands after the field's name in the body of an accessor.
pub open spec fn body_tail_source(cap: Capability) -> Seq<char> {
    match cap {
        Capability::Get => ""@,
        Capability::GetMut => ""@,
        Capability::GetOptional => " { Some(&*v) } else { None }"@,
        Capability::GetOptionalMut => " { Some(&mut *v) } else { None }"@,
    }
}

/// The body of an accessor method.
pub open spec fn body_source(kind: StructType, cap: Capability, source: SourceModel) -> Seq<char> {
    match source {
        SourceModel::Field(member) => body_head_source(kind, cap) + member_source(member)
            + body_tail_source(cap),
        SourceModel::Itself => "self"@,
    }
}

/// The source text of one emitted implementation, on a line of its own.
pub open spec fn impl_source(a: AccessorModel) -> Seq<char> {
    "impl"@ + lifetime_params_source(a.struct_type) + " ::hecs_component_provider::"@ + trait_name(
        a.capability,
    ) + "<"@ + type_source(a.component) + "> for "@ + a.ident + lifetime_params_source(
        a.struct_type,
    ) + " { fn "@ + method_name(a.capability) + "("@ + receiver_source(a.capability) + ") -> "@
        + type_source(a.return_type) + " { "@ + body_source(a.struct_type, a.capability, a.source)
        + " } }\n"@
}

/// The source text of a list of emitted implementations, in order.
pub open spec fn impls_source(impls: Seq<AccessorModel>) -> Seq<char>
    decreases impls.len(),
{
    if impls.len() == 0 {
        ""@
    } else {
        impls_source(impls.drop_last()) + impl_source(impls.last())
    }
}

/// The source text that reports `message` as a compile error.
pub open spec fn compile_error_source(message: Seq<char>) -> Seq<char> {
    "::core::compile_error! { \""@ + message + "\" }\n"@
}

fn trait_name_text(cap: Capability) -> (r: &'static str)
    ensures
        r@ == trait_name(cap),
{
    match cap {
        Capability::Get => "ComponentProvider",
        Capability::GetMut => "ComponentProviderMut",
        Capability::GetOptional => "ComponentProviderOptional",
        Capability::GetOptionalMut => "ComponentProviderOptionalMut",
    }
}

fn method_name_text(cap: Capability) -> (r: &'static str)
    ensures
        r@ == method_name(cap),
{
    match cap {
        Capability::Get => "get",
        Capability::GetMut => "get_mut",
        Capability::GetOptional => "get_optional",
        Capability::GetOptionalMut => "get_optional_mut",
    }
}

fn receiver_text(cap: Capability) -> (r: &'static str)
    ensures
        r@ == receiver_source(cap),
{
    match cap {
        Capability::Get => "&self",
        Capability::GetMut => "&mut self",
        Capability::GetOptional => "&self",
        Capability::GetOptionalMut => "&mut self",
    }
}

fn lifetime_params_text(kind: StructType) -> (r: &'static str)
    ensures
        r@ == lifetime_params_source(kind),
{
    match kind {
        StructType::Bundle => "",
        StructType::Query => "<'a>",
    }
}

fn body_head_text(kind: StructType, cap: Capability) -> (r: &'static str)
    ensures
        r@ == body_head_source(kind, cap),
{
    match cap {
        Capability::Get => match kind {
            StructType::Bundle => "&self.",
            StructType::Query => "self.",
        },
        Capability::GetMut => match kind {
            StructType::Bundle => "&mut self.",
            StructType::Query => "self.",
        },
        Capability::GetOptional => "if let Some(v) = &self.",
        Capability::GetOptionalMut => "if let Some(v) = &mut self.",
    }
}

fn body_tail_text(cap: Capability) -> (r: &'static str)
    ensures
        r@ == body_tail_source(cap),
{
    match cap {
        Capability::Get => "",
        Capability::GetMut => "",
        Capability::GetOptional => " { Some(&*v) } else { None }",
        Capability::GetOptionalMut => " { Some(&mut *v) } else { None }",
    }
}

fn body_text(kind: StructType, cap: Capability, source: &Source) -> (r: String)
    ensures
        r@ == body_source(kind, cap, source@),
{
    match source {
        Source::Field(member) => {
            let mut out = String::from_str(body_head_text(kind, cap));
            out.append(member_text(member).as_str());
            out.append(body_tail_text(cap));
            out
        },
        Source::Itself => String::from_str("self"),
    }
}

/// Writes out one emitted implementation, on a line of its own.
pub fn impl_text(a: &AccessorImpl) -> (r: String)
    ensures
        r@ == impl_source(a@),
{
    let mut out = String::from_str("impl");
    out.append(lifetime_params_text(a.struct_type));
    out.append(" ::hecs_component_provider::");
    out.append(trait_name_text(a.capability));
    out.append("<");
    out.append(type_text(&a.component).as_str());
    out.append("> for ");
    out.append(a.ident.as_str());
    out.append(lifetime_params_text(a.struct_type));
    out.append(" { fn ");
    out.append(method_name_text(a.capability));
    out.append("(");
    out.append(receiver_text(a.capability));
    out.append(") -> ");
    out.append(type_text(&a.return_type).as_str());
    out.append(" { ");
    out.append(body_text(a.struct_type, a.capability, &a.source).as_str());
    out.append(" } }\n");
    out
}

/// Writes out a list of emitted implementations, in order.
pub fn impls_text(impls: &Vec<AccessorImpl>) -> (r: String)
    ensures
        r@ == impls_source(accessors_model(impls@)),
{
    let mut out = String::from_str("");
    let mut i: usize = 0;
    while i < impls.len()
        invariant
            i <= impls.len(),
            out@ == impls_source(accessors_model(impls@.take(i as int))),
        decreases impls.len() - i,
    {
        proof {
            let next = accessors_model(impls@.take(i + 1));
            assert(next.drop_last() =~= accessors_model(impls@.take(i as int)));
        }
        out.append(impl_text(&impls[i]).as_str());
        i += 1;
    }
    proof {
        assert(impls@.take(i as int) == impls@);
    }
    out
}

/// Writes out the compile error that reports `message`.
pub fn compile_error_text(message: &str) -> (r: String)
    ensures
        r@ == compile_error_source(message@),
{
    let mut out = String::from_str("::core::compile_error! { \"");
    out.append(message);
    out.append("\" }\n");
    out
}

} // verus!
