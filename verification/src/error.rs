//! Why a declaration is refused.

use vstd::prelude::*;
use vstd::string::StringExecFns;

verus! {

/// The reason a generator refuses a declaration. Nothing is emitted for a
/// refused declaration.
#[derive(Debug, Clone, Copy, PartialEq, Eq, Structural)]
pub enum DeriveError {
    /// The declaration is an enum or a union.
    NotAStruct,
    /// The declaration has more than one lifetime parameter.
    TooManyLifetimes,
    /// The declaration has a lifetime parameter where none is allowed.
    LifetimeParameters,
    /// The declaration has a generic parameter that is not a lifetime.
    TypeParameters,
}

impl DeriveError {
    /// The diagnostic that is reported at the declaration.
    pub open spec fn message_text(self) -> Seq<char> {
        match self {
            DeriveError::NotAStruct => "only structs supported"@,
            DeriveError::TooManyLifetimes => "at most one lifetime parameter allowed"@,
            DeriveError::LifetimeParameters => "no lifetime parameters allowed"@,
            DeriveError::TypeParameters => "no type parameters allowed"@,
        }
    }

    /// The diagnostic that is reported at the declaration.
    pub fn message(&self) -> (r: String)
        ensures
            r@ == self.message_text(),
    {
        match self {
            DeriveError::NotAStruct => String::from_str("only structs supported"),
            DeriveError::TooManyLifetimes => String::from_str(
                "at most one lifetime parameter allowed",
            ),
            DeriveError::LifetimeParameters => String::from_str("no lifetime parameters allowed"),
            DeriveError::TypeParameters => String::from_str("no type parameters allowed"),
        }
    }
}

/// The reason the tuple-query expansion refuses its input.
#[derive(Debug, Clone, Copy, PartialEq, Eq, Structural)]
pub enum ExpandError {
    /// No tuple was given, or a tuple without elements.
    EmptyInput,
    /// The input is something else than one parenthesized tuple.
    NotATuple,
}

impl ExpandError {
    /// The diagnostic that is reported at the expansion.
    pub open spec fn message_text(self) -> Seq<char> {
        match self {
            ExpandError::EmptyInput => "a tuple query needs at least one element"@,
            ExpandError::NotATuple => "expected one parenthesized tuple of component references"@,
        }
    }

    /// The diagnostic that is reported at the expansion.
    pub fn message(&self) -> (r: String)
        ensures
            r@ == self.message_text(),
    {
        match self {
            ExpandError::EmptyInput => String::from_str("a tuple query needs at least one element"),
            ExpandError::NotATuple => String::from_str(
                "expected one parenthesized tuple of component references",
            ),
        }
    }
}

} // verus!
