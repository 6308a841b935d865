//! The default-implementation forwarder: a trait's default methods are given
//! to every type that meets the trait's supertrait bounds.

use vstd::prelude::*;
use vstd::string::StringExecFns;
use crate::error::DeriveError;
use crate::syntax::ItemTrait;

verus! {

/// The texts that a list of strings holds, in order.
pub open spec fn texts(strings: Seq<String>) -> Seq<Seq<char>> {
    strings.map_values(|s: String| s@)
}

/// The bounds joined by ` + `; nothing for no bound.
pub open spec fn bounds_source(bounds: Seq<Seq<char>>) -> Seq<char>
    decreases bounds.len(),
{
    if bounds.len() == 0 {
        ""@
    } else if bounds.len() == 1 {
        bounds[0]
    } else {
        bounds_source(bounds.drop_last()) + " + "@ + bounds.last()
    }
}

/// The blanket implementation of the trait `ident` for every type `T` that
/// meets all of `bounds`. It has no items: the trait's default method bodies
/// are all that the implementing types get. With no bound it holds for every
/// type.
pub open spec fn blanket_impl_source(ident: Seq<char>, bounds: Seq<Seq<char>>) -> Seq<char> {
    "impl<T> "@ + ident + " for T where T: "@ + bounds_source(bounds) + " {}\n"@
}

/// What the forwarder emits for a trait: the declaration as it was, then the
/// blanket implementation.
pub open spec fn forwarded_source(input: ItemTrait) -> Seq<char> {
    input.declaration@ + "\n"@ + blanket_impl_source(input.ident@, texts(input.supertraits@))
}

/// Joins the bounds by ` + `.
pub fn bounds_text(bounds: &Vec<String>) -> (r: String)
    ensures
        r@ == bounds_source(texts(bounds@)),
{
    if bounds.len() == 0 {
        return String::from_str("");
    }
    let mut out = bounds[0].clone();
    let mut i: usize = 1;
    while i < bounds.len()
        invariant
            1 <= i <= bounds.len(),
            out@ == bounds_source(texts(bounds@.take(i as int))),
        decreases bounds.len() - i,
    {
        proof {
            let next = texts(bounds@.take(i + 1));
            assert(next.drop_last() =~= texts(bounds@.take(i as int)));
        }
        out.append(" + ");
        out.append(bounds[i].as_str());
        i += 1;
    }
    proof {
        assert(bounds@.take(i as int) == bounds@);
    }
    out
}

/// Emits the trait's declaration unchanged, followed by a blanket
/// implementation of the trait for every type that meets all of its
/// supertrait bounds. No trait is refused: one without supertraits is
/// implemented for every type.
pub fn generate(input: &ItemTrait) -> (r: Result<String, DeriveError>)
    ensures
        r matches Ok(text) && text@ == forwarded_source(*input),
{
    let mut out = input.declaration.clone();
    out.append("\n");
    let mut blanket = String::from_str("impl<T> ");
    blanket.append(input.ident.as_str());
    blanket.append(" for T where T: ");
    blanket.append(bounds_text(&input.supertraits).as_str());
    blanket.append(" {}\n");
    out.append(blanket.as_str());
    Ok(out)
}

/// A trait without supertraits is not refused: the forwarder emits its
/// declaration and a blanket implementation without bounds, which holds for
/// every type.
pub proof fn lemma_no_supertraits(input: ItemTrait)
    requires
        input.supertraits@.len() == 0,
    ensures
        forwarded_source(input) == input.declaration@ + "\n"@ + ("impl<T> "@ + input.ident@
            + " for T where T: "@ + ""@ + " {}\n"@),
{
}

} // verus!
