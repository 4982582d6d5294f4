use inflections::Inflect;
use vstd::prelude::*;

verus! {

/// The PascalCase form of a name, as the `inflections` crate computes it.
pub uninterp spec fn pascal_of(s: Seq<char>) -> Seq<char>;

/// Relies on `inflections::Inflect::to_pascal_case` for `str`: the result
/// depends on the characters of the argument alone.
#[verifier::external_body]
pub(crate) fn pascal_case(s: &str) -> (r: String)
    ensures
        r@ == pascal_of(s@),
{
    s.to_pascal_case()
}

} // verus!
