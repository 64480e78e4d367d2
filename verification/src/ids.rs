//! Widget identifiers.
//!
//! An identifier is an immutable string token naming one widget instance
//! across frames; callers own its stability. Identifiers are compared by
//! their character contents.

use vstd::prelude::*;

verus! {

/// The contents of an optional identifier, for contracts: identifiers are
/// compared as character sequences, never by reference identity.
pub open spec fn opt_id_view(o: Option<&'static str>) -> Option<Seq<char>> {
    match o {
        Option::None => Option::None,
        Option::Some(s) => Option::Some(s@),
    }
}

/// Relies on `str`'s `PartialEq`: `==` on string slices compares their
/// contents, so it returns true exactly when the character sequences agree.
#[verifier::external_body]
pub(crate) fn str_eq(a: &str, b: &str) -> (r: bool)
    ensures
        r == (a@ == b@),
{
    a == b
}

/// Whether the identifier slot `o` currently names `id`.
pub(crate) fn opt_is_id(o: Option<&'static str>, id: &str) -> (r: bool)
    ensures
        r == (opt_id_view(o) == Option::Some(id@)),
{
    match o {
        Option::None => false,
        Option::Some(s) => str_eq(s, id),
    }
}

} // verus!
