//! Name-casing advice. Whether a name is written in ClassCase is decided
//! by an outside inflection library; the answer is a function of the
//! name's characters alone, named here so contracts can speak of it.

use vstd::prelude::*;

verus! {

/// Whether a sequence of characters is written in ClassCase.
pub uninterp spec fn class_cased(s: Seq<char>) -> bool;

/// Relies on Inflector's `is_class_case`: whether `s` is written in
/// ClassCase, i.e. whether re-casing it to ClassCase leaves it unchanged.
/// The result depends on the characters alone.
#[verifier::external_body]
pub(crate) fn is_class_case(s: &str) -> (r: bool)
    ensures
        r == class_cased(s@),
{
    inflector::cases::classcase::is_class_case(s)
}

} // verus!
