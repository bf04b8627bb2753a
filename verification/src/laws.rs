//! The laws of the verdict, each proved over the spec functions that
//! `evaluate` and `conclude` are contracted against.

use vstd::prelude::*;

use crate::check::list_contains;
use crate::check::spec_is_ok;
use crate::check::spec_main_type;
use crate::check::spec_observed;

verus! {

/// An exact match decides the verdict by itself: whenever the exact
/// list holds the observed content type, the verdict is ok, whatever
/// the main-type list holds.
pub proof fn exact_match_decides(
    ct: Seq<char>,
    types: Seq<Seq<char>>,
    mains: Option<Seq<Seq<char>>>,
)
    requires
        list_contains(types, ct),
    ensures
        spec_is_ok(ct, Some(types), mains),
{
}

/// When the exact list is absent or empty, a main-type list that holds
/// the observed content type's main type decides the verdict.
pub proof fn main_match_decides(
    ct: Seq<char>,
    types: Option<Seq<Seq<char>>>,
    mains: Seq<Seq<char>>,
)
    requires
        types matches Some(list) ==> list.len() == 0,
        list_contains(mains, spec_main_type(ct)),
    ensures
        spec_is_ok(ct, types, Some(mains)),
{
}

/// When neither list holds a match, the verdict is not ok; `evaluate`'s
/// own contract adds that the response still reports the content type
/// exactly as observed.
pub proof fn no_match_rejects(
    ct: Seq<char>,
    types: Option<Seq<Seq<char>>>,
    mains: Option<Seq<Seq<char>>>,
)
    requires
        types matches Some(list) ==> !list_contains(list, ct),
        mains matches Some(list) ==> !list_contains(list, spec_main_type(ct)),
    ensures
        !spec_is_ok(ct, types, mains),
{
}

/// An absent `Content-Type` header is observed as the empty content
/// type; without an exact match for the empty string, and with no empty
/// entry in the main-type list, the verdict is not ok. (An empty entry
/// in the main-type list would match, since the empty content type's
/// main type is itself empty.)
pub proof fn absent_header_rejects(
    types: Option<Seq<Seq<char>>>,
    mains: Option<Seq<Seq<char>>>,
)
    requires
        types matches Some(list) ==> !list_contains(list, Seq::<char>::empty()),
        mains matches Some(list) ==> !list_contains(list, Seq::<char>::empty()),
    ensures
        spec_observed(Option::<String>::None) == Seq::<char>::empty(),
        !spec_is_ok(spec_observed(Option::<String>::None), types, mains),
{
    assert(spec_main_type(Seq::<char>::empty()) == Seq::<char>::empty());
}

} // verus!
