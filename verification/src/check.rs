//! The verdict logic: extracting a main type, observing a header, and
//! matching the observed content type against the caller's criteria.
//!
//! Of the two behaviours this checker could have, it commits to this one:
//! the criteria lists are echoed back in the response, the main-type list
//! is consulted whenever the exact list did not match (not only when it
//! was absent), and a request that supplies no criteria at all resolves
//! to a verdict of not-ok rather than an error.

use vstd::prelude::*;
use vstd::string::StrSliceExecFns;
use vstd::string::StringExecFns;

use crate::message::CheckResponse;

verus! {

/// Whether a `/` occurs anywhere in the string.
pub open spec fn contains_slash(ct: Seq<char>) -> bool {
    exists|i: int| 0 <= i < ct.len() && ct[i] == '/'
}

/// The position of the first `/`, counted past the end when none occurs.
pub open spec fn first_slash(ct: Seq<char>) -> int
    decreases ct.len(),
{
    if ct.len() == 0 {
        0
    } else if ct[0] == '/' {
        0
    } else {
        1 + first_slash(ct.drop_first())
    }
}

/// The main type of a content type: the characters before the first `/`,
/// or the empty string when no `/` occurs.
pub open spec fn spec_main_type(ct: Seq<char>) -> Seq<char> {
    if contains_slash(ct) {
        ct.subrange(0, first_slash(ct))
    } else {
        Seq::empty()
    }
}

proof fn lemma_first_slash_at(ct: Seq<char>, i: int)
    requires
        0 <= i < ct.len(),
        ct[i] == '/',
        forall|j: int| 0 <= j < i ==> ct[j] != '/',
    ensures
        contains_slash(ct),
        first_slash(ct) == i,
    decreases i,
{
    if i > 0 {
        assert forall|j: int| 0 <= j < i - 1 implies ct.drop_first()[j] != '/' by {
            assert(ct.drop_first()[j] == ct[j + 1]);
        }
        assert(ct.drop_first()[i - 1] == ct[i]);
        lemma_first_slash_at(ct.drop_first(), i - 1);
    }
}

/// The main type of the given content type: everything before the first
/// `/`, and the empty string when the string holds no `/`.
pub fn main_type_of(content_type: &str) -> (main: String)
    ensures
        main@ == spec_main_type(content_type@),
{
    let n: usize = content_type.unicode_len();
    let mut i: usize = 0;
    while i < n
        invariant
            n == content_type@.len(),
            i <= n,
            forall|j: int| 0 <= j < i ==> content_type@[j] != '/',
        decreases n - i,
    {
        if content_type.get_char(i) == '/' {
            proof {
                lemma_first_slash_at(content_type@, i as int);
            }
            let prefix = content_type.substring_char(0, i);
            return String::from_str(prefix);
        }
        i += 1;
    }
    String::new()
}

/// What a probe observed: the header's value as it came, or the empty
/// string when the resource carried no `Content-Type` header.
pub open spec fn spec_observed(header: Option<String>) -> Seq<char> {
    match header {
        Some(value) => value@,
        None => Seq::empty(),
    }
}

/// The content type observed on a probe. An absent header is a valid
/// observation of the empty string, not an error.
pub fn observed_content_type(header: Option<String>) -> (ct: String)
    ensures
        ct@ == spec_observed(header),
{
    match header {
        Some(value) => value,
        None => String::new(),
    }
}

/// Whether the list holds this exact string.
pub open spec fn list_contains(list: Seq<Seq<char>>, x: Seq<char>) -> bool {
    exists|i: int| 0 <= i < list.len() && list[i] == x
}

fn contains_string(list: &Vec<String>, x: &String) -> (found: bool)
    ensures
        found == list_contains(list.deep_view(), x@),
{
    let mut i: usize = 0;
    while i < list.len()
        invariant
            i <= list.len(),
            forall|j: int| 0 <= j < i ==> list.deep_view()[j] != x@,
        decreases list.len() - i,
    {
        if list[i] == *x {
            assert(list.deep_view()[i as int] == x@);
            return true;
        }
        i += 1;
    }
    false
}

/// Whether the exact list, when supplied, holds the observed content
/// type verbatim (case-sensitive, parameters included).
pub open spec fn spec_exact_match(ct: Seq<char>, types: Option<Seq<Seq<char>>>) -> bool {
    match types {
        Some(list) => list_contains(list, ct),
        None => false,
    }
}

/// Whether the main-type list, when supplied, holds the observed content
/// type's main type.
pub open spec fn spec_main_match(ct: Seq<char>, mains: Option<Seq<Seq<char>>>) -> bool {
    match mains {
        Some(list) => list_contains(list, spec_main_type(ct)),
        None => false,
    }
}

/// The verdict on an observed content type: some criterion matched,
/// exact matches taking priority over main-type matches.
pub open spec fn spec_is_ok(
    ct: Seq<char>,
    types: Option<Seq<Seq<char>>>,
    mains: Option<Seq<Seq<char>>>,
) -> bool {
    spec_exact_match(ct, types) || spec_main_match(ct, mains)
}

/// The verdict on one observation: `is_ok` says whether any criterion
/// matched, the observed content type and the criteria are echoed back.
pub fn evaluate(
    content_type: String,
    expected_types: Option<Vec<String>>,
    expected_main_types: Option<Vec<String>>,
) -> (response: CheckResponse)
    ensures
        response.content_type == content_type,
        response.expected_types == expected_types,
        response.expected_main_types == expected_main_types,
        response.is_ok == spec_is_ok(
            content_type@,
            expected_types.deep_view(),
            expected_main_types.deep_view(),
        ),
{
    let mut is_ok: bool = false;
    match &expected_types {
        Some(types) => {
            if contains_string(types, &content_type) {
                is_ok = true;
            }
        },
        None => {},
    }
    if !is_ok {
        match &expected_main_types {
            Some(mains) => {
                let main_type = main_type_of(content_type.as_str());
                if contains_string(mains, &main_type) {
                    is_ok = true;
                }
            },
            None => {},
        }
    }
    CheckResponse { is_ok, content_type, expected_types, expected_main_types }
}

} // verus!
