//! The request and response messages of the checker.

use vstd::prelude::*;

verus! {

/// A caller's validation request: which resource to probe and which
/// content types are acceptable.
///
/// `expected_types` lists full content-type strings, compared verbatim
/// (case-sensitive, parameters included) and with priority over
/// `expected_main_types`, which lists bare main types (the part of a
/// content type before the first `/`). Either list may be absent.
pub struct CheckRequest {
    pub url: String,
    pub expected_types: Option<Vec<String>>,
    pub expected_main_types: Option<Vec<String>>,
}

/// The verdict on one request: whether any criterion matched, the
/// content type that was observed (empty when the header was absent),
/// and the caller's criteria echoed back.
pub struct CheckResponse {
    pub is_ok: bool,
    pub content_type: String,
    pub expected_types: Option<Vec<String>>,
    pub expected_main_types: Option<Vec<String>>,
}

} // verus!
