//! Query-string encoding of request parameters.

use std::collections::BTreeMap;
use vstd::prelude::*;

verus! {

/// The URL query-string encoding of a parameter map, or `None` when the map
/// cannot be encoded.  The exact encoding is the query-string library's; it
/// is a function of the parameters alone.
pub uninterp spec fn qs_of(params: Map<Seq<char>, Seq<char>>) -> Option<Seq<char>>;

/// Relies on `serde_qs::to_string`: encodes the parameter map as a URL query
/// string (`key=value` pairs joined by `&`, percent-encoded), exactly the
/// string named by [`qs_of`].
#[verifier::external_body]
pub(crate) fn encode_query(params: &BTreeMap<String, String>) -> (r: Option<String>)
    ensures
        match r {
            Some(s) => qs_of(params.deep_view()) == Some(s@),
            None => qs_of(params.deep_view()) is None,
        },
{
    serde_qs::to_string(params).ok()
}

} // verus!
