//! Web search as the registry offers it: where a query goes.

use vstd::prelude::*;
use vstd::string::StringExecFns;

verus! {

/// The address of the search, up to the query.
pub const SEARCH_ENDPOINT: &'static str = "https://api.search.brave.com/res/v1/web/search?q=";

/// The address that answers `query`. The query is appended as it is.
pub fn search_url(query: &str) -> (url: String)
    ensures
        url@ == SEARCH_ENDPOINT@ + query@,
{
    SEARCH_ENDPOINT.to_string().concat(query)
}

} // verus!
