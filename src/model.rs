//! The decoded shape of one page of search results.

use vstd::prelude::*;

verus! {

/// One repository of a result page.
#[derive(Clone, Debug)]
pub struct RepositorySummary {
    pub name: String,
    pub owner_login: String,
    pub description: Option<String>,
    pub default_branch: String,
    pub stargazers_count: u64,
    pub open_issues: u64,
    pub forks: u64,
    pub homepage: Option<String>,
}

/// One page of results: the number of matches the server reports, which
/// may exceed the items returned, and the items in the server's order.
#[derive(Clone, Debug)]
pub struct SearchResultSet {
    pub total_count: i64,
    pub items: Vec<RepositorySummary>,
}

/// The characters of an optional string, absence kept apart from empty.
pub open spec fn opt_chars(o: Option<String>) -> Option<Seq<char>> {
    match o {
        Some(s) => Some(s@),
        None => None,
    }
}

} // verus!
