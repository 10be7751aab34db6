//! The parameters of one search and the request they make.

use vstd::prelude::*;
use vstd::string::*;
use crate::text::{decimal, u64_to_decimal};

verus! {

/// The service every search is sent to.
pub open spec fn base_url() -> Seq<char> {
    "https://api.github.com"@
}

/// The address of the search for `term`, with the page size and the page
/// number as parameters; the term goes in as it is.
pub open spec fn request_url_of(term: Seq<char>, page: nat, per_page: nat) -> Seq<char> {
    base_url() + "/search/repositories?q="@ + term + "&per_page="@ + decimal(per_page)
        + "&page="@ + decimal(page)
}

/// One search: the term, the page wanted and the number of items per page.
#[derive(Clone, Debug)]
pub struct SearchQuery {
    pub term: String,
    pub page: u16,
    pub per_page: u16,
}

impl SearchQuery {
    pub fn new(term: &str, page: u16, per_page: u16) -> (r: SearchQuery)
        ensures
            r.term@ == term@,
            r.page == page,
            r.per_page == per_page,
    {
        SearchQuery { term: String::from_str(term), page, per_page }
    }

    /// The address to fetch.
    pub fn request_url(&self) -> (r: String)
        ensures
            r@ == request_url_of(self.term@, self.page as nat, self.per_page as nat),
    {
        let mut r = String::from_str("https://api.github.com");
        r.append("/search/repositories?q=");
        r.append(self.term.as_str());
        r.append("&per_page=");
        r.append(u64_to_decimal(self.per_page as u64).as_str());
        r.append("&page=");
        r.append(u64_to_decimal(self.page as u64).as_str());
        r
    }

    /// The value that identifies the caller on the request: the term itself.
    pub fn user_agent(&self) -> (r: String)
        ensures
            r@ == self.term@,
    {
        String::from_str(self.term.as_str())
    }
}

} // verus!
