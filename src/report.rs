//! The whole report of one search: the header, then a row per item, or
//! the error that stopped it.

use vstd::prelude::*;
use vstd::string::*;
use crate::layout::{format_row, row_lines};
use crate::model::{RepositorySummary, SearchResultSet};
use crate::text::{decimal, i64_to_decimal, signed_decimal, u64_to_decimal};

verus! {

/// The two header lines: the total the server reports and the page size
/// that was asked for.
pub open spec fn header_lines(total_count: int, per_page: nat) -> Seq<Seq<char>> {
    seq!["Results: "@ + signed_decimal(total_count), "Showed: "@ + decimal(per_page)]
}

/// The rows of `items`, in their order.
pub open spec fn item_lines(items: Seq<RepositorySummary>) -> Seq<Seq<char>>
    decreases items.len(),
{
    if items.len() == 0 {
        seq![]
    } else {
        item_lines(items.drop_last()) + row_lines(items.last())
    }
}

/// The report of `set` for a page size of `per_page`.
pub open spec fn report_lines(set: SearchResultSet, per_page: nat) -> Seq<Seq<char>> {
    header_lines(set.total_count as int, per_page) + item_lines(set.items@)
}

/// Rows keep the order of the items: the rows of two runs of items, one
/// after the other, are the rows of the first run, then those of the second.
pub proof fn lemma_item_lines_split(a: Seq<RepositorySummary>, b: Seq<RepositorySummary>)
    ensures
        item_lines(a + b) == item_lines(a) + item_lines(b),
    decreases b.len(),
{
    if b.len() == 0 {
        assert(a + b =~= a);
        assert(item_lines(a) + item_lines(b) =~= item_lines(a));
    } else {
        assert((a + b).drop_last() =~= a + b.drop_last());
        assert((a + b).last() == b.last());
        lemma_item_lines_split(a, b.drop_last());
        assert(item_lines(a) + item_lines(b.drop_last()) + row_lines(b.last()) =~= item_lines(a)
            + (item_lines(b.drop_last()) + row_lines(b.last())));
    }
}

/// A page that reports no matches and holds no items gives the two header
/// lines and no row.
pub proof fn lemma_empty_page(set: SearchResultSet, per_page: nat)
    requires
        set.total_count == 0,
        set.items@.len() == 0,
    ensures
        report_lines(set, per_page) == header_lines(0, per_page),
        report_lines(set, per_page).len() == 2,
{
    assert(report_lines(set, per_page) =~= header_lines(0, per_page));
}

/// Why a search produced no report.
#[derive(Clone, Debug)]
pub enum SearchError {
    /// No response came back: connection, name lookup, time-out, TLS.
    Transport(String),
    /// A response came back whose body is not a result page.
    Decode(String),
}

/// The message that reports `e`.
pub open spec fn error_message(e: SearchError) -> Seq<char> {
    match e {
        SearchError::Transport(d) => "Program has exited with error: "@ + d@,
        SearchError::Decode(d) => "The program has exited with error: "@ + d@,
    }
}

impl SearchError {
    /// The message to write to the error stream.
    pub fn message(&self) -> (r: String)
        ensures
            r@ == error_message(*self),
    {
        match self {
            SearchError::Transport(d) => {
                let mut r = String::from_str("Program has exited with error: ");
                r.append(d.as_str());
                r
            },
            SearchError::Decode(d) => {
                let mut r = String::from_str("The program has exited with error: ");
                r.append(d.as_str());
                r
            },
        }
    }

    /// The process status that ends a failed search: the same non-zero
    /// status for both kinds.
    pub fn exit_code(&self) -> (r: i32)
        ensures
            r == 1,
    {
        1
    }
}

/// The two header lines.
pub fn render_header(total_count: i64, per_page: u16) -> (r: Vec<String>)
    ensures
        r.deep_view() == header_lines(total_count as int, per_page as nat),
{
    let mut results = String::from_str("Results: ");
    results.append(i64_to_decimal(total_count).as_str());
    let mut showed = String::from_str("Showed: ");
    showed.append(u64_to_decimal(per_page as u64).as_str());
    let mut r: Vec<String> = Vec::new();
    r.push(results);
    r.push(showed);
    assert(r.deep_view() =~= header_lines(total_count as int, per_page as nat));
    r
}

/// The report of `set`: header, then each item's row in the given order.
pub fn render_report(set: &SearchResultSet, per_page: u16) -> (r: Vec<String>)
    ensures
        r.deep_view() == report_lines(*set, per_page as nat),
{
    let mut r = render_header(set.total_count, per_page);
    let ghost header = r.deep_view();
    let mut i: usize = 0;
    while i < set.items.len()
        invariant
            i <= set.items@.len(),
            header == header_lines(set.total_count as int, per_page as nat),
            r.deep_view() == header + item_lines(set.items@.take(i as int)),
        decreases set.items@.len() - i,
    {
        let ghost before = r.deep_view();
        let mut row = format_row(&set.items[i]);
        let ghost row_view = row.deep_view();
        r.append(&mut row);
        proof {
            assert(r.deep_view() =~= before + row_view);
            let taken = set.items@.take(i + 1);
            assert(taken.drop_last() =~= set.items@.take(i as int));
            assert(item_lines(taken) == item_lines(set.items@.take(i as int)) + row_lines(
                set.items@[i as int],
            ));
            assert(header + item_lines(set.items@.take(i as int)) + row_view =~= header
                + item_lines(taken));
        }
        i = i + 1;
    }
    assert(set.items@.take(i as int) =~= set.items@);
    r
}

/// What the caller prints after a fetch: the report when the page was
/// decoded, and otherwise the error alone, so that no report line is
/// written after a failure.
pub fn report_or_error(outcome: Result<SearchResultSet, SearchError>, per_page: u16) -> (r: Result<
    Vec<String>,
    SearchError,
>)
    ensures
        outcome is Ok <==> r is Ok,
        outcome is Ok ==> r->Ok_0.deep_view() == report_lines(outcome->Ok_0, per_page as nat),
        outcome is Err ==> r->Err_0 == outcome->Err_0,
{
    match outcome {
        Ok(set) => Ok(render_report(&set, per_page)),
        Err(e) => Err(e),
    }
}

} // verus!
