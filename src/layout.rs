//! The fixed-width rendering of one repository as report lines.

use vstd::prelude::*;
use vstd::string::*;
use crate::model::{opt_chars, RepositorySummary};
use crate::text::{
    decimal, is_white_space, lemma_trimmed_unchanged, pad_right, padded, trimmed, trimmed_prefix,
    u64_to_decimal,
};

verus! {

/// Names longer than this are cut.
pub const NAME_LIMIT: usize = 10;

/// Descriptions longer than this are cut.
pub const DESCRIPTION_LIMIT: usize = 25;

/// The marker set after a cut value.
pub open spec fn ellipsis() -> Seq<char> {
    "..."@
}

/// The name column: names over ten characters keep their first ten and
/// get the marker; then padded to twenty.
pub open spec fn name_field(name: Seq<char>) -> Seq<char> {
    if name.len() > NAME_LIMIT {
        padded(name.take(NAME_LIMIT as int) + ellipsis(), 20)
    } else {
        padded(name, 20)
    }
}

/// The branch column: branch glyph, a space and the branch, padded to thirty.
pub open spec fn branch_field(branch: Seq<char>) -> Seq<char> {
    padded("\u{f062c} "@ + branch, 30)
}

/// The description column: over twenty-five characters, the first
/// twenty-five trimmed and marked; absent, the words "No description";
/// padded to fifty.
pub open spec fn description_field(description: Option<Seq<char>>) -> Seq<char> {
    match description {
        Some(d) => if d.len() > DESCRIPTION_LIMIT {
            padded(trimmed(d.take(DESCRIPTION_LIMIT as int)) + ellipsis(), 50)
        } else {
            padded(d, 50)
        },
        None => padded("No description"@, 50),
    }
}

/// A count column: glyph, a space and the count, padded to ten.
pub open spec fn count_field(glyph: Seq<char>, n: nat) -> Seq<char> {
    padded(glyph + " "@ + decimal(n), 10)
}

pub open spec fn star_glyph() -> Seq<char> {
    "\u{f51f}"@
}

pub open spec fn issue_glyph() -> Seq<char> {
    "\u{ea63}"@
}

pub open spec fn fork_glyph() -> Seq<char> {
    "\u{f41b}"@
}

/// The line that opens each row: 135 dashes.
pub open spec fn separator() -> Seq<char> {
    Seq::new(135, |i: int| '-')
}

pub open spec fn owner_line(item: RepositorySummary) -> Seq<char> {
    "Owner: "@ + item.owner_login@
}

pub open spec fn name_line(item: RepositorySummary) -> Seq<char> {
    "Name: "@ + name_field(item.name@) + " "@ + branch_field(item.default_branch@) + " "@
        + description_field(opt_chars(item.description)) + " "@ + count_field(
        star_glyph(),
        item.stargazers_count as nat,
    ) + " "@ + count_field(issue_glyph(), item.open_issues as nat) + "  "@ + count_field(
        fork_glyph(),
        item.forks as nat,
    )
}

/// The homepage line, present only for a present, non-empty homepage.
pub open spec fn homepage_lines(homepage: Option<Seq<char>>) -> Seq<Seq<char>> {
    match homepage {
        Some(h) => if h.len() > 0 {
            seq!["Homepage \u{f02dc} : "@ + h]
        } else {
            seq![]
        },
        None => seq![],
    }
}

/// All lines of one repository's row, in order.
pub open spec fn row_lines(item: RepositorySummary) -> Seq<Seq<char>> {
    seq![separator(), owner_line(item), name_line(item)] + homepage_lines(
        opt_chars(item.homepage),
    )
}

/// A name of at most ten characters is shown whole, without a marker, and
/// padded with spaces to twenty characters.
pub proof fn lemma_short_name_shown_whole(name: Seq<char>)
    requires
        name.len() <= NAME_LIMIT,
    ensures
        name_field(name) == name + Seq::new((20 - name.len()) as nat, |i: int| ' '),
        name_field(name).len() == 20,
{
}

/// A name of more than ten characters shows exactly its first ten, then
/// the marker, then spaces to twenty characters.
pub proof fn lemma_long_name_cut(name: Seq<char>)
    requires
        name.len() > NAME_LIMIT,
    ensures
        name_field(name) == name.take(10) + "..."@ + Seq::new(7, |i: int| ' '),
        name_field(name).len() == 20,
{
    reveal_strlit("...");
}

/// A present description of at most twenty-five characters is shown whole,
/// without a marker, padded with spaces to fifty characters.
pub proof fn lemma_short_description_shown_whole(d: Seq<char>)
    requires
        d.len() <= DESCRIPTION_LIMIT,
    ensures
        description_field(Some(d)) == d + Seq::new((50 - d.len()) as nat, |i: int| ' '),
{
}

/// A description of more than twenty-five characters shows exactly its
/// first twenty-five, then the marker, when the cut keeps no white space
/// at either end (such white space is trimmed before the marker).
pub proof fn lemma_long_description_cut(d: Seq<char>)
    requires
        d.len() > DESCRIPTION_LIMIT,
        !is_white_space(d[0]),
        !is_white_space(d[24]),
    ensures
        description_field(Some(d)) == d.take(25) + "..."@ + Seq::new(22, |i: int| ' '),
{
    reveal_strlit("...");
    lemma_trimmed_unchanged(d.take(25));
}

/// An absent description shows the words "No description", padded with
/// spaces to fifty characters.
pub proof fn lemma_absent_description()
    ensures
        description_field(None) == "No description"@ + Seq::new(36, |i: int| ' '),
{
    reveal_strlit("No description");
}

/// A row has a homepage line, its fourth and last, exactly when the
/// homepage is present and not empty.
pub proof fn lemma_homepage_line_iff(item: RepositorySummary)
    ensures
        (row_lines(item).len() == 4) <==> (item.homepage is Some && item.homepage->0@.len() > 0),
        row_lines(item).len() == 3 || row_lines(item).len() == 4,
        row_lines(item).len() == 4 ==> row_lines(item)[3] == "Homepage \u{f02dc} : "@
            + item.homepage->0@,
{
}

/// The name column of `name`.
pub fn format_name(name: &str) -> (r: String)
    ensures
        r@ == name_field(name@),
{
    if name.unicode_len() > NAME_LIMIT {
        let mut cut = String::from_str(name.substring_char(0, NAME_LIMIT));
        cut.append("...");
        pad_right(cut.as_str(), 20)
    } else {
        pad_right(name, 20)
    }
}

/// The branch column of `branch`.
pub fn format_branch(branch: &str) -> (r: String)
    ensures
        r@ == branch_field(branch@),
{
    let mut s = String::from_str("\u{f062c} ");
    s.append(branch);
    pad_right(s.as_str(), 30)
}

/// The description column of `description`.
pub fn format_description(description: &Option<String>) -> (r: String)
    ensures
        r@ == description_field(opt_chars(*description)),
{
    match description {
        Some(d) => {
            if d.as_str().unicode_len() > DESCRIPTION_LIMIT {
                let mut cut = trimmed_prefix(d.as_str(), DESCRIPTION_LIMIT);
                cut.append("...");
                pad_right(cut.as_str(), 50)
            } else {
                pad_right(d.as_str(), 50)
            }
        },
        None => pad_right("No description", 50),
    }
}

/// A count column: `glyph`, a space and `n`.
pub fn format_count(glyph: &str, n: u64) -> (r: String)
    ensures
        r@ == count_field(glyph@, n as nat),
{
    let mut s = String::from_str(glyph);
    s.append(" ");
    let digits_of = u64_to_decimal(n);
    s.append(digits_of.as_str());
    pad_right(s.as_str(), 10)
}

/// The stars column of `n`.
pub fn format_stars(n: u64) -> (r: String)
    ensures
        r@ == count_field(star_glyph(), n as nat),
{
    format_count("\u{f51f}", n)
}

/// The open-issues column of `n`.
pub fn format_issues(n: u64) -> (r: String)
    ensures
        r@ == count_field(issue_glyph(), n as nat),
{
    format_count("\u{ea63}", n)
}

/// The forks column of `n`.
pub fn format_forks(n: u64) -> (r: String)
    ensures
        r@ == count_field(fork_glyph(), n as nat),
{
    format_count("\u{f41b}", n)
}

/// The separator line.
pub fn separator_line() -> (r: String)
    ensures
        r@ == separator(),
{
    let mut r = String::new();
    let mut k: usize = 0;
    while k < 135
        invariant
            k <= 135,
            r@ == Seq::new(k as nat, |i: int| '-'),
        decreases 135 - k,
    {
        proof {
            reveal_strlit("-");
        }
        r.append("-");
        k = k + 1;
        assert(r@ =~= Seq::new(k as nat, |i: int| '-'));
    }
    r
}

/// The homepage line of `homepage`, if one is shown.
pub fn homepage_line(homepage: &Option<String>) -> (r: Option<String>)
    ensures
        r is Some <==> (homepage is Some && homepage->0@.len() > 0),
        r is Some ==> seq![r->0@] == homepage_lines(opt_chars(*homepage)),
        r is None ==> homepage_lines(opt_chars(*homepage)) == Seq::<Seq<char>>::empty(),
{
    match homepage {
        Some(h) => {
            if h.as_str().unicode_len() > 0 {
                let mut line = String::from_str("Homepage \u{f02dc} : ");
                line.append(h.as_str());
                Some(line)
            } else {
                None
            }
        },
        None => None,
    }
}

/// The lines of one repository's row: separator, owner, the columns, and
/// the homepage when there is one to show.
pub fn format_row(item: &RepositorySummary) -> (r: Vec<String>)
    ensures
        r.deep_view() == row_lines(*item),
{
    let mut name = String::from_str("Name: ");
    name.append(format_name(item.name.as_str()).as_str());
    name.append(" ");
    name.append(format_branch(item.default_branch.as_str()).as_str());
    name.append(" ");
    name.append(format_description(&item.description).as_str());
    name.append(" ");
    name.append(format_stars(item.stargazers_count).as_str());
    name.append(" ");
    name.append(format_issues(item.open_issues).as_str());
    name.append("  ");
    name.append(format_forks(item.forks).as_str());
    let mut owner = String::from_str("Owner: ");
    owner.append(item.owner_login.as_str());
    let mut r: Vec<String> = Vec::new();
    r.push(separator_line());
    r.push(owner);
    r.push(name);
    match homepage_line(&item.homepage) {
        Some(line) => {
            r.push(line);
        },
        None => {},
    }
    assert(r.deep_view() =~= row_lines(*item));
    r
}

} // verus!
