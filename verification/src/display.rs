//! The line-by-line view: what a typed answer selects, and the headings of a
//! page of results.

use crate::text::{
    decimal, decimal_string, pad_left, parse_unsigned, push_char, push_decimal, push_padded,
    read_unsigned, same, string_of, to_chars, trim, trim_range,
};
use vstd::prelude::*;
use vstd::string::StringExecFns;

verus! {

/// What the user asked for.
#[derive(Debug)]
pub enum UserAction {
    /// Play the result at this index of all results.
    Play(usize),
    Quit,
    NewSearch(String),
    NextPage,
    PrevPage,
}

/// What an answer to the selection prompt means.
#[derive(Debug, Clone, Copy, PartialEq, Eq, Structural)]
pub enum Selection {
    Quit,
    NextPage,
    PrevPage,
    /// Ask for a new query.
    AskQuery,
    /// Play the result at this index of all results.
    Play(usize),
    /// A number, but of no result on the page.
    OutOfRange,
    /// Nothing that the prompt understands.
    Invalid,
}

/// What the answer `answer`, trimmed, selects on a page that shows the
/// `page_len` results from index `page_start` on. Results are numbered from
/// one.
pub open spec fn selection_of(
    answer: Seq<char>,
    page_start: int,
    page_len: int,
    has_next: bool,
    has_prev: bool,
) -> Selection {
    if answer == "q"@ {
        Selection::Quit
    } else if answer == "n"@ && has_next {
        Selection::NextPage
    } else if answer == "p"@ && has_prev {
        Selection::PrevPage
    } else if answer == "s"@ {
        Selection::AskQuery
    } else {
        match parse_unsigned(answer, usize::MAX as nat) {
            Some(n) => if page_start + 1 <= n <= page_start + page_len {
                Selection::Play((n - 1) as usize)
            } else {
                Selection::OutOfRange
            },
            None => Selection::Invalid,
        }
    }
}

/// Reads the line that the user typed at the selection prompt.
pub fn get_selection(
    line: &str,
    page_start: usize,
    page_len: usize,
    has_next: bool,
    has_prev: bool,
) -> (r: Selection)
    ensures
        r == selection_of(trim(line@), page_start as int, page_len as int, has_next, has_prev),
{
    let v = to_chars(line);
    assert(v@.subrange(0, v.len() as int) =~= line@);
    let (a, b) = trim_range(&v, 0, v.len());
    let answer = string_of(&v, a, b);
    if same(answer.as_str(), "q") {
        Selection::Quit
    } else if same(answer.as_str(), "n") && has_next {
        Selection::NextPage
    } else if same(answer.as_str(), "p") && has_prev {
        Selection::PrevPage
    } else if same(answer.as_str(), "s") {
        Selection::AskQuery
    } else {
        match read_unsigned(&v, a, b, usize::MAX as u64) {
            Some(n) => {
                let n = n as usize;
                if n >= 1 && n - 1 >= page_start && n - 1 - page_start < page_len {
                    Selection::Play(n - 1)
                } else {
                    Selection::OutOfRange
                }
            },
            None => Selection::Invalid,
        }
    }
}

impl Selection {
    /// The action that the selection calls for, if it calls for one.
    pub fn action(&self) -> (r: Option<UserAction>)
        ensures
            match *self {
                Selection::Quit => r matches Some(UserAction::Quit),
                Selection::NextPage => r matches Some(UserAction::NextPage),
                Selection::PrevPage => r matches Some(UserAction::PrevPage),
                Selection::Play(i) => r matches Some(UserAction::Play(j)) && j == i,
                _ => r is None,
            },
    {
        match self {
            Selection::Quit => Some(UserAction::Quit),
            Selection::NextPage => Some(UserAction::NextPage),
            Selection::PrevPage => Some(UserAction::PrevPage),
            Selection::Play(i) => Some(UserAction::Play(*i)),
            _ => None,
        }
    }
}

/// Reads the line that the user typed as a new query: the line trimmed, and
/// no search for a blank line.
pub fn new_search(line: &str) -> (r: Option<UserAction>)
    ensures
        trim(line@).len() == 0 ==> r is None,
        trim(line@).len() > 0 ==> (r matches Some(UserAction::NewSearch(query)) && query@ == trim(
            line@,
        )),
{
    let v = to_chars(line);
    assert(v@.subrange(0, v.len() as int) =~= line@);
    let (a, b) = trim_range(&v, 0, v.len());
    if a == b {
        None
    } else {
        Some(UserAction::NewSearch(string_of(&v, a, b)))
    }
}

/// The number of pages that `total` results fill, the last one perhaps in
/// part.
pub open spec fn page_count(total: int, page_size: int) -> int {
    if page_size <= 0 {
        0
    } else {
        (total + page_size - 1) / page_size
    }
}

/// The number of pages that `total` results fill.
pub fn total_pages(total: usize, page_size: usize) -> (r: usize)
    ensures
        r == page_count(total as int, page_size as int),
{
    if page_size == 0 {
        0
    } else if total == 0 {
        assert((page_size - 1) / (page_size as int) == 0) by (nonlinear_arith)
            requires
                page_size > 0,
        ;
        0
    } else {
        let r = (total - 1) / page_size + 1;
        assert(r == (total + page_size - 1) / (page_size as int)) by (nonlinear_arith)
            requires
                r == (total - 1) / (page_size as int) + 1,
                page_size > 0,
                total > 0,
        ;
        r
    }
}

/// The last page that holds a result: zero where there is none.
pub open spec fn last_page(len: int, page_size: int) -> int {
    if len == 0 || page_size == 0 {
        0
    } else {
        (len - 1) / page_size
    }
}

/// The page to show after a turn to page `page`: `page` itself if it holds
/// a result, else the last page that does, and the word that there are no
/// more results.
pub fn settle_page(page: usize, len: usize, page_size: usize) -> (r: (usize, bool))
    ensures
        r.1 == (page > last_page(len as int, page_size as int)),
        r.0 == (if r.1 {
            last_page(len as int, page_size as int)
        } else {
            page as int
        }),
{
    let last = if len == 0 || page_size == 0 {
        0
    } else {
        (len - 1) / page_size
    };
    if page > last {
        (last, true)
    } else {
        (page, false)
    }
}

/// The page heading: the number of the page, and of how many where the
/// results are all there.
pub open spec fn page_heading(page: int, page_size: int, total: int, exhausted: bool) -> Seq<char> {
    if exhausted {
        "(page "@ + decimal((page + 1) as nat) + seq!['/'] + decimal(
            page_count(total, page_size) as nat,
        ) + seq![')']
    } else {
        "(page "@ + decimal((page + 1) as nat) + seq![')']
    }
}

/// The heading of page `page`, counted from zero.
pub fn page_info(page: usize, page_size: usize, total: usize, exhausted: bool) -> (r: String)
    ensures
        r@ == page_heading(page as int, page_size as int, total as int, exhausted),
{
    let mut r = "(page ".to_owned();
    push_decimal(&mut r, page as u128 + 1);
    if exhausted {
        push_char(&mut r, '/');
        push_decimal(&mut r, total_pages(total, page_size) as u128);
    }
    push_char(&mut r, ')');
    r
}

/// The count heading: how many results there are, or how many so far.
pub open spec fn count_heading(total: int, exhausted: bool) -> Seq<char> {
    if exhausted {
        seq!['['] + decimal(total as nat) + " total]"@
    } else {
        seq!['['] + decimal(total as nat) + "+ loaded]"@
    }
}

/// The heading that tells how many results there are.
pub fn total_info(total: usize, exhausted: bool) -> (r: String)
    ensures
        r@ == count_heading(total as int, exhausted),
{
    let mut r = String::new();
    push_char(&mut r, '[');
    push_decimal(&mut r, total as u128);
    if exhausted {
        r.append(" total]");
    } else {
        r.append("+ loaded]");
    }
    r
}

/// The label of the result at `index` of all results: its number, counted
/// from one, flush right in three columns, a full stop and a blank.
pub fn result_label(index: usize) -> (r: String)
    ensures
        r@ == pad_left(decimal((index + 1) as nat), 3, ' ') + ". "@,
{
    let number = decimal_string(index as u128 + 1);
    let mut r = String::new();
    push_padded(&mut r, number.as_str(), 3, ' ');
    r.append(". ");
    r
}

} // verus!
