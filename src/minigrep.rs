//! Searching the lines of a text for a query, configured from command-line
//! arguments.
use vstd::prelude::*;
use crate::http::decimal;
use crate::text::{lines_of, matcher, search_lines, select, slices_view};

verus! {

/// What to search for, and where.
pub struct Config {
    pub query: String,
    pub filename: String,
}

/// The decimal digits of `n` as characters.
pub open spec fn decimal_chars(n: nat) -> Seq<char> {
    decimal(n).map_values(|b: u8| b as char)
}

/// The message for an argument list of `found` entries, fewer than the three
/// needed.
pub open spec fn shortage_text(found: nat) -> Seq<char> {
    "not enought arguments: found "@ + decimal_chars(found) + ", want 3"@
}

/// The text of one decimal digit.
fn digit_text(d: usize) -> (r: &'static str)
    requires
        d < 10,
    ensures
        r@ == seq![((48 + d) as u8) as char],
{
    proof {
        reveal_strlit("0");
        reveal_strlit("1");
        reveal_strlit("2");
        reveal_strlit("3");
        reveal_strlit("4");
        reveal_strlit("5");
        reveal_strlit("6");
        reveal_strlit("7");
        reveal_strlit("8");
        reveal_strlit("9");
    }
    match d {
        0 => "0",
        1 => "1",
        2 => "2",
        3 => "3",
        4 => "4",
        5 => "5",
        6 => "6",
        7 => "7",
        8 => "8",
        _ => "9",
    }
}

/// Appends the decimal digits of `n` to `s`.
fn append_decimal(s: &mut String, n: usize)
    ensures
        final(s)@ == old(s)@ + decimal_chars(n as nat),
    decreases n,
{
    if n >= 10 {
        append_decimal(s, n / 10);
    }
    s.append(digit_text(n % 10));
    proof {
        if n >= 10 {
            assert(decimal_chars(n as nat) =~= decimal_chars((n / 10) as nat) + seq![
                ((48 + n % 10) as u8) as char,
            ]);
        } else {
            assert(decimal_chars(n as nat) =~= seq![((48 + n % 10) as u8) as char]);
        }
    }
    assert(s@ =~= old(s)@ + decimal_chars(n as nat));
}

/// The message for an argument list of `found` entries.
fn shortage_message(found: usize) -> (r: String)
    ensures
        r@ == shortage_text(found as nat),
{
    let mut s = String::from_str("not enought arguments: found ");
    append_decimal(&mut s, found);
    s.append(", want 3");
    s
}

impl Config {
    /// Reads the query and the file name from `args`, whose first entry is the
    /// program's path; fails when fewer than three entries are given.
    pub fn new(args: &[String]) -> (r: Result<Config, String>)
        ensures
            r is Err <==> args@.len() < 3,
            r is Err ==> r->Err_0@ == shortage_text(args@.len() as nat),
            r is Ok ==> r->Ok_0.query@ == args@[1]@ && r->Ok_0.filename@ == args@[2]@,
    {
        if args.len() < 3 {
            return Err(shortage_message(args.len()));
        }
        let query = args[1].clone();
        let filename = args[2].clone();
        Ok(Config { query, filename })
    }
}

/// The lines of `content` in which `query` occurs, in order.
pub fn search<'a>(query: &str, content: &'a str) -> (r: Vec<&'a str>)
    ensures
        slices_view(r@) == select(lines_of(content@), matcher(query@, false)),
{
    search_lines(query, content, false)
}

/// The lines of `content` in which `query` occurs when case is ignored, in
/// order.
pub fn search_case_insensitive<'a>(query: &str, content: &'a str) -> (r: Vec<&'a str>)
    ensures
        slices_view(r@) == select(lines_of(content@), matcher(query@, true)),
{
    search_lines(query, content, true)
}

} // verus!
