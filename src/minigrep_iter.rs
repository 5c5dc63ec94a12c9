//! Searching the lines of a text, with the choice of case sensitivity made once
//! in the configuration.
use vstd::prelude::*;
use crate::text::{lines_of, matcher, search_lines, select, slices_view};

verus! {

/// Message of a missing query.
pub const QUERY_MISSING: &'static str = "query string missing";

/// Message of a missing file name.
pub const FILENAME_MISSING: &'static str = "filename missing";

/// What to search for, where, and whether case matters.
pub struct Config {
    pub query: String,
    pub filename: String,
    pub case_sensitive: bool,
}

impl Config {
    /// Reads the query and the file name from `args`, whose first entry is the
    /// program's path and is skipped. `case_sensitive` comes from the caller's
    /// environment.
    pub fn new(args: &[String], case_sensitive: bool) -> (r: Result<Config, &'static str>)
        ensures
            args@.len() < 2 ==> r == Err::<Config, &'static str>(QUERY_MISSING),
            args@.len() == 2 ==> r == Err::<Config, &'static str>(FILENAME_MISSING),
            args@.len() >= 3 ==> r is Ok && r->Ok_0.query@ == args@[1]@ && r->Ok_0.filename@
                == args@[2]@ && r->Ok_0.case_sensitive == case_sensitive,
    {
        if args.len() < 2 {
            return Err(QUERY_MISSING);
        }
        if args.len() < 3 {
            return Err(FILENAME_MISSING);
        }
        let query = args[1].clone();
        let filename = args[2].clone();
        Ok(Config { query, filename, case_sensitive })
    }

    /// The lines of `content` that match the query under this configuration.
    pub fn matching_lines<'a>(&self, content: &'a str) -> (r: Vec<&'a str>)
        ensures
            slices_view(r@) == select(
                lines_of(content@),
                matcher(self.query@, !self.case_sensitive),
            ),
    {
        if self.case_sensitive {
            search_case_sensitive(self.query.as_str(), content)
        } else {
            search(self.query.as_str(), content)
        }
    }
}

/// The lines of `content` in which `query` occurs, in order.
pub fn search_case_sensitive<'a>(query: &str, content: &'a str) -> (r: Vec<&'a str>)
    ensures
        slices_view(r@) == select(lines_of(content@), matcher(query@, false)),
{
    search_lines(query, content, false)
}

/// The lines of `content` in which `query` occurs when case is ignored, in
/// order.
pub fn search<'a>(query: &str, content: &'a str) -> (r: Vec<&'a str>)
    ensures
        slices_view(r@) == select(lines_of(content@), matcher(query@, true)),
{
    search_lines(query, content, true)
}

} // verus!
