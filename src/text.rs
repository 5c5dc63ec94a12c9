//! Lines of a text, and searching them for a query.
use vstd::prelude::*;

verus! {

/// The index of the first line feed at or after `i`, or `s.len()` when none.
pub open spec fn line_end(s: Seq<char>, i: int) -> int
    decreases s.len() - i,
{
    if i >= s.len() || i < 0 || s[i] == '\n' {
        i
    } else {
        line_end(s, i + 1)
    }
}

proof fn lemma_line_end_bounds(s: Seq<char>, i: int)
    requires
        0 <= i <= s.len(),
    ensures
        i <= line_end(s, i) <= s.len(),
        line_end(s, i) < s.len() ==> s[line_end(s, i)] == '\n',
        forall|j: int| i <= j < line_end(s, i) ==> s[j] != '\n',
    decreases s.len() - i,
{
    if i < s.len() && s[i] != '\n' {
        lemma_line_end_bounds(s, i + 1);
    }
}

/// A line that a line feed ended, without the carriage return before it.
pub open spec fn strip_cr(l: Seq<char>) -> Seq<char> {
    if l.len() > 0 && l.last() == '\r' {
        l.drop_last()
    } else {
        l
    }
}

/// The lines of `s` from index `i` on. Lines end at a line feed, or at the end
/// of the text; a carriage return just before a line feed is not part of the
/// line, and a final line feed opens no empty line.
pub open spec fn lines_from(s: Seq<char>, i: int) -> Seq<Seq<char>>
    decreases s.len() - i,
{
    if i < 0 || i >= s.len() {
        Seq::empty()
    } else {
        let e = line_end(s, i);
        if e >= s.len() {
            seq![s.subrange(i, s.len() as int)]
        } else if e < i {
            Seq::empty()
        } else {
            seq![strip_cr(s.subrange(i, e))] + lines_from(s, e + 1)
        }
    }
}

/// The lines of `s`.
pub open spec fn lines_of(s: Seq<char>) -> Seq<Seq<char>> {
    lines_from(s, 0)
}

/// `p` occurs in `s` at index `i`.
pub open spec fn occurs_at(s: Seq<char>, p: Seq<char>, i: int) -> bool {
    0 <= i && i + p.len() <= s.len() && s.subrange(i, i + p.len()) == p
}

/// `p` occurs somewhere in `s`.
pub open spec fn contains(s: Seq<char>, p: Seq<char>) -> bool {
    exists|i: int| occurs_at(s, p, i)
}

/// The entries of `ls` that satisfy `keep`, in order.
pub open spec fn select(ls: Seq<Seq<char>>, keep: spec_fn(Seq<char>) -> bool) -> Seq<Seq<char>>
    decreases ls.len(),
{
    if ls.len() == 0 {
        Seq::empty()
    } else if keep(ls[0]) {
        seq![ls[0]] + select(ls.drop_first(), keep)
    } else {
        select(ls.drop_first(), keep)
    }
}

/// Views of a list of string slices.
pub open spec fn slices_view(v: Seq<&str>) -> Seq<Seq<char>> {
    v.map_values(|l: &str| l@)
}

/// Whether `needle` occurs in `haystack`, character by character.
pub fn contains_text(haystack: &str, needle: &str) -> (r: bool)
    ensures
        r == contains(haystack@, needle@),
{
    let n = haystack.unicode_len();
    let m = needle.unicode_len();
    if m > n {
        assert forall|i: int| !occurs_at(haystack@, needle@, i) by {}
        return false;
    }
    let mut i: usize = 0;
    loop
        invariant
            n == haystack@.len(),
            m == needle@.len(),
            m <= n,
            i <= n - m,
            forall|k: int| 0 <= k < i ==> !occurs_at(haystack@, needle@, k),
        ensures
            forall|k: int| 0 <= k <= n - m ==> !occurs_at(haystack@, needle@, k),
        decreases n - m - i,
    {
        let mut j: usize = 0;
        let mut same = true;
        while j < m
            invariant
                n == haystack@.len(),
                m == needle@.len(),
                i + m <= n,
                j <= m,
                same ==> forall|k: int| 0 <= k < j ==> haystack@[i + k] == needle@[k],
                !same ==> !occurs_at(haystack@, needle@, i as int),
            decreases m - j + (if same { 1int } else { 0int }),
        {
            if haystack.get_char(i + j) != needle.get_char(j) {
                assert(haystack@.subrange(i as int, i + m)[j as int] != needle@[j as int]);
                same = false;
                j = m;
            } else {
                j = j + 1;
            }
        }
        if same {
            assert(haystack@.subrange(i as int, i + m) =~= needle@);
            assert(occurs_at(haystack@, needle@, i as int));
            return true;
        }
        if i == n - m {
            break;
        }
        i = i + 1;
    }
    assert forall|k: int| !occurs_at(haystack@, needle@, k) by {
        if 0 <= k && k + m <= n {
            assert(k <= n - m);
        }
    }
    false
}

/// What `str::to_lowercase` makes of `s`.
pub uninterp spec fn lower_of(s: Seq<char>) -> Seq<char>;

/// Relies on `str::to_lowercase`: the lowercase form, which depends on the
/// characters of `s` alone.
#[verifier::external_body]
fn lowercase(s: &str) -> (r: String)
    ensures
        r@ == lower_of(s@),
{
    s.to_lowercase()
}

/// Whether line `l` matches `q`: `q` occurs in `l`, either as written or, when
/// `fold` is set, after both are made lowercase.
pub open spec fn line_matches(l: Seq<char>, q: Seq<char>, fold: bool) -> bool {
    if fold {
        contains(lower_of(l), lower_of(q))
    } else {
        contains(l, q)
    }
}

/// The test that a line passes to be selected by a search for `q`.
pub open spec fn matcher(q: Seq<char>, fold: bool) -> spec_fn(Seq<char>) -> bool {
    |l: Seq<char>| line_matches(l, q, fold)
}

/// The lines of `content` that match `query`, in order, each a slice of
/// `content`; with `fold`, the match ignores case.
pub fn search_lines<'a>(query: &str, content: &'a str, fold: bool) -> (r: Vec<&'a str>)
    ensures
        slices_view(r@) == select(lines_of(content@), matcher(query@, fold)),
{
    let ghost p = matcher(query@, fold);
    let folded_query = lowercase(query);
    let n = content.unicode_len();
    let mut res: Vec<&'a str> = Vec::new();
    let mut i: usize = 0;
    assert(slices_view(res@) + select(lines_from(content@, 0), p) =~= select(
        lines_from(content@, 0),
        p,
    ));
    while i < n
        invariant
            n == content@.len(),
            i <= n,
            p == matcher(query@, fold),
            folded_query@ == lower_of(query@),
            select(lines_of(content@), p) == slices_view(res@) + select(
                lines_from(content@, i as int),
                p,
            ),
        decreases n - i,
    {
        let mut e: usize = i;
        while e < n && content.get_char(e) != '\n'
            invariant
                n == content@.len(),
                i <= e <= n,
                line_end(content@, i as int) == line_end(content@, e as int),
            decreases n - e,
        {
            e = e + 1;
        }
        assert(line_end(content@, e as int) == e);
        let stop = if e < n && e > i && content.get_char(e - 1) == '\r' {
            e - 1
        } else {
            e
        };
        let line = content.substring_char(i, stop);
        let keep = if fold {
            let folded_line = lowercase(line);
            contains_text(folded_line.as_str(), folded_query.as_str())
        } else {
            contains_text(line, query)
        };
        let ghost s = content@;
        let ghost rest = if e < n {
            lines_from(s, e + 1)
        } else {
            Seq::<Seq<char>>::empty()
        };
        proof {
            if e < n {
                let whole = s.subrange(i as int, e as int);
                if e > i && s[e - 1] == '\r' {
                    assert(whole.drop_last() =~= line@);
                } else {
                    assert(whole =~= line@);
                }
                assert(strip_cr(whole) == line@);
            } else {
                assert(s.subrange(i as int, s.len() as int) =~= line@);
            }
        }
        assert(lines_from(s, i as int) =~= seq![line@] + rest);
        assert((seq![line@] + rest).drop_first() =~= rest);
        assert(keep == p(line@));
        let ghost before = res@;
        if keep {
            res.push(line);
            assert(slices_view(res@) =~= slices_view(before) + seq![line@]);
        }
        if e >= n {
            i = n;
            assert(rest =~= lines_from(s, n as int));
        } else {
            i = e + 1;
        }
    }
    assert(select(lines_from(content@, n as int), p) =~= Seq::<Seq<char>>::empty());
    assert(slices_view(res@) + Seq::<Seq<char>>::empty() =~= slices_view(res@));
    res
}

} // verus!
