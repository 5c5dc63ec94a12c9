//! Request assembly, routing and response framing for the static server.
use vstd::prelude::*;
use vstd::utf8::encode_utf8;

verus! {

/// The request line that selects the index page.
pub const INDEX_REQUEST: &'static str = "GET / HTTP/1.1";

/// Status line of a served page.
pub const STATUS_OK: &'static str = "HTTP/1.1 200 OK";

/// Status line of the fallback page.
pub const STATUS_NOT_FOUND: &'static str = "HTTP/1.1 404 NOT FOUND";

/// Status line of a request that held no line at all.
pub const STATUS_BAD_REQUEST: &'static str = "HTTP/1.1 400 BAD REQUEST";

/// Resource that holds the index page.
pub const INDEX_RESOURCE: &'static str = "index.html";

/// Resource that holds the fallback page.
pub const NOT_FOUND_RESOURCE: &'static str = "404.html";

/// `p` is a prefix of `s`.
pub open spec fn has_prefix(s: Seq<char>, p: Seq<char>) -> bool {
    p.len() <= s.len() && s.subrange(0, p.len() as int) == p
}

/// Whether `s` starts with `p`, character by character.
pub fn starts_with(s: &str, p: &str) -> (r: bool)
    ensures
        r == has_prefix(s@, p@),
{
    let n = s.unicode_len();
    let m = p.unicode_len();
    if m > n {
        return false;
    }
    let mut i: usize = 0;
    while i < m
        invariant
            m == p@.len(),
            n == s@.len(),
            m <= n,
            i <= m,
            forall|j: int| 0 <= j < i ==> s@[j] == p@[j],
        decreases m - i,
    {
        if s.get_char(i) != p.get_char(i) {
            assert(s@.subrange(0, m as int)[i as int] != p@[i as int]);
            return false;
        }
        i = i + 1;
    }
    assert(s@.subrange(0, m as int) =~= p@);
    true
}

/// Views of a list of text lines.
pub open spec fn lines_view(v: Seq<String>) -> Seq<Seq<char>> {
    v.map_values(|l: String| l@)
}

/// `k` lines form the head of the line stream `s`: the lines before the first
/// blank one, or all of them when none is blank.
pub open spec fn is_head_len(s: Seq<Seq<char>>, k: int) -> bool {
    &&& 0 <= k <= s.len()
    &&& forall|j: int| 0 <= j < k ==> s[j].len() > 0
    &&& k < s.len() ==> s[k].len() == 0
}

/// The lines of a request read from a connection, up to the blank line that
/// closes its head.
pub struct Request {
    lines: Vec<String>,
    complete: bool,
}

impl Request {
    /// The lines gathered so far.
    pub closed spec fn lines_spec(&self) -> Seq<Seq<char>> {
        lines_view(self.lines@)
    }

    /// Whether the blank line (or the end of the stream) was seen.
    pub closed spec fn is_complete(&self) -> bool {
        self.complete
    }

    /// A request with no line read yet.
    pub fn new() -> (r: Request)
        ensures
            r.lines_spec() == Seq::<Seq<char>>::empty(),
            !r.is_complete(),
    {
        let r = Request { lines: Vec::new(), complete: false };
        assert(r.lines_spec() =~= Seq::<Seq<char>>::empty());
        r
    }

    /// Takes the next line of the stream; returns whether the head is complete.
    /// A blank line completes the head and is not kept; after that, lines are
    /// ignored.
    pub fn push_line(&mut self, line: String) -> (done: bool)
        ensures
            done == final(self).is_complete(),
            old(self).is_complete() ==> *final(self) == *old(self),
            !old(self).is_complete() && line@.len() == 0 ==> final(self).is_complete()
                && final(self).lines_spec() == old(self).lines_spec(),
            !old(self).is_complete() && line@.len() > 0 ==> !final(self).is_complete()
                && final(self).lines_spec() == old(self).lines_spec().push(line@),
    {
        if self.complete {
            return true;
        }
        if line.as_str().is_empty() {
            self.complete = true;
            return true;
        }
        self.lines.push(line);
        assert(lines_view(self.lines@) =~= lines_view(old(self).lines@).push(line@));
        false
    }

    /// Marks the end of the stream: the head holds what was read.
    pub fn finish(&mut self)
        ensures
            final(self).is_complete(),
            final(self).lines_spec() == old(self).lines_spec(),
    {
        self.complete = true;
    }

    /// The request whose head is read from `lines`: the lines before the first
    /// blank one.
    pub fn from_lines(lines: &Vec<String>) -> (r: Request)
        ensures
            is_head_len(lines_view(lines@), r.lines_spec().len() as int),
            r.lines_spec() == lines_view(lines@).subrange(0, r.lines_spec().len() as int),
            r.is_complete(),
    {
        let mut r = Request::new();
        let mut i: usize = 0;
        while i < lines.len()
            invariant
                i <= lines@.len(),
                !r.is_complete(),
                r.lines_spec() == lines_view(lines@).subrange(0, i as int),
                forall|j: int| 0 <= j < i ==> lines_view(lines@)[j].len() > 0,
            decreases lines.len() - i,
        {
            let line = lines[i].clone();
            if r.push_line(line) {
                assert(r.lines_spec() =~= lines_view(lines@).subrange(0, i as int));
                return r;
            }
            i = i + 1;
            assert(r.lines_spec() =~= lines_view(lines@).subrange(0, i as int));
        }
        r.finish();
        r
    }

    /// The lines gathered so far.
    pub fn lines(&self) -> (r: &Vec<String>)
        ensures
            lines_view(r@) == self.lines_spec(),
    {
        &self.lines
    }

    /// The number of lines gathered.
    pub fn len(&self) -> (n: usize)
        ensures
            n == self.lines_spec().len(),
    {
        self.lines.len()
    }
}

/// What a request asks for.
#[derive(Clone, Copy, Debug, PartialEq, Eq, Structural)]
pub enum Route {
    /// The request line is the index request.
    Index,
    /// Any other request line.
    NotFound,
    /// The request held no line.
    Malformed,
}

/// The route of a request head.
pub open spec fn route_of(lines: Seq<Seq<char>>) -> Route {
    if lines.len() == 0 {
        Route::Malformed
    } else if has_prefix(lines[0], INDEX_REQUEST@) {
        Route::Index
    } else {
        Route::NotFound
    }
}

/// Chooses the route of a request by its first line.
pub fn route(req: &Request) -> (r: Route)
    ensures
        r == route_of(req.lines_spec()),
{
    if req.lines.len() == 0 {
        return Route::Malformed;
    }
    if starts_with(req.lines[0].as_str(), INDEX_REQUEST) {
        Route::Index
    } else {
        Route::NotFound
    }
}

/// The status line sent for a route.
pub open spec fn status_of(route: Route) -> Seq<char> {
    match route {
        Route::Index => STATUS_OK@,
        Route::NotFound => STATUS_NOT_FOUND@,
        Route::Malformed => STATUS_BAD_REQUEST@,
    }
}

/// The resource whose contents form the body for a route, if any.
pub open spec fn resource_of(route: Route) -> Option<Seq<char>> {
    match route {
        Route::Index => Some(INDEX_RESOURCE@),
        Route::NotFound => Some(NOT_FOUND_RESOURCE@),
        Route::Malformed => None,
    }
}

impl Route {
    /// The status line sent for this route.
    pub fn status_line(&self) -> (r: &'static str)
        ensures
            r@ == status_of(*self),
    {
        match self {
            Route::Index => STATUS_OK,
            Route::NotFound => STATUS_NOT_FOUND,
            Route::Malformed => STATUS_BAD_REQUEST,
        }
    }

    /// The resource that holds the body for this route; none for a malformed
    /// request, which gets an empty body.
    pub fn resource(&self) -> (r: Option<&'static str>)
        ensures
            r.is_some() == resource_of(*self).is_some(),
            r.is_some() ==> r.unwrap()@ == resource_of(*self).unwrap(),
    {
        match self {
            Route::Index => Some(INDEX_RESOURCE),
            Route::NotFound => Some(NOT_FOUND_RESOURCE),
            Route::Malformed => None,
        }
    }
}

/// Text between the status line and the body length.
pub const LENGTH_FIELD: &'static str = "\r\nContent-Length: ";

/// Text between the body length and the body.
pub const HEAD_END: &'static str = "\r\n\r\n";

/// ASCII decimal digits of `n`, most significant first, with no leading zero.
pub open spec fn decimal(n: nat) -> Seq<u8>
    decreases n,
{
    if n < 10 {
        seq![(48 + n) as u8]
    } else {
        decimal(n / 10).push((48 + n % 10) as u8)
    }
}

/// Appends the decimal digits of `n` to `out`.
pub fn push_decimal(out: &mut Vec<u8>, n: usize)
    ensures
        final(out)@ == old(out)@ + decimal(n as nat),
    decreases n,
{
    if n >= 10 {
        push_decimal(out, n / 10);
    }
    let d: u8 = (n % 10) as u8;
    out.push(48u8 + d);
    assert(final(out)@ =~= old(out)@ + decimal(n as nat));
}

/// The bytes of a response: the status line, the length of the body in
/// decimal, and the body.
pub open spec fn response_bytes(status: Seq<char>, body: Seq<u8>) -> Seq<u8> {
    encode_utf8(status) + encode_utf8(LENGTH_FIELD@) + decimal(body.len()) + encode_utf8(HEAD_END@)
        + body
}

/// Frames a response whose advertised length is the byte length of `body`.
pub fn frame_response(status: &str, body: &[u8]) -> (r: Vec<u8>)
    ensures
        r@ == response_bytes(status@, body@),
{
    let mut out: Vec<u8> = Vec::new();
    out.extend_from_slice(status.as_bytes());
    out.extend_from_slice(LENGTH_FIELD.as_bytes());
    push_decimal(&mut out, body.len());
    out.extend_from_slice(HEAD_END.as_bytes());
    out.extend_from_slice(body);
    assert(out@ =~= response_bytes(status@, body@));
    out
}

/// The response to a request on `route`, given the contents of its resource
/// (`None` when the resource could not be found).
pub open spec fn response_of(route: Route, payload: Option<Seq<u8>>) -> Seq<u8> {
    match route {
        Route::Malformed => response_bytes(STATUS_BAD_REQUEST@, Seq::empty()),
        _ => match payload {
            Some(body) => response_bytes(status_of(route), body),
            None => response_bytes(STATUS_NOT_FOUND@, Seq::empty()),
        },
    }
}

/// Builds the response for `route`. `payload` is what its resource holds, or
/// `None` when that resource is missing, which is answered as not found with an
/// empty body. A malformed request gets an empty body whatever is passed.
pub fn respond(route: Route, payload: Option<&[u8]>) -> (r: Vec<u8>)
    ensures
        r@ == response_of(
            route,
            match payload {
                Some(b) => Some(b@),
                None => None,
            },
        ),
{
    let empty: Vec<u8> = Vec::new();
    match route {
        Route::Malformed => frame_response(STATUS_BAD_REQUEST, empty.as_slice()),
        _ => match payload {
            Some(body) => frame_response(route.status_line(), body),
            None => frame_response(STATUS_NOT_FOUND, empty.as_slice()),
        },
    }
}

/// A request whose first line starts with the index request is answered with
/// the index page, under a status of success and a length field that holds the
/// byte length of the page.
pub proof fn lemma_recognized_request_served(lines: Seq<Seq<char>>, page: Seq<u8>)
    requires
        lines.len() > 0,
        has_prefix(lines[0], INDEX_REQUEST@),
    ensures
        route_of(lines) == Route::Index,
        resource_of(route_of(lines)) == Some(INDEX_RESOURCE@),
        response_of(route_of(lines), Some(page)) == encode_utf8(STATUS_OK@) + encode_utf8(
            LENGTH_FIELD@,
        ) + decimal(page.len()) + encode_utf8(HEAD_END@) + page,
{
}

/// A request whose first line is not recognized is answered with the fallback
/// page under the not-found status; the answer is never empty.
pub proof fn lemma_unrecognized_request_answered(lines: Seq<Seq<char>>, fallback: Seq<u8>)
    requires
        lines.len() > 0,
        !has_prefix(lines[0], INDEX_REQUEST@),
    ensures
        route_of(lines) == Route::NotFound,
        resource_of(route_of(lines)) == Some(NOT_FOUND_RESOURCE@),
        response_of(route_of(lines), Some(fallback)) == response_bytes(
            STATUS_NOT_FOUND@,
            fallback,
        ),
        response_of(route_of(lines), Some(fallback)).len() > 0,
{
    assert(decimal(fallback.len()).len() > 0);
}

/// A request with no line is malformed; it is answered with the bad-request
/// status and an empty body, whatever payload is offered.
pub proof fn lemma_empty_request_rejected(lines: Seq<Seq<char>>, payload: Option<Seq<u8>>)
    requires
        lines.len() == 0,
    ensures
        route_of(lines) == Route::Malformed,
        resource_of(route_of(lines)) == None::<Seq<char>>,
        response_of(route_of(lines), payload) == response_bytes(STATUS_BAD_REQUEST@, Seq::empty()),
{
}

} // verus!
