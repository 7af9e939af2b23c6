//! HTTP request-targets.
//!
//! A request's start line names its target in one of four distinct formats,
//! depending on the method and on whether the request addresses a proxy:
//!
//! ```notrust
//! request-target = origin-form
//!                / absolute-form
//!                / authority-form
//!                / asterisk-form
//! ```
//!
//! `RequestUri` is that closed choice; `PathQueryFragment` is the decomposed
//! origin-form target, with `query_pairs` to read its query string as
//! `application/x-www-form-urlencoded` pairs.

use vstd::prelude::*;

use crate::form::{form_pairs, parse_form_urlencoded};

verus! {

/// A fully parsed absolute URI, as the request-line parser hands it over,
/// kept in its serialized text form. Two URIs are the same exactly when
/// their serializations are.
#[derive(Debug, Clone)]
pub struct Uri {
    /// The complete URI as text, e.g. `http://www.example.org/pub/WWW/`.
    pub serialization: String,
}

/// An absolute URL path as seen by a server, such as `/where?q=now`.
#[derive(Debug, Clone)]
pub struct PathQueryFragment {
    /// The path segments, in left-to-right order; empty means the root path.
    pub path: Vec<String>,
    /// The query component, if any, undecoded and without the leading `?`.
    /// Use `query_pairs()` if it is `application/x-www-form-urlencoded` to
    /// break it down into (key, value) pairs.
    pub query: Option<String>,
    /// The fragment, if any, without the leading `#`. The HTTP RFC does not
    /// define a fragment here, but clients send one in practice, so it is
    /// kept rather than rejected, and otherwise ignored.
    pub fragment: Option<String>,
}

/// The Request-URI of a request's start line: one of the four
/// request-target formats.
#[derive(Debug, Clone)]
pub enum RequestUri {
    /// The most common request target, an absolute path and optional query.
    ///
    /// For example, the line `GET /where?q=now HTTP/1.1` carries the
    /// request-target `/where?q=now` as an `AbsolutePath`.
    AbsolutePath(PathQueryFragment),
    /// An absolute URI, used when making a request to a proxy, as in
    /// `GET http://www.example.org/pub/WWW/TheProject.html HTTP/1.1`.
    AbsoluteUri(Uri),
    /// The authority form, `host:port`, used only with `CONNECT`, as in
    /// `CONNECT www.example.com:80 HTTP/1.1`.
    Authority(String),
    /// The star targets the whole server instead of a resource; it is used
    /// only for a server-wide `OPTIONS` request.
    Star,
}

/// When two URIs count as equal: their serialized texts agree.
pub open spec fn uri_eq(a: Uri, b: Uri) -> bool {
    a.serialization@ == b.serialization@
}

/// When two decomposed paths count as equal: path segments, query and
/// fragment all agree, absent and empty components kept distinct.
pub open spec fn path_query_fragment_eq(a: PathQueryFragment, b: PathQueryFragment) -> bool {
    &&& a.path.deep_view() == b.path.deep_view()
    &&& a.query.deep_view() == b.query.deep_view()
    &&& a.fragment.deep_view() == b.fragment.deep_view()
}

/// When two request-targets count as equal: the same format, with equal
/// payloads; different formats are never equal.
pub open spec fn request_uri_eq(a: RequestUri, b: RequestUri) -> bool {
    match (a, b) {
        (RequestUri::AbsolutePath(x), RequestUri::AbsolutePath(y)) => path_query_fragment_eq(x, y),
        (RequestUri::AbsoluteUri(x), RequestUri::AbsoluteUri(y)) => uri_eq(x, y),
        (RequestUri::Authority(x), RequestUri::Authority(y)) => x@ == y@,
        (RequestUri::Star, RequestUri::Star) => true,
        _ => false,
    }
}

/// Element-by-element comparison of two segment lists.
fn string_vecs_eq(a: &Vec<String>, b: &Vec<String>) -> (r: bool)
    ensures
        r == (a.deep_view() == b.deep_view()),
{
    if a.len() != b.len() {
        assert(a.deep_view().len() != b.deep_view().len());
        return false;
    }
    let mut i: usize = 0;
    while i < a.len()
        invariant
            i <= a.len(),
            a.len() == b.len(),
            forall|j: int| 0 <= j < i ==> a.deep_view()[j] == b.deep_view()[j],
        decreases a.len() - i,
    {
        if !(a[i] == b[i]) {
            assert(a.deep_view()[i as int] != b.deep_view()[i as int]);
            return false;
        }
        i += 1;
    }
    assert(a.deep_view() =~= b.deep_view());
    true
}

/// Comparison of two optional strings; `None` equals only `None`.
fn opt_strings_eq(a: &Option<String>, b: &Option<String>) -> (r: bool)
    ensures
        r == (a.deep_view() == b.deep_view()),
{
    match (a, b) {
        (Option::Some(x), Option::Some(y)) => *x == *y,
        (Option::None, Option::None) => true,
        _ => false,
    }
}

impl PartialEq for Uri {
    fn eq(&self, other: &Self) -> (r: bool) {
        self.serialization == other.serialization
    }
}

impl vstd::std_specs::cmp::PartialEqSpecImpl for Uri {
    open spec fn obeys_eq_spec() -> bool {
        true
    }

    open spec fn eq_spec(&self, other: &Self) -> bool {
        uri_eq(*self, *other)
    }
}

impl PartialEq for PathQueryFragment {
    fn eq(&self, other: &Self) -> (r: bool) {
        string_vecs_eq(&self.path, &other.path) && opt_strings_eq(&self.query, &other.query)
            && opt_strings_eq(&self.fragment, &other.fragment)
    }
}

impl vstd::std_specs::cmp::PartialEqSpecImpl for PathQueryFragment {
    open spec fn obeys_eq_spec() -> bool {
        true
    }

    open spec fn eq_spec(&self, other: &Self) -> bool {
        path_query_fragment_eq(*self, *other)
    }
}

impl PartialEq for RequestUri {
    fn eq(&self, other: &Self) -> (r: bool) {
        match (self, other) {
            (RequestUri::AbsolutePath(x), RequestUri::AbsolutePath(y)) => *x == *y,
            (RequestUri::AbsoluteUri(x), RequestUri::AbsoluteUri(y)) => *x == *y,
            (RequestUri::Authority(x), RequestUri::Authority(y)) => *x == *y,
            (RequestUri::Star, RequestUri::Star) => true,
            _ => false,
        }
    }
}

impl vstd::std_specs::cmp::PartialEqSpecImpl for RequestUri {
    open spec fn obeys_eq_spec() -> bool {
        true
    }

    open spec fn eq_spec(&self, other: &Self) -> bool {
        request_uri_eq(*self, *other)
    }
}

impl PathQueryFragment {
    /// Parse the query string, if any, as `application/x-www-form-urlencoded`
    /// and return the (key, value) pairs in encounter order, duplicates
    /// kept. An absent query gives an absent result, which is distinct from
    /// a present but empty query.
    pub fn query_pairs(&self) -> (r: Option<Vec<(String, String)>>)
        ensures
            r is Some <==> self.query is Some,
            (self.query matches Some(q) ==> r matches Some(pairs) && pairs.deep_view()
                == form_pairs(q@)),
    {
        match &self.query {
            Option::Some(q) => Option::Some(parse_form_urlencoded(q.as_str())),
            Option::None => Option::None,
        }
    }
}

/// Law: constructing a request-target from a payload and then
/// pattern-matching it recovers exactly that payload, for each of the four
/// formats.
pub proof fn lemma_construct_then_match_recovers(p: PathQueryFragment, u: Uri, a: String)
    ensures
        (match RequestUri::AbsolutePath(p) {
            RequestUri::AbsolutePath(x) => x == p,
            _ => false,
        }),
        (match RequestUri::AbsoluteUri(u) {
            RequestUri::AbsoluteUri(x) => x == u,
            _ => false,
        }),
        (match RequestUri::Authority(a) {
            RequestUri::Authority(x) => x == a,
            _ => false,
        }),
        RequestUri::Star is Star,
{
}

/// Law: two absolute-path request-targets are equal exactly when their
/// path, query and fragment all agree; a difference in any one field makes
/// them unequal.
pub proof fn lemma_absolute_path_eq(a: PathQueryFragment, b: PathQueryFragment)
    ensures
        request_uri_eq(RequestUri::AbsolutePath(a), RequestUri::AbsolutePath(b))
            <==> path_query_fragment_eq(a, b),
        path_query_fragment_eq(a, b) <==> {
            &&& a.path.deep_view() == b.path.deep_view()
            &&& a.query.deep_view() == b.query.deep_view()
            &&& a.fragment.deep_view() == b.fragment.deep_view()
        },
{
}

/// Law: the asterisk format equals another asterisk and no other format,
/// whatever payload the other carries.
pub proof fn lemma_star_eq(r: RequestUri)
    ensures
        request_uri_eq(RequestUri::Star, r) <==> r is Star,
        request_uri_eq(r, RequestUri::Star) <==> r is Star,
{
}

} // verus!
