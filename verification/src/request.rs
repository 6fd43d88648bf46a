//! The per-request builder.
//!
//! A `Request` is derived from a connection and accumulates method, path,
//! query parameters, headers and an optional body. Every builder step
//! consumes the receiver and returns the updated value, so a stale
//! intermediate builder cannot be reused. A finished builder is turned into
//! a plain wire-level value — method, serialized URL, headers and body — for
//! the transport to carry.

use vstd::prelude::*;

use crate::base_url::{form_encoded, path_set, query_push, url_str, BaseUrl, UrlSpec};
use crate::headers::opt_headers_view;
use std::sync::Arc;

verus! {

/// A standard HTTP verb, fixed when the request is created.
#[derive(Clone, Copy, PartialEq, Eq, Structural, Debug)]
pub enum Method {
    Options,
    Get,
    Head,
    Post,
    Put,
    Delete,
    Trace,
    Connect,
    Patch,
}

/// A request body: either a borrowed byte slice the caller keeps alive for
/// the request's lifetime, or an independently owned buffer. Whichever was
/// given is stored; no copy is forced on the caller.
#[derive(Debug)]
pub enum Body<'a> {
    Borrowed(&'a [u8]),
    Owned(Vec<u8>),
}

impl<'a> View for Body<'a> {
    type V = Seq<u8>;

    open spec fn view(&self) -> Seq<u8> {
        match self {
            Body::Borrowed(s) => s@,
            Body::Owned(v) => v@,
        }
    }
}

impl<'a> Body<'a> {
    /// The payload bytes, whichever variant holds them.
    pub fn bytes(&self) -> (r: &[u8])
        ensures
            r@ == self@,
    {
        match self {
            Body::Borrowed(s) => s,
            Body::Owned(v) => v.as_slice(),
        }
    }
}

/// The ghost form of a request builder.
#[verifier::ext_equal]
pub struct RequestSpec {
    pub url: UrlSpec,
    pub headers: Option<Seq<(Seq<char>, Seq<char>)>>,
    pub method: Method,
    pub body: Option<Seq<u8>>,
}

/// A single-use request builder, created by `Connection::request` and
/// consumed by `into_wire`.
#[derive(Debug)]
pub struct Request<'a, E> {
    pub(crate) client: Arc<E>,
    pub(crate) headers: Option<Vec<(String, String)>>,
    pub(crate) url: BaseUrl,
    pub(crate) method: Method,
    pub(crate) body: Option<Body<'a>>,
}

impl<'a, E> View for Request<'a, E> {
    type V = RequestSpec;

    closed spec fn view(&self) -> RequestSpec {
        RequestSpec {
            url: self.url@,
            headers: opt_headers_view(self.headers),
            method: self.method,
            body: match &self.body {
                Some(b) => Some(b@),
                None => None,
            },
        }
    }
}

/// The request after its URL's path component is replaced.
pub open spec fn path_applied(r: RequestSpec, p: Seq<char>) -> RequestSpec {
    RequestSpec { url: path_set(r.url, p), headers: r.headers, method: r.method, body: r.body }
}

/// The request after a sequence of query pairs is appended to its URL.
pub open spec fn query_applied(r: RequestSpec, ps: Seq<(Seq<char>, Seq<char>)>) -> RequestSpec {
    RequestSpec { url: query_push(r.url, ps), headers: r.headers, method: r.method, body: r.body }
}

/// The request after its body is set.
pub open spec fn body_applied(r: RequestSpec, b: Seq<u8>) -> RequestSpec {
    RequestSpec { url: r.url, headers: r.headers, method: r.method, body: Some(b) }
}

/// The view of a borrowed key/value pair sequence.
pub open spec fn pairs_view(s: Seq<(&str, &str)>) -> Seq<(Seq<char>, Seq<char>)> {
    s.map_values(|p: (&str, &str)| (p.0@, p.1@))
}

/// The ghost form of a wire-level request.
#[verifier::ext_equal]
pub struct WireSpec {
    pub method: Method,
    pub url: Seq<char>,
    pub headers: Option<Seq<(Seq<char>, Seq<char>)>>,
    pub body: Option<Seq<u8>>,
}

/// The wire-level value a finished builder turns into: the accumulated
/// method, the serialized URL, the headers and the body, as the transport
/// will carry them.
#[derive(Debug)]
pub struct WireRequest<'a> {
    pub method: Method,
    pub url: String,
    pub headers: Option<Vec<(String, String)>>,
    pub body: Option<Body<'a>>,
}

impl<'a> View for WireRequest<'a> {
    type V = WireSpec;

    open spec fn view(&self) -> WireSpec {
        WireSpec {
            method: self.method,
            url: self.url@,
            headers: opt_headers_view(self.headers),
            body: match &self.body {
                Some(b) => Some(b@),
                None => None,
            },
        }
    }
}

/// The wire-level form of a finished builder.
pub open spec fn wire_of(r: RequestSpec) -> WireSpec {
    WireSpec { method: r.method, url: url_str(r.url), headers: r.headers, body: r.body }
}

impl<'a, E> Request<'a, E> {
    /// The shared handle to the transport engine this request will be sent
    /// over.
    pub closed spec fn transport(&self) -> Arc<E> {
        self.client
    }

    /// Builds a request from a connection's copied state.
    pub(crate) fn assemble(
        client: Arc<E>,
        headers: Option<Vec<(String, String)>>,
        url: BaseUrl,
        method: Method,
    ) -> (r: Self)
        ensures
            r@.url == url@,
            r@.headers == opt_headers_view(headers),
            r@.method == method,
            (r@.body is None),
            r.transport() == client,
    {
        Request { client, headers, url, method, body: None }
    }

    /// Replaces the URL's path component. Overwrites, never appends: calling
    /// it twice keeps only the last path.
    pub fn with_path(self, path: &str) -> (r: Self)
        ensures
            r@ == path_applied(self@, path@),
            r.transport() == self.transport(),
    {
        let Request { client, headers, mut url, method, body } = self;
        url.set_path(path);
        let r = Request { client, headers, url, method, body };
        proof {
            assert(r@ =~~= path_applied(self@, path@));
        }
        r
    }

    /// Appends each pair, in order, as a percent-encoded query parameter of
    /// the URL. Duplicate keys are kept, and query parameters already present
    /// on the base URL stay.
    pub fn with_query(self, pairs: &[(&str, &str)]) -> (r: Self)
        ensures
            r@ == query_applied(self@, pairs_view(pairs@)),
            r.transport() == self.transport(),
    {
        let Request { client, headers, mut url, method, body } = self;
        let ghost u0 = url@;
        let mut i: usize = 0;
        while i < pairs.len()
            invariant
                i <= pairs@.len(),
                url@ == query_push(u0, pairs_view(pairs@).take(i as int)),
            decreases pairs@.len() - i,
        {
            let pair = pairs[i];
            url.append_query_pair(pair.0, pair.1);
            proof {
                let ps = pairs_view(pairs@);
                assert(ps.take(i + 1 as int) =~= ps.take(i as int).push(ps[i as int]));
                lemma_query_appended_push(u0.query, ps.take(i as int), ps[i as int]);
                assert(url@ =~~= query_push(u0, ps.take(i + 1 as int)));
            }
            i = i + 1;
        }
        let r = Request { client, headers, url, method, body };
        proof {
            assert(pairs_view(pairs@).take(pairs@.len() as int) =~= pairs_view(pairs@));
            assert(r@ =~~= query_applied(self@, pairs_view(pairs@)));
        }
        r
    }

    /// Sets the body payload, storing the borrowed or owned bytes exactly as
    /// given.
    pub fn with_body(self, body: Body<'a>) -> (r: Self)
        ensures
            r@ == body_applied(self@, body@),
            r.transport() == self.transport(),
    {
        let Request { client, headers, url, method, body: _ } = self;
        let r = Request { client, headers, url, method, body: Some(body) };
        proof {
            assert(r@ =~~= body_applied(self@, body@));
        }
        r
    }

    /// Finishes the builder (a terminal step: the request cannot be reused)
    /// and hands back the plain wire-level request together with the shared
    /// transport handle to carry it.
    pub fn into_wire(self) -> (r: (WireRequest<'a>, Arc<E>))
        ensures
            r.0@ == wire_of(self@),
            r.1 == self.transport(),
    {
        let Request { client, headers, url, method, body } = self;
        let url_string = url.to_url_string();
        let wire = WireRequest { method, url: url_string, headers, body };
        proof {
            assert(wire@ =~~= wire_of(self@));
        }
        (wire, client)
    }
}

// ---------------------------------------------------------------------------
// Laws of the builder chain.
// ---------------------------------------------------------------------------

/// Appending one more pair to a query is one more `query_append1` step.
proof fn lemma_query_appended_push(
    q: Option<Seq<char>>,
    ps: Seq<(Seq<char>, Seq<char>)>,
    p: (Seq<char>, Seq<char>),
)
    ensures
        crate::base_url::query_appended(q, ps.push(p)) == crate::base_url::query_append1(
            crate::base_url::query_appended(q, ps),
            form_encoded(p.0, p.1),
        ),
    decreases ps.len(),
{
    if ps.len() == 0 {
        assert(ps.push(p)[0] == p);
        assert(ps.push(p).drop_first() =~= Seq::<(Seq<char>, Seq<char>)>::empty());
    } else {
        assert(ps.push(p)[0] == ps[0]);
        assert(ps.push(p).drop_first() =~= ps.drop_first().push(p));
        lemma_query_appended_push(
            crate::base_url::query_append1(q, form_encoded(ps[0].0, ps[0].1)),
            ps.drop_first(),
            p,
        );
    }
}

/// Replacing the path is idempotent-overwriting: setting `p1` and then `p2`
/// leaves the same request as setting `p2` alone.
pub proof fn lemma_with_path_overwrites(r: RequestSpec, p1: Seq<char>, p2: Seq<char>)
    ensures
        path_applied(path_applied(r, p1), p2) == path_applied(r, p2),
{
    assert(path_applied(path_applied(r, p1), p2) =~~= path_applied(r, p2));
}

/// The in-order join of the encodings of a pair sequence:
/// `enc(p0)&enc(p1)&...`.
pub open spec fn joined_pairs(ps: Seq<(Seq<char>, Seq<char>)>) -> Seq<char>
    decreases ps.len(),
{
    if ps.len() == 0 {
        Seq::<char>::empty()
    } else if ps.len() == 1 {
        form_encoded(ps[0].0, ps[0].1)
    } else {
        form_encoded(ps[0].0, ps[0].1) + seq!['&'] + joined_pairs(ps.drop_first())
    }
}

/// Every encoding of a pair is non-empty: the serializer always writes at
/// least the `=` between name and value.
pub open spec fn encodings_nonempty(ps: Seq<(Seq<char>, Seq<char>)>) -> bool {
    forall|i: int| 0 <= i < ps.len() ==> form_encoded(ps[i].0, ps[i].1).len() > 0
}

/// Appending to a non-empty query extends it in order behind one `&`.
proof fn lemma_query_appended_join(q: Seq<char>, ps: Seq<(Seq<char>, Seq<char>)>)
    requires
        ps.len() > 0,
        q.len() > 0,
        encodings_nonempty(ps),
    ensures
        crate::base_url::query_appended(Some(q), ps) == Some(
            q + seq!['&'] + joined_pairs(ps),
        ),
    decreases ps.len(),
{
    let enc0 = form_encoded(ps[0].0, ps[0].1);
    if ps.len() == 1 {
        assert(crate::base_url::query_appended(Some(q + seq!['&'] + enc0), ps.drop_first())
            == Some(q + seq!['&'] + enc0));
        assert(q + seq!['&'] + joined_pairs(ps) =~= q + seq!['&'] + enc0);
    } else {
        assert(encodings_nonempty(ps.drop_first())) by {
            assert(forall|i: int|
                0 <= i < ps.drop_first().len() ==> ps.drop_first()[i] == ps[i + 1]);
        }
        lemma_query_appended_join(q + seq!['&'] + enc0, ps.drop_first());
        assert((q + seq!['&'] + enc0) + seq!['&'] + joined_pairs(ps.drop_first()) =~= q
            + seq!['&'] + (enc0 + seq!['&'] + joined_pairs(ps.drop_first())));
    }
}

/// Appending to an absent or empty query yields exactly the in-order join.
proof fn lemma_query_appended_join_fresh(
    q: Option<Seq<char>>,
    ps: Seq<(Seq<char>, Seq<char>)>,
)
    requires
        ps.len() > 0,
        (q is None || q->0.len() == 0),
        encodings_nonempty(ps),
    ensures
        crate::base_url::query_appended(q, ps) == Some(joined_pairs(ps)),
    decreases ps.len(),
{
    let enc0 = form_encoded(ps[0].0, ps[0].1);
    if ps.len() == 1 {
        assert(crate::base_url::query_appended(Some(enc0), ps.drop_first()) == Some(enc0));
    } else {
        assert(encodings_nonempty(ps.drop_first())) by {
            assert(forall|i: int|
                0 <= i < ps.drop_first().len() ==> ps.drop_first()[i] == ps[i + 1]);
        }
        lemma_query_appended_join(enc0, ps.drop_first());
        assert(enc0 + seq!['&'] + joined_pairs(ps.drop_first()) =~= joined_pairs(ps));
    }
}

/// `with_query` appends every pair in order, keeps duplicate keys, and never
/// removes what the query already held: for a non-empty pair sequence the new
/// raw query is the old one (when present and non-empty) extended by `&` and
/// the in-order join of the pairs' encodings, and exactly that join when the
/// query was absent or empty. Stated for non-empty pair encodings, which the
/// form encoding always produces (it writes at least the `=` of each pair).
pub proof fn lemma_with_query_appends(r: RequestSpec, ps: Seq<(Seq<char>, Seq<char>)>)
    requires
        ps.len() > 0,
        encodings_nonempty(ps),
    ensures
        (query_applied(r, ps).url.query is Some),
        r.url.query matches Some(q) ==> (q.len() > 0 ==> query_applied(r, ps).url.query == Some(
            q + seq!['&'] + joined_pairs(ps),
        )),
        (r.url.query is None || r.url.query->0.len() == 0) ==> query_applied(r, ps).url.query
            == Some(joined_pairs(ps)),
{
    if r.url.query is Some && r.url.query->0.len() > 0 {
        lemma_query_appended_join(r.url.query->0, ps);
    } else {
        lemma_query_appended_join_fresh(r.url.query, ps);
    }
}

/// What `with_body` stores is what the wire-level request carries, byte for
/// byte.
pub proof fn lemma_body_transmitted(r: RequestSpec, b: Seq<u8>)
    ensures
        wire_of(body_applied(r, b)).body == Some(b),
{
}

} // verus!
