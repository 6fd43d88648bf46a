//! The reusable connection.
//!
//! A `Connection` holds a parsed base URL, an optional set of default
//! headers and a shared, reference-counted handle to the transport engine.
//! It is immutable once constructed: every mutating-looking operation
//! returns a new value. The engine itself is the external collaborator that
//! performs the network exchange; this core never looks inside it, so the
//! connection is generic over the engine type and shares one handle among
//! every request derived from it.

use vstd::prelude::*;

use crate::base_url::{
    norm_path, url_host, url_ok, url_path, url_port, url_query, url_scheme, BaseUrl, UrlSpec,
};
use crate::err::{Error, FallibleResult};
use crate::headers::{clone_header_vec, headers_view, opt_headers_view};
use crate::request::{path_applied, Method, Request, RequestSpec};
use std::sync::Arc;

verus! {

/// The ghost form of a connection.
#[verifier::ext_equal]
pub struct ConnectionSpec {
    pub url: UrlSpec,
    pub headers: Option<Seq<(Seq<char>, Seq<char>)>>,
}

/// A reusable holder of base URL, default headers and shared transport
/// handle, from which single-use requests are derived.
#[derive(Debug)]
pub struct Connection<E> {
    client: Arc<E>,
    headers: Option<Vec<(String, String)>>,
    url: BaseUrl,
}

impl<E> View for Connection<E> {
    type V = ConnectionSpec;

    closed spec fn view(&self) -> ConnectionSpec {
        ConnectionSpec { url: self.url@, headers: opt_headers_view(self.headers) }
    }
}

/// The request a connection hands out before any builder step: the
/// connection's URL and headers, the given method, and no body.
pub open spec fn request_of(c: ConnectionSpec, m: Method) -> RequestSpec {
    RequestSpec { url: c.url, headers: c.headers, method: m, body: None }
}

/// Relies on `Arc::clone`: the clone is a new reference-counted handle to
/// the same shared allocation, equal to the original.
#[verifier::external_body]
fn share_engine<E>(c: &Arc<E>) -> (r: Arc<E>)
    ensures
        r == *c,
{
    Arc::clone(c)
}

impl<E> Connection<E> {
    /// The shared handle to the transport engine.
    pub closed spec fn transport(&self) -> Arc<E> {
        self.client
    }

    /// Parses `url` into the base URL of a new connection around the given
    /// transport engine, with no default headers. Fails with a
    /// malformed-URL error when the string is not a well-formed URL or
    /// carries no host to connect to.
    pub fn new(url: &str, engine: E) -> (r: FallibleResult<Connection<E>>)
        ensures
            (r is Ok <==> url_ok(url@) && url_host(url@) is Some),
            r matches Ok(c) ==> c@.url.scheme == url_scheme(url@) && Some(c@.url.host) == url_host(
                url@,
            ) && c@.url.port == url_port(url@) && c@.url.path == url_path(url@) && c@.url.query
                == url_query(url@) && (c@.headers is None) && c.transport() == engine,
            r matches Err(e) ==> e@ == "Could not parse URL"@,
    {
        match crate::base_url::parse_url_parts(url) {
            Some(parts) => match BaseUrl::from_parts(parts) {
                Some(base) => Ok(
                    Connection { client: Arc::new(engine), headers: None, url: base },
                ),
                None => Err(Error::from("Could not parse URL".to_owned())),
            },
            None => Err(Error::from("Could not parse URL".to_owned())),
        }
    }

    /// A copy of the connection whose default headers are replaced — not
    /// merged — by the given set.
    pub fn with_headers(self, headers: Vec<(String, String)>) -> (r: Self)
        ensures
            r@.url == self@.url,
            r@.headers == Some(headers_view(headers@)),
            r.transport() == self.transport(),
    {
        let Connection { client, headers: _, url } = self;
        Connection { client, headers: Some(headers), url }
    }

    /// A new single-use request: the engine handle is shared, the headers
    /// and the URL are independent copies, the method is fixed, and there is
    /// no body yet.
    pub fn request<'a>(&self, method: Method) -> (r: Request<'a, E>)
        ensures
            r@ == request_of(self@, method),
            r.transport() == self.transport(),
    {
        let client = share_engine(&self.client);
        let headers = match &self.headers {
            Some(h) => Some(clone_header_vec(h)),
            None => None,
        };
        let url = self.url.duplicate();
        let r = Request::assemble(client, headers, url, method);
        proof {
            assert(r@ =~~= request_of(self@, method));
        }
        r
    }
}

/// Requests derived from one connection do not interfere: each derived
/// builder is an independent value copy, so customizing the one leaves the
/// other — and the connection — exactly as a fresh derivation would be.
pub proof fn lemma_derived_requests_independent(
    c: ConnectionSpec,
    m1: Method,
    m2: Method,
    p1: Seq<char>,
    p2: Seq<char>,
)
    ensures
        path_applied(request_of(c, m1), p1).url.path == norm_path(p1),
        path_applied(request_of(c, m2), p2).url.path == norm_path(p2),
        path_applied(request_of(c, m1), p1).url.host == c.url.host,
        path_applied(request_of(c, m2), p2).url.host == c.url.host,
        path_applied(request_of(c, m1), p1).headers == c.headers,
        path_applied(request_of(c, m2), p2).headers == c.headers,
{
}

} // verus!
