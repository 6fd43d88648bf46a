//! The base URL model.
//!
//! The verified core holds a URL as its plain components — scheme, host,
//! optional port, path and optional raw query string. Parsing a URL string
//! into those components and percent-encoding query pairs are the URL
//! collaborator's work (the `url` and `form_urlencoded` crates) and are
//! reached through trusted wrappers; everything else — path replacement,
//! query composition and serialization back to a URL string — is verified
//! here.

use vstd::prelude::*;
use vstd::string::StringExecFns;

verus! {

broadcast use vstd::string::next_postcondition, vstd::string::axiom_spec_iter;

/// The ghost form of a base URL: the plain components the core reads.
#[verifier::ext_equal]
pub struct UrlSpec {
    pub scheme: Seq<char>,
    pub host: Seq<char>,
    pub port: Option<u16>,
    pub path: Seq<char>,
    pub query: Option<Seq<char>>,
}

/// A parsed URL, held as plain components and serialized on demand.
#[derive(Debug)]
pub struct BaseUrl {
    scheme: String,
    host: String,
    port: Option<u16>,
    path: String,
    query: Option<String>,
}

impl View for BaseUrl {
    type V = UrlSpec;

    closed spec fn view(&self) -> UrlSpec {
        UrlSpec {
            scheme: self.scheme@,
            host: self.host@,
            port: self.port,
            path: self.path@,
            query: match self.query {
                Some(q) => Some(q@),
                None => None,
            },
        }
    }
}

// ---------------------------------------------------------------------------
// What the URL collaborator computes, by name and through trusted wrappers.
// ---------------------------------------------------------------------------

/// Whether `url::Url::parse` accepts the string.
pub uninterp spec fn url_ok(s: Seq<char>) -> bool;

/// The scheme that `url::Url::parse` yields for an accepted string.
pub uninterp spec fn url_scheme(s: Seq<char>) -> Seq<char>;

/// The host, if any, that `url::Url::parse` yields for an accepted string.
pub uninterp spec fn url_host(s: Seq<char>) -> Option<Seq<char>>;

/// The explicit, non-default port that `url::Url::parse` yields.
pub uninterp spec fn url_port(s: Seq<char>) -> Option<u16>;

/// The path that `url::Url::parse` yields for an accepted string.
pub uninterp spec fn url_path(s: Seq<char>) -> Seq<char>;

/// The raw query string, if any, that `url::Url::parse` yields.
pub uninterp spec fn url_query(s: Seq<char>) -> Option<Seq<char>>;

/// The `application/x-www-form-urlencoded` serialization of one key/value
/// pair, as `form_urlencoded::Serializer::append_pair` computes it.
pub uninterp spec fn form_encoded(k: Seq<char>, v: Seq<char>) -> Seq<char>;

/// The raw components the URL parser hands back, before the core decides
/// whether they form a usable base URL.
pub struct UrlParts {
    pub scheme: String,
    pub host: Option<String>,
    pub port: Option<u16>,
    pub path: String,
    pub query: Option<String>,
}

/// The view of an optional string.
pub open spec fn opt_str_view(o: Option<String>) -> Option<Seq<char>> {
    match o {
        Some(s) => Some(s@),
        None => None,
    }
}

/// Relies on `url::Url::parse` and the accessors `scheme`, `host_str`,
/// `port`, `path` and `query`: parsing is a function of the input string
/// alone, and each accessor hands back the corresponding component of the
/// parsed URL (`port` is `None` for a scheme's default port).
#[verifier::external_body]
pub(crate) fn parse_url_parts(s: &str) -> (r: Option<UrlParts>)
    ensures
        r is Some <==> url_ok(s@),
        r matches Some(p) ==> p.scheme@ == url_scheme(s@) && opt_str_view(p.host) == url_host(s@)
            && p.port == url_port(s@) && p.path@ == url_path(s@) && opt_str_view(p.query)
            == url_query(s@),
{
    match url::Url::parse(s) {
        Ok(u) => Some(UrlParts {
            scheme: u.scheme().to_string(),
            host: u.host_str().map(|h| h.to_string()),
            port: u.port(),
            path: u.path().to_string(),
            query: u.query().map(|q| q.to_string()),
        }),
        Err(_) => None,
    }
}

/// Relies on `form_urlencoded::Serializer::append_pair` on an empty target:
/// it appends exactly the encoding of the one pair, a function of the key
/// and value alone.
#[verifier::external_body]
pub(crate) fn encode_query_pair(k: &str, v: &str) -> (r: String)
    ensures
        r@ == form_encoded(k@, v@),
{
    let mut ser = form_urlencoded::Serializer::new(String::new());
    ser.append_pair(k, v);
    ser.finish()
}

// ---------------------------------------------------------------------------
// Verified URL mutation and serialization.
// ---------------------------------------------------------------------------

/// A path as stored: the given string, with a leading slash supplied when it
/// is missing, so that the serialized URL keeps its shape.
pub open spec fn norm_path(p: Seq<char>) -> Seq<char> {
    if p.len() > 0 && p[0] == '/' {
        p
    } else {
        seq!['/'] + p
    }
}

/// The URL after its path component is replaced. Replacement overwrites: the
/// result does not depend on the path the URL held before.
pub open spec fn path_set(u: UrlSpec, p: Seq<char>) -> UrlSpec {
    UrlSpec {
        scheme: u.scheme,
        host: u.host,
        port: u.port,
        path: norm_path(p),
        query: u.query,
    }
}

/// One encoded pair appended to a raw query string: the first pair stands
/// alone, every later one is joined with `&`. Nothing is removed.
pub open spec fn query_append1(q: Option<Seq<char>>, enc: Seq<char>) -> Option<Seq<char>> {
    match q {
        None => Some(enc),
        Some(s) => if s.len() == 0 {
            Some(enc)
        } else {
            Some(s + seq!['&'] + enc)
        },
    }
}

/// A sequence of key/value pairs appended in order to a raw query string.
pub open spec fn query_appended(
    q: Option<Seq<char>>,
    pairs: Seq<(Seq<char>, Seq<char>)>,
) -> Option<Seq<char>>
    decreases pairs.len(),
{
    if pairs.len() == 0 {
        q
    } else {
        query_appended(query_append1(q, form_encoded(pairs[0].0, pairs[0].1)), pairs.drop_first())
    }
}

/// The URL after one encoded pair is appended to its query string.
pub open spec fn query_push1(u: UrlSpec, enc: Seq<char>) -> UrlSpec {
    UrlSpec {
        scheme: u.scheme,
        host: u.host,
        port: u.port,
        path: u.path,
        query: query_append1(u.query, enc),
    }
}

/// The URL after a sequence of query pairs is appended to it.
pub open spec fn query_push(u: UrlSpec, pairs: Seq<(Seq<char>, Seq<char>)>) -> UrlSpec {
    UrlSpec {
        scheme: u.scheme,
        host: u.host,
        port: u.port,
        path: u.path,
        query: query_appended(u.query, pairs),
    }
}

/// The decimal digit for one value below ten.
pub open spec fn digit_char(d: nat) -> char {
    if d == 0 {
        '0'
    } else if d == 1 {
        '1'
    } else if d == 2 {
        '2'
    } else if d == 3 {
        '3'
    } else if d == 4 {
        '4'
    } else if d == 5 {
        '5'
    } else if d == 6 {
        '6'
    } else if d == 7 {
        '7'
    } else if d == 8 {
        '8'
    } else {
        '9'
    }
}

/// The decimal digits of a number, most significant first, no leading zeros.
pub open spec fn dec_str(n: nat) -> Seq<char>
    decreases n,
{
    if n < 10 {
        seq![digit_char(n)]
    } else {
        dec_str(n / 10).push(digit_char(n % 10))
    }
}

/// The `:port` part of a serialized URL, empty when no explicit port is held.
pub open spec fn port_part(p: Option<u16>) -> Seq<char> {
    match p {
        Some(n) => seq![':'] + dec_str(n as nat),
        None => Seq::<char>::empty(),
    }
}

/// The `?query` part of a serialized URL, empty when no query is held.
pub open spec fn query_part(q: Option<Seq<char>>) -> Seq<char> {
    match q {
        Some(s) => seq!['?'] + s,
        None => Seq::<char>::empty(),
    }
}

/// The serialized form of a base URL:
/// `scheme://host[:port]path[?query]`.
pub open spec fn url_str(u: UrlSpec) -> Seq<char> {
    u.scheme + seq![':', '/', '/'] + u.host + port_part(u.port) + u.path + query_part(u.query)
}

/// Whether the string starts with a slash.
fn starts_with_slash(p: &str) -> (r: bool)
    ensures
        r == (p@.len() > 0 && p@[0] == '/'),
{
    let mut it = p.chars();
    let c = it.next();
    match c {
        Some(ch) => ch == '/',
        None => false,
    }
}

/// One digit as a string slice.
fn digit_str(d: u16) -> (r: &'static str)
    requires
        d < 10,
    ensures
        r@ == seq![digit_char(d as nat)],
{
    let r: &'static str = if d == 0 {
        "0"
    } else if d == 1 {
        "1"
    } else if d == 2 {
        "2"
    } else if d == 3 {
        "3"
    } else if d == 4 {
        "4"
    } else if d == 5 {
        "5"
    } else if d == 6 {
        "6"
    } else if d == 7 {
        "7"
    } else if d == 8 {
        "8"
    } else {
        "9"
    };
    proof {
        reveal_strlit("0");
        reveal_strlit("1");
        reveal_strlit("2");
        reveal_strlit("3");
        reveal_strlit("4");
        reveal_strlit("5");
        reveal_strlit("6");
        reveal_strlit("7");
        reveal_strlit("8");
        reveal_strlit("9");
        assert(r@ =~= seq![digit_char(d as nat)]);
    }
    r
}

/// Appends the decimal digits of `n` to `out`.
fn push_dec(n: u16, out: String) -> (r: String)
    ensures
        r@ == out@ + dec_str(n as nat),
    decreases n,
{
    if n < 10 {
        let r = out.concat(digit_str(n));
        proof {
            assert(r@ =~= out@ + dec_str(n as nat));
        }
        r
    } else {
        let q = n / 10;
        let d = n % 10;
        assert(q < n && q >= 1 && d < 10) by (nonlinear_arith)
            requires
                n >= 10,
                q == n / 10,
                d == n % 10,
        ;
        let out2 = push_dec(q, out);
        let r = out2.concat(digit_str(d));
        proof {
            assert(dec_str(n as nat) =~= dec_str((n / 10) as nat).push(digit_char((n % 10) as nat)));
            assert(r@ =~= out@ + dec_str(n as nat));
        }
        r
    }
}

impl BaseUrl {
    /// Decides whether the parser's components form a usable base URL: every
    /// request needs an authority, so components without a host are turned
    /// away.
    pub fn from_parts(p: UrlParts) -> (r: Option<BaseUrl>)
        ensures
            r is Some <==> p.host is Some,
            r matches Some(b) ==> b@.scheme == p.scheme@ && Some(b@.host) == opt_str_view(p.host)
                && b@.port == p.port && b@.path == p.path@ && b@.query == opt_str_view(p.query),
    {
        match p.host {
            Some(h) => Some(
                BaseUrl { scheme: p.scheme, host: h, port: p.port, path: p.path, query: p.query },
            ),
            None => None,
        }
    }

    /// An independent copy: mutating one copy never affects the other.
    pub fn duplicate(&self) -> (r: BaseUrl)
        ensures
            r@ == self@,
    {
        let query = match &self.query {
            Some(q) => Some(q.clone()),
            None => None,
        };
        let r = BaseUrl {
            scheme: self.scheme.clone(),
            host: self.host.clone(),
            port: self.port,
            path: self.path.clone(),
            query,
        };
        proof {
            assert(r@ =~= self@);
        }
        r
    }

    /// Replaces the path component. Overwrites: the path the URL held before
    /// is discarded entirely.
    pub fn set_path(&mut self, p: &str)
        ensures
            final(self)@ == path_set(old(self)@, p@),
    {
        if starts_with_slash(p) {
            self.path = p.to_owned();
        } else {
            let mut np: String = "/".to_owned();
            np.append(p);
            self.path = np;
        }
        proof {
            reveal_strlit("/");
            assert(final(self)@ =~= path_set(old(self)@, p@));
        }
    }

    /// Appends one key/value pair, percent-encoded by the URL collaborator,
    /// to the raw query string. Pre-existing query parameters stay.
    pub fn append_query_pair(&mut self, k: &str, v: &str)
        ensures
            final(self)@ == query_push1(old(self)@, form_encoded(k@, v@)),
    {
        let enc = encode_query_pair(k, v);
        let q0 = self.query.take();
        match q0 {
            None => {
                self.query = Some(enc);
            },
            Some(s) => {
                if s.as_str().is_empty() {
                    self.query = Some(enc);
                } else {
                    let mut s2 = s;
                    s2.append("&");
                    s2.append(enc.as_str());
                    self.query = Some(s2);
                }
            },
        }
        proof {
            reveal_strlit("&");
            assert(final(self)@.query =~~= query_append1(old(self)@.query, form_encoded(k@, v@)));
        }
    }

    /// Serializes the URL back to a string:
    /// `scheme://host[:port]path[?query]`.
    pub fn to_url_string(&self) -> (r: String)
        ensures
            r@ == url_str(self@),
    {
        let mut s = self.scheme.clone();
        s.append("://");
        s.append(self.host.as_str());
        match self.port {
            Some(p) => {
                s.append(":");
                let s2 = push_dec(p, s);
                s = s2;
            },
            None => {},
        }
        s.append(self.path.as_str());
        match &self.query {
            Some(q) => {
                s.append("?");
                s.append(q.as_str());
            },
            None => {},
        }
        proof {
            reveal_strlit("://");
            reveal_strlit(":");
            reveal_strlit("?");
            assert(s@ =~= url_str(self@));
        }
        s
    }
}

} // verus!
