//! The response side of a send: the buffered-body policy.
//!
//! The transport collaborator performs the network exchange outside this
//! core and reports back one plain event: a transport-level failure, or a
//! response's status together with the attempt to read its whole body. This
//! module folds that event into the final result of a send.
//!
//! Of the two conceivable response-handling contracts — handing the caller
//! the live response to inspect, or buffering locally — this library
//! implements and documents the **buffered-body policy**: a status outside
//! the success range (200–299) fails with an error whose description is the
//! body text (best effort; the fixed placeholder `Unknown error` stands in
//! when the body cannot be read or decoded), while a success status yields
//! the whole body as one byte buffer. Transport-level failures are
//! propagated as errors unchanged, with no local recovery.

use vstd::prelude::*;

use crate::err::{Error, FallibleResult};
use crate::headers::headers_view;
use vstd::std_specs::iter::IteratorSpec;

verus! {

broadcast use vstd::string::next_postcondition, vstd::string::axiom_spec_iter;

/// What the transport hands back from one exchange: a transport-level
/// failure with its description, or the response status together with the
/// read of the whole response body (which itself may have failed).
pub enum TransportEvent {
    Failed(String),
    Response { status: u16, body: Result<Vec<u8>, String> },
}

/// Whether a status code indicates success (the 2xx range).
pub open spec fn is_success(status: u16) -> bool {
    200 <= status && status < 300
}

/// The view of a body read: the bytes, or the read failure's description.
pub open spec fn body_view(b: Result<Vec<u8>, String>) -> Result<Seq<u8>, Seq<char>> {
    match b {
        Ok(v) => Ok(v@),
        Err(s) => Err(s@),
    }
}

/// The description a non-success response produces: the body read as UTF-8
/// text, or the fixed placeholder when the body could not be read or is not
/// valid UTF-8.
pub open spec fn failure_message(body: Result<Seq<u8>, Seq<char>>) -> Seq<char> {
    match body {
        Ok(b) => if vstd::utf8::valid_utf8(b) {
            vstd::utf8::decode_utf8(b)
        } else {
            "Unknown error"@
        },
        Err(_) => "Unknown error"@,
    }
}

/// Relies on `String::from_utf8`: it succeeds exactly on valid UTF-8 input
/// and decodes the bytes to the characters they encode.
#[verifier::external_body]
fn decode_utf8_body(b: Vec<u8>) -> (r: Option<String>)
    ensures
        (r is Some <==> vstd::utf8::valid_utf8(b@)),
        r matches Some(s) ==> s@ == vstd::utf8::decode_utf8(b@),
{
    match String::from_utf8(b) {
        Ok(s) => Some(s),
        Err(_) => None,
    }
}

/// Folds the transport's event into the result of a send under the
/// buffered-body policy: a transport failure or a failed body read is
/// propagated as an error, a non-success status fails with the body text as
/// description, and a success status yields the body bytes exactly as read.
pub fn complete_buffered(ev: TransportEvent) -> (r: FallibleResult<Vec<u8>>)
    ensures
        ev matches TransportEvent::Failed(m) ==> (r matches Err(e) && e@ == m@),
        ev matches TransportEvent::Response { status, body } ==> (if is_success(status) {
            (match body {
                Ok(b) => r matches Ok(out) && out@ == b@,
                Err(m) => r matches Err(e) && e@ == m@,
            })
        } else {
            (r matches Err(e) && e@ == failure_message(body_view(body)))
        }),
{
    match ev {
        TransportEvent::Failed(m) => Err(Error::from(m)),
        TransportEvent::Response { status, body } => {
            if 200 <= status && status < 300 {
                match body {
                    Ok(b) => Ok(b),
                    Err(m) => Err(Error::from(m)),
                }
            } else {
                match body {
                    Ok(b) => match decode_utf8_body(b) {
                        Some(s) => Err(Error::from(s)),
                        None => Err(Error::from("Unknown error".to_owned())),
                    },
                    Err(_) => Err(Error::from("Unknown error".to_owned())),
                }
            }
        },
    }
}

// ---------------------------------------------------------------------------
// Content-Length, for pre-sizing the body buffer while it is read.
// ---------------------------------------------------------------------------

/// Whether the character is a decimal digit.
pub open spec fn is_digit(c: char) -> bool {
    48 <= c as u32 && c as u32 <= 57
}

/// The value of a decimal digit.
pub open spec fn digit_value(c: char) -> nat
    recommends
        is_digit(c),
{
    (c as u32 - 48) as nat
}

/// Whether every character of the sequence is a decimal digit.
pub open spec fn all_digits(s: Seq<char>) -> bool {
    forall|i: int| 0 <= i < s.len() ==> is_digit(s[i])
}

/// The number the digit sequence denotes.
pub open spec fn dec_value(s: Seq<char>) -> nat
    decreases s.len(),
{
    if s.len() == 0 {
        0
    } else {
        dec_value(s.drop_last()) * 10 + digit_value(s.last())
    }
}

/// Whether the sequence is a non-empty run of digits denoting a value that
/// fits in a `u64`.
pub open spec fn parseable_u64(s: Seq<char>) -> bool {
    s.len() > 0 && all_digits(s) && dec_value(s) <= u64::MAX
}

/// A digit run's value never shrinks when more digits follow.
proof fn lemma_dec_value_prefix(s: Seq<char>, k: int)
    requires
        0 <= k <= s.len(),
        all_digits(s),
    ensures
        dec_value(s) >= dec_value(s.take(k)),
    decreases s.len() - k,
{
    if k == s.len() {
        assert(s.take(k) =~= s);
    } else {
        assert(s.take(k + 1).drop_last() =~= s.take(k));
        assert(s.take(k + 1).last() == s[k]);
        assert(dec_value(s.take(k + 1)) == dec_value(s.take(k)) * 10 + digit_value(s[k]));
        assert(dec_value(s.take(k)) * 10 >= dec_value(s.take(k)));
        lemma_dec_value_prefix(s, k + 1);
    }
}

/// Parses a non-empty all-digit string as a decimal `u64`.
fn parse_u64_digits(s: &str) -> (r: Option<u64>)
    ensures
        (r is Some <==> parseable_u64(s@)),
        r matches Some(n) ==> n == dec_value(s@),
{
    let mut it = s.chars();
    let mut acc: u64 = 0;
    let mut seen: bool = false;
    let ghost mut gi: int = 0;
    loop
        invariant
            0 <= gi <= s@.len(),
            it.remaining() == s@.skip(gi),
            all_digits(s@.take(gi)),
            acc == dec_value(s@.take(gi)),
            (seen <==> gi > 0),
        decreases s@.len() - gi,
    {
        let c_opt = it.next();
        match c_opt {
            None => {
                proof {
                    assert(s@.skip(gi).len() == 0);
                    assert(s@.take(gi) =~= s@);
                }
                if seen {
                    return Some(acc);
                } else {
                    return None;
                }
            },
            Some(c) => {
                proof {
                    assert(s@.skip(gi)[0] == s@[gi]);
                    assert(s@.skip(gi).drop_first() =~= s@.skip(gi + 1));
                }
                let u = c as u32;
                if u < 48 || u > 57 {
                    proof {
                        assert(!is_digit(s@[gi]));
                    }
                    return None;
                }
                let d = (u - 48) as u64;
                if acc > (u64::MAX - d) / 10 {
                    proof {
                        assert(s@.take(gi + 1).drop_last() =~= s@.take(gi));
                        assert(s@.take(gi + 1).last() == s@[gi]);
                        assert(acc * 10 + d > u64::MAX) by (nonlinear_arith)
                            requires
                                acc > (u64::MAX - d) / 10,
                                d <= 9,
                        ;
                        assert(dec_value(s@.take(gi + 1)) > u64::MAX);
                        if all_digits(s@) {
                            lemma_dec_value_prefix(s@, gi + 1);
                        }
                    }
                    return None;
                }
                proof {
                    assert(acc * 10 + d <= u64::MAX) by (nonlinear_arith)
                        requires
                            acc <= (u64::MAX - d) / 10,
                            d <= 9,
                    ;
                }
                acc = acc * 10 + d;
                seen = true;
                proof {
                    assert(s@.take(gi + 1).drop_last() =~= s@.take(gi));
                    assert(s@.take(gi + 1).last() == s@[gi]);
                    gi = gi + 1;
                }
            },
        }
    }
}

/// The value of the first header with the given name, if any.
pub open spec fn header_lookup(
    h: Seq<(Seq<char>, Seq<char>)>,
    name: Seq<char>,
) -> Option<Seq<char>>
    decreases h.len(),
{
    if h.len() == 0 {
        None
    } else if h[0].0 == name {
        Some(h[0].1)
    } else {
        header_lookup(h.drop_first(), name)
    }
}

/// The `Content-Length` a header list announces: the value of the first
/// header of that name, when it is a plain decimal number that fits.
pub open spec fn content_length_of(h: Seq<(Seq<char>, Seq<char>)>) -> Option<u64> {
    match header_lookup(h, "Content-Length"@) {
        Some(v) => if parseable_u64(v) {
            Some(dec_value(v) as u64)
        } else {
            None
        },
        None => None,
    }
}

/// Reads the `Content-Length` a response's headers announce, for pre-sizing
/// the buffer the body is read into.
pub fn content_length(headers: &Vec<(String, String)>) -> (r: Option<u64>)
    ensures
        r == content_length_of(headers_view(headers@)),
{
    let name: String = "Content-Length".to_owned();
    let ghost hv = headers_view(headers@);
    proof {
        assert(hv.skip(0) =~= hv);
    }
    let mut i: usize = 0;
    while i < headers.len()
        invariant
            0 <= i <= headers@.len(),
            name@ == "Content-Length"@,
            hv == headers_view(headers@),
            hv.len() == headers@.len(),
            header_lookup(hv, "Content-Length"@) == header_lookup(
                hv.skip(i as int),
                "Content-Length"@,
            ),
        decreases headers@.len() - i,
    {
        proof {
            assert(hv.skip(i as int)[0] == hv[i as int]);
        }
        if headers[i].0 == name {
            return parse_u64_digits(headers[i].1.as_str());
        }
        proof {
            assert(hv.skip(i as int).drop_first() =~= hv.skip(i + 1 as int));
        }
        i = i + 1;
    }
    proof {
        assert(hv.skip(i as int).len() == 0);
    }
    None
}

} // verus!
