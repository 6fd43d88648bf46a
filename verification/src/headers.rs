//! The header set carried by connections and requests.
//!
//! Headers are supplied by the caller as an ordered multi-map of name/value
//! pairs. This core defines no header semantics of its own: it stores the
//! set, copies it into each derived request, and passes it through to the
//! transport unmodified.

use vstd::prelude::*;

verus! {

/// The view of a header list: the name/value pairs as character sequences,
/// in order, duplicates kept.
pub open spec fn headers_view(h: Seq<(String, String)>) -> Seq<(Seq<char>, Seq<char>)> {
    h.map_values(|p: (String, String)| (p.0@, p.1@))
}

/// The view of an optional header list.
pub open spec fn opt_headers_view(h: Option<Vec<(String, String)>>) -> Option<
    Seq<(Seq<char>, Seq<char>)>,
> {
    match h {
        Some(v) => Some(headers_view(v@)),
        None => None,
    }
}

/// An independent copy of a header list, pair for pair.
pub(crate) fn clone_header_vec(h: &Vec<(String, String)>) -> (r: Vec<(String, String)>)
    ensures
        r@ == h@,
{
    let mut out: Vec<(String, String)> = Vec::new();
    let mut i: usize = 0;
    while i < h.len()
        invariant
            i <= h@.len(),
            out@ == h@.take(i as int),
        decreases h@.len() - i,
    {
        let name = h[i].0.clone();
        let value = h[i].1.clone();
        out.push((name, value));
        proof {
            assert(out@ =~= h@.take(i + 1 as int));
        }
        i = i + 1;
    }
    proof {
        assert(h@.take(i as int) =~= h@);
    }
    out
}

} // verus!
