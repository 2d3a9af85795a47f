//! Decoding of the stream's lines, which are JSON texts: the header object
//! and the frames.
use vstd::prelude::*;
use vstd::string::StrSliceExecFns;
use crate::stats::{Grid, GridView};

verus! {

/// What serde_json reads from `b` as an array of arrays of strings, if it
/// reads one.
pub uninterp spec fn grid_from_json(b: Seq<u8>) -> Option<GridView>;

/// What serde_json reads from `b` as an object whose values are all
/// non-negative integers, as its entries in ascending key order, if it reads
/// one.
pub uninterp spec fn entries_from_json(b: Seq<u8>) -> Option<Seq<(Seq<char>, usize)>>;

/// Relies on `serde_json::from_slice::<Vec<Vec<String>>>`: decodes one JSON
/// text, surrounding whitespace allowed, as an array of arrays of strings;
/// the outcome depends on the bytes alone.
#[verifier::external_body]
pub(crate) fn decode_grid(b: &[u8]) -> (r: Option<Grid>)
    ensures
        r is Some ==> grid_from_json(b@) == Some(r->Some_0.deep_view()),
        r is None ==> grid_from_json(b@) is None,
{
    serde_json::from_slice::<Vec<Vec<String>>>(b).ok()
}

/// Relies on `serde_json::from_slice::<BTreeMap<String, usize>>`: decodes
/// one JSON text, surrounding whitespace allowed, as an object whose values
/// are all non-negative integers that fit a `usize`; the outcome depends on
/// the bytes alone. The map's entries come out in its (key) order.
#[verifier::external_body]
fn decode_entries(b: &[u8]) -> (r: Option<Vec<(String, usize)>>)
    ensures
        r is Some ==> entries_from_json(b@) == Some(r->Some_0.deep_view()),
        r is None ==> entries_from_json(b@) is None,
{
    match serde_json::from_slice::<std::collections::BTreeMap<String, usize>>(b) {
        Ok(m) => Some(m.into_iter().collect()),
        Err(_) => None,
    }
}

/// The value of the first entry of `es`, from index `i` on, whose key is
/// `key`.
pub open spec fn lookup_from(es: Seq<(Seq<char>, usize)>, key: Seq<char>, i: int) -> Option<usize>
    decreases es.len() - i,
{
    if i < 0 || i >= es.len() {
        None
    } else if es[i].0 == key {
        Some(es[i].1)
    } else {
        lookup_from(es, key, i + 1)
    }
}

/// The run header in `line`: a JSON object with integer `width` and
/// `height`, as `(width, height)`.
pub open spec fn metadata_from_json(line: Seq<u8>) -> Option<(usize, usize)> {
    match entries_from_json(line) {
        Some(es) => match (lookup_from(es, "width"@, 0), lookup_from(es, "height"@, 0)) {
            (Some(w), Some(h)) => Some((w, h)),
            _ => None,
        },
        None => None,
    }
}

/// Whether two strings hold the same characters.
pub fn same_text(s: &str, t: &str) -> (r: bool)
    ensures
        r == (s@ == t@),
{
    let n = s.unicode_len();
    if n != t.unicode_len() {
        return false;
    }
    let mut i: usize = 0;
    while i < n
        invariant
            n == s@.len(),
            n == t@.len(),
            i <= n,
            forall|k: int| 0 <= k < i ==> s@[k] == t@[k],
        decreases n - i,
    {
        if s.get_char(i) != t.get_char(i) {
            return false;
        }
        i = i + 1;
    }
    assert(s@ =~= t@);
    true
}

fn find_entry(es: &Vec<(String, usize)>, key: &str) -> (r: Option<usize>)
    ensures
        r == lookup_from(es.deep_view(), key@, 0),
{
    let ghost d = es.deep_view();
    let mut i: usize = 0;
    while i < es.len()
        invariant
            d == es.deep_view(),
            i <= es.len(),
            lookup_from(d, key@, 0) == lookup_from(d, key@, i as int),
        decreases es.len() - i,
    {
        assert(d[i as int] == (es[i as int].0@, es[i as int].1));
        if same_text(es[i].0.as_str(), key) {
            return Some(es[i].1);
        }
        i = i + 1;
    }
    None
}

/// Decodes a run header line into `(width, height)`.
pub fn parse_metadata(line: &[u8]) -> (r: Option<(usize, usize)>)
    ensures
        r == metadata_from_json(line@),
{
    match decode_entries(line) {
        None => None,
        Some(es) => {
            let w = find_entry(&es, "width");
            let h = find_entry(&es, "height");
            match (w, h) {
                (Some(w), Some(h)) => Some((w, h)),
                _ => None,
            }
        },
    }
}

} // verus!
