//! Query-string parameters of upload and download requests.
use vstd::prelude::*;
use crate::text::str_eq;

verus! {

/// The name/value pairs that form-urlencoded decoding yields for a query
/// string, in their order of appearance.
pub uninterp spec fn form_pairs(query: Seq<char>) -> Seq<(Seq<char>, Seq<char>)>;

pub open spec fn pairs_view(pairs: Seq<(String, String)>) -> Seq<(Seq<char>, Seq<char>)> {
    pairs.map_values(|p: (String, String)| (p.0@, p.1@))
}

/// The value of the last pair named `key`: a later pair overrides an earlier one.
pub open spec fn last_value(pairs: Seq<(Seq<char>, Seq<char>)>, key: Seq<char>) -> Option<
    Seq<char>,
>
    decreases pairs.len(),
{
    if pairs.len() == 0 {
        None
    } else if pairs.last().0 == key {
        Some(pairs.last().1)
    } else {
        last_value(pairs.drop_last(), key)
    }
}

pub open spec fn opt_string_view(o: Option<String>) -> Option<Seq<char>> {
    match o {
        Some(s) => Some(s@),
        None => None,
    }
}

/// Relies on `url::form_urlencoded::parse` (with `into_owned`): it decodes the
/// pairs of a query string as a function of its bytes alone, and yields no
/// pair for an empty string.
#[verifier::external_body]
fn decode_query(query: &str) -> (r: Vec<(String, String)>)
    ensures
        pairs_view(r@) == form_pairs(query@),
        query@.len() == 0 ==> r@.len() == 0,
{
    url::form_urlencoded::parse(query.as_bytes()).into_owned().collect()
}

/// The value of the last pair named `key` among decoded `pairs`.
pub fn query_value(pairs: &Vec<(String, String)>, key: &str) -> (r: Option<String>)
    ensures
        opt_string_view(r) == last_value(pairs_view(pairs@), key@),
{
    let mut k: usize = pairs.len();
    assert(pairs_view(pairs@).subrange(0, k as int) =~= pairs_view(pairs@));
    while k > 0
        invariant
            k <= pairs@.len(),
            last_value(pairs_view(pairs@), key@) == last_value(
                pairs_view(pairs@).subrange(0, k as int),
                key@,
            ),
        decreases k,
    {
        let ghost sub = pairs_view(pairs@).subrange(0, k as int);
        assert(sub.last() == (pairs@[k - 1].0@, pairs@[k - 1].1@));
        if str_eq(pairs[k - 1].0.as_str(), key) {
            return Some(pairs[k - 1].1.clone());
        }
        assert(sub.drop_last() =~= pairs_view(pairs@).subrange(0, k - 1));
        k = k - 1;
    }
    None
}

/// The value of parameter `key` in a query string; when the name repeats, the
/// last value counts.
pub fn query_param(query: &str, key: &str) -> (r: Option<String>)
    ensures
        opt_string_view(r) == last_value(form_pairs(query@), key@),
{
    let pairs = decode_query(query);
    query_value(&pairs, key)
}

} // verus!
