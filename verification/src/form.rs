use vstd::prelude::*;

use crate::strutil::str_eq;

verus! {

/// What form-urlencoded parsing of a query string or request body yields:
/// the decoded name/value pairs, in order.
pub uninterp spec fn form_pairs_of(b: Seq<u8>) -> Seq<(Seq<char>, Seq<char>)>;

/// The views of parsed name/value pairs.
pub open spec fn pair_views(pairs: Seq<(String, String)>) -> Seq<(Seq<char>, Seq<char>)> {
    pairs.map_values(|p: (String, String)| (p.0@, p.1@))
}

/// Relies on url's form_urlencoded::parse: splits the input on `&` and `=`
/// and percent-decodes names and values, a function of the bytes alone.
#[verifier::external_body]
pub(crate) fn parse_form_pairs(query: &[u8]) -> (r: Vec<(String, String)>)
    ensures
        pair_views(r@) == form_pairs_of(query@),
{
    url::form_urlencoded::parse(query).into_owned().collect()
}

/// The value of the last pair named `key`, if any: a later occurrence of a
/// parameter overrides an earlier one.
pub open spec fn last_param_of(
    pairs: Seq<(Seq<char>, Seq<char>)>,
    key: Seq<char>,
) -> Option<Seq<char>>
    decreases pairs.len(),
{
    if pairs.len() == 0 {
        None
    } else if pairs.last().0 == key {
        Some(pairs.last().1)
    } else {
        last_param_of(pairs.drop_last(), key)
    }
}

/// The value of the last pair named `key`, if any.
#[verifier::loop_isolation(false)]
pub fn last_param(pairs: &Vec<(String, String)>, key: &str) -> (r: Option<String>)
    ensures
        match r {
            Some(v) => last_param_of(pair_views(pairs@), key@) == Some(v@),
            None => last_param_of(pair_views(pairs@), key@) is None,
        },
{
    let ghost all = pair_views(pairs@);
    let mut found: Option<String> = None;
    let mut i: usize = 0;
    while i < pairs.len()
        invariant
            i <= pairs@.len(),
            match found {
                Some(v) => last_param_of(all.subrange(0, i as int), key@) == Some(v@),
                None => last_param_of(all.subrange(0, i as int), key@) is None,
            },
        decreases pairs@.len() - i,
    {
        proof {
            assert(all.subrange(0, i + 1).drop_last() =~= all.subrange(0, i as int));
            assert(all.subrange(0, i + 1).last() == all[i as int]);
        }
        if str_eq(pairs[i].0.as_str(), key) {
            found = Some(pairs[i].1.clone());
        }
        i += 1;
    }
    proof {
        assert(all.subrange(0, all.len() as int) =~= all);
    }
    found
}

} // verus!
