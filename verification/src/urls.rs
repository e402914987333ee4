//! Verified construction of request urls: base, path and an encoded query
//! string, exactly as the watch protocol's deterministic encoding asks.

use vstd::prelude::*;
use crate::encode::push_char;
use crate::encode::spec_form_encoded;
use crate::encode::form_urlencode_into;

verus! {

use vstd::string::StringSliceAdditionalSpecFns;
use vstd::utf8::encode_utf8;

/// The character-sequence views of a list of query pairs.
pub open spec fn pair_views(qs: Seq<(String, String)>) -> Seq<(Seq<char>, Seq<char>)> {
    qs.map_values(|p: (String, String)| (p.0@, p.1@))
}

/// One query pair under the form-urlencoded serialization: `key=value`.
pub open spec fn spec_query_pair(p: (Seq<char>, Seq<char>)) -> Seq<char> {
    spec_form_encoded(encode_utf8(p.0)) + seq!['='] + spec_form_encoded(encode_utf8(p.1))
}

/// Query pairs joined with `&`.
pub open spec fn spec_query_pairs(qs: Seq<(Seq<char>, Seq<char>)>) -> Seq<char>
    decreases qs.len(),
{
    if qs.len() == 0 {
        Seq::empty()
    } else if qs.len() == 1 {
        spec_query_pair(qs.first())
    } else {
        spec_query_pair(qs.first()) + seq!['&'] + spec_query_pairs(qs.drop_first())
    }
}

/// The whole query string: empty for no pairs, otherwise `?` and the pairs.
pub open spec fn spec_query_string(qs: Seq<(Seq<char>, Seq<char>)>) -> Seq<char> {
    if qs.len() == 0 {
        Seq::empty()
    } else {
        seq!['?'] + spec_query_pairs(qs)
    }
}

/// A full request url: base, path and the query string.
pub open spec fn spec_url(base: Seq<char>, path: Seq<char>, qs: Seq<(Seq<char>, Seq<char>)>) -> Seq<
    char,
> {
    base + path + spec_query_string(qs)
}

/// Appends `key=value` pairs joined with `&`, both sides form-urlencoded.
pub fn append_query_pairs(out: &mut String, queries: &Vec<(String, String)>)
    ensures
        final(out)@ == old(out)@ + spec_query_pairs(pair_views(queries@)),
{
    let n = queries.len();
    let ghost start = out@;
    let ghost all = pair_views(queries@);
    assert(all.skip(0) == all);
    for i in 0..n
        invariant
            n == queries@.len(),
            all == pair_views(queries@),
            all.len() == n,
            out@ + spec_query_pairs(all.skip(i as int)) == start + spec_query_pairs(all),
    {
        proof {
            assert(all.skip(i as int).first() == all[i as int]);
            assert(all.skip(i as int).drop_first() =~= all.skip(i + 1));
        }
        form_urlencode_into(out, queries[i].0.as_str());
        push_char(out, '=');
        form_urlencode_into(out, queries[i].1.as_str());
        if i + 1 < n {
            push_char(out, '&');
        }
        assert(out@ + spec_query_pairs(all.skip(i + 1)) =~= start + spec_query_pairs(all));
    }
    assert(all.skip(n as int) =~= Seq::<(Seq<char>, Seq<char>)>::empty());
    assert(out@ =~= start + spec_query_pairs(all));
}

/// Create a request url from the base url, the path and the queries.
pub fn build_url(base: &str, path: &str, queries: &Vec<(String, String)>) -> (r: String)
    ensures
        r@ == spec_url(base@, path@, pair_views(queries@)),
{
    let mut r = base.to_owned();
    r.append(path);
    if queries.len() > 0 {
        push_char(&mut r, '?');
        append_query_pairs(&mut r, queries);
    }
    r
}

} // verus!
