//! Request signing: the Authorization and Timestamp header values derived from
//! the request's path and queries, an access key and a millisecond timestamp.
//! The timestamp is handed in by the caller so signing stays a pure function.

use vstd::prelude::*;
use crate::encode::push_char;
use crate::encode::i64_to_string;
use crate::encode::spec_decimal;
use crate::encode::spec_percent_encoded;
use crate::encode::percent_encode_into;
use crate::urls::pair_views;
use hmac::Mac;

verus! {

use vstd::string::StringSliceAdditionalSpecFns;
use vstd::utf8::encode_utf8;

/// What an HMAC-SHA1 digest is: a function of the key and the message alone.
pub uninterp spec fn spec_hmac_sha1(key: Seq<u8>, msg: Seq<u8>) -> Seq<u8>;

/// Relies on hmac's `SimpleHmac<Sha1>` (`new_from_slice`, `update`,
/// `finalize`): the digest depends on the key and the message alone and is
/// twenty bytes long; any key length is accepted.
#[verifier::external_body]
fn hmac_sha1(key: &[u8], msg: &[u8]) -> (r: Vec<u8>)
    ensures
        r@ == spec_hmac_sha1(key@, msg@),
        r@.len() == 20,
{
    match hmac::SimpleHmac::<sha1::Sha1>::new_from_slice(key) {
        Ok(mut mac) => {
            mac.update(msg);
            mac.finalize().into_bytes().to_vec()
        },
        Err(_) => Vec::new(),
    }
}

/// What the standard base64 rendering of a byte string is: a function of the
/// bytes alone.
pub uninterp spec fn spec_base64(bytes: Seq<u8>) -> Seq<char>;

/// Relies on base64's `encode` (standard alphabet, padded): the rendering
/// depends on the bytes alone, four characters for every started three bytes.
#[verifier::external_body]
fn base64_encode(bytes: &[u8]) -> (r: String)
    ensures
        r@ == spec_base64(bytes@),
        r@.len() == 4 * ((bytes@.len() + 2) / 3),
{
    base64::encode(bytes)
}

/// One query pair under the signing serialization: `key=value`, both sides
/// percent-encoded.
pub open spec fn spec_sign_pair(p: (Seq<char>, Seq<char>)) -> Seq<char> {
    spec_percent_encoded(encode_utf8(p.0)) + seq!['='] + spec_percent_encoded(encode_utf8(p.1))
}

/// The signing serialization of the query pairs, joined with `&`.
pub open spec fn spec_sign_pairs(qs: Seq<(Seq<char>, Seq<char>)>) -> Seq<char>
    decreases qs.len(),
{
    if qs.len() == 0 {
        Seq::empty()
    } else if qs.len() == 1 {
        spec_sign_pair(qs.first())
    } else {
        spec_sign_pair(qs.first()) + seq!['&'] + spec_sign_pairs(qs.drop_first())
    }
}

/// The url a signature covers: the path, and the percent-encoded queries when
/// there are any.
pub open spec fn spec_sign_url(path: Seq<char>, qs: Seq<(Seq<char>, Seq<char>)>) -> Seq<char> {
    if qs.len() == 0 {
        path
    } else {
        path + seq!['?'] + spec_sign_pairs(qs)
    }
}

/// The text a signature is computed over: the decimal timestamp, a newline and
/// the signed url.
pub open spec fn spec_sign_message(
    ts: int,
    path: Seq<char>,
    qs: Seq<(Seq<char>, Seq<char>)>,
) -> Seq<char> {
    spec_decimal(ts) + seq!['\n'] + spec_sign_url(path, qs)
}

/// The Authorization header value: the application, and the base64 rendering
/// of the message's digest under the access key.
pub open spec fn spec_signature(
    ts: int,
    path: Seq<char>,
    qs: Seq<(Seq<char>, Seq<char>)>,
    app_id: Seq<char>,
    access_key: Seq<char>,
) -> Seq<char> {
    "Apollo "@ + app_id + ":"@ + spec_base64(
        spec_hmac_sha1(encode_utf8(access_key), encode_utf8(spec_sign_message(ts, path, qs))),
    )
}

/// Appends `key=value` pairs joined with `&`, both sides percent-encoded.
fn append_sign_pairs(out: &mut String, queries: &Vec<(String, String)>)
    ensures
        final(out)@ == old(out)@ + spec_sign_pairs(pair_views(queries@)),
{
    let n = queries.len();
    let ghost start = out@;
    let ghost all = pair_views(queries@);
    assert(all.skip(0) == all);
    for i in 0..n
        invariant
            n == queries@.len(),
            all == pair_views(queries@),
            all.len() == n,
            out@ + spec_sign_pairs(all.skip(i as int)) == start + spec_sign_pairs(all),
    {
        proof {
            assert(all.skip(i as int).first() == all[i as int]);
            assert(all.skip(i as int).drop_first() =~= all.skip(i + 1));
        }
        percent_encode_into(out, queries[i].0.as_str());
        push_char(out, '=');
        percent_encode_into(out, queries[i].1.as_str());
        if i + 1 < n {
            push_char(out, '&');
        }
        assert(out@ + spec_sign_pairs(all.skip(i + 1)) =~= start + spec_sign_pairs(all));
    }
    assert(all.skip(n as int) =~= Seq::<(Seq<char>, Seq<char>)>::empty());
    assert(out@ =~= start + spec_sign_pairs(all));
}

/// The two header values a signed request carries: the Authorization value
/// `Apollo {app_id}:{sign}` and the decimal Timestamp value.
pub fn signature(
    timestamp_millis: i64,
    path: &str,
    queries: &Vec<(String, String)>,
    app_id: &str,
    access_key: &str,
) -> (r: (String, String))
    ensures
        r.0@ == spec_signature(
            timestamp_millis as int,
            path@,
            pair_views(queries@),
            app_id@,
            access_key@,
        ),
        r.1@ == spec_decimal(timestamp_millis as int),
{
    let ts = i64_to_string(timestamp_millis);
    let mut url = path.to_owned();
    if queries.len() > 0 {
        push_char(&mut url, '?');
        append_sign_pairs(&mut url, queries);
    }
    let mut message = ts.clone();
    push_char(&mut message, '\n');
    message.append(url.as_str());
    assert(message@ == spec_sign_message(
        timestamp_millis as int,
        path@,
        pair_views(queries@),
    ));
    let digest = hmac_sha1(access_key.as_bytes(), message.as_str().as_bytes());
    let sign = base64_encode(digest.as_slice());
    let mut auth = "Apollo ".to_owned();
    auth.append(app_id);
    auth.append(":");
    auth.append(sign.as_str());
    (auth, ts)
}

} // verus!
