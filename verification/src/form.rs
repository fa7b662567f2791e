//! `application/x-www-form-urlencoded` helpers: encoding a table of
//! pairs into a query string and decoding a query string back into
//! pairs. The percent-coding itself is the `url` crate's, reached
//! through the trusted items below; the joining of pairs is verified.

use vstd::prelude::*;
use vstd::utf8::encode_utf8;

verus! {

/// What `url::form_urlencoded::byte_serialize` returns for these bytes;
/// a function of the bytes alone.
pub uninterp spec fn form_encoded_of(b: Seq<u8>) -> Seq<char>;

/// Relies on `url::form_urlencoded::byte_serialize`: percent-encodes one
/// byte string for the form-urlencoded syntax, a function of the bytes
/// alone; empty input encodes to empty output.
#[verifier::external_body]
fn byte_serialize_string(b: &[u8]) -> (r: String)
    ensures
        r@ == form_encoded_of(b@),
        b@.len() == 0 ==> r@.len() == 0,
{
    url::form_urlencoded::byte_serialize(b).collect::<String>()
}

/// The encoding of one `key=value` pair.
pub open spec fn encoded_pair_spec(p: (String, String)) -> Seq<char> {
    form_encoded_of(encode_utf8(p.0@)) + "="@ + form_encoded_of(encode_utf8(p.1@))
}

/// The encoding of a whole table of pairs, joined with `&`.
pub open spec fn encoded_pairs_spec(pairs: Seq<(String, String)>) -> Seq<char>
    decreases pairs.len(),
{
    if pairs.len() == 0 {
        Seq::empty()
    } else if pairs.len() == 1 {
        encoded_pair_spec(pairs[0])
    } else {
        encoded_pairs_spec(pairs.drop_last()) + "&"@ + encoded_pair_spec(pairs.last())
    }
}

/// Encodes a table of `(key, value)` pairs as one form-urlencoded query
/// string: each key and value percent-encoded, joined as
/// `key=value&key=value`, in table order.
pub fn form_urlencode(pairs: &Vec<(String, String)>) -> (r: String)
    ensures
        r@ == encoded_pairs_spec(pairs@),
{
    let mut r = String::new();
    let n = pairs.len();
    let mut i: usize = 0;
    while i < n
        invariant
            n == pairs@.len(),
            i <= n,
            r@ == encoded_pairs_spec(pairs@.take(i as int)),
        decreases n - i,
    {
        if i > 0 {
            r.append("&");
        }
        let pair = &pairs[i];
        let key_enc = byte_serialize_string(pair.0.as_str().as_bytes());
        r.append(key_enc.as_str());
        r.append("=");
        let value_enc = byte_serialize_string(pair.1.as_str().as_bytes());
        r.append(value_enc.as_str());
        proof {
            let prefix = pairs@.take(i as int);
            let now = pairs@.take(i + 1);
            assert(now.drop_last() =~= prefix);
            assert(now.last() == pairs@[i as int]);
            if i == 0 {
                assert(r@ =~= encoded_pairs_spec(now));
            } else {
                assert(r@ =~= encoded_pairs_spec(now));
            }
        }
        i = i + 1;
    }
    proof {
        assert(pairs@.take(n as int) =~= pairs@);
    }
    r
}

/// What `url::form_urlencoded::parse` returns for these bytes: the
/// percent-decoded `(name, value)` pairs, a function of the bytes alone.
pub uninterp spec fn form_decoded_of(b: Seq<u8>) -> Seq<(Seq<char>, Seq<char>)>;

/// Relies on `url::form_urlencoded::parse`: splits a form-urlencoded
/// byte string into its percent-decoded `(name, value)` pairs, a
/// function of the bytes alone; empty input yields no pairs.
#[verifier::external_body]
fn parse_form(b: &[u8]) -> (r: Vec<(String, String)>)
    ensures
        r.deep_view() == form_decoded_of(b@),
        b@.len() == 0 ==> r@.len() == 0,
{
    url::form_urlencoded::parse(b).into_owned().collect()
}

/// Decodes a form-urlencoded query string into its `(name, value)`
/// pairs, percent-decoded, in order.
pub fn form_urldecode(query: &str) -> (r: Vec<(String, String)>)
    ensures
        r.deep_view() == form_decoded_of(encode_utf8(query@)),
        query@.len() == 0 ==> r@.len() == 0,
{
    parse_form(query.as_bytes())
}

} // verus!
