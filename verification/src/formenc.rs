//! The form-urlencoded wire format. Encoding a component is this crate's
//! own verified logic with an exact specification; decoding a whole body
//! into key/value pairs goes through serde_urlencoded, whose result is
//! named and then searched by verified code.

use crate::textenc::utf8_to_string;
use vstd::prelude::*;
use vstd::string::StrSliceExecFns;

verus! {

/// Bytes that a form-urlencoded component keeps as they are:
/// letters, digits, and `- . _ ~`.
pub open spec fn is_unreserved(b: u8) -> bool {
    (0x41 <= b <= 0x5a) || (0x61 <= b <= 0x7a) || (0x30 <= b <= 0x39) || b == 0x2d || b == 0x2e
        || b == 0x5f || b == 0x7e
}

/// The upper-case hex digit for a value below 16.
pub open spec fn hex_digit(n: u8) -> u8
    recommends
        n < 16,
{
    if n < 10 {
        (0x30 + n) as u8
    } else {
        (0x37 + n) as u8
    }
}

/// How one byte is written: kept as it is, or `%` and two hex digits.
pub open spec fn enc_byte(b: u8) -> Seq<u8> {
    if is_unreserved(b) {
        seq![b]
    } else {
        seq![0x25u8, hex_digit(b / 16), hex_digit(b % 16)]
    }
}

/// The percent-encoding of a byte string.
pub open spec fn percent_encoded(s: Seq<u8>) -> Seq<u8>
    decreases s.len(),
{
    if s.len() == 0 {
        Seq::<u8>::empty()
    } else {
        enc_byte(s[0]) + percent_encoded(s.skip(1))
    }
}

/// The percent-encoding of a string: its UTF-8 bytes encoded, read back as
/// the ASCII characters they are.
pub open spec fn urlencoded_str(s: Seq<char>) -> Seq<char> {
    percent_encoded(vstd::utf8::encode_utf8(s)).map_values(|b: u8| b as char)
}

/// Percent-encoding distributes over concatenation.
pub proof fn lemma_percent_encoded_append(s: Seq<u8>, t: Seq<u8>)
    ensures
        percent_encoded(s + t) == percent_encoded(s) + percent_encoded(t),
    decreases s.len(),
{
    if s.len() == 0 {
        assert(s + t =~= t);
        assert(percent_encoded(s) + percent_encoded(t) =~= percent_encoded(t));
    } else {
        assert((s + t).skip(1) =~= s.skip(1) + t);
        lemma_percent_encoded_append(s.skip(1), t);
        assert(percent_encoded(s + t) =~= percent_encoded(s) + percent_encoded(t));
    }
}

/// Every byte a percent-encoding produces is ASCII.
pub proof fn lemma_percent_encoded_ascii(s: Seq<u8>)
    ensures
        forall|i: int|
            0 <= i < percent_encoded(s).len() ==> #[trigger] percent_encoded(s)[i] < 0x80,
    decreases s.len(),
{
    if s.len() != 0 {
        lemma_percent_encoded_ascii(s.skip(1));
        assert(forall|i: int| 0 <= i < enc_byte(s[0]).len() ==> #[trigger] enc_byte(s[0])[i] < 0x80);
        assert forall|i: int| 0 <= i < percent_encoded(s).len() implies #[trigger] percent_encoded(
            s,
        )[i] < 0x80 by {
            if i < enc_byte(s[0]).len() {
                assert(percent_encoded(s)[i] == enc_byte(s[0])[i]);
            } else {
                assert(percent_encoded(s)[i] == percent_encoded(s.skip(1))[i - enc_byte(
                    s[0],
                ).len()]);
            }
        }
    }
}

/// Encoding a single byte is the byte's encoding.
pub proof fn lemma_percent_encoded_singleton(b: u8)
    ensures
        percent_encoded(seq![b]) == enc_byte(b),
{
    let s = seq![b];
    assert(s.skip(1) =~= Seq::<u8>::empty());
    assert(percent_encoded(Seq::<u8>::empty()) =~= Seq::<u8>::empty());
    assert(percent_encoded(s) =~= enc_byte(s[0]) + percent_encoded(s.skip(1)));
    assert(enc_byte(b) + Seq::<u8>::empty() =~= enc_byte(b));
}

pub(crate) fn hex_digit_ex(n: u8) -> (r: u8)
    requires
        n < 16,
    ensures
        r == hex_digit(n),
{
    if n < 10 {
        0x30 + n
    } else {
        0x37 + n
    }
}

fn byte_is_unreserved(b: u8) -> (r: bool)
    ensures
        r == is_unreserved(b),
{
    (0x41 <= b && b <= 0x5a) || (0x61 <= b && b <= 0x7a) || (0x30 <= b && b <= 0x39) || b == 0x2d
        || b == 0x2e || b == 0x5f || b == 0x7e
}

fn push_enc_byte(out: &mut Vec<u8>, b: u8)
    ensures
        final(out)@ == old(out)@ + enc_byte(b),
{
    if byte_is_unreserved(b) {
        out.push(b);
        assert(final(out)@ =~= old(out)@ + enc_byte(b));
    } else {
        out.push(0x25);
        out.push(hex_digit_ex(b / 16));
        out.push(hex_digit_ex(b % 16));
        assert(final(out)@ =~= old(out)@ + enc_byte(b));
    }
}

/// Percent-encode one component of a query string or form body.
pub fn urlencode_component(s: &str) -> (r: String)
    ensures
        r@ == urlencoded_str(s@),
{
    let bytes: Vec<u8> = s.as_bytes_vec();
    let ghost bs: Seq<u8> = vstd::utf8::encode_utf8(s@);
    let mut out: Vec<u8> = Vec::new();
    let mut i: usize = 0;
    while i < bytes.len()
        invariant
            bytes@ == bs,
            i <= bs.len(),
            out@ == percent_encoded(bs.take(i as int)),
        decreases bs.len() - i,
    {
        let b = bytes[i];
        proof {
            assert(bs.take(i + 1) =~= bs.take(i as int) + seq![bs[i as int]]);
            lemma_percent_encoded_append(bs.take(i as int), seq![bs[i as int]]);
            lemma_percent_encoded_singleton(bs[i as int]);
        }
        push_enc_byte(&mut out, b);
        i = i + 1;
    }
    proof {
        assert(bs.take(bs.len() as int) =~= bs);
        lemma_percent_encoded_ascii(bs);
    }
    match utf8_to_string(out) {
        Some(t) => {
            assert(t@ =~= urlencoded_str(s@));
            t
        },
        None => vstd::pervasive::unreached(),
    }
}

/// What the body parses to as a sequence of form-urlencoded key/value
/// pairs, if it parses.
pub uninterp spec fn form_pairs(data: Seq<u8>) -> Option<Seq<(Seq<char>, Seq<char>)>>;

/// Relies on serde_urlencoded::from_bytes deserializing into a list of
/// string pairs: one `k=v` pair per field, in order, percent-decoded.
#[verifier::external_body]
pub fn parse_form_pairs(data: &[u8]) -> (r: Option<Vec<(String, String)>>)
    ensures
        match r {
            Some(ps) => form_pairs(data@) == Some(ps.deep_view()),
            None => form_pairs(data@) is None,
        },
{
    serde_urlencoded::from_bytes::<Vec<(String, String)>>(data).ok()
}

/// The value under the first occurrence of the key, if any.
pub open spec fn lookup_pair(ps: Seq<(Seq<char>, Seq<char>)>, key: Seq<char>) -> Option<Seq<char>>
    decreases ps.len(),
{
    if ps.len() == 0 {
        None
    } else if ps[0].0 == key {
        Some(ps[0].1)
    } else {
        lookup_pair(ps.skip(1), key)
    }
}

/// Find the value under the first occurrence of the key.
pub fn pairs_lookup(ps: &Vec<(String, String)>, key: &String) -> (r: Option<String>)
    ensures
        match r {
            Some(v) => lookup_pair(ps.deep_view(), key@) == Some(v@),
            None => lookup_pair(ps.deep_view(), key@) is None,
        },
{
    let mut i: usize = 0;
    proof {
        assert(ps.deep_view().skip(0) =~= ps.deep_view());
    }
    while i < ps.len()
        invariant
            i <= ps@.len(),
            lookup_pair(ps.deep_view(), key@) == lookup_pair(ps.deep_view().skip(i as int), key@),
        decreases ps@.len() - i,
    {
        proof {
            assert(ps.deep_view().skip(i as int)[0] == (ps@[i as int].0@, ps@[i as int].1@));
        }
        if ps[i].0 == *key {
            let v = ps[i].1.clone();
            return Some(v);
        }
        proof {
            assert(ps.deep_view().skip(i as int).skip(1) =~= ps.deep_view().skip(i + 1));
        }
        i = i + 1;
    }
    proof {
        assert(ps.deep_view().skip(i as int) =~= Seq::<(Seq<char>, Seq<char>)>::empty());
    }
    None
}

} // verus!
