//! The login page: a form template whose URL markers are substituted
//! before it is served. The substitution is this crate's own verified
//! logic with an exact specification.

use crate::store::{contains_at, match_at};
use crate::textenc::{utf8_decoded, utf8_to_string};
use vstd::prelude::*;
use vstd::string::StrSliceExecFns;
use vstd::utf8::encode_utf8;

verus! {

/// Every occurrence of the marker replaced by the value, scanning left to
/// right without re-scanning what a replacement wrote.
pub open spec fn replaced(s: Seq<u8>, marker: Seq<u8>, value: Seq<u8>) -> Seq<u8>
    recommends
        marker.len() > 0,
    decreases s.len(),
        when marker.len() > 0
{
    if s.len() == 0 {
        Seq::<u8>::empty()
    } else if s.len() >= marker.len() && s.take(marker.len() as int) == marker {
        value + replaced(s.skip(marker.len() as int), marker, value)
    } else {
        seq![s[0]] + replaced(s.skip(1), marker, value)
    }
}

fn push_all(out: &mut Vec<u8>, v: &Vec<u8>)
    ensures
        final(out)@ == old(out)@ + v@,
{
    let mut i: usize = 0;
    while i < v.len()
        invariant
            i <= v@.len(),
            out@ == old(out)@ + v@.take(i as int),
        decreases v@.len() - i,
    {
        out.push(v[i]);
        proof {
            assert(v@.take(i + 1) =~= v@.take(i as int) + seq![v@[i as int]]);
            assert(out@ =~= old(out)@ + v@.take(i + 1));
        }
        i = i + 1;
    }
    proof {
        assert(v@.take(v@.len() as int) =~= v@);
    }
}

/// Substitute every occurrence of the marker in the byte string.
pub fn replace_marker(s: &Vec<u8>, marker: &Vec<u8>, value: &Vec<u8>) -> (r: Vec<u8>)
    requires
        marker@.len() > 0,
    ensures
        r@ == replaced(s@, marker@, value@),
{
    let slen = s.len();
    let mlen = marker.len();
    let mut out: Vec<u8> = Vec::new();
    let mut i: usize = 0;
    proof {
        assert(s@.skip(0) =~= s@);
        assert(out@ + replaced(s@.skip(0), marker@, value@) =~= replaced(s@, marker@, value@));
    }
    while i < slen
        invariant
            slen == s@.len(),
            mlen == marker@.len(),
            0 < mlen,
            i <= slen,
            replaced(s@, marker@, value@) == out@ + replaced(s@.skip(i as int), marker@, value@),
        decreases slen - i,
    {
        let hit = mlen <= slen - i && match_at(s, marker, i);
        if hit {
            proof {
                assert(s@.skip(i as int).take(mlen as int) =~= s@.subrange(i as int, i + mlen));
                assert(s@.skip(i as int).skip(mlen as int) =~= s@.skip(i + mlen));
                assert(replaced(s@.skip(i as int), marker@, value@) =~= value@ + replaced(
                    s@.skip(i + mlen),
                    marker@,
                    value@,
                ));
            }
            push_all(&mut out, value);
            proof {
                assert(out@ + replaced(s@.skip(i + mlen), marker@, value@) =~= replaced(
                    s@,
                    marker@,
                    value@,
                ));
            }
            i = i + mlen;
        } else {
            proof {
                if i + mlen <= slen {
                    assert(s@.skip(i as int).take(mlen as int) =~= s@.subrange(i as int, i + mlen));
                } else {
                    assert(s@.skip(i as int).len() < mlen);
                }
                assert(s@.skip(i as int)[0] == s@[i as int]);
                assert(s@.skip(i as int).skip(1) =~= s@.skip(i + 1));
                assert(replaced(s@.skip(i as int), marker@, value@) =~= seq![s@[i as int]]
                    + replaced(s@.skip(i + 1), marker@, value@));
            }
            out.push(s[i]);
            proof {
                assert(out@ + replaced(s@.skip(i + 1), marker@, value@) =~= replaced(
                    s@,
                    marker@,
                    value@,
                ));
            }
            i = i + 1;
        }
    }
    proof {
        assert(s@.skip(slen as int) =~= Seq::<u8>::empty());
        assert(replaced(Seq::<u8>::empty(), marker@, value@) =~= Seq::<u8>::empty());
        assert(out@ =~= replaced(s@, marker@, value@));
    }
    out
}

/// The bytes of the base-URL marker the template carries.
pub open spec fn base_url_marker() -> Seq<u8> {
    seq![
        0x25u8,
        0x25u8,
        0x62u8,
        0x61u8,
        0x73u8,
        0x65u8,
        0x5fu8,
        0x75u8,
        0x72u8,
        0x6cu8,
        0x25u8,
        0x25u8,
    ]
}

/// The bytes of the redirect-URL marker the template carries.
pub open spec fn redirect_url_marker() -> Seq<u8> {
    seq![
        0x25u8,
        0x25u8,
        0x72u8,
        0x65u8,
        0x64u8,
        0x69u8,
        0x72u8,
        0x65u8,
        0x63u8,
        0x74u8,
        0x5fu8,
        0x75u8,
        0x72u8,
        0x6cu8,
        0x25u8,
        0x25u8,
    ]
}

fn base_url_marker_bytes() -> (r: Vec<u8>)
    ensures
        r@ == base_url_marker(),
{
    let mut m: Vec<u8> = Vec::new();
    m.push(0x25);
    m.push(0x25);
    m.push(0x62);
    m.push(0x61);
    m.push(0x73);
    m.push(0x65);
    m.push(0x5f);
    m.push(0x75);
    m.push(0x72);
    m.push(0x6c);
    m.push(0x25);
    m.push(0x25);
    proof {
        assert(m@ =~= base_url_marker());
    }
    m
}

fn redirect_url_marker_bytes() -> (r: Vec<u8>)
    ensures
        r@ == redirect_url_marker(),
{
    let mut m: Vec<u8> = Vec::new();
    m.push(0x25);
    m.push(0x25);
    m.push(0x72);
    m.push(0x65);
    m.push(0x64);
    m.push(0x69);
    m.push(0x72);
    m.push(0x65);
    m.push(0x63);
    m.push(0x74);
    m.push(0x5f);
    m.push(0x75);
    m.push(0x72);
    m.push(0x6c);
    m.push(0x25);
    m.push(0x25);
    proof {
        assert(m@ =~= redirect_url_marker());
    }
    m
}

/// What the rendered login page's bytes are: the template with its
/// base-URL marker replaced first, then its redirect-URL marker.
pub open spec fn login_form_bytes(
    template: Seq<char>,
    base_url: Seq<char>,
    redirect_uri: Seq<char>,
) -> Seq<u8> {
    replaced(
        replaced(encode_utf8(template), base_url_marker(), encode_utf8(base_url)),
        redirect_url_marker(),
        encode_utf8(redirect_uri),
    )
}

/// Render the login page: the form template with its base-URL and
/// redirect-URL markers substituted. Nothing is returned only when the
/// substituted bytes are not a well-formed string.
pub fn login_form(template: &str, base_url: &str, redirect_uri: &str) -> (r: Option<String>)
    ensures
        match r {
            Some(page) => utf8_decoded(login_form_bytes(template@, base_url@, redirect_uri@))
                == Some(page@),
            None => utf8_decoded(login_form_bytes(template@, base_url@, redirect_uri@)) is None,
        },
{
    let tb = template.as_bytes_vec();
    let with_base = replace_marker(&tb, &base_url_marker_bytes(), &base_url.as_bytes_vec());
    let with_both = replace_marker(
        &with_base,
        &redirect_url_marker_bytes(),
        &redirect_uri.as_bytes_vec(),
    );
    utf8_to_string(with_both)
}

} // verus!
