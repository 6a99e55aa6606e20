//! Identity tokens. The claims object is serialized to JSON by this
//! crate's own verified code, then signed through jsonwebtoken; reading
//! the subject back splits the token and decodes its payload segment,
//! with no signature check, which the consuming side has to live with.

use crate::formenc::hex_digit;
use crate::jsonio::{get_json_string_field, json_string_field};
use crate::textenc::{b64url_bytes, b64url_decode};
use vstd::prelude::*;
use vstd::string::StrSliceExecFns;
use vstd::utf8::encode_utf8;

verus! {

/// The decimal digits of a number, most significant first.
pub open spec fn dec_bytes(n: u64) -> Seq<u8>
    decreases n,
{
    if n < 10 {
        seq![(0x30 + n) as u8]
    } else {
        dec_bytes(n / 10) + seq![(0x30 + n % 10) as u8]
    }
}

fn push_dec(out: &mut Vec<u8>, n: u64)
    ensures
        final(out)@ == old(out)@ + dec_bytes(n),
    decreases n,
{
    if n < 10 {
        out.push(0x30 + n as u8);
        assert(final(out)@ =~= old(out)@ + dec_bytes(n));
    } else {
        push_dec(out, n / 10);
        out.push(0x30 + (n % 10) as u8);
        assert(final(out)@ =~= old(out)@ + dec_bytes(n));
    }
}

/// How one byte of a JSON string body is written: quote and backslash are
/// escaped, control bytes become `\u00XX`, everything else passes through.
pub open spec fn json_esc_byte(b: u8) -> Seq<u8> {
    if b == 0x22 {
        seq![0x5cu8, 0x22u8]
    } else if b == 0x5c {
        seq![0x5cu8, 0x5cu8]
    } else if b < 0x20 {
        seq![0x5cu8, 0x75u8, 0x30u8, 0x30u8, hex_digit(b / 16), hex_digit(b % 16)]
    } else {
        seq![b]
    }
}

/// The JSON escaping of a whole byte string.
pub open spec fn json_escaped(s: Seq<u8>) -> Seq<u8>
    decreases s.len(),
{
    if s.len() == 0 {
        Seq::<u8>::empty()
    } else {
        json_esc_byte(s[0]) + json_escaped(s.skip(1))
    }
}

proof fn lemma_json_escaped_snoc(s: Seq<u8>, b: u8)
    ensures
        json_escaped(s + seq![b]) == json_escaped(s) + json_esc_byte(b),
    decreases s.len(),
{
    if s.len() == 0 {
        assert(s + seq![b] =~= seq![b]);
        assert((seq![b]).skip(1) =~= Seq::<u8>::empty());
        assert(json_escaped(Seq::<u8>::empty()) =~= Seq::<u8>::empty());
        assert(json_esc_byte(b) + Seq::<u8>::empty() =~= json_esc_byte(b));
        assert(Seq::<u8>::empty() + json_esc_byte(b) =~= json_esc_byte(b));
        assert(json_escaped(s + seq![b]) =~= json_escaped(s) + json_esc_byte(b));
    } else {
        assert((s + seq![b]).skip(1) =~= s.skip(1) + seq![b]);
        lemma_json_escaped_snoc(s.skip(1), b);
        assert(json_escaped(s + seq![b]) =~= json_escaped(s) + json_esc_byte(b));
    }
}

fn push_json_escaped(out: &mut Vec<u8>, s: &Vec<u8>)
    ensures
        final(out)@ == old(out)@ + json_escaped(s@),
{
    let mut i: usize = 0;
    proof {
        assert(out@ =~= out@ + json_escaped(s@.take(0)));
    }
    while i < s.len()
        invariant
            i <= s@.len(),
            out@ == old(out)@ + json_escaped(s@.take(i as int)),
        decreases s@.len() - i,
    {
        let b = s[i];
        proof {
            assert(s@.take(i + 1) =~= s@.take(i as int) + seq![s@[i as int]]);
            lemma_json_escaped_snoc(s@.take(i as int), s@[i as int]);
        }
        if b == 0x22 {
            out.push(0x5c);
            out.push(0x22);
        } else if b == 0x5c {
            out.push(0x5c);
            out.push(0x5c);
        } else if b < 0x20 {
            out.push(0x5c);
            out.push(0x75);
            out.push(0x30);
            out.push(0x30);
            out.push(crate::formenc::hex_digit_ex(b / 16));
            out.push(crate::formenc::hex_digit_ex(b % 16));
        } else {
            out.push(b);
        }
        proof {
            assert(out@ =~= old(out)@ + json_escaped(s@.take(i + 1)));
        }
        i = i + 1;
    }
    proof {
        assert(s@.take(s@.len() as int) =~= s@);
    }
}

/// The serialized claims object of an identity token.
pub open spec fn id_token_claims(
    iss: Seq<char>,
    sub: Seq<char>,
    aud: Seq<char>,
    exp: u64,
    iat: u64,
    auth_time: u64,
    nickname: Seq<char>,
) -> Seq<u8> {
    encode_utf8("{\"iss\":\""@) + json_escaped(encode_utf8(iss)) + encode_utf8("\",\"sub\":\""@)
        + json_escaped(encode_utf8(sub)) + encode_utf8("\",\"aud\":\""@) + json_escaped(
        encode_utf8(aud),
    ) + encode_utf8("\",\"exp\":"@) + dec_bytes(exp) + encode_utf8(",\"iat\":"@) + dec_bytes(iat)
        + encode_utf8(",\"auth_time\":"@) + dec_bytes(auth_time) + encode_utf8(",\"nickname\":\""@)
        + json_escaped(encode_utf8(nickname)) + encode_utf8("\"}"@)
}

/// Serialize the claims object of an identity token.
pub fn build_id_token_claims(
    iss: &str,
    sub: &str,
    aud: &str,
    exp: u64,
    iat: u64,
    auth_time: u64,
    nickname: &str,
) -> (r: Vec<u8>)
    ensures
        r@ == id_token_claims(iss@, sub@, aud@, exp, iat, auth_time, nickname@),
{
    let mut out: Vec<u8> = "{\"iss\":\"".as_bytes_vec();
    push_json_escaped(&mut out, &iss.as_bytes_vec());
    let mut part = "\",\"sub\":\"".as_bytes_vec();
    out.append(&mut part);
    push_json_escaped(&mut out, &sub.as_bytes_vec());
    let mut part = "\",\"aud\":\"".as_bytes_vec();
    out.append(&mut part);
    push_json_escaped(&mut out, &aud.as_bytes_vec());
    let mut part = "\",\"exp\":".as_bytes_vec();
    out.append(&mut part);
    push_dec(&mut out, exp);
    let mut part = ",\"iat\":".as_bytes_vec();
    out.append(&mut part);
    push_dec(&mut out, iat);
    let mut part = ",\"auth_time\":".as_bytes_vec();
    out.append(&mut part);
    push_dec(&mut out, auth_time);
    let mut part = ",\"nickname\":\"".as_bytes_vec();
    out.append(&mut part);
    push_json_escaped(&mut out, &nickname.as_bytes_vec());
    let mut part = "\"}".as_bytes_vec();
    out.append(&mut part);
    out
}

/// What HS256 signing produces for the given serialized claims and
/// secret; header, payload and signature are functions of these alone.
pub uninterp spec fn jwt_encoded(claims: Seq<u8>, secret: Seq<char>) -> Option<Seq<char>>;

/// Relies on jsonwebtoken::encode with the default header (HS256) and
/// EncodingKey::from_secret; the claims bytes pass through
/// serde_json::from_slice to become the value that is signed.
#[verifier::external_body]
pub fn jwt_encode_claims(claims: &[u8], secret: &str) -> (r: Option<String>)
    ensures
        match r {
            Some(s) => jwt_encoded(claims@, secret@) == Some(s@),
            None => jwt_encoded(claims@, secret@) is None,
        },
{
    let v: serde_json::Value = serde_json::from_slice(claims).ok()?;
    jsonwebtoken::encode(
        &jsonwebtoken::Header::default(),
        &v,
        &jsonwebtoken::EncodingKey::from_secret(secret.as_bytes()),
    ).ok()
}

/// The first position of a byte at or after `from`, if any.
pub open spec fn find_from(s: Seq<u8>, b: u8, from: int) -> Option<int>
    recommends
        0 <= from <= s.len(),
    decreases s.len() - from,
        when 0 <= from <= s.len()
{
    if from >= s.len() {
        None
    } else if s[from] == b {
        Some(from)
    } else {
        find_from(s, b, from + 1)
    }
}

pub(crate) fn find_byte_from(s: &Vec<u8>, b: u8, from: usize) -> (r: Option<usize>)
    requires
        from <= s@.len(),
    ensures
        match r {
            Some(i) => from <= i < s@.len() && find_from(s@, b, from as int) == Some(i as int),
            None => find_from(s@, b, from as int) is None,
        },
    decreases s@.len() - from,
{
    if from >= s.len() {
        None
    } else if s[from] == b {
        Some(from)
    } else {
        find_byte_from(s, b, from + 1)
    }
}

/// The middle segment of a three-part token: what stands between the
/// first dot and the second.
pub open spec fn jwt_payload(bytes: Seq<u8>) -> Option<Seq<u8>> {
    match find_from(bytes, 0x2e, 0) {
        Some(i) => match find_from(bytes, 0x2e, i + 1) {
            Some(j) => Some(bytes.subrange(i + 1, j)),
            None => None,
        },
        None => None,
    }
}

/// The subject claim an identity token carries, read without any
/// signature check: the payload segment, base64url-decoded, parsed as
/// JSON, at the key `sub`.
pub open spec fn id_token_subject(tok: Seq<char>) -> Option<Seq<char>> {
    match jwt_payload(encode_utf8(tok)) {
        Some(seg) => match b64url_bytes(seg) {
            Some(payload) => json_string_field(payload, "sub"@),
            None => None,
        },
        None => None,
    }
}

/// Read the subject claim out of an identity token, without verifying
/// its signature; the subject is trusted as the provider sent it.
pub fn decode_id_token_sub(id_token: &str) -> (r: Option<String>)
    ensures
        match r {
            Some(s) => id_token_subject(id_token@) == Some(s@),
            None => id_token_subject(id_token@) is None,
        },
{
    let bytes: Vec<u8> = id_token.as_bytes_vec();
    let i = match find_byte_from(&bytes, 0x2e, 0) {
        Some(i) => i,
        None => {
            return None;
        },
    };
    let j = match find_byte_from(&bytes, 0x2e, i + 1) {
        Some(j) => j,
        None => {
            return None;
        },
    };
    let mut seg: Vec<u8> = Vec::new();
    let mut k: usize = i + 1;
    while k < j
        invariant
            i + 1 <= k <= j < bytes@.len(),
            seg@ == bytes@.subrange(i + 1, k as int),
        decreases j - k,
    {
        seg.push(bytes[k]);
        proof {
            assert(bytes@.subrange(i + 1, k + 1) =~= bytes@.subrange(i + 1, k as int) + seq![
                bytes@[k as int],
            ]);
            assert(seg@ =~= bytes@.subrange(i + 1, k + 1));
        }
        k = k + 1;
    }
    let payload = match b64url_decode(seg.as_slice()) {
        Some(p) => p,
        None => {
            return None;
        },
    };
    get_json_string_field(payload.as_slice(), "sub")
}

} // verus!
