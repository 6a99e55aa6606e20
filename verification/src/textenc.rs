//! Byte/text codecs the rest of the crate relies on: base64 in both the
//! padded and the URL-safe flavours, and UTF-8 decoding. Each outside call
//! is a function of its input alone, so its result carries a name that the
//! callers' contracts share.

use vstd::prelude::*;
use vstd::string::StrSliceExecFns;

verus! {

/// Whether two byte vectors hold the same bytes.
pub fn bytes_eq(a: &Vec<u8>, b: &Vec<u8>) -> (r: bool)
    ensures
        r == (a@ == b@),
{
    if a.len() != b.len() {
        return false;
    }
    let mut i: usize = 0;
    while i < a.len()
        invariant
            a@.len() == b@.len(),
            i <= a@.len(),
            forall|j: int| 0 <= j < i ==> a@[j] == b@[j],
        decreases a@.len() - i,
    {
        if a[i] != b[i] {
            return false;
        }
        i = i + 1;
    }
    proof {
        assert(a@ =~= b@);
    }
    true
}

/// Whether two string slices hold the same characters.
pub fn str_eq(a: &str, b: &str) -> (r: bool)
    ensures
        r == (a@ == b@),
{
    let av = a.as_bytes_vec();
    let bv = b.as_bytes_vec();
    let r = bytes_eq(&av, &bv);
    proof {
        vstd::utf8::encode_utf8_decode_utf8(a@);
        vstd::utf8::encode_utf8_decode_utf8(b@);
    }
    r
}

/// What standard base64 (with padding) decodes the string to, if anything.
pub uninterp spec fn b64_bytes(s: Seq<char>) -> Option<Seq<u8>>;

/// What URL-safe base64 without padding decodes the bytes to, if anything.
pub uninterp spec fn b64url_bytes(s: Seq<u8>) -> Option<Seq<u8>>;

/// What UTF-8 decoding turns the bytes into, if they are well formed.
pub uninterp spec fn utf8_decoded(bytes: Seq<u8>) -> Option<Seq<char>>;

/// Relies on data_encoding::BASE64.decode: standard base64 with padding,
/// a function of the input characters alone.
#[verifier::external_body]
pub fn b64_decode(s: &str) -> (r: Option<Vec<u8>>)
    ensures
        match r {
            Some(b) => b64_bytes(s@) == Some(b@),
            None => b64_bytes(s@) is None,
        },
{
    data_encoding::BASE64.decode(s.as_bytes()).ok()
}

/// Relies on data_encoding::BASE64.encode, and on decoding being its
/// inverse, which the crate documents.
#[verifier::external_body]
pub fn b64_encode(bytes: &[u8]) -> (r: String)
    ensures
        b64_bytes(r@) == Some(bytes@),
{
    data_encoding::BASE64.encode(bytes)
}

/// Relies on data_encoding::BASE64URL_NOPAD.decode: URL-safe base64
/// without padding, a function of the input characters alone.
#[verifier::external_body]
pub fn b64url_decode(s: &[u8]) -> (r: Option<Vec<u8>>)
    ensures
        match r {
            Some(b) => b64url_bytes(s@) == Some(b@),
            None => b64url_bytes(s@) is None,
        },
{
    data_encoding::BASE64URL_NOPAD.decode(s).ok()
}

/// Relies on String::from_utf8: succeeds exactly on well-formed UTF-8, and
/// bytes below 0x80 decode to the characters with the same code points.
#[verifier::external_body]
pub fn utf8_to_string(bytes: Vec<u8>) -> (r: Option<String>)
    ensures
        match r {
            Some(s) => utf8_decoded(bytes@) == Some(s@) && ((forall|i: int|
                0 <= i < bytes@.len() ==> bytes@[i] < 0x80) ==> s@ == bytes@.map_values(
                (|b: u8| b as char),
            )),
            None => utf8_decoded(bytes@) is None && (exists|i: int|
                0 <= i < bytes@.len() && bytes@[i] >= 0x80),
        },
{
    String::from_utf8(bytes).ok()
}

} // verus!
