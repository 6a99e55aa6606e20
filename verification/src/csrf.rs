//! The CSRF token codec: pairs of AES-GCM-sealed artifacts, generated
//! together and verified against each other. A pair verifies only if both
//! halves unseal to the same value; unsealing is a function of the key and
//! the bytes, so the contracts speak of the sealed values by name. Whether
//! an intact pair has expired depends on the clock inside the sealing
//! library, so success is never promised, only mismatch failure.

use crate::formenc::{form_pairs, lookup_pair, parse_form_pairs, pairs_lookup};
use crate::jsonio::{get_json_string_field, json_string_field};
use crate::textenc::b64_bytes;
use vstd::prelude::*;
use vstd::string::StringExecFns;

verus! {

/// How CSRF handling fails.
#[derive(Clone, Copy, Debug, PartialEq, Eq, Structural)]
pub enum CsrfError {
    /// The sealing library failed to unseal an artifact.
    Internal,
    /// The pair did not verify: halves of different pairs, tampering, or
    /// expiry.
    VerificationFailed,
    /// An artifact was not valid base64.
    Decode,
    /// No `csrf_token` field could be read from the request body.
    Json,
    /// The request carried no CSRF cookie at all.
    CookieNotFound,
}

/// A freshly generated pair, sealed and base64-encoded.
pub struct EncryptedCsrfPair {
    pub token: String,
    pub cookie: String,
}

/// A pair as it comes back from the client, still base64-encoded.
pub struct Base64CsrfPair {
    pub token: String,
    pub cookie: String,
}

/// What the token artifact seals under the key, if it unseals at all.
pub uninterp spec fn sealed_token_value(key: Seq<u8>, artifact: Seq<u8>) -> Option<Seq<u8>>;

/// What the cookie artifact seals under the key, if it unseals at all.
pub uninterp spec fn sealed_cookie_value(key: Seq<u8>, artifact: Seq<u8>) -> Option<Seq<u8>>;

/// The sealed value of a base64-encoded token artifact.
pub open spec fn token_value_of(key: Seq<u8>, token: Seq<char>) -> Option<Seq<u8>> {
    match b64_bytes(token) {
        Some(tb) => sealed_token_value(key, tb),
        None => None,
    }
}

/// The sealed value of a base64-encoded cookie artifact.
pub open spec fn cookie_value_of(key: Seq<u8>, cookie: Seq<char>) -> Option<Seq<u8>> {
    match b64_bytes(cookie) {
        Some(cb) => sealed_cookie_value(key, cb),
        None => None,
    }
}

/// Both halves decode, both unseal, and they seal the same value.
pub open spec fn sealed_pair_matches(key: Seq<u8>, token: Seq<char>, cookie: Seq<char>) -> bool {
    match (token_value_of(key, token), cookie_value_of(key, cookie)) {
        (Some(tv), Some(cv)) => tv == cv,
        _ => false,
    }
}

/// Everything verification determines without the clock: which failures
/// must come, and that success needs a matching pair. An intact, matching
/// pair yields `Ok` until the sealed expiry passes, which only the sealing
/// library's clock decides.
pub open spec fn verify_outcome(
    key: Seq<u8>,
    token: Seq<char>,
    cookie: Seq<char>,
    r: Result<(), CsrfError>,
) -> bool {
    if b64_bytes(token) is None || b64_bytes(cookie) is None {
        r matches Err(e) && e == CsrfError::Decode
    } else if token_value_of(key, token) is None || cookie_value_of(key, cookie) is None {
        r matches Err(e) && e == CsrfError::Internal
    } else if !sealed_pair_matches(key, token, cookie) {
        r matches Err(e) && e == CsrfError::VerificationFailed
    } else {
        r is Ok || (r matches Err(e) && e == CsrfError::VerificationFailed)
    }
}

/// Relies on csrf::AesGcmCsrfProtection: from_key, generate_token_pair and
/// b64_string. Both artifacts seal the one token value drawn for the pair,
/// and b64_string writes standard base64.
#[verifier::external_body]
fn seal_new_pair(key: &Vec<u8>, ttl_seconds: i64) -> (r: Result<(String, String), CsrfError>)
    requires
        key@.len() == 32,
    ensures
        match r {
            Ok(p) => {
                &&& b64_bytes(p.0@) is Some
                &&& b64_bytes(p.1@) is Some
                &&& sealed_token_value(key@, b64_bytes(p.0@).unwrap()) is Some
                &&& sealed_token_value(key@, b64_bytes(p.0@).unwrap()) == sealed_cookie_value(
                    key@,
                    b64_bytes(p.1@).unwrap(),
                )
            },
            Err(e) => e == CsrfError::Internal,
        },
{
    let mut k = [0u8; 32];
    k.copy_from_slice(&key[..32]);
    let protect = csrf::AesGcmCsrfProtection::from_key(k);
    match csrf::CsrfProtection::generate_token_pair(&protect, None, ttl_seconds) {
        Ok((t, c)) => Ok((t.b64_string(), c.b64_string())),
        Err(_) => Err(CsrfError::Internal),
    }
}

/// Relies on csrf::AesGcmCsrfProtection: parse_token and parse_cookie are
/// deterministic AES-GCM unsealing, and verify_token_pair accepts exactly
/// a pair whose sealed values agree and whose cookie has not expired.
#[verifier::external_body]
fn unseal_and_verify(key: &Vec<u8>, token: &str, cookie: &str) -> (r: Result<(), CsrfError>)
    requires
        key@.len() == 32,
    ensures
        verify_outcome(key@, token@, cookie@, r),
{
    let mut k = [0u8; 32];
    k.copy_from_slice(&key[..32]);
    let protect = csrf::AesGcmCsrfProtection::from_key(k);
    let tb = data_encoding::BASE64.decode(token.as_bytes()).map_err(|_| CsrfError::Decode)?;
    let cb = data_encoding::BASE64.decode(cookie.as_bytes()).map_err(|_| CsrfError::Decode)?;
    let t = csrf::CsrfProtection::parse_token(&protect, &tb).map_err(|_| CsrfError::Internal)?;
    let c = csrf::CsrfProtection::parse_cookie(&protect, &cb).map_err(|_| CsrfError::Internal)?;
    if csrf::CsrfProtection::verify_token_pair(&protect, &t, &c) {
        Ok(())
    } else {
        Err(CsrfError::VerificationFailed)
    }
}

/// The process-wide CSRF codec: one sealing key, set up once.
pub struct CsrfGuard {
    key: Vec<u8>,
}

impl CsrfGuard {
    /// The codec holds a full-length sealing key.
    pub closed spec fn wf(&self) -> bool {
        self.key@.len() == 32
    }

    /// The sealing key the codec was set up with.
    pub closed spec fn key(&self) -> Seq<u8> {
        self.key@
    }

    /// Set up the codec from a configured secret; the first 32 bytes are
    /// the sealing key. A shorter secret is the caller's fatal mistake and
    /// is excluded here, as the one-time initializer refused it.
    pub fn new(secret: &[u8]) -> (r: CsrfGuard)
        requires
            secret@.len() >= 32,
        ensures
            r.wf(),
            r.key() == secret@.take(32),
    {
        let mut key: Vec<u8> = Vec::new();
        let mut i: usize = 0;
        while i < 32
            invariant
                i <= 32,
                secret@.len() >= 32,
                key@ == secret@.take(i as int),
            decreases 32 - i,
        {
            key.push(secret[i]);
            proof {
                assert(secret@.take(i + 1) =~= secret@.take(i as int) + seq![secret@[i as int]]);
                assert(key@ =~= secret@.take(i + 1));
            }
            i = i + 1;
        }
        CsrfGuard { key }
    }

    /// Generate a bound token/cookie pair with the one-hour validity
    /// window of the page-render path.
    pub fn generate_csrf_pair(&self) -> (r: Result<EncryptedCsrfPair, CsrfError>)
        requires
            self.wf(),
        ensures
            match r {
                Ok(p) => sealed_pair_matches(self.key(), p.token@, p.cookie@),
                Err(e) => e == CsrfError::Internal,
            },
    {
        match seal_new_pair(&self.key, 3600) {
            Ok((token, cookie)) => Ok(EncryptedCsrfPair { token, cookie }),
            Err(e) => Err(e),
        }
    }

    /// Verify a pair the client sent back.
    pub fn verify_csrf_pair(&self, pair: Base64CsrfPair) -> (r: Result<(), CsrfError>)
        requires
            self.wf(),
        ensures
            verify_outcome(self.key(), pair.token@, pair.cookie@, r),
    {
        unseal_and_verify(&self.key, pair.token.as_str(), pair.cookie.as_str())
    }
}

/// The `csrf_token` field embedded in a request body: from the
/// form-urlencoded reading if it has one, else from the JSON reading.
pub open spec fn embedded_csrf_token(data: Seq<u8>) -> Option<Seq<char>> {
    match form_pairs(data) {
        Some(ps) => match lookup_pair(ps, "csrf_token"@) {
            Some(v) => Some(v),
            None => json_string_field(data, "csrf_token"@),
        },
        None => json_string_field(data, "csrf_token"@),
    }
}

impl CsrfGuard {
    /// Pull the embedded `csrf_token` out of a form-urlencoded or JSON
    /// body, verify it against the cookie, and hand the body bytes back
    /// untouched, so the caller can parse them again.
    pub fn decode_and_verify_csrf(&self, data: Vec<u8>, cookie: String) -> (r: Result<
        Vec<u8>,
        CsrfError,
    >)
        requires
            self.wf(),
        ensures
            match embedded_csrf_token(data@) {
                None => r matches Err(e) && e == CsrfError::Json,
                Some(tok) => match r {
                    Ok(out) => out == data && verify_outcome(self.key(), tok, cookie@, Ok(())),
                    Err(e) => verify_outcome(self.key(), tok, cookie@, Err(e)),
                },
            },
    {
        let key_name = String::from_str("csrf_token");
        let token: Option<String> = match parse_form_pairs(data.as_slice()) {
            Some(ps) => match pairs_lookup(&ps, &key_name) {
                Some(v) => Some(v),
                None => get_json_string_field(data.as_slice(), key_name.as_str()),
            },
            None => get_json_string_field(data.as_slice(), key_name.as_str()),
        };
        let token = match token {
            Some(t) => t,
            None => {
                return Err(CsrfError::Json);
            },
        };
        match self.verify_csrf_pair(Base64CsrfPair { token, cookie }) {
            Ok(()) => Ok(data),
            Err(e) => Err(e),
        }
    }
}

/// A codec set up with the fixed 32-byte key the tests use.
pub fn initialize_csrf_test() -> (r: CsrfGuard)
    ensures
        r.wf(),
{
    let mut key: Vec<u8> = Vec::new();
    let mut i: usize = 0;
    while i < 8
        invariant
            key@.len() == 4 * i,
            i <= 8,
        decreases 8 - i,
    {
        key.push(0x74);
        key.push(0x65);
        key.push(0x73);
        key.push(0x74);
        i = i + 1;
    }
    CsrfGuard::new(key.as_slice())
}

/// A pair's halves are bound to each other: a pair that seals one shared
/// value matches, and across two pairs whose sealed values differ, swapped
/// halves can never match, so verifying them must fail. A fresh pair's
/// value is drawn at random, so that two pairs seal different values is a
/// hypothesis here, not a theorem.
pub proof fn lemma_csrf_pair_binding(
    key: Seq<u8>,
    t1: Seq<char>,
    c1: Seq<char>,
    t2: Seq<char>,
    c2: Seq<char>,
)
    requires
        sealed_pair_matches(key, t1, c1),
        sealed_pair_matches(key, t2, c2),
        token_value_of(key, t1) != token_value_of(key, t2),
    ensures
        !sealed_pair_matches(key, t1, c2),
        !sealed_pair_matches(key, t2, c1),
        forall|r: Result<(), CsrfError>|
            verify_outcome(key, t1, c2, r) ==> (r matches Err(e) && e == CsrfError::VerificationFailed),
        forall|r: Result<(), CsrfError>|
            verify_outcome(key, t2, c1, r) ==> (r matches Err(e) && e == CsrfError::VerificationFailed),
{
}

} // verus!
