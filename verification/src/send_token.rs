//! The embedded server's token endpoint, short of its transport: parse
//! the request, resolve the client's credentials from the body or the
//! Basic authorization header, check them, and redeem the authorization
//! code against the state table.

use crate::clientverify::{OauthVerify, VerifyError};
use crate::formenc::{form_pairs, lookup_pair, pairs_lookup, parse_form_pairs};
use crate::jsonio::{get_json_string_field, json_string_field};
use crate::jwt::{find_byte_from, find_from};
use crate::statetable::{redeem_spec, AuthData, RejectError, StateTable};
use crate::textenc::{b64_bytes, b64_decode, bytes_eq, utf8_decoded, utf8_to_string};
use vstd::prelude::*;
use vstd::string::{StrSliceExecFns, StringExecFns};
use vstd::utf8::encode_utf8;

verus! {

/// Why the token endpoint refused a request.
#[derive(Clone, Copy, Debug, PartialEq, Eq, Structural)]
pub enum TokenError {
    /// The body parsed neither as JSON nor as a form.
    UrlEncode,
    /// No credentials in the body and no authorization header.
    AuthorizationNotFound,
    /// The grant type is not the authorization-code grant.
    NotAuthorizationCode,
    /// The authorization header was not usable Basic credentials.
    CouldNotParseAuth,
    /// The client's details failed verification.
    Verify(VerifyError),
    /// The state table refused the redemption.
    Reject(RejectError),
    /// The authorization header's base64 would not decode.
    Decode,
}

/// The fields of a parsed token request.
pub ghost struct TokenArgsModel {
    pub grant_type: Seq<char>,
    pub client_id: Option<Seq<char>>,
    pub client_secret: Option<Seq<char>>,
    pub code: Seq<char>,
    pub redirect_uri: Seq<char>,
}

/// The parsed token request.
pub struct TokenArgs {
    pub grant_type: String,
    pub client_id: Option<String>,
    pub client_secret: Option<String>,
    pub code: String,
    pub redirect_uri: String,
}

/// What the body parses to: its JSON reading when the required fields are
/// there, else its form reading, else nothing.
pub open spec fn token_args_of(body: Seq<u8>) -> Option<TokenArgsModel> {
    if json_string_field(body, "grant_type"@) is Some && json_string_field(body, "code"@) is Some
        && json_string_field(body, "redirect_uri"@) is Some {
        Some(
            TokenArgsModel {
                grant_type: json_string_field(body, "grant_type"@).unwrap(),
                client_id: json_string_field(body, "client_id"@),
                client_secret: json_string_field(body, "client_secret"@),
                code: json_string_field(body, "code"@).unwrap(),
                redirect_uri: json_string_field(body, "redirect_uri"@).unwrap(),
            },
        )
    } else {
        match form_pairs(body) {
            Some(ps) => match (
                lookup_pair(ps, "grant_type"@),
                lookup_pair(ps, "code"@),
                lookup_pair(ps, "redirect_uri"@),
            ) {
                (Some(g), Some(c), Some(ru)) => Some(
                    TokenArgsModel {
                        grant_type: g,
                        client_id: lookup_pair(ps, "client_id"@),
                        client_secret: lookup_pair(ps, "client_secret"@),
                        code: c,
                        redirect_uri: ru,
                    },
                ),
                _ => None,
            },
            None => None,
        }
    }
}

/// Parse a token request body.
pub fn parse_token_args(body: &[u8]) -> (r: Option<TokenArgs>)
    ensures
        match (r, token_args_of(body@)) {
            (Some(a), Some(m)) => {
                &&& a.grant_type@ == m.grant_type
                &&& a.code@ == m.code
                &&& a.redirect_uri@ == m.redirect_uri
                &&& match (a.client_id, m.client_id) {
                    (Some(x), Some(y)) => x@ == y,
                    (None, None) => true,
                    _ => false,
                }
                &&& match (a.client_secret, m.client_secret) {
                    (Some(x), Some(y)) => x@ == y,
                    (None, None) => true,
                    _ => false,
                }
            },
            (None, None) => true,
            _ => false,
        },
{
    let g = get_json_string_field(body, "grant_type");
    let c = get_json_string_field(body, "code");
    let ru = get_json_string_field(body, "redirect_uri");
    match (g, c, ru) {
        (Some(grant_type), Some(code), Some(redirect_uri)) => Some(
            TokenArgs {
                grant_type,
                client_id: get_json_string_field(body, "client_id"),
                client_secret: get_json_string_field(body, "client_secret"),
                code,
                redirect_uri,
            },
        ),
        _ => {
            let pairs = match parse_form_pairs(body) {
                Some(ps) => ps,
                None => {
                    return None;
                },
            };
            let g = pairs_lookup(&pairs, &String::from_str("grant_type"));
            let c = pairs_lookup(&pairs, &String::from_str("code"));
            let ru = pairs_lookup(&pairs, &String::from_str("redirect_uri"));
            match (g, c, ru) {
                (Some(grant_type), Some(code), Some(redirect_uri)) => Some(
                    TokenArgs {
                        grant_type,
                        client_id: pairs_lookup(&pairs, &String::from_str("client_id")),
                        client_secret: pairs_lookup(&pairs, &String::from_str("client_secret")),
                        code,
                        redirect_uri,
                    },
                ),
                _ => None,
            }
        },
    }
}

/// The client id and secret a Basic authorization header carries: the
/// word `Basic`, base64 over text, and a colon between the two parts.
pub open spec fn basic_creds(hb: Seq<u8>) -> Result<(Seq<char>, Seq<char>), TokenError> {
    if hb.len() < 6 || hb.take(6) != encode_utf8("Basic "@) {
        Err(TokenError::CouldNotParseAuth)
    } else {
        match utf8_decoded(hb.skip(6)) {
            None => Err(TokenError::Decode),
            Some(seg) => match b64_bytes(seg) {
                None => Err(TokenError::Decode),
                Some(raw) => match utf8_decoded(raw) {
                    None => Err(TokenError::CouldNotParseAuth),
                    Some(_) => match find_from(raw, 0x3a, 0) {
                        None => Err(TokenError::CouldNotParseAuth),
                        Some(c1) => {
                            let cidb = raw.take(c1);
                            let csb = match find_from(raw, 0x3a, c1 + 1) {
                                Some(c2) => raw.subrange(c1 + 1, c2),
                                None => raw.skip(c1 + 1),
                            };
                            match (utf8_decoded(cidb), utf8_decoded(csb)) {
                                (Some(ci), Some(cs)) => Ok((ci, cs)),
                                _ => Err(TokenError::CouldNotParseAuth),
                            }
                        },
                    },
                },
            },
        }
    }
}

fn sub_vec(v: &Vec<u8>, a: usize, b: usize) -> (r: Vec<u8>)
    requires
        a <= b <= v@.len(),
    ensures
        r@ == v@.subrange(a as int, b as int),
{
    let mut out: Vec<u8> = Vec::new();
    let mut i: usize = a;
    while i < b
        invariant
            a <= i <= b <= v@.len(),
            out@ == v@.subrange(a as int, i as int),
        decreases b - i,
    {
        out.push(v[i]);
        proof {
            assert(v@.subrange(a as int, i + 1) =~= v@.subrange(a as int, i as int) + seq![
                v@[i as int],
            ]);
            assert(out@ =~= v@.subrange(a as int, i + 1));
        }
        i = i + 1;
    }
    out
}

/// Pull the client id and secret out of a Basic authorization header.
pub fn decode_authorization(authorization: &str) -> (r: Result<(String, String), TokenError>)
    ensures
        match (r, basic_creds(encode_utf8(authorization@))) {
            (Ok(a), Ok(b)) => a.0@ == b.0 && a.1@ == b.1,
            (Err(x), Err(y)) => x == y,
            _ => false,
        },
{
    let hb: Vec<u8> = authorization.as_bytes_vec();
    let prefix = "Basic ".as_bytes_vec();
    if hb.len() < 6 {
        return Err(TokenError::CouldNotParseAuth);
    }
    let head = sub_vec(&hb, 0, 6);
    proof {
        assert(hb@.take(6) =~= hb@.subrange(0, 6));
    }
    if !bytes_eq(&head, &prefix) {
        return Err(TokenError::CouldNotParseAuth);
    }
    let seg = sub_vec(&hb, 6, hb.len());
    proof {
        assert(seg@ =~= hb@.skip(6));
    }
    let seg_text = match utf8_to_string(seg) {
        Some(t) => t,
        None => {
            return Err(TokenError::Decode);
        },
    };
    let raw = match b64_decode(seg_text.as_str()) {
        Some(raw) => raw,
        None => {
            return Err(TokenError::Decode);
        },
    };
    let whole = sub_vec(&raw, 0, raw.len());
    proof {
        assert(whole@ =~= raw@);
    }
    if utf8_to_string(whole).is_none() {
        return Err(TokenError::CouldNotParseAuth);
    }
    let c1 = match find_byte_from(&raw, 0x3a, 0) {
        Some(c1) => c1,
        None => {
            return Err(TokenError::CouldNotParseAuth);
        },
    };
    let cidb = sub_vec(&raw, 0, c1);
    proof {
        assert(cidb@ =~= raw@.take(c1 as int));
    }
    let csb = match find_byte_from(&raw, 0x3a, c1 + 1) {
        Some(c2) => sub_vec(&raw, c1 + 1, c2),
        None => {
            let t = sub_vec(&raw, c1 + 1, raw.len());
            proof {
                assert(t@ =~= raw@.skip(c1 + 1));
            }
            t
        },
    };
    let client_id = match utf8_to_string(cidb) {
        Some(ci) => ci,
        None => {
            return Err(TokenError::CouldNotParseAuth);
        },
    };
    let client_secret = match utf8_to_string(csb) {
        Some(cs) => cs,
        None => {
            return Err(TokenError::CouldNotParseAuth);
        },
    };
    Ok((client_id, client_secret))
}

/// Everything the token endpoint decides, and what it leaves in the state
/// table: parse failures, missing or bad credentials and a wrong grant
/// type change nothing; with the registered secret presented, the code is
/// redeemed against the table and the payload or the rejection comes back.
pub open spec fn token_decision(
    m: crate::statetable::StateTableModel,
    ver: OauthVerify,
    body: Seq<u8>,
    authorization: Option<Seq<char>>,
    now: u64,
    r: Result<AuthData, TokenError>,
    m2: crate::statetable::StateTableModel,
) -> bool {
    match token_args_of(body) {
        None => (r matches Err(e) && e == TokenError::UrlEncode) && m2 == m,
        Some(args) => {
            let creds = if args.client_id is Some && args.client_secret is Some {
                Ok((args.client_id.unwrap(), args.client_secret.unwrap()))
            } else {
                match authorization {
                    Some(h) => basic_creds(encode_utf8(h)),
                    None => Err(TokenError::AuthorizationNotFound),
                }
            };
            match creds {
                Err(e) => (r matches Err(x) && x == e) && m2 == m,
                Ok(cics) => {
                    if args.grant_type != "authorization_code"@ {
                        (r matches Err(x) && x == TokenError::NotAuthorizationCode) && m2 == m
                    } else if cics.1 != ver.client_secret@ {
                        (r matches Err(x) && x == TokenError::Verify(
                            VerifyError::InvalidClientSecret,
                        )) && m2 == m
                    } else {
                        let step = redeem_spec(m, args.code, cics.0, args.redirect_uri, now);
                        m2 == step.0 && match (r, step.1) {
                            (Ok(a), Ok(b)) => a@ == b,
                            (Err(TokenError::Reject(x)), Err(y)) => x == y,
                            _ => false,
                        }
                    }
                },
            }
        },
    }
}

/// The token endpoint short of its transport: resolve the credentials,
/// check the grant and the secret, and redeem the code exactly once.
pub fn token_exchange(
    table: &mut StateTable,
    verify: &OauthVerify,
    body: &[u8],
    authorization: Option<String>,
    now: u64,
) -> (r: Result<AuthData, TokenError>)
    ensures
        token_decision(
            old(table)@,
            *verify,
            body@,
            match authorization {
                Some(h) => Some(h@),
                None => None,
            },
            now,
            r,
            final(table)@,
        ),
{
    let args = match parse_token_args(body) {
        Some(a) => a,
        None => {
            return Err(TokenError::UrlEncode);
        },
    };
    let both = args.client_id.is_some() && args.client_secret.is_some();
    let (client_id, client_secret) = if both {
        let ci = match args.client_id {
            Some(ci) => ci,
            None => vstd::pervasive::unreached(),
        };
        let cs = match args.client_secret {
            Some(cs) => cs,
            None => vstd::pervasive::unreached(),
        };
        (ci, cs)
    } else {
        match &authorization {
            Some(h) => match decode_authorization(h.as_str()) {
                Ok(p) => p,
                Err(e) => {
                    return Err(e);
                },
            },
            None => {
                return Err(TokenError::AuthorizationNotFound);
            },
        }
    };
    if !crate::textenc::str_eq(args.grant_type.as_str(), "authorization_code") {
        return Err(TokenError::NotAuthorizationCode);
    }
    if let Err(e) = verify.verify_client_secret(client_id.as_str(), client_secret.as_str()) {
        return Err(TokenError::Verify(e));
    }
    match table.check_entry(args.code, client_id, args.redirect_uri, now) {
        Ok(ad) => Ok(ad),
        Err(e) => Err(TokenError::Reject(e)),
    }
}

/// The OAuth-shaped error body for a refused token request.
pub struct OauthError {
    pub error: &'static str,
    pub error_description: &'static str,
}

/// The user-facing error body and status code for a token failure.
pub fn token_error_text(e: &TokenError) -> (r: (OauthError, u16))
    ensures
        match e {
            TokenError::AuthorizationNotFound => r.0.error@ == "invalid_request"@
                && r.0.error_description@ == "AUTHORIZATION was not recovered"@ && r.1 == 400,
            TokenError::CouldNotParseAuth => r.0.error@ == "invalid_request"@
                && r.0.error_description@ == "Could not parse AUTHORIZATION header"@ && r.1 == 400,
            TokenError::UrlEncode => r.0.error@ == "invalid_request"@ && r.0.error_description@
                == "Unable to parse URL parameters"@ && r.1 == 400,
            TokenError::NotAuthorizationCode => r.0.error@ == "unsupported_grant_type"@
                && r.0.error_description@ == "We only support authorization code grant"@ && r.1
                == 400,
            TokenError::Verify(VerifyError::InvalidClientId)
            | TokenError::Verify(VerifyError::InvalidClientSecret) => r.0.error@
                == "invalid_client"@ && r.0.error_description@ == "Client verification failed"@
                && r.1 == 401,
            TokenError::Verify(_) => r.0.error@ == "invalid_request"@ && r.0.error_description@
                == "Unable to verify request details"@ && r.1 == 400,
            TokenError::Reject(_) => r.0.error@ == "invalid_request"@ && r.0.error_description@
                == "State table rejected your request"@ && r.1 == 400,
            TokenError::Decode => r.0.error@ == "invalid_request"@ && r.0.error_description@
                == "Unable to decode Base64"@ && r.1 == 400,
        },
{
    match e {
        TokenError::AuthorizationNotFound => (
            OauthError {
                error: "invalid_request",
                error_description: "AUTHORIZATION was not recovered",
            },
            400,
        ),
        TokenError::CouldNotParseAuth => (
            OauthError {
                error: "invalid_request",
                error_description: "Could not parse AUTHORIZATION header",
            },
            400,
        ),
        TokenError::UrlEncode => (
            OauthError {
                error: "invalid_request",
                error_description: "Unable to parse URL parameters",
            },
            400,
        ),
        TokenError::NotAuthorizationCode => (
            OauthError {
                error: "unsupported_grant_type",
                error_description: "We only support authorization code grant",
            },
            400,
        ),
        TokenError::Verify(VerifyError::InvalidClientId)
        | TokenError::Verify(VerifyError::InvalidClientSecret) => (
            OauthError { error: "invalid_client", error_description: "Client verification failed" },
            401,
        ),
        TokenError::Verify(_) => (
            OauthError {
                error: "invalid_request",
                error_description: "Unable to verify request details",
            },
            400,
        ),
        TokenError::Reject(_) => (
            OauthError {
                error: "invalid_request",
                error_description: "State table rejected your request",
            },
            400,
        ),
        TokenError::Decode => (
            OauthError { error: "invalid_request", error_description: "Unable to decode Base64" },
            400,
        ),
    }
}

} // verus!
