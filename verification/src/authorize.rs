//! The embedded server's authorize endpoint, short of its transport:
//! check the request against the registered client and open a pending
//! authorization under a fresh code.

use crate::clientverify::{OauthVerify, VerifyError};
use crate::formenc::{form_pairs, lookup_pair, pairs_lookup, parse_form_pairs};
use crate::statetable::{fresh_entry, StateTable};
use crate::textenc::str_eq;
use vstd::prelude::*;
use vstd::string::{StrSliceExecFns, StringExecFns};

verus! {

/// Why the authorize endpoint refused a request.
#[derive(Clone, Copy, Debug, PartialEq, Eq, Structural)]
pub enum AuthorizeError {
    /// The query would not parse as the authorize form.
    Url,
    /// The response type is not the code flow.
    NotCodeFlow,
    /// The client's details failed verification.
    Verify(VerifyError),
}

/// The fields of a parsed authorize request.
pub ghost struct AuthorizeArgsModel {
    pub response_type: Seq<char>,
    pub client_id: Seq<char>,
    pub redirect_uri: Seq<char>,
    pub scope: Seq<char>,
    pub state: Seq<char>,
}

/// What the query parses to, when it carries all five fields.
pub open spec fn authorize_args_of(query: Seq<u8>) -> Option<AuthorizeArgsModel> {
    match form_pairs(query) {
        None => None,
        Some(ps) => match (
            lookup_pair(ps, "response_type"@),
            lookup_pair(ps, "client_id"@),
            lookup_pair(ps, "redirect_uri"@),
            lookup_pair(ps, "scope"@),
            lookup_pair(ps, "state"@),
        ) {
            (Some(rt), Some(ci), Some(ru), Some(sc), Some(st)) => Some(
                AuthorizeArgsModel {
                    response_type: rt,
                    client_id: ci,
                    redirect_uri: ru,
                    scope: sc,
                    state: st,
                },
            ),
            _ => None,
        },
    }
}

/// The authorize endpoint short of its transport and its login page: on a
/// code-flow request from the registered client, a pending authorization
/// is stored under the caller's fresh code, indexed by the request's
/// state, which is echoed back for the login form.
pub fn authorize_request(
    verify: &OauthVerify,
    table: &mut StateTable,
    query: &[u8],
    auth_token: String,
    now: u64,
) -> (r: Result<String, AuthorizeError>)
    ensures
        match authorize_args_of(query@) {
            None => (r matches Err(e) && e == AuthorizeError::Url) && final(table)@ == old(table)@,
            Some(a) => {
                if a.response_type != "code"@ {
                    (r matches Err(e) && e == AuthorizeError::NotCodeFlow) && final(table)@ == old(
                        table,
                    )@
                } else if a.client_id != verify.client_id@ {
                    (r matches Err(e) && e == AuthorizeError::Verify(VerifyError::InvalidClientId))
                        && final(table)@ == old(table)@
                } else if a.redirect_uri != verify.redirect_uri@ {
                    (r matches Err(e) && e == AuthorizeError::Verify(
                        VerifyError::InvalidRedirectUri,
                    )) && final(table)@ == old(table)@
                } else {
                    (r matches Ok(st) && st@ == a.state) && final(table)@.entries == old(
                        table,
                    )@.entries.insert(
                        auth_token@,
                        fresh_entry(auth_token@, a.state, a.scope, a.client_id, a.redirect_uri, now),
                    ) && final(table)@.statemap == old(table)@.statemap.insert(
                        a.state,
                        (auth_token@, crate::statetable::entry_expiry(now)),
                    )
                }
            },
        },
{
    let pairs = match parse_form_pairs(query) {
        Some(ps) => ps,
        None => {
            return Err(AuthorizeError::Url);
        },
    };
    let response_type = pairs_lookup(&pairs, &String::from_str("response_type"));
    let client_id = pairs_lookup(&pairs, &String::from_str("client_id"));
    let redirect_uri = pairs_lookup(&pairs, &String::from_str("redirect_uri"));
    let scope = pairs_lookup(&pairs, &String::from_str("scope"));
    let state = pairs_lookup(&pairs, &String::from_str("state"));
    let (response_type, client_id, redirect_uri, scope, state) = match (
        response_type,
        client_id,
        redirect_uri,
        scope,
        state,
    ) {
        (Some(rt), Some(ci), Some(ru), Some(sc), Some(st)) => (rt, ci, ru, sc, st),
        _ => {
            return Err(AuthorizeError::Url);
        },
    };
    if !str_eq(response_type.as_str(), "code") {
        return Err(AuthorizeError::NotCodeFlow);
    }
    if let Err(e) = verify.verify_client_id(client_id.as_str()) {
        return Err(AuthorizeError::Verify(e));
    }
    if let Err(e) = verify.verify_redirect_uri(redirect_uri.as_str()) {
        return Err(AuthorizeError::Verify(e));
    }
    table.store_entry(auth_token, state.clone(), scope, client_id, redirect_uri, now);
    Ok(state)
}

/// The user-facing description and status code of an authorize failure.
pub fn authorize_error_text(e: &AuthorizeError) -> (r: (&'static str, u16))
    ensures
        match e {
            AuthorizeError::Url => r.0@ == "Unable to parse URL encoded payload"@ && r.1 == 400,
            AuthorizeError::NotCodeFlow => r.0@ == "Code flow was not set"@ && r.1 == 400,
            AuthorizeError::Verify(_) => r.0@ == "Verification of flow details failed"@ && r.1
                == 400,
        },
{
    match e {
        AuthorizeError::Url => ("Unable to parse URL encoded payload", 400),
        AuthorizeError::NotCodeFlow => ("Code flow was not set", 400),
        AuthorizeError::Verify(_) => ("Verification of flow details failed", 400),
    }
}

} // verus!
