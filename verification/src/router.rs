//! The model router's gate: the order of checks every CRUD route passes,
//! CSRF first, then the session's permissions, then the body. The
//! database work that follows belongs to the outside collaborator; what
//! stands here decides exactly who gets through and with what bytes.

use crate::csrf::{embedded_csrf_token, verify_outcome, CsrfError, CsrfGuard};
use crate::formenc::{form_pairs, lookup_pair, pairs_lookup, parse_form_pairs};
use crate::jsonio::{get_json_string_field, json_string_field};
use crate::perms::Permissions;
use crate::session::{Session, SessionTable};
use crate::userstore::DatabaseError;
use vstd::prelude::*;
use vstd::string::StringExecFns;

verus! {

/// Why a model route refused a request.
#[derive(Clone, Copy, Debug, PartialEq, Eq, Structural)]
pub enum ModelError {
    /// The query parameters would not parse.
    UrlEncoding,
    /// The JSON body would not parse.
    Json,
    /// The database collaborator failed.
    Database(DatabaseError),
    /// The CSRF check failed.
    Csrf(CsrfError),
    /// The session lacks the operation's required permissions.
    PermissionDenied,
}

/// Let data through exactly when the required permissions are held.
pub fn check_permsissions<T>(
    data: T,
    user_perms: Permissions,
    required_perms: Permissions,
) -> (r: Result<T, ModelError>)
    ensures
        required_perms.applies_to_spec(user_perms) ==> (r matches Ok(d) && d == data),
        !required_perms.applies_to_spec(user_perms) ==> (r matches Err(e) && e
            == ModelError::PermissionDenied),
{
    if required_perms.applies_to(user_perms) {
        Ok(data)
    } else {
        Err(ModelError::PermissionDenied)
    }
}

/// The permissions a request holds: its session's, or none at all.
pub open spec fn held_perms(session: Option<&Session>) -> Permissions {
    match session {
        Some(s) => s.roles,
        None => Permissions(0),
    }
}

/// What every model route checks before any work, always in the same
/// order: the CSRF pair embedded in the body is verified against the
/// cookie first, the session's permissions second, and only then do the
/// untouched body bytes go on to be parsed. A request failing both
/// reports the CSRF failure.
pub fn route_guard(
    guard: &CsrfGuard,
    body: Vec<u8>,
    csrf_cookie: Option<String>,
    session: Option<&Session>,
    required: Permissions,
) -> (r: Result<Vec<u8>, ModelError>)
    requires
        guard.wf(),
    ensures
        match csrf_cookie {
            None => (r matches Err(e) && e == ModelError::Csrf(CsrfError::CookieNotFound)),
            Some(ck) => match embedded_csrf_token(body@) {
                None => (r matches Err(e) && e == ModelError::Csrf(CsrfError::Json)),
                Some(tok) => match r {
                    Ok(out) => out == body && verify_outcome(guard.key(), tok, ck@, Ok(()))
                        && required.applies_to_spec(held_perms(session)),
                    Err(ModelError::Csrf(e)) => verify_outcome(guard.key(), tok, ck@, Err(e)),
                    Err(ModelError::PermissionDenied) => verify_outcome(
                        guard.key(),
                        tok,
                        ck@,
                        Ok(()),
                    ) && !required.applies_to_spec(held_perms(session)),
                    _ => false,
                },
            },
        },
{
    let cookie = match csrf_cookie {
        Some(ck) => ck,
        None => {
            return Err(ModelError::Csrf(CsrfError::CookieNotFound));
        },
    };
    let body = match guard.decode_and_verify_csrf(body, cookie) {
        Ok(out) => out,
        Err(e) => {
            return Err(ModelError::Csrf(e));
        },
    };
    let held = match session {
        Some(s) => s.roles,
        None => Permissions(0),
    };
    check_permsissions(body, held, required)
}

/// The status code and description a model failure answers with.
pub fn model_error_text(e: &ModelError) -> (r: (u16, &'static str))
    ensures
        match e {
            ModelError::UrlEncoding => r.0 == 400 && r.1@
                == "Unable to parse URL-encoded query parameters"@,
            ModelError::Json => r.0 == 400 && r.1@ == "Unable to parse JSON-encoded request body"@,
            ModelError::Database(DatabaseError::NotFound) => r.0 == 404 && r.1@
                == "Unable to find the specified model"@,
            ModelError::Database(_) => r.0 == 500 && r.1@
                == "An SQL error occurred during processing"@,
            ModelError::Csrf(_) => r.0 == 400 && r.1@ == "CSRF verification failed"@,
            ModelError::PermissionDenied => r.0 == 401 && r.1@ == "Permission denied"@,
        },
{
    match e {
        ModelError::UrlEncoding => (400, "Unable to parse URL-encoded query parameters"),
        ModelError::Json => (400, "Unable to parse JSON-encoded request body"),
        ModelError::Database(DatabaseError::NotFound) => (404, "Unable to find the specified model"),
        ModelError::Database(_) => (500, "An SQL error occurred during processing"),
        ModelError::Csrf(_) => (400, "CSRF verification failed"),
        ModelError::PermissionDenied => (401, "Permission denied"),
    }
}

/// Why a display-name submission was refused.
#[derive(Clone, Copy, Debug, PartialEq, Eq, Structural)]
pub enum SetUsernameError {
    /// The CSRF check failed.
    Csrf(CsrfError),
    /// The body held no username.
    Json,
    /// The database collaborator failed.
    Database(DatabaseError),
    /// The requester holds no session.
    NoSession,
}

/// The username a body submits, under its JSON reading or its form
/// reading.
pub open spec fn submitted_username(body: Seq<u8>) -> Option<Seq<char>> {
    match form_pairs(body) {
        Some(ps) => match lookup_pair(ps, "username"@) {
            Some(v) => Some(v),
            None => json_string_field(body, "username"@),
        },
        None => json_string_field(body, "username"@),
    }
}

/// The checks before a display name may be persisted: CSRF first, then
/// the body's username, then the session. What comes back is whose name
/// to change and to what; the caller persists it and then renames the
/// session, accepting that the session may meanwhile be gone.
pub fn set_username_begin(
    guard: &CsrfGuard,
    sessions: &SessionTable,
    body: Vec<u8>,
    csrf_cookie: Option<String>,
    access_token: Option<String>,
) -> (r: Result<(i32, String, String), SetUsernameError>)
    requires
        guard.wf(),
    ensures
        match r {
            Ok(t) => {
                &&& (csrf_cookie matches Some(ck) && (embedded_csrf_token(body@) matches Some(tok)
                    && verify_outcome(guard.key(), tok, ck@, Ok(()))))
                &&& submitted_username(body@) == Some(t.2@)
                &&& access_token matches Some(at) && at@ == t.1@
                &&& sessions@.contains_key(t.1@) && sessions@[t.1@].id == t.0
            },
            Err(e) => match e {
                SetUsernameError::Csrf(ce) => match csrf_cookie {
                    None => ce == CsrfError::CookieNotFound,
                    Some(ck) => match embedded_csrf_token(body@) {
                        None => ce == CsrfError::Json,
                        Some(tok) => verify_outcome(guard.key(), tok, ck@, Err(ce)),
                    },
                },
                SetUsernameError::Json => submitted_username(body@) is None,
                SetUsernameError::NoSession => (match access_token {
                    Some(at) => !sessions@.contains_key(at@),
                    None => true,
                }),
                SetUsernameError::Database(_) => false,
            },
        },
{
    let cookie = match csrf_cookie {
        Some(ck) => ck,
        None => {
            return Err(SetUsernameError::Csrf(CsrfError::CookieNotFound));
        },
    };
    let body = match guard.decode_and_verify_csrf(body, cookie) {
        Ok(out) => out,
        Err(e) => {
            return Err(SetUsernameError::Csrf(e));
        },
    };
    let key = String::from_str("username");
    let username: Option<String> = match parse_form_pairs(body.as_slice()) {
        Some(ps) => match pairs_lookup(&ps, &key) {
            Some(v) => Some(v),
            None => get_json_string_field(body.as_slice(), key.as_str()),
        },
        None => get_json_string_field(body.as_slice(), key.as_str()),
    };
    let username = match username {
        Some(u) => u,
        None => {
            return Err(SetUsernameError::Json);
        },
    };
    let at = match access_token {
        Some(at) => at,
        None => {
            return Err(SetUsernameError::NoSession);
        },
    };
    match sessions.session(&at) {
        Some(s) => Ok((s.id, at, username)),
        None => Err(SetUsernameError::NoSession),
    }
}

/// A cache invalidation hook that invalidates nothing.
pub fn no_cache(_id: i32) {
}

} // verus!
