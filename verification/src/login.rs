//! The embedded server's login endpoint, short of its transport: resolve
//! the user, check the password, issue the token payload, and attach it to
//! the pending authorization the state names.

use crate::auth_data::authorize_expiry;
use crate::formenc::{form_pairs, lookup_pair, pairs_lookup, parse_form_pairs};
use crate::hashing::{argon2_verifies, verify_password, HashError};
use crate::jwt::{id_token_claims, jwt_encoded};
use crate::statetable::{attach_result, AuthData, AuthDataModel, RejectError, StateTable};
use crate::userstore::{find_managed_by_id, find_managed_by_name, find_shadow_by_id,
    find_user_linked, lemma_find_managed_by_id_none, DatabaseError, UserStore};
use vstd::prelude::*;
use vstd::string::{StrSliceExecFns, StringExecFns};
use vstd::utf8::encode_utf8;

verus! {

/// Why a login failed.
#[derive(Clone, Copy, Debug, PartialEq, Eq, Structural)]
pub enum LoginError {
    /// The query would not parse as the login form.
    UrlEncode,
    /// The user directory failed or knew nothing.
    Database(DatabaseError),
    /// The password did not check out.
    Hash(HashError),
    /// The state table refused the attachment.
    Reject(RejectError),
    /// The identity token could not be signed.
    Jwt,
}

/// The supplied credentials name a managed user, a linked user row and a
/// stored shadow, and the password verifies against that shadow's hash.
pub open spec fn credentials_ok(db: UserStore, username: Seq<char>, password: Seq<char>) -> bool {
    match find_managed_by_name(db.spec_managed(), username) {
        None => false,
        Some(i) => {
            let mrec = db.spec_managed()[i];
            match find_user_linked(db.spec_users(), mrec.id) {
                None => false,
                Some(k) => match find_shadow_by_id(db.spec_shadow(), mrec.shadow) {
                    None => false,
                    Some(si) => argon2_verifies(
                        encode_utf8(password),
                        db.spec_shadow()[si].hashed_password@,
                    ),
                },
            }
        },
    }
}

/// What a login decides, given the directory as it stood: the first
/// managed record matching the name, its user row, its shadow, and the
/// password check against the stored hash. The payload is judged at the
/// model level, so the same statement speaks of a returned value and of a
/// stored one.
pub open spec fn login_decision_model(
    db: UserStore,
    username: Seq<char>,
    password: Seq<char>,
    client_id: Seq<char>,
    now: u64,
    r: Result<AuthDataModel, LoginError>,
) -> bool {
    match find_managed_by_name(db.spec_managed(), username) {
        None => (r matches Err(e) && e == LoginError::Database(DatabaseError::NotFound)),
        Some(i) => {
            let mrec = db.spec_managed()[i];
            match find_user_linked(db.spec_users(), mrec.id) {
                None => (r matches Err(e) && e == LoginError::Database(DatabaseError::NotFound)),
                Some(k) => {
                    let urec = db.spec_users()[k];
                    match find_shadow_by_id(db.spec_shadow(), mrec.shadow) {
                        None => (r matches Err(e) && e == LoginError::Database(
                            DatabaseError::NotFound,
                        )),
                        Some(si) => {
                            let hash = db.spec_shadow()[si].hashed_password@;
                            let claims = id_token_claims(
                                "notgull2"@,
                                urec.uuid@,
                                client_id,
                                authorize_expiry(now),
                                now,
                                now,
                                mrec.username@,
                            );
                            if !argon2_verifies(encode_utf8(password), hash) {
                                (r matches Err(e) && e == LoginError::Hash(HashError::Hash))
                            } else {
                                match r {
                                    Ok(adm) => adm.token_type == "Bearer"@ && adm.expires_in
                                        == 3599 && jwt_encoded(claims, "notgull3"@) == Some(
                                        adm.id_token,
                                    ),
                                    Err(e) => e == LoginError::Jwt && jwt_encoded(
                                        claims,
                                        "notgull3"@,
                                    ) is None,
                                }
                            }
                        },
                    }
                },
            }
        },
    }
}

/// The payload a login hands back, seen at the model level.
pub open spec fn login_result_view(r: Result<AuthData, LoginError>) -> Result<
    AuthDataModel,
    LoginError,
> {
    match r {
        Ok(ad) => Ok(ad@),
        Err(e) => Err(e),
    }
}

/// `login_decision_model`, applied to a returned value.
pub open spec fn login_decision(
    db: UserStore,
    username: Seq<char>,
    password: Seq<char>,
    client_id: Seq<char>,
    now: u64,
    r: Result<AuthData, LoginError>,
) -> bool {
    login_decision_model(db, username, password, client_id, now, login_result_view(r))
}

/// A login that released a payload had verified credentials.
pub proof fn lemma_decision_ok_credentials(
    db: UserStore,
    username: Seq<char>,
    password: Seq<char>,
    client_id: Seq<char>,
    now: u64,
    adm: AuthDataModel,
)
    requires
        login_decision_model(db, username, password, client_id, now, Ok(adm)),
    ensures
        credentials_ok(db, username, password),
{
}

/// Resolve the credentials against the directory and, when they hold,
/// issue the token payload. The directory's address log gains this
/// attempt's address either way, once the user was found.
#[verifier::rlimit(60)]
pub fn login_internal(
    db: &mut UserStore,
    username: String,
    password: String,
    addr: String,
    client_id: String,
    now: u64,
) -> (r: Result<AuthData, LoginError>)
    ensures
        final(db).spec_users() == old(db).spec_users(),
        final(db).spec_managed() == old(db).spec_managed(),
        final(db).spec_shadow() == old(db).spec_shadow(),
        login_decision(*old(db), username@, password@, client_id@, now, r),
{
    let ghost uq: Seq<char> = username@;
    let (user, muser) = match db.fetch_user_by_username_or_email(username) {
        Ok(p) => p,
        Err(e) => {
            return Err(LoginError::Database(e));
        },
    };
    let mu2 = muser.copied();
    let ghost mu2v = mu2;
    let (hash, _login_attempts) = match db.fetch_user_password(mu2, addr, now) {
        Ok(p) => p,
        Err(e) => {
            proof {
                if find_managed_by_id(old(db).spec_managed(), mu2v.id) is None {
                    lemma_find_managed_by_id_none(old(db).spec_managed(), mu2v.id);
                    crate::userstore::lemma_find_managed_by_name_some(old(db).spec_managed(), uq);
                    match find_managed_by_name(old(db).spec_managed(), uq) {
                        Some(i) => {
                            assert(old(db).spec_managed()[i].id == muser.id);
                            assert(old(db).spec_managed()[i].id != mu2v.id);
                        },
                        None => {},
                    }
                }
            }
            return Err(LoginError::Database(e));
        },
    };
    if verify_password(password.as_str().as_bytes_vec().as_slice(), hash.as_slice()).is_err() {
        return Err(LoginError::Hash(HashError::Hash));
    }
    match AuthData::authorize(&user, &muser, client_id, now) {
        Ok(ad) => Ok(ad),
        Err(_) => Err(LoginError::Jwt),
    }
}

/// The fields of a parsed login request.
pub ghost struct LoginArgsModel {
    pub username: Seq<char>,
    pub password: Seq<char>,
    pub state: Seq<char>,
    pub client_id: Seq<char>,
}

/// What the login query parses to, when it carries all four fields.
pub open spec fn login_args_of(query: Seq<u8>) -> Option<LoginArgsModel> {
    match form_pairs(query) {
        None => None,
        Some(ps) => match (
            lookup_pair(ps, "username"@),
            lookup_pair(ps, "password"@),
            lookup_pair(ps, "state"@),
            lookup_pair(ps, "client_id"@),
        ) {
            (Some(u), Some(p), Some(s), Some(c)) => Some(
                LoginArgsModel { username: u, password: p, state: s, client_id: c },
            ),
            _ => None,
        },
    }
}

/// The whole login endpoint short of its transport and its deliberate
/// delay: parse the form, resolve the credentials, and attach the payload
/// under the request's state. On success the authorization code and the
/// echoed state come back; on any failure the state table is as it was.
pub fn login(
    db: &mut UserStore,
    table: &mut StateTable,
    query: &[u8],
    addr: String,
    now: u64,
) -> (r: Result<(String, String), LoginError>)
    ensures
        final(db).spec_users() == old(db).spec_users(),
        final(db).spec_managed() == old(db).spec_managed(),
        final(db).spec_shadow() == old(db).spec_shadow(),
        match login_args_of(query@) {
            None => (r matches Err(e) && e == LoginError::UrlEncode) && final(table)@ == old(
                table,
            )@,
            Some(args) => match r {
                Ok(p) => {
                    &&& credentials_ok(*old(db), args.username, args.password)
                    &&& p.1@ == args.state
                    &&& (attach_result(old(table)@, args.state) matches Ok(code) && code == p.0@)
                    &&& old(table)@.entries.contains_key(p.0@)
                    &&& final(table)@.statemap == old(table)@.statemap
                    &&& final(table)@.entries.contains_key(p.0@)
                    &&& final(table)@.entries == old(table)@.entries.insert(
                        p.0@,
                        final(table)@.entries[p.0@],
                    )
                    &&& (final(table)@.entries[p.0@].auth_data matches Some(adm)
                        && login_decision_model(
                        *old(db),
                        args.username,
                        args.password,
                        args.client_id,
                        now,
                        Ok(adm),
                    ))
                    &&& final(table)@.entries[p.0@].state == old(table)@.entries[p.0@].state
                    &&& final(table)@.entries[p.0@].auth_token == old(table)@.entries[
                        p.0@
                    ].auth_token
                    &&& final(table)@.entries[p.0@].client_id == old(table)@.entries[p.0@].client_id
                    &&& final(table)@.entries[p.0@].redirect_uri == old(table)@.entries[
                        p.0@
                    ].redirect_uri
                    &&& final(table)@.entries[p.0@].expiry == old(table)@.entries[p.0@].expiry
                },
                Err(e) => {
                    &&& final(table)@ == old(table)@
                    &&& e != LoginError::UrlEncode
                    &&& (match e {
                        LoginError::Reject(x) => credentials_ok(
                            *old(db),
                            args.username,
                            args.password,
                        ) && (attach_result(old(table)@, args.state) matches Err(y) && y == x),
                        _ => login_decision(
                            *old(db),
                            args.username,
                            args.password,
                            args.client_id,
                            now,
                            Err(e),
                        ),
                    })
                },
            },
        },
{
    let pairs = match parse_form_pairs(query) {
        Some(ps) => ps,
        None => {
            return Err(LoginError::UrlEncode);
        },
    };
    let username = pairs_lookup(&pairs, &String::from_str("username"));
    let password = pairs_lookup(&pairs, &String::from_str("password"));
    let state = pairs_lookup(&pairs, &String::from_str("state"));
    let client_id = pairs_lookup(&pairs, &String::from_str("client_id"));
    let (username, password, state, client_id) = match (username, password, state, client_id) {
        (Some(u), Some(p), Some(s), Some(c)) => (u, p, s, c),
        _ => {
            return Err(LoginError::UrlEncode);
        },
    };
    let ad = match login_internal(db, username, password, addr, client_id, now) {
        Ok(ad) => ad,
        Err(e) => {
            return Err(e);
        },
    };
    let ghost admodel: AuthDataModel = ad@;
    match table.add_entry_auth_data(state.clone(), ad) {
        Ok(code) => {
            proof {
                crate::statetable::lemma_attach_result(old(table)@, state@, admodel);
            }
            Ok((code, state))
        },
        Err(e) => {
            proof {
                crate::statetable::lemma_attach_result(old(table)@, state@, admodel);
            }
            Err(LoginError::Reject(e))
        },
    }
}

/// The user-facing description and status code of a login failure:
/// deliberately vague where an attacker could learn from precision.
pub fn login_error_text(e: &LoginError) -> (r: (&'static str, u16))
    ensures
        match e {
            LoginError::UrlEncode => r.0@ == "Unable to parse URL-encoded data"@ && r.1 == 400,
            LoginError::Database(DatabaseError::NotFound) | LoginError::Hash(_) => r.0@
                == "The username/password combination was not found in the database"@ && r.1 == 401,
            LoginError::Database(_) => r.0@ == "An SQL error occurred"@ && r.1 == 500,
            LoginError::Reject(_) => r.0@ == "State table rejected credentials"@ && r.1 == 400,
            LoginError::Jwt => r.0@ == "An internal JWT error occurred"@ && r.1 == 500,
        },
{
    match e {
        LoginError::UrlEncode => ("Unable to parse URL-encoded data", 400),
        LoginError::Database(DatabaseError::NotFound) | LoginError::Hash(_) => (
            "The username/password combination was not found in the database",
            401,
        ),
        LoginError::Database(_) => ("An SQL error occurred", 500),
        LoginError::Reject(_) => ("State table rejected credentials", 400),
        LoginError::Jwt => ("An internal JWT error occurred", 500),
    }
}

} // verus!
