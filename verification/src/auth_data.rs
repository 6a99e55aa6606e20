//! Issuing the token payload the embedded authorization server releases
//! when a login succeeds.

use crate::jwt::{id_token_claims, jwt_encoded};
use crate::jwt::{build_id_token_claims, jwt_encode_claims};
use crate::statetable::AuthData;
use crate::tokens::{ascii_token, generate_auth_token};
use crate::userstore::{ManagedUser, User};
use vstd::prelude::*;
use vstd::string::StringExecFns;

verus! {

/// Why issuing a token payload failed.
#[derive(Clone, Copy, Debug, PartialEq, Eq, Structural)]
pub enum JwtError {
    /// The identity token could not be signed.
    Encode,
}

/// When the issued tokens run out: 3599 seconds from now.
pub open spec fn authorize_expiry(now: u64) -> u64 {
    if now + 3599 <= u64::MAX {
        (now + 3599) as u64
    } else {
        u64::MAX
    }
}

impl AuthData {
    /// Issue the payload for a successful login: two fresh bearer tokens,
    /// the fixed Bearer lifetime, and a signed identity token whose
    /// subject is the user and whose audience is the client.
    pub fn authorize(user: &User, muser: &ManagedUser, client_id: String, now: u64) -> (r: Result<
        AuthData,
        JwtError,
    >)
        ensures
            match r {
                Ok(ad) => {
                    &&& ad.token_type@ == "Bearer"@
                    &&& ad.expires_in == 3599
                    &&& ascii_token(ad.access_token@, 128)
                    &&& ascii_token(ad.refresh_token@, 128)
                    &&& jwt_encoded(
                        id_token_claims(
                            "notgull2"@,
                            user.uuid@,
                            client_id@,
                            authorize_expiry(now),
                            now,
                            now,
                            muser.username@,
                        ),
                        "notgull3"@,
                    ) == Some(ad.id_token@)
                },
                Err(e) => e == JwtError::Encode && jwt_encoded(
                    id_token_claims(
                        "notgull2"@,
                        user.uuid@,
                        client_id@,
                        authorize_expiry(now),
                        now,
                        now,
                        muser.username@,
                    ),
                    "notgull3"@,
                ) is None,
            },
    {
        let access_token = generate_auth_token();
        let refresh_token = generate_auth_token();
        let expire_secs: u64 = if now <= u64::MAX - 3599 {
            now + 3599
        } else {
            u64::MAX
        };
        let claims = build_id_token_claims(
            "notgull2",
            user.uuid.as_str(),
            client_id.as_str(),
            expire_secs,
            now,
            now,
            muser.username.as_str(),
        );
        match jwt_encode_claims(claims.as_slice(), "notgull3") {
            Some(id_token) => Ok(
                AuthData {
                    access_token,
                    refresh_token,
                    id_token,
                    token_type: String::from_str("Bearer"),
                    expires_in: 3599,
                },
            ),
            None => Err(JwtError::Encode),
        }
    }
}

} // verus!
