//! Checks of the registered client's details, as the embedded
//! authorization server performs them on every request.

use crate::textenc::str_eq;
use vstd::prelude::*;
use vstd::string::StringExecFns;

verus! {

/// Which of the client's details failed to match.
#[derive(Clone, Copy, Debug, PartialEq, Eq, Structural)]
pub enum VerifyError {
    InvalidClientId,
    InvalidRedirectUri,
    InvalidClientSecret,
}

/// The registered client of the embedded authorization server.
#[derive(Clone)]
pub struct OauthVerify {
    pub client_id: String,
    pub client_secret: String,
    pub redirect_uri: String,
}

impl OauthVerify {
    /// Accept exactly the registered client id.
    pub fn verify_client_id(&self, ci: &str) -> (r: Result<(), VerifyError>)
        ensures
            r is Ok <==> ci@ == self.client_id@,
            r is Err ==> (r matches Err(e) && e == VerifyError::InvalidClientId),
    {
        if str_eq(self.client_id.as_str(), ci) {
            Ok(())
        } else {
            Err(VerifyError::InvalidClientId)
        }
    }

    /// Accept exactly the registered redirect URI.
    pub fn verify_redirect_uri(&self, ru: &str) -> (r: Result<(), VerifyError>)
        ensures
            r is Ok <==> ru@ == self.redirect_uri@,
            r is Err ==> (r matches Err(e) && e == VerifyError::InvalidRedirectUri),
    {
        if str_eq(self.redirect_uri.as_str(), ru) {
            Ok(())
        } else {
            Err(VerifyError::InvalidRedirectUri)
        }
    }

    /// Accept exactly the registered client secret; the client id plays no
    /// part in this check.
    pub fn verify_client_secret(&self, _ci: &str, cs: &str) -> (r: Result<(), VerifyError>)
        ensures
            r is Ok <==> cs@ == self.client_secret@,
            r is Err ==> (r matches Err(e) && e == VerifyError::InvalidClientSecret),
    {
        if str_eq(self.client_secret.as_str(), cs) {
            Ok(())
        } else {
            Err(VerifyError::InvalidClientSecret)
        }
    }
}

/// Where the embedded server's own pages live.
pub struct Urls {
    pub base_url: String,
}

/// The fixed client details the tests run against.
pub fn initialize_verify_test() -> (r: OauthVerify)
    ensures
        r.client_id@ == "test1"@,
        r.client_secret@ == "test2"@,
        r.redirect_uri@ == "https://test3.test/callback"@,
{
    OauthVerify {
        client_id: String::from_str("test1"),
        client_secret: String::from_str("test2"),
        redirect_uri: String::from_str("https://test3.test/callback"),
    }
}

} // verus!
