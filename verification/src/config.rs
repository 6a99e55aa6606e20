//! The configured shape of the web backend, as far as the verified core
//! reads it. Loading the file itself is the binary's work; paths are
//! carried as plain text here.

use vstd::prelude::*;

verus! {

/// One statically rendered front page.
pub struct FrontpageEntry {
    pub path: String,
    pub name: String,
}

/// Where the deployment's pieces are reachable.
pub struct Urls {
    pub static_url: String,
    pub api_url: String,
    pub auth_url: String,
    pub web_url: String,
}

/// The TLS key material's location.
pub struct TlsDetails {
    pub private_key: String,
    pub public_key: String,
}

/// The object store that holds uploaded images.
pub struct S3Details {
    pub bucket_name: String,
    pub endpoint_url: Option<String>,
    pub region: String,
}

} // verus!
