//! Core of a web backend's authorization and session subsystem: a CSRF
//! token codec, the in-memory tables that carry an OAuth2 authorization-code
//! handshake (both in the client role and in the code-issuing server role),
//! a session table swept on expiry, and the permission bitmask that gates
//! every route.
//!
//! Time never comes from a clock inside the library: every operation that
//! cares about expiry takes the current time in seconds since the epoch, so
//! that its behaviour is a function of its arguments.

pub mod auth_data;
pub mod authorize;
pub mod clientverify;
pub mod cmap;
pub mod config;
pub mod csrf;
pub mod formenc;
pub mod forms;
pub mod hashing;
pub mod jsonio;
pub mod jwt;
pub mod login;
pub mod oauth_client;
pub mod pagerender;
pub mod perms;
pub mod router;
pub mod send_token;
pub mod session;
pub mod statetable;
pub mod store;
pub mod textenc;
pub mod tokens;
pub mod userstore;

pub use perms::Permissions;
