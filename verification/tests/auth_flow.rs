//! The embedded authorization server: state table, client checks,
//! login, and the token endpoint.

use auth_core::clientverify::initialize_verify_test;
use auth_core::login::{login, login_error_text, LoginError};
use auth_core::send_token::{token_exchange, TokenError};
use auth_core::statetable::{intiailize_state_table, AuthData, RejectError};
use auth_core::userstore::UserStore;

fn test_auth_data() -> AuthData {
    AuthData {
        access_token: "foo".to_string(),
        refresh_token: "bar".to_string(),
        id_token: "baz".to_string(),
        token_type: "Bearer".to_string(),
        expires_in: 3599,
    }
}

#[test]
fn verify_sanity() {
    let v = initialize_verify_test();
    v.verify_client_id("test1").unwrap();
    v.verify_client_secret("test1", "test2").unwrap();
    v.verify_redirect_uri("https://test3.test/callback").unwrap();
}

#[test]
fn store_test() {
    let mut table = intiailize_state_table();
    table.store_entry(
        "test1".to_string(),
        "test2".to_string(),
        "test3".to_string(),
        "test4".to_string(),
        "test5".to_string(),
        0,
    );
    let entry = table.entry_for(&"test1".to_string()).unwrap();
    assert_eq!(entry.auth_token, "test1");
    assert_eq!(entry.state, "test2");
    assert_eq!(entry.scopes, "test3");
    assert_eq!(entry.client_id, "test4");
    assert_eq!(entry.redirect_uri, "test5");
    assert_eq!(table.state_token(&"test2".to_string()).unwrap(), "test1");
}

#[test]
fn by_uuid() {
    let db = UserStore::test_database(0).unwrap();
    let user = db.fetch_user_by_uuid("testtesttesttest".to_string()).unwrap();
    assert_eq!(user.id, 1);
}

#[test]
fn by_username() {
    let db = UserStore::test_database(0).unwrap();
    let (user, muser) = db.fetch_user_by_username_or_email("test".to_string()).unwrap();
    assert_eq!(user.id, 1);
    assert_eq!(muser.email, "test@test.net");
}

#[test]
fn by_email() {
    let db = UserStore::test_database(0).unwrap();
    let (user, muser) = db.fetch_user_by_username_or_email("test@test.net".to_string()).unwrap();
    assert_eq!(user.id, 1);
    assert_eq!(muser.username, "test");
}

#[test]
fn pwd_hash() {
    let mut db = UserStore::test_database(0).unwrap();
    let (_, muser) = db.fetch_user_by_username_or_email("test@test.net".to_string()).unwrap();
    let (hashed, login_attempts) =
        db.fetch_user_password(muser, "127.0.0.1".to_string(), 0).unwrap();
    assert!(auth_core::hashing::verify_password(b"testing".as_ref(), &hashed).is_ok());
    assert_eq!(login_attempts, 0);
}

#[test]
fn hash_sanity() {
    let salt = auth_core::hashing::generate_salt();
    let pwd = "HelloWorld1111";
    let hash = auth_core::hashing::hash_password(pwd.as_bytes(), &salt).unwrap();
    auth_core::hashing::verify_password(pwd.as_bytes(), &hash).unwrap();
}

#[test]
fn login_test() {
    let mut table = intiailize_state_table();
    let mut db = UserStore::test_database(0).unwrap();
    table.store_entry(
        "test1".to_string(),
        "test".to_string(),
        "test3".to_string(),
        "test4".to_string(),
        "test5".to_string(),
        0,
    );
    let query = b"username=test&password=testing&client_id=test4&state=test";
    let body = login(&mut db, &mut table, query, "127.0.0.1:65000".to_string(), 0)
        .expect("/login failed");
    assert_eq!(body.0, "test1");
    assert_eq!(body.1, "test");
}

#[test]
fn login_wrong_password_is_vague() {
    let mut table = intiailize_state_table();
    let mut db = UserStore::test_database(0).unwrap();
    table.store_entry(
        "t1".to_string(),
        "st".to_string(),
        "sc".to_string(),
        "ci".to_string(),
        "ru".to_string(),
        0,
    );
    let query = b"username=test&password=wrong&client_id=ci&state=st";
    let err = login(&mut db, &mut table, query, "127.0.0.1".to_string(), 0).unwrap_err();
    assert!(matches!(err, LoginError::Hash(_)));
    let (msg, code) = login_error_text(&err);
    assert_eq!(code, 401);
    assert_eq!(msg, "The username/password combination was not found in the database");
    // an unknown user reads byte for byte the same
    let query = b"username=nobody&password=wrong&client_id=ci&state=st";
    let err = login(&mut db, &mut table, query, "127.0.0.1".to_string(), 0).unwrap_err();
    let (msg2, code2) = login_error_text(&err);
    assert_eq!(code2, 401);
    assert_eq!(msg2, msg);
    // and no payload was attached to the pending authorization
    let left = table
        .check_entry("t1".to_string(), "ci".to_string(), "ru".to_string(), 0)
        .unwrap_err();
    assert_eq!(left, RejectError::NotLoggedIn);
}

#[test]
fn test_route() {
    let mut table = intiailize_state_table();
    let verify = initialize_verify_test();
    table.store_entry(
        "test10".to_string(),
        "test11".to_string(),
        "test12".to_string(),
        "test13".to_string(),
        "http://test14".to_string(),
        0,
    );
    let auth_data = test_auth_data();
    table.add_entry_auth_data("test11".to_string(), auth_data).unwrap();

    let body = b"grant_type=authorization_code&client_id=test13&client_secret=test2&code=test10&redirect_uri=http%3A%2F%2Ftest14";
    let res = token_exchange(&mut table, &verify, body, None, 0).unwrap();
    assert_eq!(res.access_token, "foo");
    assert_eq!(res.refresh_token, "bar");
    assert_eq!(res.id_token, "baz");
    assert_eq!(res.token_type, "Bearer");
    assert_eq!(res.expires_in, 3599);
}

#[test]
fn oauth2() {
    let mut table = intiailize_state_table();
    let verify = initialize_verify_test();
    let auth_data = AuthData {
        access_token: "test1".to_string(),
        id_token: "test2".to_string(),
        refresh_token: "test3".to_string(),
        token_type: "Bearer".to_string(),
        expires_in: 3599,
    };

    // the client browses to /authorize
    let auth_token = auth_core::tokens::generate_auth_token();
    let query = "response_type=code&client_id=test1&redirect_uri=https%3A%2F%2Ftest3.test%2Fcallback&scope=openid&state=xyzstate";
    let state = auth_core::authorize::authorize_request(
        &verify,
        &mut table,
        query.as_bytes(),
        auth_token.clone(),
        0,
    )
    .unwrap();
    assert_eq!(state, "xyzstate");

    // the login form succeeds and releases the code
    let code = table.add_entry_auth_data(state, auth_data).unwrap();
    assert_eq!(code, auth_token);

    // the client redeems the code, credentials in a Basic header
    let header = format!("Basic {}", auth_core::textenc::b64_encode(b"test1:test2"));
    let body = format!(
        "grant_type=authorization_code&code={}&redirect_uri=https%3A%2F%2Ftest3.test%2Fcallback",
        auth_core::formenc::urlencode_component(&code),
    );
    let res = token_exchange(&mut table, &verify, body.as_bytes(), Some(header), 0).unwrap();
    assert_eq!(res.access_token, "test1");
}

#[test]
fn redemption_is_single_use() {
    let mut table = intiailize_state_table();
    table.store_entry(
        "T1".to_string(),
        "S1".to_string(),
        "openid".to_string(),
        "client".to_string(),
        "redirect".to_string(),
        0,
    );
    let code = table
        .add_entry_auth_data("S1".to_string(), test_auth_data())
        .unwrap();
    assert_eq!(code, "T1");
    let first = table
        .check_entry("T1".to_string(), "client".to_string(), "redirect".to_string(), 0)
        .unwrap();
    assert_eq!(first.access_token, "foo");
    let second = table
        .check_entry("T1".to_string(), "client".to_string(), "redirect".to_string(), 0)
        .unwrap_err();
    assert_eq!(second, RejectError::EntryNotFound);
}

#[test]
fn redemption_checks_client_and_redirect() {
    let mut table = intiailize_state_table();
    table.store_entry(
        "T1".to_string(),
        "S1".to_string(),
        "openid".to_string(),
        "client".to_string(),
        "redirect".to_string(),
        0,
    );
    table.add_entry_auth_data("S1".to_string(), test_auth_data()).unwrap();
    let e = table
        .check_entry("T1".to_string(), "other".to_string(), "redirect".to_string(), 0)
        .unwrap_err();
    assert_eq!(e, RejectError::ClientIdMismatch);
    let e = table
        .check_entry("T1".to_string(), "client".to_string(), "elsewhere".to_string(), 0)
        .unwrap_err();
    assert_eq!(e, RejectError::RedirectUriMistmatch);
    // a mismatch consumes nothing: the correct redemption still succeeds
    let ok = table
        .check_entry("T1".to_string(), "client".to_string(), "redirect".to_string(), 0)
        .unwrap();
    assert_eq!(ok.access_token, "foo");
}

#[test]
fn redemption_before_login_and_after_expiry() {
    let mut table = intiailize_state_table();
    table.store_entry(
        "T1".to_string(),
        "S1".to_string(),
        "openid".to_string(),
        "client".to_string(),
        "redirect".to_string(),
        0,
    );
    let e = table
        .check_entry("T1".to_string(), "client".to_string(), "redirect".to_string(), 0)
        .unwrap_err();
    assert_eq!(e, RejectError::NotLoggedIn);

    let mut table = intiailize_state_table();
    table.store_entry(
        "T2".to_string(),
        "S2".to_string(),
        "openid".to_string(),
        "client".to_string(),
        "redirect".to_string(),
        0,
    );
    let e = table
        .check_entry("T2".to_string(), "client".to_string(), "redirect".to_string(), 4000)
        .unwrap_err();
    assert_eq!(e, RejectError::Expired);
}

#[test]
fn state_table_sweep_drops_expired_entries() {
    let mut table = intiailize_state_table();
    table.store_entry(
        "T1".to_string(),
        "S1".to_string(),
        "openid".to_string(),
        "client".to_string(),
        "redirect".to_string(),
        0,
    );
    table.clear_expired_entries(4000);
    assert!(table.entry_for(&"T1".to_string()).is_none());
    assert!(table.state_token(&"S1".to_string()).is_none());

    let mut table = intiailize_state_table();
    table.store_entry(
        "T2".to_string(),
        "S2".to_string(),
        "openid".to_string(),
        "client".to_string(),
        "redirect".to_string(),
        0,
    );
    table.clear_expired_entries(100);
    assert!(table.entry_for(&"T2".to_string()).is_some());
    assert!(table.state_token(&"S2".to_string()).is_some());
}

#[test]
fn token_exchange_error_kinds() {
    let verify = initialize_verify_test();

    let mut table = intiailize_state_table();
    let e = token_exchange(&mut table, &verify, b"\xff\xfe", None, 0).unwrap_err();
    assert_eq!(e, TokenError::UrlEncode);

    let e = token_exchange(
        &mut table,
        &verify,
        b"grant_type=authorization_code&code=c&redirect_uri=r",
        None,
        0,
    )
    .unwrap_err();
    assert_eq!(e, TokenError::AuthorizationNotFound);

    let e = token_exchange(
        &mut table,
        &verify,
        b"grant_type=password&code=c&redirect_uri=r&client_id=a&client_secret=b",
        None,
        0,
    )
    .unwrap_err();
    assert_eq!(e, TokenError::NotAuthorizationCode);

    let e = token_exchange(
        &mut table,
        &verify,
        b"grant_type=authorization_code&code=c&redirect_uri=r&client_id=a&client_secret=bad",
        None,
        0,
    )
    .unwrap_err();
    assert_eq!(
        e,
        TokenError::Verify(auth_core::clientverify::VerifyError::InvalidClientSecret)
    );

    let e = token_exchange(
        &mut table,
        &verify,
        b"grant_type=authorization_code&code=unknown&redirect_uri=r&client_id=a&client_secret=test2",
        None,
        0,
    )
    .unwrap_err();
    assert_eq!(e, TokenError::Reject(RejectError::EntryNotFound));
}

#[test]
fn token_exchange_accepts_json_bodies() {
    let mut table = intiailize_state_table();
    let verify = initialize_verify_test();
    table.store_entry(
        "J1".to_string(),
        "SJ".to_string(),
        "openid".to_string(),
        "cid".to_string(),
        "ruri".to_string(),
        0,
    );
    table.add_entry_auth_data("SJ".to_string(), test_auth_data()).unwrap();
    let body = r#"{"grant_type":"authorization_code","client_id":"cid","client_secret":"test2","code":"J1","redirect_uri":"ruri"}"#;
    let res = token_exchange(&mut table, &verify, body.as_bytes(), None, 0).unwrap();
    assert_eq!(res.access_token, "foo");
}

#[test]
fn authorize_error_kinds() {
    let verify = initialize_verify_test();
    let mut table = intiailize_state_table();

    let e = auth_core::authorize::authorize_request(
        &verify,
        &mut table,
        b"response_type=token&client_id=test1&redirect_uri=https%3A%2F%2Ftest3.test%2Fcallback&scope=openid&state=s",
        "tok".to_string(),
        0,
    )
    .unwrap_err();
    assert_eq!(e, auth_core::authorize::AuthorizeError::NotCodeFlow);

    let e = auth_core::authorize::authorize_request(
        &verify,
        &mut table,
        b"response_type=code&client_id=wrong&redirect_uri=https%3A%2F%2Ftest3.test%2Fcallback&scope=openid&state=s",
        "tok".to_string(),
        0,
    )
    .unwrap_err();
    assert_eq!(
        e,
        auth_core::authorize::AuthorizeError::Verify(
            auth_core::clientverify::VerifyError::InvalidClientId
        )
    );

    let e = auth_core::authorize::authorize_request(
        &verify,
        &mut table,
        b"response_type=code&client_id=test1&scope=openid&state=s",
        "tok".to_string(),
        0,
    )
    .unwrap_err();
    assert_eq!(e, auth_core::authorize::AuthorizeError::Url);
}

#[test]
fn decode_authorization_round_trip() {
    let header = format!("Basic {}", auth_core::textenc::b64_encode(b"id:secret"));
    let (ci, cs) = auth_core::send_token::decode_authorization(&header).unwrap();
    assert_eq!(ci, "id");
    assert_eq!(cs, "secret");

    let e = auth_core::send_token::decode_authorization("Bearer abc").unwrap_err();
    assert_eq!(e, TokenError::CouldNotParseAuth);

    let e = auth_core::send_token::decode_authorization("Basic !!!").unwrap_err();
    assert_eq!(e, TokenError::Decode);
}
