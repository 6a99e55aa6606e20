//! The content backend's core: permissions, the CSRF codec, the
//! handshake client, the session table, and the route gate.

use auth_core::csrf::{initialize_csrf_test, Base64CsrfPair, CsrfError};
use auth_core::oauth_client::{Oauth2Client, Oauth2Details};
use auth_core::perms::Permissions;
use auth_core::router::{route_guard, set_username_begin, ModelError};
use auth_core::session::{
    fake_access_token, fake_access_token_fewer_perms, initialize_auth_test, SessionTable,
};

#[test]
fn sanity_perm_matches() {
    let perm_req = Permissions(0b101);
    let perm_user = Permissions(0b11101);
    assert!(perm_req.applies_to(perm_user));
}

#[test]
fn perm_containment_concrete() {
    assert!(Permissions(0b101).applies_to(Permissions(0b11101)));
    assert!(!Permissions(0b101).applies_to(Permissions(0b11001)));
    assert!(Permissions(0).applies_to(Permissions(0)));
    assert!(!Permissions(0b1).applies_to(Permissions(0)));
}

#[test]
fn csrf_sanity() {
    let guard = initialize_csrf_test();
    let pair = guard.generate_csrf_pair().unwrap();
    guard
        .verify_csrf_pair(Base64CsrfPair { token: pair.token, cookie: pair.cookie })
        .unwrap();
}

#[test]
fn csrf_swapped_halves_fail() {
    let guard = initialize_csrf_test();
    let one = guard.generate_csrf_pair().unwrap();
    let two = guard.generate_csrf_pair().unwrap();
    let e = guard
        .verify_csrf_pair(Base64CsrfPair { token: one.token.clone(), cookie: two.cookie })
        .unwrap_err();
    assert_eq!(e, CsrfError::VerificationFailed);
    let e = guard
        .verify_csrf_pair(Base64CsrfPair { token: two.token, cookie: one.cookie })
        .unwrap_err();
    assert_eq!(e, CsrfError::VerificationFailed);
    let e = guard
        .verify_csrf_pair(Base64CsrfPair { token: one.token, cookie: "!!!".to_string() })
        .unwrap_err();
    assert_eq!(e, CsrfError::Decode);
}

#[test]
fn csrf_passthrough_returns_body_unchanged() {
    let guard = initialize_csrf_test();
    let pair = guard.generate_csrf_pair().unwrap();
    let body = format!("data=hello&csrf_token={}", urlencode(&pair.token));
    let out = guard
        .decode_and_verify_csrf(body.clone().into_bytes(), pair.cookie)
        .unwrap();
    assert_eq!(out, body.into_bytes());
}

fn urlencode(s: &str) -> String {
    auth_core::formenc::urlencode_component(s)
}

#[test]
fn urlencode_component_exact() {
    assert_eq!(urlencode("abcXYZ019-._~"), "abcXYZ019-._~");
    assert_eq!(urlencode("a b&c=d/e"), "a%20b%26c%3Dd%2Fe");
    assert_eq!(urlencode(""), "");
}

#[test]
fn form_parse_inverts_encoding() {
    let value = "we spent so much time+chasing suns &=?";
    let body = format!("k={}", urlencode(value));
    let pairs = auth_core::formenc::parse_form_pairs(body.as_bytes()).unwrap();
    assert_eq!(pairs.len(), 1);
    assert_eq!(pairs[0].0, "k");
    assert_eq!(pairs[0].1, value);
}

#[test]
fn generated_tokens_are_printable_ascii() {
    let t = auth_core::tokens::generate_auth_token();
    assert_eq!(t.len(), 128);
    assert!(t.bytes().all(|b| (0x10..=0x7f).contains(&b)));
    let t = auth_core::tokens::random_token();
    assert_eq!(t.len(), 16);
    assert!(t.bytes().all(|b| (0x10..=0x7f).contains(&b)));
}

#[test]
fn oauth_test() {
    let details = Oauth2Details {
        client_id: "notgull1".to_string(),
        client_secret: "notgull2".to_string(),
        auth_url: "http://test1.test/authorize".to_string(),
        token_url: "http://test1.test/oauth/token".to_string(),
        redirect_url: "http://test2.test/callback".to_string(),
    };
    let mut client = Oauth2Client::initialize_oauth2(details);
    let mut sessions = SessionTable::new();

    // the login redirect carries the client, the code flow, and the state
    let (url, state) = client.begin_oauth2_handshake(0);
    assert!(url.starts_with("http://test1.test/authorize?response_type=code"));
    assert!(url.contains("&client_id=notgull1"));
    assert!(url.contains(&format!("&state={}", urlencode(&state))));
    assert!(url.contains("&scope=openid"));

    // the provider calls back with a code; the state is consumed
    let _verifier = client.take_state(&state, 10).unwrap();

    // the provider's token answer, with an identity token for the user
    let claims = br#"{"sub":"65a7e8c5-c235-49a9-ba00-6d9c049776f4","name":"notgull"}"#;
    let id_token = auth_core::jwt::jwt_encode_claims(claims, "secret").unwrap();
    let body = format!(
        r#"{{"access_token":"testing","id_token":"{}","refresh_token":"testing2","token_type":"Bearer","expires_in":3599}}"#,
        id_token
    );
    let tok = auth_core::oauth_client::parse_token_response(body.as_bytes()).unwrap();
    assert_eq!(tok.access_token, "testing");
    assert_eq!(tok.expires_in, 3599);
    let sub = auth_core::jwt::decode_id_token_sub(&tok.id_token).unwrap();
    assert_eq!(sub, "65a7e8c5-c235-49a9-ba00-6d9c049776f4");

    // the subject resolves to a local user, whose session is installed
    let db = auth_core::store::MemoryDatabase::with_test_data(0);
    let at = auth_core::oauth_client::complete_oauth2_handshake(
        &mut sessions,
        &db,
        body.as_bytes(),
        10,
    )
    .unwrap();
    assert_eq!(at, "testing");
    let session = sessions.session(&"testing".to_string()).unwrap();
    assert_eq!(session.roles.0, 0xFFFFFFFF);
    assert_eq!(session.name.unwrap(), "John Notgull");
}

#[test]
fn state_taken_exactly_once() {
    let details = Oauth2Details {
        client_id: "c".to_string(),
        client_secret: "s".to_string(),
        auth_url: "http://a".to_string(),
        token_url: "http://t".to_string(),
        redirect_url: "http://r".to_string(),
    };
    let mut client = Oauth2Client::initialize_oauth2(details);
    let (_, state) = client.begin_oauth2_handshake(0);
    assert!(client.take_state(&state, 1).is_ok());
    let e = client.take_state(&state, 1).unwrap_err();
    assert_eq!(e, auth_core::oauth_client::EndOauthError::StateNotFound);
}

#[test]
fn expired_state_reads_as_not_found() {
    let details = Oauth2Details {
        client_id: "c".to_string(),
        client_secret: "s".to_string(),
        auth_url: "http://a".to_string(),
        token_url: "http://t".to_string(),
        redirect_url: "http://r".to_string(),
    };
    let mut client = Oauth2Client::initialize_oauth2(details);
    let (_, state) = client.begin_oauth2_handshake(0);
    let e = client.take_state(&state, 900).unwrap_err();
    assert_eq!(e, auth_core::oauth_client::EndOauthError::StateNotFound);
}

#[test]
fn token_request_pieces_are_exact() {
    let details = Oauth2Details {
        client_id: "notgull1".to_string(),
        client_secret: "notgull2".to_string(),
        auth_url: "http://a".to_string(),
        token_url: "http://t".to_string(),
        redirect_url: "http://r/cb".to_string(),
    };
    let client = Oauth2Client::initialize_oauth2(details);
    let body = client.token_request_body("co de", "verif");
    assert_eq!(
        body,
        "grant_type=authorization_code&code=co%20de&redirect_uri=http%3A%2F%2Fr%2Fcb&code_verifier=verif"
    );
    let header = client.basic_auth_header();
    let (ci, cs) = auth_core::send_token::decode_authorization(&header).unwrap();
    assert_eq!(ci, "notgull1");
    assert_eq!(cs, "notgull2");
}

#[test]
fn session_expiry_sweep() {
    let mut sessions = SessionTable::new();
    sessions.create_login_session("past".to_string(), 10, None, 1, 1);
    sessions.create_login_session("future".to_string(), 1000, None, 1, 2);
    sessions.clear_expired_sessions(20);
    assert!(sessions.session(&"past".to_string()).is_none());
    let kept = sessions.session(&"future".to_string()).unwrap();
    assert_eq!(kept.id, 2);
}

#[test]
fn set_session_name_survives_missing_session() {
    let mut sessions = SessionTable::new();
    sessions.set_session_name(&"ghost".to_string(), "name".to_string());
    assert!(sessions.session(&"ghost".to_string()).is_none());
}

#[test]
fn route_guard_checks_csrf_before_permissions() {
    let guard = initialize_csrf_test();
    let sessions = initialize_auth_test(0);
    let privileged = sessions.session(&fake_access_token().to_string()).unwrap();
    let anonymous: Option<&auth_core::session::Session> = None;

    // no cookie at all
    let e = route_guard(&guard, b"x=1".to_vec(), None, anonymous, Permissions(1)).unwrap_err();
    assert_eq!(e, ModelError::Csrf(CsrfError::CookieNotFound));

    // bad CSRF and no permissions: the CSRF failure is what is reported
    let pair = guard.generate_csrf_pair().unwrap();
    let other = guard.generate_csrf_pair().unwrap();
    let body = format!("csrf_token={}", urlencode(&pair.token)).into_bytes();
    let e = route_guard(&guard, body.clone(), Some(other.cookie), anonymous, Permissions(1))
        .unwrap_err();
    assert_eq!(e, ModelError::Csrf(CsrfError::VerificationFailed));

    // good CSRF, not enough permission
    let e = route_guard(&guard, body.clone(), Some(pair.cookie.clone()), anonymous, Permissions(1))
        .unwrap_err();
    assert_eq!(e, ModelError::PermissionDenied);

    // good CSRF and permission: the body comes back untouched
    let out = route_guard(
        &guard,
        body.clone(),
        Some(pair.cookie),
        Some(&privileged),
        Permissions(1),
    )
    .unwrap();
    assert_eq!(out, body);
}

#[test]
fn set_username_test() {
    let guard = initialize_csrf_test();
    let mut sessions = initialize_auth_test(0);
    let pair = guard.generate_csrf_pair().unwrap();
    let body = format!(
        r#"{{"username":"Spawn Spencer","csrf_token":"{}","csrf_cookie":"{}"}}"#,
        pair.token, pair.cookie
    );
    let at = fake_access_token().to_string();
    let (id, access, username) = set_username_begin(
        &guard,
        &sessions,
        body.into_bytes(),
        Some(pair.cookie),
        Some(at.clone()),
    )
    .unwrap();
    assert_eq!(id, 1);
    assert_eq!(username, "Spawn Spencer");
    // the database collaborator persists the change; then the session is renamed
    sessions.set_session_name(&access, username);
    assert_eq!(sessions.session(&at).unwrap().name.unwrap(), "Spawn Spencer");
}

#[test]
fn fewer_perms_session_is_denied() {
    let guard = initialize_csrf_test();
    let sessions = initialize_auth_test(0);
    let weak = sessions.session(&fake_access_token_fewer_perms().to_string()).unwrap();
    let pair = guard.generate_csrf_pair().unwrap();
    let body = format!("csrf_token={}", urlencode(&pair.token)).into_bytes();
    let e = route_guard(&guard, body, Some(pair.cookie), Some(&weak), Permissions(1)).unwrap_err();
    assert_eq!(e, ModelError::PermissionDenied);
}

#[test]
fn page_render_state_gates_and_issues_tokens() {
    let guard = initialize_csrf_test();
    let sessions = initialize_auth_test(0);
    let weak = sessions.session(&fake_access_token_fewer_perms().to_string()).unwrap();

    let e = auth_core::pagerender::page_render_state(&guard, Some(&weak), 0b10, true).unwrap_err();
    assert_eq!(e, auth_core::pagerender::PageRenderError::PermissionDenied);

    let mut state = auth_core::pagerender::page_render_state(&guard, Some(&weak), 0, true).unwrap();
    let (token, cookie) = state.csrf_tokens();
    guard.verify_csrf_pair(Base64CsrfPair { token, cookie }).unwrap();
    let options = state.template_options();
    assert!(options.csrf_tokens.is_none());
    assert_eq!(options.id, Some(2));
}
