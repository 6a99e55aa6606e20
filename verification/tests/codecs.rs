//! The text codecs under the protocol: identity tokens, JSON claims,
//! parsing helpers, and the model error texts.

use auth_core::jwt::{build_id_token_claims, decode_id_token_sub, jwt_encode_claims};
use auth_core::router::model_error_text;
use auth_core::send_token::token_error_text;
use auth_core::userstore::DatabaseError;

#[test]
fn id_token_claims_exact() {
    let claims = build_id_token_claims("iss", "sub-1", "aud", 100, 90, 90, "nick");
    assert_eq!(
        String::from_utf8(claims).unwrap(),
        r#"{"iss":"iss","sub":"sub-1","aud":"aud","exp":100,"iat":90,"auth_time":90,"nickname":"nick"}"#
    );
}

#[test]
fn id_token_claims_escape_quotes() {
    let claims = build_id_token_claims("i", "s", "a", 0, 0, 0, "ni\"ck\\");
    assert_eq!(
        String::from_utf8(claims).unwrap(),
        r#"{"iss":"i","sub":"s","aud":"a","exp":0,"iat":0,"auth_time":0,"nickname":"ni\"ck\\"}"#
    );
}

#[test]
fn issued_token_carries_its_subject() {
    let claims = build_id_token_claims("notgull2", "user-uuid-17", "client", 3599, 0, 0, "name");
    let token = jwt_encode_claims(&claims, "notgull3").unwrap();
    assert_eq!(token.matches('.').count(), 2);
    let sub = decode_id_token_sub(&token).unwrap();
    assert_eq!(sub, "user-uuid-17");
}

#[test]
fn subject_decode_rejects_junk() {
    assert!(decode_id_token_sub("no-dots-here").is_none());
    assert!(decode_id_token_sub("a.!notbase64!.c").is_none());
}

#[test]
fn token_response_defaults_lifetime() {
    let body = br#"{"access_token":"a","id_token":"b"}"#;
    let tok = auth_core::oauth_client::parse_token_response(body).unwrap();
    assert_eq!(tok.expires_in, 86400);

    let e = auth_core::oauth_client::parse_token_response(br#"{"access_token":"a"}"#).unwrap_err();
    assert_eq!(e, auth_core::oauth_client::EndOauthError::Json);
}

#[test]
fn error_texts_are_exact() {
    let (code, desc) = model_error_text(&auth_core::router::ModelError::Database(
        DatabaseError::NotFound,
    ));
    assert_eq!(code, 404);
    assert_eq!(desc, "Unable to find the specified model");

    let (code, desc) = model_error_text(&auth_core::router::ModelError::PermissionDenied);
    assert_eq!(code, 401);
    assert_eq!(desc, "Permission denied");

    let (body, code) = token_error_text(&auth_core::send_token::TokenError::NotAuthorizationCode);
    assert_eq!(code, 400);
    assert_eq!(body.error, "unsupported_grant_type");
    assert_eq!(body.error_description, "We only support authorization code grant");

    let (desc, code) = auth_core::authorize::authorize_error_text(
        &auth_core::authorize::AuthorizeError::NotCodeFlow,
    );
    assert_eq!(code, 400);
    assert_eq!(desc, "Code flow was not set");
}

#[test]
fn login_form_substitutes_markers() {
    let template = "<form action=\"%%base_url%%/login\">%%redirect_url%%</form> %%base_url%%";
    let page = auth_core::forms::login_form(template, "https://x", "https://cb").unwrap();
    assert_eq!(page, "<form action=\"https://x/login\">https://cb</form> https://x");
    assert_eq!(auth_core::forms::login_form("plain", "a", "b").unwrap(), "plain");
}

#[test]
fn username_change_touches_only_the_name() {
    let change = auth_core::store::username_change("Burton Guster".to_string());
    assert!(change.uuid.is_none());
    assert!(change.roles.is_none());
    assert_eq!(change.name.unwrap(), "Burton Guster");
}

#[test]
fn sweeping_both_tables_together() {
    let details = auth_core::oauth_client::Oauth2Details {
        client_id: "c".to_string(),
        client_secret: "s".to_string(),
        auth_url: "http://a".to_string(),
        token_url: "http://t".to_string(),
        redirect_url: "http://r".to_string(),
    };
    let mut client = auth_core::oauth_client::Oauth2Client::initialize_oauth2(details);
    let mut sessions = auth_core::session::SessionTable::new();
    let (_, state) = client.begin_oauth2_handshake(0);
    sessions.create_login_session("soon".to_string(), 10, None, 0, 1);
    auth_core::session::clear_expired_auth(&mut client, &mut sessions, 100_000);
    assert!(sessions.session(&"soon".to_string()).is_none());
    assert_eq!(
        client.take_state(&state, 100_000).unwrap_err(),
        auth_core::oauth_client::EndOauthError::StateNotFound
    );
}
