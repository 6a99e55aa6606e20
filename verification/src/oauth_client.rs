//! Client side of the OAuth2 authorization-code handshake: the table of
//! in-flight states (PKCE verifier and expiry, keyed by the CSRF state
//! value) and the steps of the handshake that compute rather than talk to
//! the network.

use crate::formenc::urlencode_component;
use crate::formenc::urlencoded_str;
use crate::jsonio::{get_json_string_field, get_json_u64_field, json_string_field, json_u64_field};
use crate::textenc::{b64_bytes, b64_encode};
use vstd::prelude::*;
use vstd::string::{StrSliceExecFns, StringExecFns};
use vstd::utf8::encode_utf8;

verus! {

/// One in-flight handshake: the PKCE verifier to present at the token
/// endpoint and the moment the state stops being acceptable.
pub struct FlowState {
    pub pkce_verifier: String,
    pub expires_at: u64,
}

/// Mathematical image of a `FlowState`.
pub ghost struct FlowStateModel {
    pub pkce_verifier: Seq<char>,
    pub expires_at: u64,
}

impl View for FlowState {
    type V = FlowStateModel;

    open spec fn view(&self) -> FlowStateModel {
        FlowStateModel { pkce_verifier: self.pkce_verifier@, expires_at: self.expires_at }
    }
}

/// What the table of in-flight states holds, keyed by the state value.
pub uninterp spec fn flow_states(m: dashmap::DashMap<String, FlowState>) -> Map<
    Seq<char>,
    FlowStateModel,
>;

/// A state entry is still acceptable strictly before its expiry.
pub open spec fn flow_state_live(v: FlowStateModel, now: u64) -> bool {
    v.expires_at > now
}

fn flow_state_is_live(v: &FlowState, now: u64) -> (r: bool)
    ensures
        r == flow_state_live(v@, now),
{
    v.expires_at > now
}

/// The model of a state table with no entries.
pub open spec fn flow_states_empty() -> Map<Seq<char>, FlowStateModel> {
    Map::empty()
}

/// What one sweep at the given time leaves: exactly the live states.
pub open spec fn flow_states_swept(m: Map<Seq<char>, FlowStateModel>, now: u64) -> Map<
    Seq<char>,
    FlowStateModel,
> {
    m.restrict(m.dom().filter(|k: Seq<char>| flow_state_live(m[k], now)))
}

/// Relies on dashmap::DashMap::new: a freshly built map is empty.
#[verifier::external_body]
fn flow_states_new() -> (r: dashmap::DashMap<String, FlowState>)
    ensures
        flow_states(r) == flow_states_empty(),
{
    dashmap::DashMap::new()
}

/// Relies on dashmap::DashMap::insert: maps the key to the value,
/// replacing any entry the key had.
#[verifier::external_body]
fn flow_states_insert(m: &mut dashmap::DashMap<String, FlowState>, k: String, v: FlowState)
    ensures
        flow_states(*final(m)) == flow_states(*old(m)).insert(k@, v@),
{
    m.insert(k, v);
}

/// Relies on dashmap::DashMap::remove: takes the key's entry out and hands
/// it back, or does nothing when the key is absent.
#[verifier::external_body]
fn flow_states_remove(m: &mut dashmap::DashMap<String, FlowState>, k: &String) -> (r: Option<
    FlowState,
>)
    ensures
        match r {
            Some(v) => flow_states(*old(m)).contains_key(k@) && v@ == flow_states(*old(m))[k@]
                && flow_states(*final(m)) == flow_states(*old(m)).remove(k@),
            None => !flow_states(*old(m)).contains_key(k@) && flow_states(*final(m)) == flow_states(
                *old(m),
            ),
        },
{
    m.remove(k).map(|kv| kv.1)
}

/// Relies on dashmap::DashMap::retain: keeps exactly the entries the
/// predicate accepts; the predicate itself is the verified liveness check.
#[verifier::external_body]
fn flow_states_sweep(m: &mut dashmap::DashMap<String, FlowState>, now: u64)
    ensures
        flow_states(*final(m)) == flow_states_swept(flow_states(*old(m)), now),
{
    m.retain(|_, v| flow_state_is_live(v, now));
}

/// How the handshake fails once it is underway.
#[derive(Clone, Copy, Debug, PartialEq, Eq, Structural)]
pub enum EndOauthError {
    /// A form-urlencoded payload would not parse.
    UrlEncode,
    /// The token endpoint's answer would not parse.
    Json,
    /// The transport to the identity provider failed.
    Transport,
    /// The identity provider answered with an OAuth-shaped error.
    Oauth,
    /// The local user the identity token names could not be resolved.
    Database,
    /// The identity token could not be read.
    Jwt,
    /// The presented state is unknown, already consumed, or expired.
    StateNotFound,
    /// The provider reported a failure in its own words.
    Msg,
}

/// The configured details of the outside identity provider.
pub struct Oauth2Details {
    pub client_id: String,
    pub client_secret: String,
    pub auth_url: String,
    pub token_url: String,
    pub redirect_url: String,
}

/// The client side of the handshake: provider details and the table of
/// in-flight states.
pub struct Oauth2Client {
    pub details: Oauth2Details,
    extant_states: dashmap::DashMap<String, FlowState>,
}

/// The S256 challenge of a PKCE verifier: URL-safe base64 of the SHA-256
/// of the verifier's bytes, a function of the verifier alone.
pub uninterp spec fn s256_challenge(verifier: Seq<char>) -> Seq<char>;

/// Relies on oauth2::PkceCodeChallenge::new_random_sha256: a fresh random
/// PKCE verifier, and its challenge, which is the S256 of that verifier.
#[verifier::external_body]
fn new_pkce_pair() -> (r: (String, String))
    ensures
        r.0@ == s256_challenge(r.1@),
{
    let (c, v) = oauth2::PkceCodeChallenge::new_random_sha256();
    (c.as_str().to_owned(), v.secret().clone())
}

/// Relies on oauth2::CsrfToken::new_random: a fresh random state value.
#[verifier::external_body]
fn new_state_value() -> (r: String)
{
    oauth2::CsrfToken::new_random().secret().clone()
}

/// How long an issued state stays acceptable: fifteen minutes.
pub open spec fn state_expiry(now: u64) -> u64 {
    if now + 900 <= u64::MAX {
        (now + 900) as u64
    } else {
        u64::MAX
    }
}

/// The authorize redirect: the provider's authorize URL carrying the code
/// flow, this client, the state, and the PKCE challenge.
pub open spec fn authorize_url_spec(d: Oauth2Details, state: Seq<char>, challenge: Seq<char>) -> Seq<
    char,
> {
    d.auth_url@ + "?response_type=code&client_id="@ + urlencoded_str(d.client_id@) + "&state="@
        + urlencoded_str(state) + "&code_challenge="@ + urlencoded_str(challenge)
        + "&code_challenge_method=S256&redirect_uri="@ + urlencoded_str(d.redirect_url@)
        + "&scope=openid"@
}

/// What taking a state out of the table does: an unknown state changes
/// nothing; a known one is consumed, and its verifier released only if
/// the state has not expired.
pub open spec fn take_spec(m: Map<Seq<char>, FlowStateModel>, state: Seq<char>, now: u64) -> (
    Map<Seq<char>, FlowStateModel>,
    Result<Seq<char>, EndOauthError>,
) {
    if !m.contains_key(state) {
        (m, Err(EndOauthError::StateNotFound))
    } else if m[state].expires_at <= now {
        (m.remove(state), Err(EndOauthError::StateNotFound))
    } else {
        (m.remove(state), Ok(m[state].pkce_verifier))
    }
}

impl Oauth2Client {
    /// The table of in-flight states.
    pub closed spec fn states(&self) -> Map<Seq<char>, FlowStateModel> {
        flow_states(self.extant_states)
    }

    /// The provider details the client was set up with.
    pub closed spec fn spec_details(&self) -> Oauth2Details {
        self.details
    }

    /// Set up the handshake client for one identity provider.
    pub fn initialize_oauth2(details: Oauth2Details) -> (r: Oauth2Client)
        ensures
            r.spec_details() == details,
            r.states() == flow_states_empty(),
    {
        Oauth2Client { details, extant_states: flow_states_new() }
    }

    /// Start a handshake: draw a state and a PKCE pair, remember the
    /// verifier under the state for fifteen minutes, and hand back the
    /// authorize redirect, whose challenge is the S256 of the stored
    /// verifier, together with the state it carries.
    pub fn begin_oauth2_handshake(&mut self, now: u64) -> (r: (String, String))
        ensures
            final(self).spec_details() == old(self).spec_details(),
            final(self).states().contains_key(r.1@),
            final(self).states()[r.1@].expires_at == state_expiry(now),
            final(self).states() == old(self).states().insert(r.1@, final(self).states()[r.1@]),
            r.0@ == authorize_url_spec(
                old(self).spec_details(),
                r.1@,
                s256_challenge(final(self).states()[r.1@].pkce_verifier),
            ),
    {
        let (challenge, verifier) = new_pkce_pair();
        let state = new_state_value();
        let expires_at: u64 = if now <= u64::MAX - 900 {
            now + 900
        } else {
            u64::MAX
        };
        let mut url = self.details.auth_url.clone();
        url.append("?response_type=code&client_id=");
        url.append(urlencode_component(self.details.client_id.as_str()).as_str());
        url.append("&state=");
        url.append(urlencode_component(state.as_str()).as_str());
        url.append("&code_challenge=");
        url.append(urlencode_component(challenge.as_str()).as_str());
        url.append("&code_challenge_method=S256&redirect_uri=");
        url.append(urlencode_component(self.details.redirect_url.as_str()).as_str());
        url.append("&scope=openid");
        let ghost vf: Seq<char> = verifier@;
        flow_states_insert(
            &mut self.extant_states,
            state.clone(),
            FlowState { pkce_verifier: verifier, expires_at },
        );
        proof {
            assert(flow_states(self.extant_states)[state@].pkce_verifier == vf);
            assert(url@ == authorize_url_spec(
                old(self).spec_details(),
                state@,
                s256_challenge(vf),
            ));
        }
        (url, state)
    }

    /// Consume the entry under a state: each issued state is taken at most
    /// once, and an expired one counts as never seen.
    pub fn take_state(&mut self, state: &String, now: u64) -> (r: Result<String, EndOauthError>)
        ensures
            final(self).spec_details() == old(self).spec_details(),
            final(self).states() == take_spec(old(self).states(), state@, now).0,
            match (r, take_spec(old(self).states(), state@, now).1) {
                (Ok(v), Ok(w)) => v@ == w,
                (Err(a), Err(b)) => a == b,
                _ => false,
            },
    {
        match flow_states_remove(&mut self.extant_states, state) {
            None => Err(EndOauthError::StateNotFound),
            Some(entry) => {
                if entry.expires_at <= now {
                    Err(EndOauthError::StateNotFound)
                } else {
                    Ok(entry.pkce_verifier)
                }
            },
        }
    }

    /// Drop every state whose window has passed.
    pub fn clear_expired_states(&mut self, now: u64)
        ensures
            final(self).spec_details() == old(self).spec_details(),
            final(self).states() == flow_states_swept(old(self).states(), now),
    {
        flow_states_sweep(&mut self.extant_states, now);
    }

    /// The body of the token-exchange request for a received code.
    pub fn token_request_body(&self, code: &str, verifier: &str) -> (r: String)
        ensures
            r@ == token_request_body_spec(code@, self.spec_details().redirect_url@, verifier@),
    {
        let mut body = String::from_str("grant_type=authorization_code&code=");
        body.append(urlencode_component(code).as_str());
        body.append("&redirect_uri=");
        body.append(urlencode_component(self.details.redirect_url.as_str()).as_str());
        body.append("&code_verifier=");
        body.append(urlencode_component(verifier).as_str());
        body
    }

    /// The Basic authorization header carrying this client's credentials.
    pub fn basic_auth_header(&self) -> (r: String)
        ensures
            r@.len() >= 6,
            r@.take(6) == "Basic "@,
            b64_bytes(r@.skip(6)) == Some(
                encode_utf8(self.spec_details().client_id@) + seq![0x3au8] + encode_utf8(
                    self.spec_details().client_secret@,
                ),
            ),
    {
        proof {
            reveal_strlit("Basic ");
        }
        let mut creds: Vec<u8> = self.details.client_id.as_str().as_bytes_vec();
        creds.push(0x3a);
        let mut secret_bytes: Vec<u8> = self.details.client_secret.as_str().as_bytes_vec();
        creds.append(&mut secret_bytes);
        let mut header = String::from_str("Basic ");
        let encoded = b64_encode(creds.as_slice());
        header.append(encoded.as_str());
        proof {
            assert(header@.take(6) =~= "Basic "@);
            assert(header@.skip(6) =~= encoded@);
            assert(creds@ =~= encode_utf8(self.spec_details().client_id@) + seq![0x3au8]
                + encode_utf8(self.spec_details().client_secret@));
        }
        header
    }
}

/// The body of the token-exchange request: the code flow grant with the
/// code, the registered redirect URI, and the PKCE verifier.
pub open spec fn token_request_body_spec(
    code: Seq<char>,
    redirect_url: Seq<char>,
    verifier: Seq<char>,
) -> Seq<char> {
    "grant_type=authorization_code&code="@ + urlencoded_str(code) + "&redirect_uri="@
        + urlencoded_str(redirect_url) + "&code_verifier="@ + urlencoded_str(verifier)
}

/// What the token endpoint answered with.
#[derive(Debug)]
pub struct TokenResponseData {
    pub access_token: String,
    pub id_token: String,
    pub expires_in: u64,
}

/// The lifetime a token response grants: what it says, or a day.
pub open spec fn granted_expires_in(body: Seq<u8>) -> u64 {
    match json_u64_field(body, "expires_in"@) {
        Some(n) => n,
        None => 86400,
    }
}

/// Read the fields of a token response the handshake needs: the access
/// token and identity token must be there; a missing lifetime means one
/// day.
pub fn parse_token_response(body: &[u8]) -> (r: Result<TokenResponseData, EndOauthError>)
    ensures
        match r {
            Ok(t) => json_string_field(body@, "access_token"@) == Some(t.access_token@)
                && json_string_field(body@, "id_token"@) == Some(t.id_token@) && t.expires_in
                == granted_expires_in(body@),
            Err(e) => e == EndOauthError::Json && (json_string_field(body@, "access_token"@)
                is None || json_string_field(body@, "id_token"@) is None),
        },
{
    let access_token = match get_json_string_field(body, "access_token") {
        Some(t) => t,
        None => {
            return Err(EndOauthError::Json);
        },
    };
    let id_token = match get_json_string_field(body, "id_token") {
        Some(t) => t,
        None => {
            return Err(EndOauthError::Json);
        },
    };
    let expires_in = match get_json_u64_field(body, "expires_in") {
        Some(n) => n,
        None => 86400,
    };
    Ok(TokenResponseData { access_token, id_token, expires_in })
}

/// When the session installed for a granted token runs out: the granted
/// lifetime from now, capped at the end of time.
pub open spec fn session_expiry(now: u64, expires_in: u64) -> u64 {
    if now + expires_in <= u64::MAX {
        (now + expires_in) as u64
    } else {
        u64::MAX
    }
}

/// The tail of the handshake, once the token endpoint has answered: read
/// the grant, read the identity token's subject without verifying its
/// signature, resolve the local user the subject names, and install the
/// session under the granted access token, which is handed back for the
/// cookie.
pub fn complete_oauth2_handshake(
    sessions: &mut crate::session::SessionTable,
    db: &crate::store::MemoryDatabase,
    response_body: &[u8],
    now: u64,
) -> (r: Result<String, EndOauthError>)
    ensures
        match r {
            Ok(at) => {
                &&& json_string_field(response_body@, "access_token"@) == Some(at@)
                &&& (json_string_field(response_body@, "id_token"@) matches Some(idt)
                    && (crate::jwt::id_token_subject(idt) matches Some(sub) && (
                crate::store::find_row_by_uuid(db.rows(), sub) matches Some(k) && final(sessions)@
                    == old(sessions)@.insert(
                    at@,
                    crate::session::SessionModel {
                        name: Some(db.rows()[k].name@),
                        roles: crate::perms::Permissions(db.rows()[k].roles),
                        id: db.rows()[k].id,
                        access_token: at@,
                        expires: session_expiry(now, granted_expires_in(response_body@)),
                    },
                ))))
            },
            Err(e) => {
                &&& final(sessions)@ == old(sessions)@
                &&& match e {
                    EndOauthError::Json => json_string_field(response_body@, "access_token"@)
                        is None || json_string_field(response_body@, "id_token"@) is None,
                    EndOauthError::Jwt => json_string_field(response_body@, "access_token"@)
                        is Some && (json_string_field(response_body@, "id_token"@) matches Some(
                        idt,
                    ) && crate::jwt::id_token_subject(idt) is None),
                    EndOauthError::Database => json_string_field(response_body@, "access_token"@)
                        is Some && (json_string_field(response_body@, "id_token"@) matches Some(
                        idt,
                    ) && (crate::jwt::id_token_subject(idt) matches Some(sub)
                        && crate::store::find_row_by_uuid(db.rows(), sub) is None)),
                    _ => false,
                }
            },
        },
{
    let tok = match parse_token_response(response_body) {
        Ok(t) => t,
        Err(e) => {
            return Err(e);
        },
    };
    let sub = match crate::jwt::decode_id_token_sub(tok.id_token.as_str()) {
        Some(s) => s,
        None => {
            return Err(EndOauthError::Jwt);
        },
    };
    let user = match db.get_user_by_uuid(sub) {
        Ok(u) => u,
        Err(_) => {
            return Err(EndOauthError::Database);
        },
    };
    let expires: u64 = if now <= u64::MAX - tok.expires_in {
        now + tok.expires_in
    } else {
        u64::MAX
    };
    let access_token = tok.access_token;
    sessions.create_login_session(
        access_token.clone(),
        expires,
        Some(user.name),
        user.roles,
        user.id,
    );
    Ok(access_token)
}

/// Each issued state is consumed exactly once: whatever one redemption of
/// a state returned, the entry is gone afterwards, and a second redemption
/// of the same state observes `StateNotFound`.
pub proof fn lemma_state_exactly_once(
    m: Map<Seq<char>, FlowStateModel>,
    state: Seq<char>,
    now1: u64,
    now2: u64,
)
    ensures
        (take_spec(take_spec(m, state, now1).0, state, now2).1 matches Err(e) && e
            == EndOauthError::StateNotFound),
{
}

} // verus!
