//! The session table: one entry per logged-in user, keyed by the access
//! token handed out when the handshake resolved, read on every
//! authenticated request and swept past its expiry.

use crate::oauth_client::{flow_states_swept, Oauth2Client};
use crate::perms::Permissions;
use vstd::prelude::*;
use vstd::string::StringExecFns;

verus! {

/// One login session.
#[derive(Clone, Debug)]
pub struct Session {
    pub name: Option<String>,
    pub roles: Permissions,
    pub id: i32,
    pub access_token: String,
    pub expires: u64,
}

/// Mathematical image of a `Session`.
pub ghost struct SessionModel {
    pub name: Option<Seq<char>>,
    pub roles: Permissions,
    pub id: i32,
    pub access_token: Seq<char>,
    pub expires: u64,
}

impl View for Session {
    type V = SessionModel;

    open spec fn view(&self) -> SessionModel {
        SessionModel {
            name: match self.name {
                Some(n) => Some(n@),
                None => None,
            },
            roles: self.roles,
            id: self.id,
            access_token: self.access_token@,
            expires: self.expires,
        }
    }
}

/// What the session table holds, keyed by access token.
pub uninterp spec fn sessions_model(m: dashmap::DashMap<String, Session>) -> Map<
    Seq<char>,
    SessionModel,
>;

/// The model of an empty session table.
pub open spec fn no_sessions() -> Map<Seq<char>, SessionModel> {
    Map::empty()
}

/// A session is still valid strictly before its expiry.
pub open spec fn session_live(s: SessionModel, now: u64) -> bool {
    s.expires > now
}

/// What one sweep at the given time leaves: exactly the live sessions.
pub open spec fn sessions_swept(m: Map<Seq<char>, SessionModel>, now: u64) -> Map<
    Seq<char>,
    SessionModel,
> {
    m.restrict(m.dom().filter(|k: Seq<char>| session_live(m[k], now)))
}

fn session_is_live(s: &Session, now: u64) -> (r: bool)
    ensures
        r == session_live(s@, now),
{
    s.expires > now
}

/// Relies on dashmap::DashMap::new: a freshly built map is empty.
#[verifier::external_body]
fn sessions_new() -> (r: dashmap::DashMap<String, Session>)
    ensures
        sessions_model(r) == no_sessions(),
{
    dashmap::DashMap::new()
}

/// Relies on dashmap::DashMap::insert: maps the key to the value,
/// replacing any entry the key had.
#[verifier::external_body]
fn sessions_insert(m: &mut dashmap::DashMap<String, Session>, k: String, v: Session)
    ensures
        sessions_model(*final(m)) == sessions_model(*old(m)).insert(k@, v@),
{
    m.insert(k, v);
}

/// Relies on dashmap::DashMap::get: reads the key's entry, if any, and
/// hands out a copy of it; the map is unchanged.
#[verifier::external_body]
fn sessions_get(m: &dashmap::DashMap<String, Session>, k: &String) -> (r: Option<Session>)
    ensures
        match r {
            Some(v) => sessions_model(*m).contains_key(k@) && v@ == sessions_model(*m)[k@],
            None => !sessions_model(*m).contains_key(k@),
        },
{
    m.get(k).map(|e| e.value().clone())
}

/// Relies on dashmap::DashMap::retain: keeps exactly the entries the
/// predicate accepts; the predicate itself is the verified liveness check.
#[verifier::external_body]
fn sessions_sweep(m: &mut dashmap::DashMap<String, Session>, now: u64)
    ensures
        sessions_model(*final(m)) == sessions_swept(sessions_model(*old(m)), now),
{
    m.retain(|_, v| session_is_live(v, now));
}

/// The table of live sessions.
pub struct SessionTable {
    map: dashmap::DashMap<String, Session>,
}

impl View for SessionTable {
    type V = Map<Seq<char>, SessionModel>;

    closed spec fn view(&self) -> Map<Seq<char>, SessionModel> {
        sessions_model(self.map)
    }
}

impl SessionTable {
    /// An empty session table.
    pub fn new() -> (r: SessionTable)
        ensures
            r@ == no_sessions(),
    {
        SessionTable { map: sessions_new() }
    }

    /// Record the session created for a resolved login: the access token
    /// maps to the user's row and the given expiry.
    pub fn create_login_session(
        &mut self,
        access_token: String,
        expires: u64,
        name: Option<String>,
        roles: i64,
        id: i32,
    )
        ensures
            final(self)@ == old(self)@.insert(
                access_token@,
                SessionModel {
                    name: match name {
                        Some(n) => Some(n@),
                        None => None,
                    },
                    roles: Permissions(roles),
                    id: id,
                    access_token: access_token@,
                    expires: expires,
                },
            ),
    {
        let session = Session {
            name,
            roles: Permissions(roles),
            id,
            access_token: access_token.clone(),
            expires,
        };
        sessions_insert(&mut self.map, access_token, session);
    }

    /// Look up the session under an access token, as a copy.
    pub fn session(&self, access: &String) -> (r: Option<Session>)
        ensures
            match r {
                Some(s) => self@.contains_key(access@) && s@ == self@[access@],
                None => !self@.contains_key(access@),
            },
    {
        sessions_get(&self.map, access)
    }

    /// Set the display name of one session; nothing happens when the
    /// session is gone, as it may be after a race with the sweeper.
    pub fn set_session_name(&mut self, access: &String, name: String)
        ensures
            final(self)@ == if old(self)@.contains_key(access@) {
                old(self)@.insert(
                    access@,
                    SessionModel { name: Some(name@), ..old(self)@[access@] },
                )
            } else {
                old(self)@
            },
    {
        match sessions_get(&self.map, access) {
            Some(mut s) => {
                s.name = Some(name);
                sessions_insert(&mut self.map, access.clone(), s);
            },
            None => (),
        }
    }

    /// Drop every session whose expiry has passed.
    pub fn clear_expired_sessions(&mut self, now: u64)
        ensures
            final(self)@ == sessions_swept(old(self)@, now),
    {
        sessions_sweep(&mut self.map, now);
    }
}

/// The access token of the privileged test session.
pub fn fake_access_token() -> (r: &'static str)
    ensures
        r@ == "fakeAccessToken"@,
{
    "fakeAccessToken"
}

/// The access token of the unprivileged test session.
pub fn fake_access_token_fewer_perms() -> (r: &'static str)
    ensures
        r@ == "fewerPerms"@,
{
    "fewerPerms"
}

/// A session table holding the two fixed test sessions: one with every
/// permission bit, one with none, both valid for about a year.
pub fn initialize_auth_test(now: u64) -> (r: SessionTable)
    ensures
        r@.contains_key("fakeAccessToken"@),
        r@["fakeAccessToken"@].roles == Permissions(0xFFFFFFFF),
        r@["fakeAccessToken"@].id == 1,
        r@.contains_key("fewerPerms"@),
        r@["fewerPerms"@].roles == Permissions(0),
        r@["fewerPerms"@].id == 2,
        now <= u64::MAX - 31536000 ==> session_live(r@["fakeAccessToken"@], now) && session_live(
            r@["fewerPerms"@],
            now,
        ),
{
    let mut t = SessionTable::new();
    let expires: u64 = if now <= u64::MAX - 31536000 {
        now + 31536000
    } else {
        u64::MAX
    };
    t.create_login_session(
        String::from_str("fakeAccessToken"),
        expires,
        Some(String::from_str("John Notgull")),
        0xFFFFFFFF,
        1,
    );
    t.create_login_session(
        String::from_str("fewerPerms"),
        expires,
        Some(String::from_str("Brad Bradley")),
        0,
        2,
    );
    proof {
        reveal_strlit("fakeAccessToken");
        reveal_strlit("fewerPerms");
        assert("fakeAccessToken"@.len() != "fewerPerms"@.len());
    }
    t
}

/// One pass of the periodic auth sweep: expired handshake states and
/// expired sessions are dropped together.
pub fn clear_expired_auth(oauth: &mut Oauth2Client, sessions: &mut SessionTable, now: u64)
    ensures
        final(oauth).spec_details() == old(oauth).spec_details(),
        final(oauth).states() == flow_states_swept(old(oauth).states(), now),
        final(sessions)@ == sessions_swept(old(sessions)@, now),
{
    oauth.clear_expired_states(now);
    sessions.clear_expired_sessions(now);
}

/// A session stored with an expiry in the past is gone after one sweep;
/// one stored with a future expiry survives it unchanged.
pub proof fn lemma_session_expiry_sweep(
    m: Map<Seq<char>, SessionModel>,
    k: Seq<char>,
    s: SessionModel,
    now: u64,
)
    ensures
        !session_live(s, now) ==> !sessions_swept(m.insert(k, s), now).contains_key(k),
        session_live(s, now) ==> sessions_swept(m.insert(k, s), now).contains_key(k)
            && sessions_swept(m.insert(k, s), now)[k] == s,
{
}

} // verus!
