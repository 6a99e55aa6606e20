//! State table of the embedded authorization server: pending authorization
//! entries keyed by the opaque authorization code (the `auth_token`), with
//! a secondary index from the public `state` value to that code. An entry
//! is created when `/authorize` is first visited, gains its token payload
//! when the resource owner logs in, and is redeemed exactly once.

use vstd::prelude::*;

verus! {

/// The token payload released when an entry is redeemed.
#[derive(Clone, Debug)]
pub struct AuthData {
    pub access_token: String,
    pub refresh_token: String,
    pub id_token: String,
    pub token_type: String,
    pub expires_in: u64,
}

/// Mathematical image of an `AuthData`.
pub ghost struct AuthDataModel {
    pub access_token: Seq<char>,
    pub refresh_token: Seq<char>,
    pub id_token: Seq<char>,
    pub token_type: Seq<char>,
    pub expires_in: u64,
}

impl View for AuthData {
    type V = AuthDataModel;

    open spec fn view(&self) -> AuthDataModel {
        AuthDataModel {
            access_token: self.access_token@,
            refresh_token: self.refresh_token@,
            id_token: self.id_token@,
            token_type: self.token_type@,
            expires_in: self.expires_in,
        }
    }
}

/// One pending authorization, keyed in the table by its `auth_token`.
#[derive(Clone, Debug)]
pub struct StateTableEntry {
    pub state: String,
    pub auth_token: String,
    pub scopes: String,
    pub client_id: String,
    pub redirect_uri: String,
    pub auth_data: Option<AuthData>,
    pub expiry: u64,
}

/// Mathematical image of a `StateTableEntry`.
pub ghost struct EntryModel {
    pub state: Seq<char>,
    pub auth_token: Seq<char>,
    pub scopes: Seq<char>,
    pub client_id: Seq<char>,
    pub redirect_uri: Seq<char>,
    pub auth_data: Option<AuthDataModel>,
    pub expiry: u64,
}

impl View for StateTableEntry {
    type V = EntryModel;

    open spec fn view(&self) -> EntryModel {
        EntryModel {
            state: self.state@,
            auth_token: self.auth_token@,
            scopes: self.scopes@,
            client_id: self.client_id@,
            redirect_uri: self.redirect_uri@,
            auth_data: match self.auth_data {
                Some(d) => Some(d@),
                None => None,
            },
            expiry: self.expiry,
        }
    }
}

/// What the primary table holds, keyed by auth token.
pub uninterp spec fn entries_model(m: dashmap::DashMap<String, StateTableEntry>) -> Map<
    Seq<char>,
    EntryModel,
>;

/// What the secondary index holds: state value to the authorization code
/// and the expiry the code was stored with.
pub uninterp spec fn statemap_model(m: dashmap::DashMap<String, (String, u64)>) -> Map<
    Seq<char>,
    (Seq<char>, u64),
>;

/// The model of an empty primary table.
pub open spec fn no_entries() -> Map<Seq<char>, EntryModel> {
    Map::empty()
}

/// The model of an empty secondary index.
pub open spec fn no_statemap() -> Map<Seq<char>, (Seq<char>, u64)> {
    Map::empty()
}

/// An index entry is kept strictly before its expiry has passed.
pub open spec fn index_live(v: (Seq<char>, u64), now: u64) -> bool {
    v.1 > now
}

/// What one sweep at the given time leaves of the index: exactly the live
/// entries, the same rule the primary table is swept by.
pub open spec fn statemap_swept(m: Map<Seq<char>, (Seq<char>, u64)>, now: u64) -> Map<
    Seq<char>,
    (Seq<char>, u64),
> {
    m.restrict(m.dom().filter(|k: Seq<char>| index_live(m[k], now)))
}

/// An entry is still redeemable strictly before its expiry has passed.
pub open spec fn entry_live(e: EntryModel, now: u64) -> bool {
    e.expiry > now
}

/// What one sweep at the given time leaves: exactly the live entries.
pub open spec fn entries_swept(m: Map<Seq<char>, EntryModel>, now: u64) -> Map<
    Seq<char>,
    EntryModel,
> {
    m.restrict(m.dom().filter(|k: Seq<char>| entry_live(m[k], now)))
}

fn entry_is_live(e: &StateTableEntry, now: u64) -> (r: bool)
    ensures
        r == entry_live(e@, now),
{
    e.expiry > now
}

fn index_is_live(v: &(String, u64), now: u64) -> (r: bool)
    ensures
        r == index_live((v.0@, v.1), now),
{
    v.1 > now
}

/// Relies on dashmap::DashMap::new: a freshly built map is empty.
#[verifier::external_body]
fn entries_new() -> (r: dashmap::DashMap<String, StateTableEntry>)
    ensures
        entries_model(r) == no_entries(),
{
    dashmap::DashMap::new()
}

/// Relies on dashmap::DashMap::insert: maps the key to the value,
/// replacing any entry the key had.
#[verifier::external_body]
fn entries_insert(m: &mut dashmap::DashMap<String, StateTableEntry>, k: String, v: StateTableEntry)
    ensures
        entries_model(*final(m)) == entries_model(*old(m)).insert(k@, v@),
{
    m.insert(k, v);
}

/// Relies on dashmap::DashMap::get: reads the key's entry, if any, and
/// hands out a copy of it; the map is unchanged.
#[verifier::external_body]
fn entries_get(m: &dashmap::DashMap<String, StateTableEntry>, k: &String) -> (r: Option<
    StateTableEntry,
>)
    ensures
        match r {
            Some(v) => entries_model(*m).contains_key(k@) && v@ == entries_model(*m)[k@],
            None => !entries_model(*m).contains_key(k@),
        },
{
    m.get(k).map(|e| e.value().clone())
}

/// Relies on dashmap::DashMap::remove: takes the key's entry out and hands
/// it back, or does nothing when the key is absent.
#[verifier::external_body]
fn entries_remove(m: &mut dashmap::DashMap<String, StateTableEntry>, k: &String) -> (r: Option<
    StateTableEntry,
>)
    ensures
        match r {
            Some(v) => entries_model(*old(m)).contains_key(k@) && v@ == entries_model(*old(m))[k@]
                && entries_model(*final(m)) == entries_model(*old(m)).remove(k@),
            None => !entries_model(*old(m)).contains_key(k@) && entries_model(*final(m))
                == entries_model(*old(m)),
        },
{
    m.remove(k).map(|kv| kv.1)
}

/// Relies on dashmap::DashMap::retain: keeps exactly the entries the
/// predicate accepts; the predicate itself is the verified liveness check.
#[verifier::external_body]
fn entries_sweep(m: &mut dashmap::DashMap<String, StateTableEntry>, now: u64)
    ensures
        entries_model(*final(m)) == entries_swept(entries_model(*old(m)), now),
{
    m.retain(|_, v| entry_is_live(v, now));
}

/// Relies on dashmap::DashMap::new: a freshly built map is empty.
#[verifier::external_body]
fn statemap_new() -> (r: dashmap::DashMap<String, (String, u64)>)
    ensures
        statemap_model(r) == no_statemap(),
{
    dashmap::DashMap::new()
}

/// Relies on dashmap::DashMap::insert: maps the key to the value,
/// replacing any entry the key had.
#[verifier::external_body]
fn statemap_insert(m: &mut dashmap::DashMap<String, (String, u64)>, k: String, v: (String, u64))
    ensures
        statemap_model(*final(m)) == statemap_model(*old(m)).insert(k@, (v.0@, v.1)),
{
    m.insert(k, v);
}

/// Relies on dashmap::DashMap::get: reads the key's entry, if any, and
/// hands out a copy of it; the map is unchanged.
#[verifier::external_body]
fn statemap_get(m: &dashmap::DashMap<String, (String, u64)>, k: &String) -> (r: Option<
    (String, u64),
>)
    ensures
        match r {
            Some(v) => statemap_model(*m).contains_key(k@) && (v.0@, v.1) == statemap_model(*m)[k@],
            None => !statemap_model(*m).contains_key(k@),
        },
{
    m.get(k).map(|e| e.value().clone())
}

/// Relies on dashmap::DashMap::remove: takes the key's entry out, or does
/// nothing when the key is absent.
#[verifier::external_body]
fn statemap_remove(m: &mut dashmap::DashMap<String, (String, u64)>, k: &String) -> (r: Option<
    (String, u64),
>)
    ensures
        match r {
            Some(v) => statemap_model(*old(m)).contains_key(k@) && (v.0@, v.1) == statemap_model(
                *old(m),
            )[k@] && statemap_model(*final(m)) == statemap_model(*old(m)).remove(k@),
            None => !statemap_model(*old(m)).contains_key(k@) && statemap_model(*final(m))
                == statemap_model(*old(m)),
        },
{
    m.remove(k).map(|kv| kv.1)
}

/// Relies on dashmap::DashMap::retain: keeps exactly the entries the
/// predicate accepts; the predicate itself is the verified liveness check.
#[verifier::external_body]
fn statemap_sweep(m: &mut dashmap::DashMap<String, (String, u64)>, now: u64)
    ensures
        statemap_model(*final(m)) == statemap_swept(statemap_model(*old(m)), now),
{
    m.retain(|_, v| index_is_live(v, now));
}

/// Why the state table refused a request.
#[derive(Clone, Copy, Debug, PartialEq, Eq, Structural)]
pub enum RejectError {
    /// No entry under the presented authorization code.
    EntryNotFound,
    /// The presented state does not match the entry's state.
    StateMismatch,
    /// The presented client id does not match the entry's.
    ClientIdMismatch,
    /// The presented redirect URI does not match the entry's.
    RedirectUriMistmatch,
    /// The resource owner never completed the login.
    NotLoggedIn,
    /// The entry outlived its window.
    Expired,
}

/// Both tables of the store, as one mathematical value.
pub ghost struct StateTableModel {
    pub entries: Map<Seq<char>, EntryModel>,
    pub statemap: Map<Seq<char>, (Seq<char>, u64)>,
}

/// The store of pending authorizations.
pub struct StateTable {
    entries: dashmap::DashMap<String, StateTableEntry>,
    statemap: dashmap::DashMap<String, (String, u64)>,
}

impl View for StateTable {
    type V = StateTableModel;

    closed spec fn view(&self) -> StateTableModel {
        StateTableModel {
            entries: entries_model(self.entries),
            statemap: statemap_model(self.statemap),
        }
    }
}

/// Build an empty state table.
pub fn intiailize_state_table() -> (r: StateTable)
    ensures
        r@.entries == no_entries(),
        r@.statemap == no_statemap(),
{
    StateTable { entries: entries_new(), statemap: statemap_new() }
}

/// How long a pending authorization stays redeemable: one hour.
pub open spec fn entry_expiry(now: u64) -> u64 {
    if now + 3600 <= u64::MAX {
        (now + 3600) as u64
    } else {
        u64::MAX
    }
}

/// The model of a freshly stored entry.
pub open spec fn fresh_entry(
    auth_token: Seq<char>,
    state: Seq<char>,
    scopes: Seq<char>,
    client_id: Seq<char>,
    redirect_uri: Seq<char>,
    now: u64,
) -> EntryModel {
    EntryModel {
        state: state,
        auth_token: auth_token,
        scopes: scopes,
        client_id: client_id,
        redirect_uri: redirect_uri,
        auth_data: None,
        expiry: entry_expiry(now),
    }
}

/// What attaching login data to a state does: nothing on an unknown state,
/// else the entry gains the payload and the code is handed back.
pub open spec fn attach_spec(m: StateTableModel, state: Seq<char>, data: AuthDataModel) -> (
    StateTableModel,
    Result<Seq<char>, RejectError>,
) {
    if !m.statemap.contains_key(state) {
        (m, Err(RejectError::NotLoggedIn))
    } else {
        let tok = m.statemap[state].0;
        if !m.entries.contains_key(tok) {
            (m, Err(RejectError::NotLoggedIn))
        } else {
            let e = m.entries[tok];
            (
                StateTableModel {
                    entries: m.entries.insert(tok, EntryModel { auth_data: Some(data), ..e }),
                    statemap: m.statemap,
                },
                Ok(tok),
            )
        }
    }
}

/// What attaching login data answers, which does not depend on the data:
/// the authorization code under the state, if the state is known.
pub open spec fn attach_result(m: StateTableModel, state: Seq<char>) -> Result<
    Seq<char>,
    RejectError,
> {
    if !m.statemap.contains_key(state) {
        Err(RejectError::NotLoggedIn)
    } else if !m.entries.contains_key(m.statemap[state].0) {
        Err(RejectError::NotLoggedIn)
    } else {
        Ok(m.statemap[state].0)
    }
}

/// Attaching answers the same whatever data is attached.
pub proof fn lemma_attach_result(m: StateTableModel, state: Seq<char>, d: AuthDataModel)
    ensures
        attach_spec(m, state, d).1 == attach_result(m, state),
{
}

/// What redeeming a code does: mismatches leave the table alone; an
/// expired entry is dropped from both tables; a successful redemption also
/// drops the entry from both tables and releases the payload, or reports
/// that the login never completed.
pub open spec fn redeem_spec(
    m: StateTableModel,
    auth_token: Seq<char>,
    client_id: Seq<char>,
    redirect_uri: Seq<char>,
    now: u64,
) -> (StateTableModel, Result<AuthDataModel, RejectError>) {
    if !m.entries.contains_key(auth_token) {
        (m, Err(RejectError::EntryNotFound))
    } else {
        let e = m.entries[auth_token];
        if e.client_id != client_id {
            (m, Err(RejectError::ClientIdMismatch))
        } else if e.redirect_uri != redirect_uri {
            (m, Err(RejectError::RedirectUriMistmatch))
        } else {
            let m2 = StateTableModel {
                entries: m.entries.remove(auth_token),
                statemap: m.statemap.remove(e.state),
            };
            if e.expiry < now {
                (m2, Err(RejectError::Expired))
            } else {
                match e.auth_data {
                    Some(d) => (m2, Ok(d)),
                    None => (m2, Err(RejectError::NotLoggedIn)),
                }
            }
        }
    }
}

impl StateTable {
    /// Store a pending authorization under its code, and index its state.
    pub fn store_entry(
        &mut self,
        auth_token: String,
        state: String,
        scopes: String,
        client_id: String,
        redirect_uri: String,
        now: u64,
    )
        ensures
            final(self)@.entries == old(self)@.entries.insert(
                auth_token@,
                fresh_entry(auth_token@, state@, scopes@, client_id@, redirect_uri@, now),
            ),
            final(self)@.statemap == old(self)@.statemap.insert(
                state@,
                (auth_token@, entry_expiry(now)),
            ),
    {
        let expiry: u64 = if now <= u64::MAX - 3600 {
            now + 3600
        } else {
            u64::MAX
        };
        let entry = StateTableEntry {
            state: state.clone(),
            auth_token: auth_token.clone(),
            scopes,
            client_id,
            redirect_uri,
            auth_data: None,
            expiry,
        };
        entries_insert(&mut self.entries, auth_token.clone(), entry);
        statemap_insert(&mut self.statemap, state, (auth_token, expiry));
    }

    /// Attach the login payload to the entry the state points at, and hand
    /// back the authorization code to give to the client.
    pub fn add_entry_auth_data(&mut self, state: String, auth_data: AuthData) -> (r: Result<
        String,
        RejectError,
    >)
        ensures
            final(self)@ == attach_spec(old(self)@, state@, auth_data@).0,
            match (r, attach_spec(old(self)@, state@, auth_data@).1) {
                (Ok(tok), Ok(t)) => tok@ == t,
                (Err(a), Err(b)) => a == b,
                _ => false,
            },
    {
        let tok = match statemap_get(&self.statemap, &state) {
            Some(p) => p.0,
            None => {
                return Err(RejectError::NotLoggedIn);
            },
        };
        let mut entry = match entries_get(&self.entries, &tok) {
            Some(e) => e,
            None => {
                return Err(RejectError::NotLoggedIn);
            },
        };
        entry.auth_data = Some(auth_data);
        entries_insert(&mut self.entries, tok.clone(), entry);
        Ok(tok)
    }

    /// Redeem an authorization code: check the client id and redirect URI
    /// against the stored ones, drop the entry, and release the payload.
    /// A second redemption of the same code finds nothing.
    pub fn check_entry(
        &mut self,
        auth_token: String,
        client_id: String,
        redirect_uri: String,
        now: u64,
    ) -> (r: Result<AuthData, RejectError>)
        ensures
            final(self)@ == redeem_spec(old(self)@, auth_token@, client_id@, redirect_uri@, now).0,
            match (r, redeem_spec(old(self)@, auth_token@, client_id@, redirect_uri@, now).1) {
                (Ok(d), Ok(dm)) => d@ == dm,
                (Err(a), Err(b)) => a == b,
                _ => false,
            },
    {
        let entry = match entries_get(&self.entries, &auth_token) {
            Some(e) => e,
            None => {
                return Err(RejectError::EntryNotFound);
            },
        };
        if !strings_equal(&entry.client_id, &client_id) {
            return Err(RejectError::ClientIdMismatch);
        }
        if !strings_equal(&entry.redirect_uri, &redirect_uri) {
            return Err(RejectError::RedirectUriMistmatch);
        }
        let removed = entries_remove(&mut self.entries, &auth_token);
        statemap_remove(&mut self.statemap, &entry.state);
        proof {
            if !old(self)@.statemap.contains_key(entry@.state) {
                assert(old(self)@.statemap.remove(entry@.state) =~= old(self)@.statemap);
            }
        }
        if entry.expiry < now {
            return Err(RejectError::Expired);
        }
        match removed {
            Some(e) => match e.auth_data {
                Some(d) => Ok(d),
                None => Err(RejectError::NotLoggedIn),
            },
            None => vstd::pervasive::unreached(),
        }
    }

    /// Drop every entry whose window has passed, from the primary table
    /// and from the state index together: an expired authorization
    /// vanishes from both.
    pub fn clear_expired_entries(&mut self, now: u64)
        ensures
            final(self)@.entries == entries_swept(old(self)@.entries, now),
            final(self)@.statemap == statemap_swept(old(self)@.statemap, now),
    {
        entries_sweep(&mut self.entries, now);
        statemap_sweep(&mut self.statemap, now);
    }

    /// Read a copy of the entry stored under an authorization code.
    pub fn entry_for(&self, auth_token: &String) -> (r: Option<StateTableEntry>)
        ensures
            match r {
                Some(e) => self@.entries.contains_key(auth_token@) && e@ == self@.entries[
                    auth_token@
                ],
                None => !self@.entries.contains_key(auth_token@),
            },
    {
        entries_get(&self.entries, auth_token)
    }

    /// Read the authorization code a state value is indexed under.
    pub fn state_token(&self, state: &String) -> (r: Option<String>)
        ensures
            match r {
                Some(t) => self@.statemap.contains_key(state@) && t@ == self@.statemap[state@].0,
                None => !self@.statemap.contains_key(state@),
            },
    {
        match statemap_get(&self.statemap, state) {
            Some(p) => Some(p.0),
            None => None,
        }
    }
}

fn strings_equal(a: &String, b: &String) -> (r: bool)
    ensures
        r == (a@ == b@),
{
    *a == *b
}

/// Redemption is single-use: once a redemption has released a payload, the
/// entry is gone, and any further redemption of the same code fails with
/// `EntryNotFound`, whatever client id, redirect URI, or time it presents.
pub proof fn lemma_redeem_single_use(
    m: StateTableModel,
    auth_token: Seq<char>,
    client_id: Seq<char>,
    redirect_uri: Seq<char>,
    now: u64,
    client_id2: Seq<char>,
    redirect_uri2: Seq<char>,
    now2: u64,
)
    requires
        redeem_spec(m, auth_token, client_id, redirect_uri, now).1 is Ok,
    ensures
        (redeem_spec(
            redeem_spec(m, auth_token, client_id, redirect_uri, now).0,
            auth_token,
            client_id2,
            redirect_uri2,
            now2,
        ).1 matches Err(e) && e == RejectError::EntryNotFound),
        redeem_spec(
            redeem_spec(m, auth_token, client_id, redirect_uri, now).0,
            auth_token,
            client_id2,
            redirect_uri2,
            now2,
        ).0 == redeem_spec(m, auth_token, client_id, redirect_uri, now).0,
{
}

/// A client-id mismatch is reported as such no matter whether the code is
/// otherwise redeemable, and it leaves the table untouched.
pub proof fn lemma_client_id_mismatch(
    m: StateTableModel,
    auth_token: Seq<char>,
    client_id: Seq<char>,
    redirect_uri: Seq<char>,
    now: u64,
)
    requires
        m.entries.contains_key(auth_token),
        m.entries[auth_token].client_id != client_id,
    ensures
        (redeem_spec(m, auth_token, client_id, redirect_uri, now).1 matches Err(e) && e
            == RejectError::ClientIdMismatch),
        redeem_spec(m, auth_token, client_id, redirect_uri, now).0 == m,
{
}

/// A sweep at a given time drops exactly the entries whose expiry has
/// passed: an expired entry is gone afterwards, a live one survives
/// untouched.
pub proof fn lemma_entry_sweep(m: Map<Seq<char>, EntryModel>, now: u64, k: Seq<char>)
    requires
        m.contains_key(k),
    ensures
        entry_live(m[k], now) ==> entries_swept(m, now).contains_key(k) && entries_swept(m, now)[k]
            == m[k],
        !entry_live(m[k], now) ==> !entries_swept(m, now).contains_key(k),
{
}

} // verus!
