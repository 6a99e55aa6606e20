//! The user directory the embedded authorization server consults: users,
//! their managed login records, password shadows, and the log of the
//! addresses a login came from. The production deployment keeps these in
//! SQL behind the same interface; this in-memory form is the one the
//! verified login path runs against.

use crate::hashing::{argon2_verifies, generate_salt, hash_password};
use crate::textenc::str_eq;
use vstd::prelude::*;
use vstd::string::{StrSliceExecFns, StringExecFns};
use vstd::utf8::encode_utf8;

verus! {

/// How the directory fails.
#[derive(Clone, Copy, Debug, PartialEq, Eq, Structural)]
pub enum DatabaseError {
    /// The connection pool failed.
    Pool,
    /// Nothing matched the given parameter.
    NotFound,
    /// The underlying store failed in some other way.
    Sql,
}

/// A user as the identity side knows one.
#[derive(Debug)]
pub struct User {
    pub id: i32,
    pub uuid: String,
    pub managed: Option<i32>,
}

/// The login record of a managed user.
#[derive(Debug)]
pub struct ManagedUser {
    pub id: i32,
    pub salt: Vec<u8>,
    pub email: String,
    pub username: String,
    pub login_attempts: i32,
    pub blocked_on: Option<u64>,
    pub shadow: i32,
}

/// A stored password hash.
#[derive(Debug)]
pub struct Shadow {
    pub id: i32,
    pub hashed_password: Vec<u8>,
}

/// One address a login came from.
#[derive(Debug)]
pub struct IpAddress {
    pub id: i32,
    pub user_id: i32,
    pub ip_address: String,
    pub last_used: u64,
}

/// Whether a record matches the name query.
pub open spec fn managed_name_matches(m: ManagedUser, q: Seq<char>) -> bool {
    m.username@ == q || m.email@ == q
}

/// The first record whose username or email is the query.
pub open spec fn find_managed_by_name(s: Seq<ManagedUser>, q: Seq<char>) -> Option<int>
    decreases s.len(),
{
    if s.len() == 0 {
        None
    } else if managed_name_matches(s[0], q) {
        Some(0)
    } else {
        match find_managed_by_name(s.skip(1), q) {
            Some(i) => Some(i + 1),
            None => None,
        }
    }
}

/// The first record with the given id.
pub open spec fn find_managed_by_id(s: Seq<ManagedUser>, id: i32) -> Option<int>
    decreases s.len(),
{
    if s.len() == 0 {
        None
    } else if s[0].id == id {
        Some(0)
    } else {
        match find_managed_by_id(s.skip(1), id) {
            Some(i) => Some(i + 1),
            None => None,
        }
    }
}

/// The first user with the given UUID.
pub open spec fn find_user_by_uuid(s: Seq<User>, q: Seq<char>) -> Option<int>
    decreases s.len(),
{
    if s.len() == 0 {
        None
    } else if s[0].uuid@ == q {
        Some(0)
    } else {
        match find_user_by_uuid(s.skip(1), q) {
            Some(i) => Some(i + 1),
            None => None,
        }
    }
}

/// The first user linked to the managed record with the given id.
pub open spec fn find_user_linked(s: Seq<User>, id: i32) -> Option<int>
    decreases s.len(),
{
    if s.len() == 0 {
        None
    } else if s[0].managed == Some(id) {
        Some(0)
    } else {
        match find_user_linked(s.skip(1), id) {
            Some(i) => Some(i + 1),
            None => None,
        }
    }
}

/// The first shadow with the given id.
pub open spec fn find_shadow_by_id(s: Seq<Shadow>, id: i32) -> Option<int>
    decreases s.len(),
{
    if s.len() == 0 {
        None
    } else if s[0].id == id {
        Some(0)
    } else {
        match find_shadow_by_id(s.skip(1), id) {
            Some(i) => Some(i + 1),
            None => None,
        }
    }
}

/// The first logged address matching the address and user.
pub open spec fn find_ip_entry(s: Seq<IpAddress>, ip: Seq<char>, uid: i32) -> Option<int>
    decreases s.len(),
{
    if s.len() == 0 {
        None
    } else if s[0].ip_address@ == ip && s[0].user_id == uid {
        Some(0)
    } else {
        match find_ip_entry(s.skip(1), ip, uid) {
            Some(i) => Some(i + 1),
            None => None,
        }
    }
}

/// A finder returns the first matching index: where everything before `i`
/// misses, the answer is `i` if it hits and nothing if the whole sequence
/// was missed.
pub proof fn lemma_find_managed_by_name(s: Seq<ManagedUser>, q: Seq<char>, i: int)
    requires
        0 <= i <= s.len(),
        forall|j: int| 0 <= j < i ==> !managed_name_matches(#[trigger] s[j], q),
        i < s.len() ==> managed_name_matches(s[i], q),
    ensures
        i < s.len() ==> find_managed_by_name(s, q) == Some(i),
        i == s.len() ==> find_managed_by_name(s, q) is None,
    decreases i,
{
    if s.len() == 0 {
    } else if i == 0 {
    } else {
        assert forall|j: int| 0 <= j < i - 1 implies !managed_name_matches(
            #[trigger] s.skip(1)[j],
            q,
        ) by {
            assert(s.skip(1)[j] == s[j + 1]);
        }
        if i < s.len() {
            assert(s.skip(1)[i - 1] == s[i]);
        }
        lemma_find_managed_by_name(s.skip(1), q, i - 1);
    }
}

/// A hit is a valid index that matches.
pub proof fn lemma_find_managed_by_name_some(s: Seq<ManagedUser>, q: Seq<char>)
    ensures
        find_managed_by_name(s, q) matches Some(i) ==> 0 <= i < s.len() && managed_name_matches(
            s[i],
            q,
        ),
    decreases s.len(),
{
    if s.len() != 0 {
        lemma_find_managed_by_name_some(s.skip(1), q);
        match find_managed_by_name(s, q) {
            Some(i) => {
                if i > 0 {
                    assert(s.skip(1)[i - 1] == s[i]);
                }
            },
            None => {},
        }
    }
}

pub proof fn lemma_find_managed_by_id(s: Seq<ManagedUser>, id: i32, i: int)
    requires
        0 <= i <= s.len(),
        forall|j: int| 0 <= j < i ==> (#[trigger] s[j]).id != id,
        i < s.len() ==> s[i].id == id,
    ensures
        i < s.len() ==> find_managed_by_id(s, id) == Some(i),
        i == s.len() ==> find_managed_by_id(s, id) is None,
    decreases i,
{
    if s.len() == 0 {
    } else if i == 0 {
    } else {
        assert forall|j: int| 0 <= j < i - 1 implies (#[trigger] s.skip(1)[j]).id != id by {
            assert(s.skip(1)[j] == s[j + 1]);
        }
        if i < s.len() {
            assert(s.skip(1)[i - 1] == s[i]);
        }
        lemma_find_managed_by_id(s.skip(1), id, i - 1);
    }
}

/// Where nothing is found by id, no record has the id.
pub proof fn lemma_find_managed_by_id_none(s: Seq<ManagedUser>, id: i32)
    requires
        find_managed_by_id(s, id) is None,
    ensures
        forall|j: int| 0 <= j < s.len() ==> (#[trigger] s[j]).id != id,
    decreases s.len(),
{
    if s.len() != 0 {
        lemma_find_managed_by_id_none(s.skip(1), id);
        assert forall|j: int| 0 <= j < s.len() implies (#[trigger] s[j]).id != id by {
            if j > 0 {
                assert(s.skip(1)[j - 1] == s[j]);
            }
        }
    }
}

pub proof fn lemma_find_user_by_uuid(s: Seq<User>, q: Seq<char>, i: int)
    requires
        0 <= i <= s.len(),
        forall|j: int| 0 <= j < i ==> (#[trigger] s[j]).uuid@ != q,
        i < s.len() ==> s[i].uuid@ == q,
    ensures
        i < s.len() ==> find_user_by_uuid(s, q) == Some(i),
        i == s.len() ==> find_user_by_uuid(s, q) is None,
    decreases i,
{
    if s.len() == 0 {
    } else if i == 0 {
    } else {
        assert forall|j: int| 0 <= j < i - 1 implies (#[trigger] s.skip(1)[j]).uuid@ != q by {
            assert(s.skip(1)[j] == s[j + 1]);
        }
        if i < s.len() {
            assert(s.skip(1)[i - 1] == s[i]);
        }
        lemma_find_user_by_uuid(s.skip(1), q, i - 1);
    }
}

pub proof fn lemma_find_user_linked(s: Seq<User>, id: i32, i: int)
    requires
        0 <= i <= s.len(),
        forall|j: int| 0 <= j < i ==> (#[trigger] s[j]).managed != Some(id),
        i < s.len() ==> s[i].managed == Some(id),
    ensures
        i < s.len() ==> find_user_linked(s, id) == Some(i),
        i == s.len() ==> find_user_linked(s, id) is None,
    decreases i,
{
    if s.len() == 0 {
    } else if i == 0 {
    } else {
        assert forall|j: int| 0 <= j < i - 1 implies (#[trigger] s.skip(1)[j]).managed != Some(
            id,
        ) by {
            assert(s.skip(1)[j] == s[j + 1]);
        }
        if i < s.len() {
            assert(s.skip(1)[i - 1] == s[i]);
        }
        lemma_find_user_linked(s.skip(1), id, i - 1);
    }
}

pub proof fn lemma_find_shadow_by_id(s: Seq<Shadow>, id: i32, i: int)
    requires
        0 <= i <= s.len(),
        forall|j: int| 0 <= j < i ==> (#[trigger] s[j]).id != id,
        i < s.len() ==> s[i].id == id,
    ensures
        i < s.len() ==> find_shadow_by_id(s, id) == Some(i),
        i == s.len() ==> find_shadow_by_id(s, id) is None,
    decreases i,
{
    if s.len() == 0 {
    } else if i == 0 {
    } else {
        assert forall|j: int| 0 <= j < i - 1 implies (#[trigger] s.skip(1)[j]).id != id by {
            assert(s.skip(1)[j] == s[j + 1]);
        }
        if i < s.len() {
            assert(s.skip(1)[i - 1] == s[i]);
        }
        lemma_find_shadow_by_id(s.skip(1), id, i - 1);
    }
}

pub proof fn lemma_find_ip_entry(s: Seq<IpAddress>, ip: Seq<char>, uid: i32, i: int)
    requires
        0 <= i <= s.len(),
        forall|j: int|
            0 <= j < i ==> !((#[trigger] s[j]).ip_address@ == ip && s[j].user_id == uid),
        i < s.len() ==> s[i].ip_address@ == ip && s[i].user_id == uid,
    ensures
        i < s.len() ==> find_ip_entry(s, ip, uid) == Some(i),
        i == s.len() ==> find_ip_entry(s, ip, uid) is None,
    decreases i,
{
    if s.len() == 0 {
    } else if i == 0 {
    } else {
        assert forall|j: int| 0 <= j < i - 1 implies !((#[trigger] s.skip(1)[j]).ip_address@ == ip
            && s.skip(1)[j].user_id == uid) by {
            assert(s.skip(1)[j] == s[j + 1]);
        }
        if i < s.len() {
            assert(s.skip(1)[i - 1] == s[i]);
        }
        lemma_find_ip_entry(s.skip(1), ip, uid, i - 1);
    }
}

impl ManagedUser {
    /// A field-for-field copy of this record.
    pub fn copied(&self) -> (r: ManagedUser)
        ensures
            r.id == self.id,
            r.salt@ == self.salt@,
            r.email@ == self.email@,
            r.username@ == self.username@,
            r.login_attempts == self.login_attempts,
            r.blocked_on == self.blocked_on,
            r.shadow == self.shadow,
    {
        ManagedUser {
            id: self.id,
            salt: copy_bytes(&self.salt),
            email: self.email.clone(),
            username: self.username.clone(),
            login_attempts: self.login_attempts,
            blocked_on: self.blocked_on,
            shadow: self.shadow,
        }
    }
}

fn copy_bytes(v: &Vec<u8>) -> (r: Vec<u8>)
    ensures
        r@ == v@,
{
    let mut out: Vec<u8> = Vec::new();
    let mut i: usize = 0;
    while i < v.len()
        invariant
            i <= v@.len(),
            out@ == v@.take(i as int),
        decreases v@.len() - i,
    {
        out.push(v[i]);
        proof {
            assert(v@.take(i + 1) =~= v@.take(i as int) + seq![v@[i as int]]);
            assert(out@ =~= v@.take(i + 1));
        }
        i = i + 1;
    }
    proof {
        assert(v@.take(v@.len() as int) =~= v@);
    }
    out
}

/// The user directory.
pub struct UserStore {
    users: Vec<User>,
    managed_users: Vec<ManagedUser>,
    shadow: Vec<Shadow>,
    ip_addresses: Vec<IpAddress>,
    global_id: i32,
}

impl UserStore {
    /// The stored users.
    pub closed spec fn spec_users(&self) -> Seq<User> {
        self.users@
    }

    /// The stored managed login records.
    pub closed spec fn spec_managed(&self) -> Seq<ManagedUser> {
        self.managed_users@
    }

    /// The stored password shadows.
    pub closed spec fn spec_shadow(&self) -> Seq<Shadow> {
        self.shadow@
    }

    /// The logged login addresses.
    pub closed spec fn spec_ips(&self) -> Seq<IpAddress> {
        self.ip_addresses@
    }

    /// The next id the store hands out.
    pub closed spec fn spec_next_id(&self) -> i32 {
        self.global_id
    }

    /// An empty directory.
    pub fn new() -> (r: UserStore)
        ensures
            r.spec_users() == Seq::<User>::empty(),
            r.spec_managed() == Seq::<ManagedUser>::empty(),
            r.spec_shadow() == Seq::<Shadow>::empty(),
            r.spec_ips() == Seq::<IpAddress>::empty(),
            r.spec_next_id() == 1,
    {
        UserStore {
            users: Vec::new(),
            managed_users: Vec::new(),
            shadow: Vec::new(),
            ip_addresses: Vec::new(),
            global_id: 1,
        }
    }

    /// Fetch the user with the given UUID.
    pub fn fetch_user_by_uuid(&self, uuid: String) -> (r: Result<User, DatabaseError>)
        ensures
            match r {
                Ok(u) => {
                    &&& find_user_by_uuid(self.spec_users(), uuid@) matches Some(i) && u.id
                        == self.spec_users()[i].id && u.uuid@ == self.spec_users()[i].uuid@
                        && u.managed == self.spec_users()[i].managed
                },
                Err(e) => e == DatabaseError::NotFound && find_user_by_uuid(
                    self.spec_users(),
                    uuid@,
                ) is None,
            },
    {
        let mut j: usize = 0;
        while j < self.users.len()
            invariant
                j <= self.users@.len(),
                forall|k: int| 0 <= k < j ==> (#[trigger] self.users@[k]).uuid@ != uuid@,
            decreases self.users@.len() - j,
        {
            if str_eq(self.users[j].uuid.as_str(), uuid.as_str()) {
                let u = &self.users[j];
                let out = User { id: u.id, uuid: u.uuid.clone(), managed: u.managed };
                proof {
                    lemma_find_user_by_uuid(self.users@, uuid@, j as int);
                }
                return Ok(out);
            }
            j = j + 1;
        }
        proof {
            lemma_find_user_by_uuid(self.users@, uuid@, self.users@.len() as int);
        }
        Err(DatabaseError::NotFound)
    }

    /// Fetch the managed record whose username or email matches, and the
    /// user it belongs to.
    pub fn fetch_user_by_username_or_email(&self, query: String) -> (r: Result<
        (User, ManagedUser),
        DatabaseError,
    >)
        ensures
            match r {
                Ok(p) => {
                    &&& find_managed_by_name(self.spec_managed(), query@) matches Some(i) && p.1.id
                        == self.spec_managed()[i].id && p.1.username@
                        == self.spec_managed()[i].username@ && p.1.email@
                        == self.spec_managed()[i].email@ && p.1.salt@
                        == self.spec_managed()[i].salt@ && p.1.login_attempts
                        == self.spec_managed()[i].login_attempts && p.1.shadow
                        == self.spec_managed()[i].shadow && (find_user_linked(
                        self.spec_users(),
                        self.spec_managed()[i].id,
                    ) matches Some(k) && p.0.id == self.spec_users()[k].id && p.0.uuid@
                        == self.spec_users()[k].uuid@ && p.0.managed
                        == self.spec_users()[k].managed)
                },
                Err(e) => e == DatabaseError::NotFound && (find_managed_by_name(
                    self.spec_managed(),
                    query@,
                ) is None || (find_managed_by_name(self.spec_managed(), query@) matches Some(i)
                    && find_user_linked(self.spec_users(), self.spec_managed()[i].id) is None)),
            },
    {
        let mut j: usize = 0;
        while j < self.managed_users.len()
            invariant
                j <= self.managed_users@.len(),
                forall|k: int|
                    0 <= k < j ==> !managed_name_matches(#[trigger] self.managed_users@[k], query@),
            decreases self.managed_users@.len() - j,
        {
            let matched = str_eq(self.managed_users[j].username.as_str(), query.as_str()) || str_eq(
                self.managed_users[j].email.as_str(),
                query.as_str(),
            );
            if matched {
                proof {
                    lemma_find_managed_by_name(self.managed_users@, query@, j as int);
                }
                let m = &self.managed_users[j];
                let mu = m.copied();
                let target: i32 = m.id;
                let ghost jj: int = j as int;
                let mut k: usize = 0;
                while k < self.users.len()
                    invariant
                        k <= self.users@.len(),
                        forall|t: int|
                            0 <= t < k ==> (#[trigger] self.users@[t]).managed != Some(target),
                        0 <= jj < self.managed_users@.len(),
                        find_managed_by_name(self.managed_users@, query@) == Some(jj),
                        target == self.managed_users@[jj].id,
                        mu.id == self.managed_users@[jj].id,
                        mu.username@ == self.managed_users@[jj].username@,
                        mu.email@ == self.managed_users@[jj].email@,
                        mu.salt@ == self.managed_users@[jj].salt@,
                        mu.login_attempts == self.managed_users@[jj].login_attempts,
                        mu.shadow == self.managed_users@[jj].shadow,
                    decreases self.users@.len() - k,
                {
                    let hit = match self.users[k].managed {
                        Some(mid) => mid == target,
                        None => false,
                    };
                    if hit {
                        let u = &self.users[k];
                        let out = User { id: u.id, uuid: u.uuid.clone(), managed: u.managed };
                        proof {
                            lemma_find_user_linked(self.users@, target, k as int);
                        }
                        return Ok((out, mu));
                    }
                    k = k + 1;
                }
                proof {
                    lemma_find_user_linked(self.users@, target, self.users@.len() as int);
                }
                return Err(DatabaseError::NotFound);
            }
            j = j + 1;
        }
        proof {
            lemma_find_managed_by_name(
                self.managed_users@,
                query@,
                self.managed_users@.len() as int,
            );
        }
        Err(DatabaseError::NotFound)
    }

    /// Fetch the stored password hash and the count of login attempts for
    /// a managed user, and log the address the login came from: a known
    /// address is stamped with the current time, a new one is recorded
    /// under a fresh id.
    pub fn fetch_user_password(&mut self, mu: ManagedUser, ip_address: String, now: u64) -> (r:
        Result<(Vec<u8>, i32), DatabaseError>)
        ensures
            final(self).spec_users() == old(self).spec_users(),
            final(self).spec_managed() == old(self).spec_managed(),
            final(self).spec_shadow() == old(self).spec_shadow(),
            match find_ip_entry(old(self).spec_ips(), ip_address@, mu.id) {
                Some(i) => {
                    &&& final(self).spec_ips().len() == old(self).spec_ips().len()
                    &&& final(self).spec_ips()[i].id == old(self).spec_ips()[i].id
                    &&& final(self).spec_ips()[i].user_id == old(self).spec_ips()[i].user_id
                    &&& final(self).spec_ips()[i].ip_address == old(self).spec_ips()[i].ip_address
                    &&& final(self).spec_ips()[i].last_used == now
                    &&& forall|j: int|
                        0 <= j < old(self).spec_ips().len() && j != i ==> final(self).spec_ips()[j]
                            == old(self).spec_ips()[j]
                    &&& final(self).spec_next_id() == old(self).spec_next_id()
                },
                None => {
                    &&& final(self).spec_ips().len() == old(self).spec_ips().len() + 1
                    &&& final(self).spec_ips().last().id == old(self).spec_next_id()
                    &&& final(self).spec_ips().last().user_id == mu.id
                    &&& final(self).spec_ips().last().ip_address@ == ip_address@
                    &&& final(self).spec_ips().last().last_used == now
                    &&& forall|j: int|
                        0 <= j < old(self).spec_ips().len() ==> final(self).spec_ips()[j] == old(
                            self,
                        ).spec_ips()[j]
                },
            },
            match r {
                Ok(p) => {
                    &&& find_shadow_by_id(old(self).spec_shadow(), mu.shadow) matches Some(i)
                        && p.0@ == old(self).spec_shadow()[i].hashed_password@
                    &&& find_managed_by_id(old(self).spec_managed(), mu.id) matches Some(k) && p.1
                        == old(self).spec_managed()[k].login_attempts
                },
                Err(e) => e == DatabaseError::NotFound && (find_shadow_by_id(
                    old(self).spec_shadow(),
                    mu.shadow,
                ) is None || find_managed_by_id(old(self).spec_managed(), mu.id) is None),
            },
    {
        match ip_index(&self.ip_addresses, &ip_address, mu.id) {
            Some(i) => {
                let old_entry = &self.ip_addresses[i];
                let updated = IpAddress {
                    id: old_entry.id,
                    user_id: old_entry.user_id,
                    ip_address: old_entry.ip_address.clone(),
                    last_used: now,
                };
                self.ip_addresses.set(i, updated);
            },
            None => {
                let id = self.global_id;
                self.global_id = if self.global_id < i32::MAX {
                    self.global_id + 1
                } else {
                    self.global_id
                };
                self.ip_addresses.push(
                    IpAddress { id, user_id: mu.id, ip_address: ip_address.clone(), last_used: now },
                );
            },
        }
        let si = match shadow_index(&self.shadow, mu.shadow) {
            Some(s) => s,
            None => {
                return Err(DatabaseError::NotFound);
            },
        };
        let pwd = copy_bytes(&self.shadow[si].hashed_password);
        let mi = match managed_index(&self.managed_users, mu.id) {
            Some(m) => m,
            None => {
                return Err(DatabaseError::NotFound);
            },
        };
        let attempts = self.managed_users[mi].login_attempts;
        Ok((pwd, attempts))
    }

    /// The directory the tests run against: one managed user `test` with
    /// the password `testing`. Fails only if the hashing library refused
    /// the generated salt.
    pub fn test_database(now: u64) -> (r: Option<UserStore>)
        ensures
            match r {
                Some(store) => {
                    &&& store.spec_users().len() == 1 && store.spec_users()[0].id == 1
                        && store.spec_users()[0].uuid@ == "testtesttesttest"@
                        && store.spec_users()[0].managed == Some(1i32)
                    &&& store.spec_managed().len() == 1 && store.spec_managed()[0].id == 1
                        && store.spec_managed()[0].username@ == "test"@
                        && store.spec_managed()[0].email@ == "test@test.net"@
                        && store.spec_managed()[0].login_attempts == 0
                        && store.spec_managed()[0].shadow == 1
                    &&& store.spec_shadow().len() == 1 && store.spec_shadow()[0].id == 1
                        && argon2_verifies(
                        encode_utf8("testing"@),
                        store.spec_shadow()[0].hashed_password@,
                    )
                    &&& store.spec_ips().len() == 1 && store.spec_ips()[0].user_id == 1
                        && store.spec_ips()[0].ip_address@ == "127.0.0.1"@
                    &&& store.spec_next_id() == 2
                },
                None => true,
            },
    {
        let salt = generate_salt();
        let password = "testing".as_bytes_vec();
        let hashed = match hash_password(password.as_slice(), salt.as_slice()) {
            Ok(h) => h,
            Err(_) => {
                return None;
            },
        };
        let mut store = UserStore::new();
        store.users.push(
            User { id: 1, uuid: String::from_str("testtesttesttest"), managed: Some(1) },
        );
        store.managed_users.push(
            ManagedUser {
                id: 1,
                salt,
                email: String::from_str("test@test.net"),
                username: String::from_str("test"),
                login_attempts: 0,
                blocked_on: None,
                shadow: 1,
            },
        );
        store.shadow.push(Shadow { id: 1, hashed_password: hashed });
        store.ip_addresses.push(
            IpAddress {
                id: 1,
                user_id: 1,
                ip_address: String::from_str("127.0.0.1"),
                last_used: now,
            },
        );
        store.global_id = 2;
        Some(store)
    }
}

fn ip_index(ips: &Vec<IpAddress>, ip: &String, uid: i32) -> (r: Option<usize>)
    ensures
        match r {
            Some(i) => (i as int) < ips@.len() && find_ip_entry(ips@, ip@, uid) == Some(i as int),
            None => find_ip_entry(ips@, ip@, uid) is None,
        },
{
    let mut j: usize = 0;
    while j < ips.len()
        invariant
            j <= ips@.len(),
            forall|k: int|
                0 <= k < j ==> !((#[trigger] ips@[k]).ip_address@ == ip@ && ips@[k].user_id == uid),
        decreases ips@.len() - j,
    {
        if str_eq(ips[j].ip_address.as_str(), ip.as_str()) && ips[j].user_id == uid {
            proof {
                lemma_find_ip_entry(ips@, ip@, uid, j as int);
            }
            return Some(j);
        }
        j = j + 1;
    }
    proof {
        lemma_find_ip_entry(ips@, ip@, uid, ips@.len() as int);
    }
    None
}

fn shadow_index(shadows: &Vec<Shadow>, id: i32) -> (r: Option<usize>)
    ensures
        match r {
            Some(i) => (i as int) < shadows@.len() && find_shadow_by_id(shadows@, id) == Some(
                i as int,
            ),
            None => find_shadow_by_id(shadows@, id) is None,
        },
{
    let mut j: usize = 0;
    while j < shadows.len()
        invariant
            j <= shadows@.len(),
            forall|k: int| 0 <= k < j ==> (#[trigger] shadows@[k]).id != id,
        decreases shadows@.len() - j,
    {
        if shadows[j].id == id {
            proof {
                lemma_find_shadow_by_id(shadows@, id, j as int);
            }
            return Some(j);
        }
        j = j + 1;
    }
    proof {
        lemma_find_shadow_by_id(shadows@, id, shadows@.len() as int);
    }
    None
}

fn managed_index(ms: &Vec<ManagedUser>, id: i32) -> (r: Option<usize>)
    ensures
        match r {
            Some(i) => (i as int) < ms@.len() && find_managed_by_id(ms@, id) == Some(i as int),
            None => find_managed_by_id(ms@, id) is None,
        },
{
    let mut j: usize = 0;
    while j < ms.len()
        invariant
            j <= ms@.len(),
            forall|k: int| 0 <= k < j ==> (#[trigger] ms@[k]).id != id,
        decreases ms@.len() - j,
    {
        if ms[j].id == id {
            proof {
                lemma_find_managed_by_id(ms@, id, j as int);
            }
            return Some(j);
        }
        j = j + 1;
    }
    proof {
        lemma_find_managed_by_id(ms@, id, ms@.len() as int);
    }
    None
}

} // verus!
