//! The entity rows the model router carries between the wire and the
//! database collaborator. The database itself stays an outside
//! collaborator; these are the shapes its rows take here, with the
//! creation time carried as seconds since the epoch.

use crate::textenc::str_eq;
use crate::userstore::DatabaseError;
use vstd::prelude::*;
use vstd::string::{StrSliceExecFns, StringExecFns};
use vstd::utf8::encode_utf8;

verus! {

/// A content-side user row.
#[derive(Debug)]
pub struct User {
    pub id: i32,
    pub uuid: String,
    pub name: String,
    pub roles: i64,
}

/// A user row about to be inserted.
#[derive(Debug)]
pub struct NewUser {
    pub uuid: String,
    pub name: String,
    pub roles: i64,
}

/// How a user listing may be narrowed.
#[derive(Debug)]
pub struct UserFilter {
    pub name: Option<String>,
}

/// A partial update of a user row.
#[derive(Debug)]
pub struct UserChange {
    pub uuid: Option<String>,
    pub name: Option<String>,
    pub roles: Option<i64>,
}

impl core::default::Default for UserChange {
    /// The change that changes nothing.
    fn default() -> (r: UserChange)
        ensures
            r.uuid is None,
            r.name is None,
            r.roles is None,
    {
        UserChange { uuid: None, name: None, roles: None }
    }
}

/// The change a display-name submission makes: the name and nothing else.
pub fn username_change(username: String) -> (r: UserChange)
    ensures
        r.uuid is None,
        (r.name matches Some(n) && n@ == username@),
        r.roles is None,
{
    UserChange { uuid: None, name: Some(username), roles: None }
}

/// A blog post row.
#[derive(Debug)]
pub struct Blogpost {
    pub id: i32,
    pub title: String,
    pub tags: String,
    pub url: String,
    pub body: String,
    pub author_id: i32,
    pub created_at: u64,
}

/// A blog post about to be inserted.
#[derive(Debug)]
pub struct NewBlogpost {
    pub title: String,
    pub tags: String,
    pub url: String,
    pub body: String,
    pub author_id: i32,
}

/// How a blog post listing may be narrowed.
#[derive(Debug)]
pub struct BlogpostFilter {
    pub title: Option<String>,
    pub tags: Option<String>,
    pub url: Option<String>,
    pub body: Option<String>,
    pub author_id: Option<i32>,
}

/// A partial update of a blog post.
#[derive(Debug)]
pub struct BlogpostChange {
    pub title: Option<String>,
    pub tags: Option<String>,
    pub url: Option<String>,
    pub body: Option<String>,
    pub author_id: Option<i32>,
}

impl core::default::Default for BlogpostChange {
    /// The change that changes nothing.
    fn default() -> (r: BlogpostChange)
        ensures
            r.title is None,
            r.tags is None,
            r.url is None,
            r.body is None,
            r.author_id is None,
    {
        BlogpostChange { title: None, tags: None, url: None, body: None, author_id: None }
    }
}

/// The needle stands in the haystack at position `i`.
pub open spec fn contains_at(h: Seq<u8>, n: Seq<u8>, i: int) -> bool {
    0 <= i && i + n.len() <= h.len() && h.subrange(i, i + n.len()) == n
}

/// The needle stands somewhere in the haystack.
pub open spec fn bytes_contain(h: Seq<u8>, n: Seq<u8>) -> bool {
    exists|i: int| #[trigger] contains_at(h, n, i)
}

/// One string stands inside another, byte for byte of their UTF-8 forms.
pub open spec fn str_has(h: Seq<char>, n: Seq<char>) -> bool {
    bytes_contain(encode_utf8(h), encode_utf8(n))
}

pub(crate) fn match_at(h: &Vec<u8>, n: &Vec<u8>, i: usize) -> (r: bool)
    requires
        i + n@.len() <= h@.len(),
    ensures
        r == contains_at(h@, n@, i as int),
{
    let hl = h.len();
    let mut j: usize = 0;
    while j < n.len()
        invariant
            i + n@.len() <= h@.len(),
            hl == h@.len(),
            j <= n@.len(),
            forall|t: int| 0 <= t < j ==> h@[i + t] == n@[t],
        decreases n@.len() - j,
    {
        if h[i + j] != n[j] {
            proof {
                assert(h@.subrange(i as int, i + n@.len())[j as int] == h@[i + j]);
            }
            return false;
        }
        j = j + 1;
    }
    proof {
        assert(h@.subrange(i as int, i + n@.len()) =~= n@);
    }
    true
}

/// Whether one string stands inside another, as the list filters ask.
pub fn str_contains(hay: &str, needle: &str) -> (r: bool)
    ensures
        r == str_has(hay@, needle@),
{
    let h = hay.as_bytes_vec();
    let n = needle.as_bytes_vec();
    proof {
        assert(h@ == encode_utf8(hay@));
        assert(n@ == encode_utf8(needle@));
    }
    if n.len() > h.len() {
        proof {
            assert(forall|i: int| !contains_at(h@, n@, i));
        }
        return false;
    }
    if n.len() == 0 {
        proof {
            assert(str_has(hay@, needle@)) by {
                assert(h@.subrange(0, 0) =~= n@);
                assert(bytes_contain(h@, n@)) by {
                    assert(contains_at(h@, n@, 0));
                }
                assert(bytes_contain(encode_utf8(hay@), encode_utf8(needle@)));
            }
        }
        return true;
    }
    let hl = h.len();
    let last: usize = h.len() - n.len();
    let mut i: usize = 0;
    while i <= last
        invariant
            1 <= n@.len() <= h@.len(),
            hl == h@.len(),
            h@ == encode_utf8(hay@),
            n@ == encode_utf8(needle@),
            last == h@.len() - n@.len(),
            i <= last + 1,
            forall|k: int| 0 <= k < i ==> !contains_at(h@, n@, k),
        decreases last + 1 - i,
    {
        if match_at(&h, &n, i) {
            proof {
                assert(str_has(hay@, needle@)) by {
                    assert(h@ == encode_utf8(hay@));
                    assert(n@ == encode_utf8(needle@));
                    assert(bytes_contain(h@, n@)) by {
                        assert(contains_at(h@, n@, i as int));
                    }
                    assert(bytes_contain(encode_utf8(hay@), encode_utf8(needle@)));
                }
            }
            return true;
        }
        i = i + 1;
    }
    proof {
        assert(forall|k: int| !contains_at(h@, n@, k)) by {
            assert(forall|k: int| k > last ==> !contains_at(h@, n@, k));
        }
    }
    false
}

/// The first post with the given id.
pub open spec fn find_post_by_id(s: Seq<Blogpost>, id: i32) -> Option<int>
    decreases s.len(),
{
    if s.len() == 0 {
        None
    } else if s[0].id == id {
        Some(0)
    } else {
        match find_post_by_id(s.skip(1), id) {
            Some(i) => Some(i + 1),
            None => None,
        }
    }
}

/// The first post with the given URL.
pub open spec fn find_post_by_url(s: Seq<Blogpost>, url: Seq<char>) -> Option<int>
    decreases s.len(),
{
    if s.len() == 0 {
        None
    } else if s[0].url@ == url {
        Some(0)
    } else {
        match find_post_by_url(s.skip(1), url) {
            Some(i) => Some(i + 1),
            None => None,
        }
    }
}

/// The first user row with the given id.
pub open spec fn find_row_by_id(s: Seq<User>, id: i32) -> Option<int>
    decreases s.len(),
{
    if s.len() == 0 {
        None
    } else if s[0].id == id {
        Some(0)
    } else {
        match find_row_by_id(s.skip(1), id) {
            Some(i) => Some(i + 1),
            None => None,
        }
    }
}

/// The first user row with the given UUID.
pub open spec fn find_row_by_uuid(s: Seq<User>, uuid: Seq<char>) -> Option<int>
    decreases s.len(),
{
    if s.len() == 0 {
        None
    } else if s[0].uuid@ == uuid {
        Some(0)
    } else {
        match find_row_by_uuid(s.skip(1), uuid) {
            Some(i) => Some(i + 1),
            None => None,
        }
    }
}

pub proof fn lemma_find_post_by_id(s: Seq<Blogpost>, id: i32, i: int)
    requires
        0 <= i <= s.len(),
        forall|j: int| 0 <= j < i ==> (#[trigger] s[j]).id != id,
        i < s.len() ==> s[i].id == id,
    ensures
        i < s.len() ==> find_post_by_id(s, id) == Some(i),
        i == s.len() ==> find_post_by_id(s, id) is None,
    decreases i,
{
    if s.len() == 0 {
    } else if i == 0 {
    } else {
        assert forall|j: int| 0 <= j < i - 1 implies (#[trigger] s.skip(1)[j]).id != id by {
            assert(s.skip(1)[j] == s[j + 1]);
        }
        if i < s.len() {
            assert(s.skip(1)[i - 1] == s[i]);
        }
        lemma_find_post_by_id(s.skip(1), id, i - 1);
    }
}

pub proof fn lemma_find_post_by_url(s: Seq<Blogpost>, url: Seq<char>, i: int)
    requires
        0 <= i <= s.len(),
        forall|j: int| 0 <= j < i ==> (#[trigger] s[j]).url@ != url,
        i < s.len() ==> s[i].url@ == url,
    ensures
        i < s.len() ==> find_post_by_url(s, url) == Some(i),
        i == s.len() ==> find_post_by_url(s, url) is None,
    decreases i,
{
    if s.len() == 0 {
    } else if i == 0 {
    } else {
        assert forall|j: int| 0 <= j < i - 1 implies (#[trigger] s.skip(1)[j]).url@ != url by {
            assert(s.skip(1)[j] == s[j + 1]);
        }
        if i < s.len() {
            assert(s.skip(1)[i - 1] == s[i]);
        }
        lemma_find_post_by_url(s.skip(1), url, i - 1);
    }
}

pub proof fn lemma_find_row_by_id(s: Seq<User>, id: i32, i: int)
    requires
        0 <= i <= s.len(),
        forall|j: int| 0 <= j < i ==> (#[trigger] s[j]).id != id,
        i < s.len() ==> s[i].id == id,
    ensures
        i < s.len() ==> find_row_by_id(s, id) == Some(i),
        i == s.len() ==> find_row_by_id(s, id) is None,
    decreases i,
{
    if s.len() == 0 {
    } else if i == 0 {
    } else {
        assert forall|j: int| 0 <= j < i - 1 implies (#[trigger] s.skip(1)[j]).id != id by {
            assert(s.skip(1)[j] == s[j + 1]);
        }
        if i < s.len() {
            assert(s.skip(1)[i - 1] == s[i]);
        }
        lemma_find_row_by_id(s.skip(1), id, i - 1);
    }
}

pub proof fn lemma_find_row_by_uuid(s: Seq<User>, uuid: Seq<char>, i: int)
    requires
        0 <= i <= s.len(),
        forall|j: int| 0 <= j < i ==> (#[trigger] s[j]).uuid@ != uuid,
        i < s.len() ==> s[i].uuid@ == uuid,
    ensures
        i < s.len() ==> find_row_by_uuid(s, uuid) == Some(i),
        i == s.len() ==> find_row_by_uuid(s, uuid) is None,
    decreases i,
{
    if s.len() == 0 {
    } else if i == 0 {
    } else {
        assert forall|j: int| 0 <= j < i - 1 implies (#[trigger] s.skip(1)[j]).uuid@ != uuid by {
            assert(s.skip(1)[j] == s[j + 1]);
        }
        if i < s.len() {
            assert(s.skip(1)[i - 1] == s[i]);
        }
        lemma_find_row_by_uuid(s.skip(1), uuid, i - 1);
    }
}

fn copy_post(p: &Blogpost) -> (r: Blogpost)
    ensures
        r == *p,
{
    Blogpost {
        id: p.id,
        title: p.title.clone(),
        tags: p.tags.clone(),
        url: p.url.clone(),
        body: p.body.clone(),
        author_id: p.author_id,
        created_at: p.created_at,
    }
}

fn copy_row(u: &User) -> (r: User)
    ensures
        r == *u,
{
    User { id: u.id, uuid: u.uuid.clone(), name: u.name.clone(), roles: u.roles }
}

/// Whether a post passes every field of the filter: a set text field must
/// stand inside the post's, a set author must be the post's.
pub open spec fn post_matches(bp: Blogpost, f: BlogpostFilter) -> bool {
    &&& (match f.title {
        Some(t) => str_has(bp.title@, t@),
        None => true,
    })
    &&& (match f.tags {
        Some(t) => str_has(bp.tags@, t@),
        None => true,
    })
    &&& (match f.url {
        Some(t) => str_has(bp.url@, t@),
        None => true,
    })
    &&& (match f.body {
        Some(t) => str_has(bp.body@, t@),
        None => true,
    })
    &&& (match f.author_id {
        Some(a) => bp.author_id == a,
        None => true,
    })
}

/// The posts that pass the filter, in order.
pub open spec fn posts_matching(s: Seq<Blogpost>, f: BlogpostFilter) -> Seq<Blogpost>
    decreases s.len(),
{
    if s.len() == 0 {
        Seq::<Blogpost>::empty()
    } else if post_matches(s[0], f) {
        seq![s[0]] + posts_matching(s.skip(1), f)
    } else {
        posts_matching(s.skip(1), f)
    }
}

proof fn lemma_posts_matching_snoc(s: Seq<Blogpost>, b: Blogpost, f: BlogpostFilter)
    ensures
        posts_matching(s + seq![b], f) == posts_matching(s, f) + (if post_matches(b, f) {
            seq![b]
        } else {
            Seq::<Blogpost>::empty()
        }),
    decreases s.len(),
{
    let tail = if post_matches(b, f) {
        seq![b]
    } else {
        Seq::<Blogpost>::empty()
    };
    if s.len() == 0 {
        assert(s + seq![b] =~= seq![b]);
        assert((seq![b]).skip(1) =~= Seq::<Blogpost>::empty());
        assert(posts_matching(Seq::<Blogpost>::empty(), f) =~= Seq::<Blogpost>::empty());
        assert(posts_matching(s + seq![b], f) =~= posts_matching(s, f) + tail);
    } else {
        assert((s + seq![b]).skip(1) =~= s.skip(1) + seq![b]);
        lemma_posts_matching_snoc(s.skip(1), b, f);
        assert(posts_matching(s + seq![b], f) =~= posts_matching(s, f) + tail);
    }
}

/// Whether a user row passes every field of the filter.
pub open spec fn row_matches(u: User, f: UserFilter) -> bool {
    match f.name {
        Some(n) => str_has(u.name@, n@),
        None => true,
    }
}

/// The user rows that pass the filter, in order.
pub open spec fn rows_matching(s: Seq<User>, f: UserFilter) -> Seq<User>
    decreases s.len(),
{
    if s.len() == 0 {
        Seq::<User>::empty()
    } else if row_matches(s[0], f) {
        seq![s[0]] + rows_matching(s.skip(1), f)
    } else {
        rows_matching(s.skip(1), f)
    }
}

proof fn lemma_rows_matching_snoc(s: Seq<User>, b: User, f: UserFilter)
    ensures
        rows_matching(s + seq![b], f) == rows_matching(s, f) + (if row_matches(b, f) {
            seq![b]
        } else {
            Seq::<User>::empty()
        }),
    decreases s.len(),
{
    let tail = if row_matches(b, f) {
        seq![b]
    } else {
        Seq::<User>::empty()
    };
    if s.len() == 0 {
        assert(s + seq![b] =~= seq![b]);
        assert((seq![b]).skip(1) =~= Seq::<User>::empty());
        assert(rows_matching(Seq::<User>::empty(), f) =~= Seq::<User>::empty());
        assert(rows_matching(s + seq![b], f) =~= rows_matching(s, f) + tail);
    } else {
        assert((s + seq![b]).skip(1) =~= s.skip(1) + seq![b]);
        lemma_rows_matching_snoc(s.skip(1), b, f);
        assert(rows_matching(s + seq![b], f) =~= rows_matching(s, f) + tail);
    }
}

/// The rows left after every post with the given id is dropped.
pub open spec fn posts_without(s: Seq<Blogpost>, id: i32) -> Seq<Blogpost>
    decreases s.len(),
{
    if s.len() == 0 {
        Seq::<Blogpost>::empty()
    } else if s[0].id == id {
        posts_without(s.skip(1), id)
    } else {
        seq![s[0]] + posts_without(s.skip(1), id)
    }
}

proof fn lemma_posts_without_snoc(s: Seq<Blogpost>, b: Blogpost, id: i32)
    ensures
        posts_without(s + seq![b], id) == posts_without(s, id) + (if b.id == id {
            Seq::<Blogpost>::empty()
        } else {
            seq![b]
        }),
    decreases s.len(),
{
    let tail = if b.id == id {
        Seq::<Blogpost>::empty()
    } else {
        seq![b]
    };
    if s.len() == 0 {
        assert(s + seq![b] =~= seq![b]);
        assert((seq![b]).skip(1) =~= Seq::<Blogpost>::empty());
        assert(posts_without(Seq::<Blogpost>::empty(), id) =~= Seq::<Blogpost>::empty());
        assert(posts_without(s + seq![b], id) =~= posts_without(s, id) + tail);
    } else {
        assert((s + seq![b]).skip(1) =~= s.skip(1) + seq![b]);
        lemma_posts_without_snoc(s.skip(1), b, id);
        assert(posts_without(s + seq![b], id) =~= posts_without(s, id) + tail);
    }
}

/// The rows left after every user with the given id is dropped.
pub open spec fn rows_without(s: Seq<User>, id: i32) -> Seq<User>
    decreases s.len(),
{
    if s.len() == 0 {
        Seq::<User>::empty()
    } else if s[0].id == id {
        rows_without(s.skip(1), id)
    } else {
        seq![s[0]] + rows_without(s.skip(1), id)
    }
}

proof fn lemma_rows_without_snoc(s: Seq<User>, b: User, id: i32)
    ensures
        rows_without(s + seq![b], id) == rows_without(s, id) + (if b.id == id {
            Seq::<User>::empty()
        } else {
            seq![b]
        }),
    decreases s.len(),
{
    let tail = if b.id == id {
        Seq::<User>::empty()
    } else {
        seq![b]
    };
    if s.len() == 0 {
        assert(s + seq![b] =~= seq![b]);
        assert((seq![b]).skip(1) =~= Seq::<User>::empty());
        assert(rows_without(Seq::<User>::empty(), id) =~= Seq::<User>::empty());
        assert(rows_without(s + seq![b], id) =~= rows_without(s, id) + tail);
    } else {
        assert((s + seq![b]).skip(1) =~= s.skip(1) + seq![b]);
        lemma_rows_without_snoc(s.skip(1), b, id);
        assert(rows_without(s + seq![b], id) =~= rows_without(s, id) + tail);
    }
}

/// The in-memory content store the routes run against in tests; the
/// production deployment keeps the same rows in SQL behind the database
/// collaborator.
pub struct MemoryDatabase {
    last_id: i32,
    blogposts: Vec<Blogpost>,
    users: Vec<User>,
}

impl MemoryDatabase {
    /// The stored posts.
    pub closed spec fn posts(&self) -> Seq<Blogpost> {
        self.blogposts@
    }

    /// The stored user rows.
    pub closed spec fn rows(&self) -> Seq<User> {
        self.users@
    }

    /// The next id the store hands out.
    pub closed spec fn next_id(&self) -> i32 {
        self.last_id
    }

    /// An empty store.
    pub fn new() -> (r: MemoryDatabase)
        ensures
            r.posts() == Seq::<Blogpost>::empty(),
            r.rows() == Seq::<User>::empty(),
            r.next_id() == 1,
    {
        MemoryDatabase { last_id: 1, blogposts: Vec::new(), users: Vec::new() }
    }

    /// Fetch a post by its id.
    pub fn get_blogpost_by_id(&self, id: i32) -> (r: Result<Blogpost, DatabaseError>)
        ensures
            match r {
                Ok(bp) => (find_post_by_id(self.posts(), id) matches Some(i) && bp
                    == self.posts()[i]),
                Err(e) => e == DatabaseError::NotFound && find_post_by_id(self.posts(), id)
                    is None,
            },
    {
        let mut j: usize = 0;
        while j < self.blogposts.len()
            invariant
                j <= self.blogposts@.len(),
                forall|k: int| 0 <= k < j ==> (#[trigger] self.blogposts@[k]).id != id,
            decreases self.blogposts@.len() - j,
        {
            if self.blogposts[j].id == id {
                proof {
                    lemma_find_post_by_id(self.blogposts@, id, j as int);
                }
                return Ok(copy_post(&self.blogposts[j]));
            }
            j = j + 1;
        }
        proof {
            lemma_find_post_by_id(self.blogposts@, id, self.blogposts@.len() as int);
        }
        Err(DatabaseError::NotFound)
    }

    /// Fetch a post and its author by the post's URL.
    pub fn get_blogpost_and_user_by_url(&self, url: String) -> (r: Result<
        (Blogpost, User),
        DatabaseError,
    >)
        ensures
            match r {
                Ok(p) => {
                    &&& (find_post_by_url(self.posts(), url@) matches Some(i) && p.0
                        == self.posts()[i])
                    &&& (find_row_by_id(self.rows(), p.0.author_id) matches Some(k) && p.1
                        == self.rows()[k])
                },
                Err(e) => e == DatabaseError::NotFound && (find_post_by_url(self.posts(), url@)
                    is None || (find_post_by_url(self.posts(), url@) matches Some(i)
                    && find_row_by_id(self.rows(), self.posts()[i].author_id) is None)),
            },
    {
        let mut j: usize = 0;
        while j < self.blogposts.len()
            invariant
                j <= self.blogposts@.len(),
                forall|k: int| 0 <= k < j ==> (#[trigger] self.blogposts@[k]).url@ != url@,
            decreases self.blogposts@.len() - j,
        {
            if str_eq(self.blogposts[j].url.as_str(), url.as_str()) {
                proof {
                    lemma_find_post_by_url(self.blogposts@, url@, j as int);
                }
                let bp = copy_post(&self.blogposts[j]);
                let author = match self.get_user_by_id(bp.author_id) {
                    Ok(u) => u,
                    Err(e) => {
                        return Err(e);
                    },
                };
                return Ok((bp, author));
            }
            j = j + 1;
        }
        proof {
            lemma_find_post_by_url(self.blogposts@, url@, self.blogposts@.len() as int);
        }
        Err(DatabaseError::NotFound)
    }

    /// Insert a post under a fresh id, stamped with the given time.
    pub fn insert_blogpost(&mut self, bp: NewBlogpost, now: u64) -> (r: Result<i32, DatabaseError>)
        ensures
            final(self).rows() == old(self).rows(),
            r matches Ok(id) && id == old(self).next_id(),
            final(self).posts().len() == old(self).posts().len() + 1,
            forall|j: int|
                0 <= j < old(self).posts().len() ==> final(self).posts()[j] == old(self).posts()[j],
            final(self).posts().last().id == old(self).next_id(),
            final(self).posts().last().title@ == bp.title@,
            final(self).posts().last().tags@ == bp.tags@,
            final(self).posts().last().url@ == bp.url@,
            final(self).posts().last().body@ == bp.body@,
            final(self).posts().last().author_id == bp.author_id,
            final(self).posts().last().created_at == now,
    {
        let id = self.last_id;
        self.last_id = if self.last_id < i32::MAX {
            self.last_id + 1
        } else {
            self.last_id
        };
        let NewBlogpost { title, tags, url, body, author_id } = bp;
        self.blogposts.push(
            Blogpost { id, title, tags, url, body, author_id, created_at: now },
        );
        Ok(id)
    }

    /// Update the post with the given id: each set field replaces the
    /// stored one, the rest stay.
    pub fn update_blogpost(&mut self, id: i32, bp: BlogpostChange) -> (r: Result<
        (),
        DatabaseError,
    >)
        ensures
            final(self).rows() == old(self).rows(),
            final(self).next_id() == old(self).next_id(),
            match find_post_by_id(old(self).posts(), id) {
                None => (r matches Err(e) && e == DatabaseError::NotFound) && final(self).posts()
                    == old(self).posts(),
                Some(i) => {
                    &&& r is Ok
                    &&& final(self).posts().len() == old(self).posts().len()
                    &&& forall|j: int|
                        0 <= j < old(self).posts().len() && j != i ==> final(self).posts()[j]
                            == old(self).posts()[j]
                    &&& final(self).posts()[i].id == old(self).posts()[i].id
                    &&& final(self).posts()[i].created_at == old(self).posts()[i].created_at
                    &&& final(self).posts()[i].title@ == (match bp.title {
                        Some(t) => t@,
                        None => old(self).posts()[i].title@,
                    })
                    &&& final(self).posts()[i].tags@ == (match bp.tags {
                        Some(t) => t@,
                        None => old(self).posts()[i].tags@,
                    })
                    &&& final(self).posts()[i].url@ == (match bp.url {
                        Some(t) => t@,
                        None => old(self).posts()[i].url@,
                    })
                    &&& final(self).posts()[i].body@ == (match bp.body {
                        Some(t) => t@,
                        None => old(self).posts()[i].body@,
                    })
                    &&& final(self).posts()[i].author_id == (match bp.author_id {
                        Some(a) => a,
                        None => old(self).posts()[i].author_id,
                    })
                },
            },
    {
        let mut j: usize = 0;
        while j < self.blogposts.len()
            invariant
                j <= self.blogposts@.len(),
                forall|k: int| 0 <= k < j ==> (#[trigger] self.blogposts@[k]).id != id,
                self.blogposts@ == old(self).blogposts@,
                self.users@ == old(self).users@,
                self.last_id == old(self).last_id,
            decreases self.blogposts@.len() - j,
        {
            if self.blogposts[j].id == id {
                proof {
                    lemma_find_post_by_id(self.blogposts@, id, j as int);
                }
                let stored = &self.blogposts[j];
                let updated = Blogpost {
                    id: stored.id,
                    title: match bp.title {
                        Some(t) => t,
                        None => stored.title.clone(),
                    },
                    tags: match bp.tags {
                        Some(t) => t,
                        None => stored.tags.clone(),
                    },
                    url: match bp.url {
                        Some(t) => t,
                        None => stored.url.clone(),
                    },
                    body: match bp.body {
                        Some(t) => t,
                        None => stored.body.clone(),
                    },
                    author_id: match bp.author_id {
                        Some(a) => a,
                        None => stored.author_id,
                    },
                    created_at: stored.created_at,
                };
                self.blogposts.set(j, updated);
                return Ok(());
            }
            j = j + 1;
        }
        proof {
            lemma_find_post_by_id(self.blogposts@, id, self.blogposts@.len() as int);
        }
        Err(DatabaseError::NotFound)
    }

    /// List the posts that pass the filter, in stored order.
    pub fn list_blogposts(&self, filter: BlogpostFilter) -> (r: Result<
        Vec<Blogpost>,
        DatabaseError,
    >)
        ensures
            r matches Ok(v) && v@ == posts_matching(self.posts(), filter),
    {
        let mut out: Vec<Blogpost> = Vec::new();
        let mut j: usize = 0;
        proof {
            assert(self.blogposts@.take(0) =~= Seq::<Blogpost>::empty());
        }
        while j < self.blogposts.len()
            invariant
                j <= self.blogposts@.len(),
                out@ == posts_matching(self.blogposts@.take(j as int), filter),
            decreases self.blogposts@.len() - j,
        {
            let bp = &self.blogposts[j];
            let keep = (match &filter.title {
                Some(t) => str_contains(bp.title.as_str(), t.as_str()),
                None => true,
            }) && (match &filter.tags {
                Some(t) => str_contains(bp.tags.as_str(), t.as_str()),
                None => true,
            }) && (match &filter.url {
                Some(t) => str_contains(bp.url.as_str(), t.as_str()),
                None => true,
            }) && (match &filter.body {
                Some(t) => str_contains(bp.body.as_str(), t.as_str()),
                None => true,
            }) && (match filter.author_id {
                Some(a) => bp.author_id == a,
                None => true,
            });
            proof {
                assert(self.blogposts@.take(j + 1) =~= self.blogposts@.take(j as int) + seq![
                    self.blogposts@[j as int],
                ]);
                lemma_posts_matching_snoc(
                    self.blogposts@.take(j as int),
                    self.blogposts@[j as int],
                    filter,
                );
            }
            if keep {
                out.push(copy_post(bp));
                proof {
                    assert(out@ =~= posts_matching(self.blogposts@.take(j + 1), filter));
                }
            } else {
                proof {
                    assert(out@ =~= posts_matching(self.blogposts@.take(j + 1), filter));
                }
            }
            j = j + 1;
        }
        proof {
            assert(self.blogposts@.take(self.blogposts@.len() as int) =~= self.blogposts@);
        }
        Ok(out)
    }

    /// Drop every post with the given id.
    pub fn delete_blogpost(&mut self, id: i32) -> (r: Result<(), DatabaseError>)
        ensures
            final(self).rows() == old(self).rows(),
            final(self).next_id() == old(self).next_id(),
            final(self).posts() == posts_without(old(self).posts(), id),
            r is Ok,
    {
        let mut out: Vec<Blogpost> = Vec::new();
        let mut j: usize = 0;
        proof {
            assert(self.blogposts@.take(0) =~= Seq::<Blogpost>::empty());
        }
        while j < self.blogposts.len()
            invariant
                j <= self.blogposts@.len(),
                out@ == posts_without(self.blogposts@.take(j as int), id),
            decreases self.blogposts@.len() - j,
        {
            proof {
                assert(self.blogposts@.take(j + 1) =~= self.blogposts@.take(j as int) + seq![
                    self.blogposts@[j as int],
                ]);
                lemma_posts_without_snoc(
                    self.blogposts@.take(j as int),
                    self.blogposts@[j as int],
                    id,
                );
            }
            if self.blogposts[j].id != id {
                out.push(copy_post(&self.blogposts[j]));
            }
            proof {
                assert(out@ =~= posts_without(self.blogposts@.take(j + 1), id));
            }
            j = j + 1;
        }
        proof {
            assert(self.blogposts@.take(self.blogposts@.len() as int) =~= self.blogposts@);
        }
        self.blogposts = out;
        Ok(())
    }

    /// Fetch a user row by its id.
    pub fn get_user_by_id(&self, id: i32) -> (r: Result<User, DatabaseError>)
        ensures
            match r {
                Ok(u) => (find_row_by_id(self.rows(), id) matches Some(i) && u == self.rows()[i]),
                Err(e) => e == DatabaseError::NotFound && find_row_by_id(self.rows(), id) is None,
            },
    {
        let mut j: usize = 0;
        while j < self.users.len()
            invariant
                j <= self.users@.len(),
                forall|k: int| 0 <= k < j ==> (#[trigger] self.users@[k]).id != id,
            decreases self.users@.len() - j,
        {
            if self.users[j].id == id {
                proof {
                    lemma_find_row_by_id(self.users@, id, j as int);
                }
                return Ok(copy_row(&self.users[j]));
            }
            j = j + 1;
        }
        proof {
            lemma_find_row_by_id(self.users@, id, self.users@.len() as int);
        }
        Err(DatabaseError::NotFound)
    }

    /// Fetch a user row by its UUID.
    pub fn get_user_by_uuid(&self, uuid: String) -> (r: Result<User, DatabaseError>)
        ensures
            match r {
                Ok(u) => (find_row_by_uuid(self.rows(), uuid@) matches Some(i) && u
                    == self.rows()[i]),
                Err(e) => e == DatabaseError::NotFound && find_row_by_uuid(self.rows(), uuid@)
                    is None,
            },
    {
        let mut j: usize = 0;
        while j < self.users.len()
            invariant
                j <= self.users@.len(),
                forall|k: int| 0 <= k < j ==> (#[trigger] self.users@[k]).uuid@ != uuid@,
            decreases self.users@.len() - j,
        {
            if str_eq(self.users[j].uuid.as_str(), uuid.as_str()) {
                proof {
                    lemma_find_row_by_uuid(self.users@, uuid@, j as int);
                }
                return Ok(copy_row(&self.users[j]));
            }
            j = j + 1;
        }
        proof {
            lemma_find_row_by_uuid(self.users@, uuid@, self.users@.len() as int);
        }
        Err(DatabaseError::NotFound)
    }

    /// Insert a user row under a fresh id.
    pub fn insert_user(&mut self, user: NewUser) -> (r: Result<i32, DatabaseError>)
        ensures
            final(self).posts() == old(self).posts(),
            r matches Ok(id) && id == old(self).next_id(),
            final(self).rows().len() == old(self).rows().len() + 1,
            forall|j: int|
                0 <= j < old(self).rows().len() ==> final(self).rows()[j] == old(self).rows()[j],
            final(self).rows().last().id == old(self).next_id(),
            final(self).rows().last().uuid@ == user.uuid@,
            final(self).rows().last().name@ == user.name@,
            final(self).rows().last().roles == user.roles,
    {
        let id = self.last_id;
        self.last_id = if self.last_id < i32::MAX {
            self.last_id + 1
        } else {
            self.last_id
        };
        let NewUser { uuid, name, roles } = user;
        self.users.push(User { id, uuid, name, roles });
        Ok(id)
    }

    /// Update the user row with the given id: each set field replaces the
    /// stored one, the rest stay.
    pub fn update_user(&mut self, id: i32, user: UserChange) -> (r: Result<(), DatabaseError>)
        ensures
            final(self).posts() == old(self).posts(),
            final(self).next_id() == old(self).next_id(),
            match find_row_by_id(old(self).rows(), id) {
                None => (r matches Err(e) && e == DatabaseError::NotFound) && final(self).rows()
                    == old(self).rows(),
                Some(i) => {
                    &&& r is Ok
                    &&& final(self).rows().len() == old(self).rows().len()
                    &&& forall|j: int|
                        0 <= j < old(self).rows().len() && j != i ==> final(self).rows()[j] == old(
                            self,
                        ).rows()[j]
                    &&& final(self).rows()[i].id == old(self).rows()[i].id
                    &&& final(self).rows()[i].uuid@ == (match user.uuid {
                        Some(u) => u@,
                        None => old(self).rows()[i].uuid@,
                    })
                    &&& final(self).rows()[i].name@ == (match user.name {
                        Some(n) => n@,
                        None => old(self).rows()[i].name@,
                    })
                    &&& final(self).rows()[i].roles == (match user.roles {
                        Some(ro) => ro,
                        None => old(self).rows()[i].roles,
                    })
                },
            },
    {
        let mut j: usize = 0;
        while j < self.users.len()
            invariant
                j <= self.users@.len(),
                forall|k: int| 0 <= k < j ==> (#[trigger] self.users@[k]).id != id,
                self.blogposts@ == old(self).blogposts@,
                self.users@ == old(self).users@,
                self.last_id == old(self).last_id,
            decreases self.users@.len() - j,
        {
            if self.users[j].id == id {
                proof {
                    lemma_find_row_by_id(self.users@, id, j as int);
                }
                let stored = &self.users[j];
                let updated = User {
                    id: stored.id,
                    uuid: match user.uuid {
                        Some(u) => u,
                        None => stored.uuid.clone(),
                    },
                    name: match user.name {
                        Some(n) => n,
                        None => stored.name.clone(),
                    },
                    roles: match user.roles {
                        Some(ro) => ro,
                        None => stored.roles,
                    },
                };
                self.users.set(j, updated);
                return Ok(());
            }
            j = j + 1;
        }
        proof {
            lemma_find_row_by_id(self.users@, id, self.users@.len() as int);
        }
        Err(DatabaseError::NotFound)
    }

    /// List the user rows that pass the filter, in stored order.
    pub fn list_users(&self, filter: UserFilter) -> (r: Result<Vec<User>, DatabaseError>)
        ensures
            r matches Ok(v) && v@ == rows_matching(self.rows(), filter),
    {
        let mut out: Vec<User> = Vec::new();
        let mut j: usize = 0;
        proof {
            assert(self.users@.take(0) =~= Seq::<User>::empty());
        }
        while j < self.users.len()
            invariant
                j <= self.users@.len(),
                out@ == rows_matching(self.users@.take(j as int), filter),
            decreases self.users@.len() - j,
        {
            let u = &self.users[j];
            let keep = match &filter.name {
                Some(n) => str_contains(u.name.as_str(), n.as_str()),
                None => true,
            };
            proof {
                assert(self.users@.take(j + 1) =~= self.users@.take(j as int) + seq![
                    self.users@[j as int],
                ]);
                lemma_rows_matching_snoc(self.users@.take(j as int), self.users@[j as int], filter);
            }
            if keep {
                out.push(copy_row(u));
                proof {
                    assert(out@ =~= rows_matching(self.users@.take(j + 1), filter));
                }
            } else {
                proof {
                    assert(out@ =~= rows_matching(self.users@.take(j + 1), filter));
                }
            }
            j = j + 1;
        }
        proof {
            assert(self.users@.take(self.users@.len() as int) =~= self.users@);
        }
        Ok(out)
    }

    /// Drop every user row with the given id.
    pub fn delete_user(&mut self, id: i32) -> (r: Result<(), DatabaseError>)
        ensures
            final(self).posts() == old(self).posts(),
            final(self).next_id() == old(self).next_id(),
            final(self).rows() == rows_without(old(self).rows(), id),
            r is Ok,
    {
        let mut out: Vec<User> = Vec::new();
        let mut j: usize = 0;
        proof {
            assert(self.users@.take(0) =~= Seq::<User>::empty());
        }
        while j < self.users.len()
            invariant
                j <= self.users@.len(),
                out@ == rows_without(self.users@.take(j as int), id),
            decreases self.users@.len() - j,
        {
            proof {
                assert(self.users@.take(j + 1) =~= self.users@.take(j as int) + seq![
                    self.users@[j as int],
                ]);
                lemma_rows_without_snoc(self.users@.take(j as int), self.users@[j as int], id);
            }
            if self.users[j].id != id {
                out.push(copy_row(&self.users[j]));
            }
            proof {
                assert(out@ =~= rows_without(self.users@.take(j + 1), id));
            }
            j = j + 1;
        }
        proof {
            assert(self.users@.take(self.users@.len() as int) =~= self.users@);
        }
        self.users = out;
        Ok(())
    }

    /// The store the tests run against: two users and two posts.
    pub fn with_test_data(now: u64) -> (r: MemoryDatabase)
        ensures
            r.rows().len() == 2,
            r.posts().len() == 2,
            r.next_id() == 3,
            r.rows()[0].id == 1 && r.rows()[0].name@ == "John Notgull"@ && r.rows()[0].uuid@
                == "65a7e8c5-c235-49a9-ba00-6d9c049776f4"@ && r.rows()[0].roles == 0xFFFFFFFF,
            r.rows()[1].id == 2 && r.rows()[1].name@ == "Alan Smithee"@ && r.rows()[1].uuid@
                == "995a066d-de0e-4378-92e6-407f7aa1dc19"@ && r.rows()[1].roles == 0,
            r.posts()[0].id == 1 && r.posts()[0].title@ == "Chasing Suns"@ && r.posts()[0].url@
                == "chasing-suns"@ && r.posts()[0].author_id == 1,
            r.posts()[1].id == 2 && r.posts()[1].title@ == "How to make a website"@
                && r.posts()[1].url@ == "how-to-make-a-website"@ && r.posts()[1].author_id == 1,
    {
        let mut db = MemoryDatabase::new();
        db.users.push(
            User {
                id: 1,
                uuid: String::from_str("65a7e8c5-c235-49a9-ba00-6d9c049776f4"),
                name: String::from_str("John Notgull"),
                roles: 0xFFFFFFFF,
            },
        );
        db.users.push(
            User {
                id: 2,
                uuid: String::from_str("995a066d-de0e-4378-92e6-407f7aa1dc19"),
                name: String::from_str("Alan Smithee"),
                roles: 0,
            },
        );
        db.blogposts.push(
            Blogpost {
                id: 1,
                title: String::from_str("Chasing Suns"),
                tags: String::from_str("story,humurous,funny"),
                url: String::from_str("chasing-suns"),
                body: String::from_str(
                    "...and we spent so much time chasing suns, we forgot what we were really after.",
                ),
                author_id: 1,
                created_at: now,
            },
        );
        db.blogposts.push(
            Blogpost {
                id: 2,
                title: String::from_str("How to make a website"),
                tags: String::from_str("tutorial,technical,funny"),
                url: String::from_str("how-to-make-a-website"),
                body: String::from_str("Hello, I am John Notgull. What if we made a website?"),
                author_id: 1,
                created_at: now,
            },
        );
        db.last_id = 3;
        db
    }
}

} // verus!
