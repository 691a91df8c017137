//! The post store: exclusive owner of the ordered post list and of the
//! monotonic id counter.

use vstd::prelude::*;
use vstd::pervasive::VecAdditionalExecFns;
use vstd::string::{StrSliceExecFns, StringExecFns};
use crate::post::{Post, PostView};

verus! {

/// A character with the Unicode `White_Space` property — the set that
/// trimming strips.
pub open spec fn is_space(c: char) -> bool {
    let n = c as u32;
    ||| n == 0x09
    ||| n == 0x0a
    ||| n == 0x0b
    ||| n == 0x0c
    ||| n == 0x0d
    ||| n == 0x20
    ||| n == 0x85
    ||| n == 0xa0
    ||| n == 0x1680
    ||| (0x2000 <= n && n <= 0x200a)
    ||| n == 0x2028
    ||| n == 0x2029
    ||| n == 0x202f
    ||| n == 0x205f
    ||| n == 0x3000
}

/// A body is blank when every character is whitespace, so trimming would
/// leave it empty. The empty body is blank.
pub open spec fn is_blank(s: Seq<char>) -> bool {
    forall|i: int| 0 <= i < s.len() ==> is_space(s[i])
}

fn char_is_space(c: char) -> (r: bool)
    ensures
        r == is_space(c),
{
    let n = c as u32;
    n == 0x09 || n == 0x0a || n == 0x0b || n == 0x0c || n == 0x0d || n == 0x20 || n == 0x85
        || n == 0xa0 || n == 0x1680 || (0x2000 <= n && n <= 0x200a) || n == 0x2028 || n == 0x2029
        || n == 0x202f || n == 0x205f || n == 0x3000
}

/// Decides [`is_blank`] for a string slice.
pub fn str_is_blank(s: &str) -> (r: bool)
    ensures
        r == is_blank(s@),
{
    let len = s.unicode_len();
    let mut i: usize = 0;
    while i < len
        invariant
            i <= len,
            len == s@.len(),
            forall|j: int| 0 <= j < i ==> is_space(s@[j]),
        decreases len - i,
    {
        let c = s.get_char(i);
        if !char_is_space(c) {
            return false;
        }
        i = i + 1;
    }
    true
}

/// The prefix every avatar URL starts with; the author's name completes it.
pub open spec fn avatar_url_spec(name: Seq<char>) -> Seq<char> {
    "https://ui-avatars.com/api/?background=random&rounded=true&name="@ + name
}

/// Builds the deterministic avatar URL assigned to an author.
pub fn avatar_url(name: &str) -> (r: String)
    ensures
        r@ == avatar_url_spec(name@),
{
    let mut s: String = "https://ui-avatars.com/api/?background=random&rounded=true&name=".to_owned();
    s.append(name);
    s
}

/// Relies on time's `OffsetDateTime::now_utc`, rendered through its `Display`
/// implementation: the wall clock, of which nothing can be promised.
#[verifier::external_body]
fn now_string() -> String {
    time::OffsetDateTime::now_utc().to_string()
}

/// Why an update was refused: the id is unknown, the editor's token matches
/// neither the author nor the owner token, or the new body is blank.
#[derive(Clone, Copy, Debug, PartialEq, Eq, Structural)]
pub enum UpdateError {
    NotFound,
    Forbidden,
    EmptyBody,
}

impl UpdateError {
    /// The HTTP status that reports this error to the caller: 404 for an
    /// unknown id, 403 for a failed ownership check, 400 for a blank body.
    pub fn http_status(&self) -> (code: u16)
        ensures
            *self == UpdateError::NotFound ==> code == 404,
            *self == UpdateError::Forbidden ==> code == 403,
            *self == UpdateError::EmptyBody ==> code == 400,
    {
        match self {
            UpdateError::NotFound => 404,
            UpdateError::Forbidden => 403,
            UpdateError::EmptyBody => 400,
        }
    }
}

/// An editor may change a post when the presented token equals the recorded
/// author or the recorded owner token.
pub open spec fn can_edit(p: PostView, editor: Seq<char>) -> bool {
    p.username == editor || p.owner_id == editor
}

/// The ordered post list together with the next id to assign. Insertion
/// order is display order; ids are assigned from a counter that only grows,
/// so they are never reused.
pub struct PostStore {
    pub posts: Vec<Post>,
    pub next_id: u64,
}

impl PostStore {
    /// Well-formed: ids were assigned below `next_id` and increase strictly
    /// with position, so no id repeats and ids at or above `next_id` are
    /// still free.
    pub open spec fn wf(&self) -> bool {
        &&& 1 <= self.next_id
        &&& forall|i: int| 0 <= i < self.posts@.len() ==> #[trigger] self.posts@[i].id < self.next_id
        &&& forall|i: int, j: int|
            0 <= i < j < self.posts@.len() ==> #[trigger] self.posts@[i].id < #[trigger] self.posts@[j].id
    }

    /// Some stored post carries this id.
    pub open spec fn has_post(&self, id: u64) -> bool {
        exists|i: int| 0 <= i < self.posts@.len() && #[trigger] self.posts@[i].id == id
    }

    /// The position of the post with this id (unique in a well-formed store).
    pub open spec fn idx_of(&self, id: u64) -> int {
        choose|i: int| 0 <= i < self.posts@.len() && #[trigger] self.posts@[i].id == id
    }

    pub fn new() -> (s: PostStore)
        ensures
            s.wf(),
            s.posts@.len() == 0,
            s.next_id == 1,
    {
        PostStore { posts: Vec::new(), next_id: 1 }
    }

    /// Appends a new post: assigns the next id, stamps the current time and
    /// the author's avatar URL, and records the author as owner. Returns the
    /// assigned id, which is strictly greater than every id already stored.
    pub fn append(&mut self, username: &str, message: &str) -> (id: u64)
        requires
            old(self).wf(),
            old(self).next_id < u64::MAX,
        ensures
            final(self).wf(),
            id == old(self).next_id,
            final(self).next_id == old(self).next_id + 1,
            final(self).posts@.len() == old(self).posts@.len() + 1,
            final(self).posts@.subrange(0, old(self).posts@.len() as int) == old(self).posts@,
            ({
                let p = final(self).posts@.last();
                &&& p.id == id
                &&& p@.username == username@
                &&& p@.message == message@
                &&& p@.avatar == avatar_url_spec(username@)
                &&& p@.owner_id == username@
            }),
    {
        let id = self.next_id;
        let p = Post {
            id,
            username: username.to_owned(),
            message: message.to_owned(),
            time: now_string(),
            avatar: avatar_url(username),
            owner_id: username.to_owned(),
        };
        self.next_id = self.next_id + 1;
        self.posts.push(p);
        proof {
            assert(self.posts@.subrange(0, old(self).posts@.len() as int) =~= old(self).posts@);
        }
        id
    }

    /// Looks the post with this id up; answers `None` exactly when no stored
    /// post carries the id.
    pub fn find(&self, id: u64) -> (r: Option<&Post>)
        requires
            self.wf(),
        ensures
            r is Some <==> self.has_post(id),
            r matches Some(p) ==> p.id == id && *p == self.posts@[self.idx_of(id)],
    {
        let n = self.posts.len();
        let mut i: usize = 0;
        while i < n
            invariant
                i <= n,
                n == self.posts@.len(),
                self.wf(),
                forall|j: int| 0 <= j < i ==> #[trigger] self.posts@[j].id != id,
            decreases n - i,
        {
            if self.posts[i].id == id {
                proof {
                    lemma_id_position_unique(self, self.idx_of(id), i as int);
                }
                return Some(&self.posts[i]);
            }
            i = i + 1;
        }
        None
    }

    /// Edits the post with this id in place. A blank body is refused before
    /// anything else; then an unknown id; then a token that matches neither
    /// ownership field. On success only the body and the timestamp change,
    /// and the updated post is returned.
    pub fn update(&mut self, id: u64, new_message: &str, editor: &str) -> (r: Result<
        Post,
        UpdateError,
    >)
        requires
            old(self).wf(),
        ensures
            final(self).wf(),
            final(self).next_id == old(self).next_id,
            r is Err ==> *final(self) == *old(self),
            r == Err::<Post, UpdateError>(UpdateError::EmptyBody) <==> is_blank(new_message@),
            !is_blank(new_message@) ==> (r == Err::<Post, UpdateError>(UpdateError::NotFound)
                <==> !old(self).has_post(id)),
            !is_blank(new_message@) && old(self).has_post(id) ==> (r == Err::<Post, UpdateError>(
                UpdateError::Forbidden,
            ) <==> !can_edit(old(self).posts@[old(self).idx_of(id)]@, editor@)),
            !is_blank(new_message@) && old(self).has_post(id) && can_edit(
                old(self).posts@[old(self).idx_of(id)]@,
                editor@,
            ) ==> ({
                let i = old(self).idx_of(id);
                let q = old(self).posts@[i];
                &&& r matches Ok(p)
                &&& final(self).posts@ == old(self).posts@.update(i, p)
                &&& p.id == id
                &&& p@.username == q@.username
                &&& p@.message == new_message@
                &&& p@.avatar == q@.avatar
                &&& p@.owner_id == q@.owner_id
            }),
    {
        if str_is_blank(new_message) {
            return Err(UpdateError::EmptyBody);
        }
        let n = self.posts.len();
        let mut i: usize = 0;
        while i < n
            invariant
                i <= n,
                n == self.posts@.len(),
                self.wf(),
                *self == *old(self),
                !is_blank(new_message@),
                forall|j: int| 0 <= j < i ==> #[trigger] self.posts@[j].id != id,
            decreases n - i,
        {
            if self.posts[i].id == id {
                proof {
                    lemma_id_position_unique(self, self.idx_of(id), i as int);
                }
                let editor_owned = editor.to_owned();
                let authorized = self.posts[i].username == editor_owned || self.posts[i].owner_id
                    == editor_owned;
                if !authorized {
                    return Err(UpdateError::Forbidden);
                }
                let prev = &self.posts[i];
                let updated = Post {
                    id: prev.id,
                    username: prev.username.clone(),
                    message: new_message.to_owned(),
                    time: now_string(),
                    avatar: prev.avatar.clone(),
                    owner_id: prev.owner_id.clone(),
                };
                let out = updated.clone();
                self.posts.set(i, updated);
                proof {
                    assert forall|k: int| 0 <= k < self.posts@.len() implies #[trigger] self.posts@[k].id
                        == old(self).posts@[k].id by {}
                }
                return Ok(out);
            }
            i = i + 1;
        }
        Err(UpdateError::NotFound)
    }

    /// An immutable copy of the current post sequence.
    pub fn snapshot(&self) -> (r: Vec<Post>)
        ensures
            r@ == self.posts@,
    {
        clone_posts(&self.posts)
    }
}

/// Copies a post sequence element by element; the copy carries the very same
/// values.
pub fn clone_posts(v: &Vec<Post>) -> (r: Vec<Post>)
    ensures
        r@ == v@,
{
    let r = v.clone();
    proof {
        assert forall|i: int| 0 <= i < v@.len() implies r@[i] == v@[i] by {
            assert(vstd::pervasive::cloned::<Post>(v@[i], r@[i]));
        }
        assert(r@ =~= v@);
    }
    r
}

/// In a well-formed store an id picks out at most one position.
proof fn lemma_id_position_unique(s: &PostStore, i: int, j: int)
    requires
        s.wf(),
        0 <= i < s.posts@.len(),
        0 <= j < s.posts@.len(),
        s.posts@[i].id == s.posts@[j].id,
    ensures
        i == j,
{
}

/// Law: ids strictly increase in display order, so distinct positions in a
/// well-formed store always hold distinct ids — appended ids never repeat.
pub proof fn lemma_ids_strictly_increasing_and_unique(s: PostStore)
    requires
        s.wf(),
    ensures
        forall|i: int, j: int|
            0 <= i < j < s.posts@.len() ==> #[trigger] s.posts@[i].id < #[trigger] s.posts@[j].id,
        forall|i: int, j: int|
            0 <= i < s.posts@.len() && 0 <= j < s.posts@.len() && i != j ==> #[trigger] s.posts@[i].id
                != #[trigger] s.posts@[j].id,
{
}

/// Law: an id at or above `next_id` was never returned by `append`, so it is
/// absent from a well-formed store and `update` on it answers `NotFound`.
pub proof fn lemma_unassigned_id_absent(s: PostStore, id: u64)
    requires
        s.wf(),
        id >= s.next_id,
    ensures
        !s.has_post(id),
{
}

} // verus!
