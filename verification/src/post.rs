//! The post record and its mathematical view.

use vstd::prelude::*;

verus! {

/// One micro-blog post. `id` is unique within a store's lifetime and never
/// reused; `owner_id` is the token that authorizes edits.
#[derive(Debug)]
pub struct Post {
    pub id: u64,
    pub username: String,
    pub message: String,
    pub time: String,
    pub avatar: String,
    pub owner_id: String,
}

/// The mathematical value of a [`Post`]: every string field abstracted to its
/// character sequence. Two posts render identically exactly when their views
/// are equal.
pub struct PostView {
    pub id: u64,
    pub username: Seq<char>,
    pub message: Seq<char>,
    pub time: Seq<char>,
    pub avatar: Seq<char>,
    pub owner_id: Seq<char>,
}

impl View for Post {
    type V = PostView;

    open spec fn view(&self) -> PostView {
        PostView {
            id: self.id,
            username: self.username@,
            message: self.message@,
            time: self.time@,
            avatar: self.avatar@,
            owner_id: self.owner_id@,
        }
    }
}

impl Clone for Post {
    fn clone(&self) -> (res: Self)
        ensures
            res == *self,
    {
        Post {
            id: self.id,
            username: self.username.clone(),
            message: self.message.clone(),
            time: self.time.clone(),
            avatar: self.avatar.clone(),
            owner_id: self.owner_id.clone(),
        }
    }
}

impl Post {
    /// Structural equality of two posts, decided field by field.
    pub fn content_equal(&self, other: &Post) -> (r: bool)
        ensures
            r == (self@ == other@),
    {
        let r = self.id == other.id && self.username == other.username
            && self.message == other.message && self.time == other.time
            && self.avatar == other.avatar && self.owner_id == other.owner_id;
        r
    }
}

/// The posts of a snapshot as mathematical values, in display order. Two
/// snapshots are structurally equal exactly when these sequences are equal.
pub open spec fn snap_view(s: Seq<Post>) -> Seq<PostView> {
    s.map_values(|p: Post| p@)
}

/// The author/body pair a client submits when creating or editing a post.
pub struct QueryParams {
    pub username: String,
    pub message: String,
}

} // verus!
