//! The paste record, the errors of the paste flows, and a create-only
//! store keyed by paste identifier.

use vstd::prelude::*;

verus! {

/// A point in time: whole seconds since the Unix epoch of the local wall
/// clock, and the nanoseconds past them (up to two seconds' worth within a
/// leap second).
#[derive(Clone, Copy, Debug, PartialEq, Eq, Structural)]
pub struct Timestamp {
    pub secs: i64,
    pub nanos: u32,
}

/// A stored submission.
#[derive(Debug)]
pub struct Post {
    pub post_id: u128,
    pub user_id: Option<i32>,
    pub created_date: Timestamp,
    pub expires_date: Option<Timestamp>,
    pub language: String,
    pub contents: Vec<u8>,
    pub rendered: String,
    pub deletion_token: u128,
}

/// What a submitter hands in: a language label and the text.
#[derive(Debug)]
pub struct UserPaste {
    pub language: String,
    pub contents: String,
}

/// The failures of the paste flows.
#[derive(Clone, Copy, Debug, PartialEq, Eq, Structural)]
pub enum PasteError {
    /// The identifier text is not an identifier.
    InvalidIdentifier,
    /// No paste has this identifier.
    NotFound,
    /// A paste with this identifier exists already.
    Conflict,
    /// The storage could not be reached.
    Unavailable,
    /// The rendering theme is not in the catalog.
    UnknownTheme,
    /// The highlighter failed on the text.
    Highlighting,
}

/// Pastes kept in memory, each under its identifier; a paste once stored is
/// never replaced.
pub struct PasteStore {
    posts: Vec<Post>,
    model: Ghost<Map<u128, Post>>,
}

impl View for PasteStore {
    type V = Map<u128, Post>;

    closed spec fn view(&self) -> Map<u128, Post> {
        self.model@
    }
}

impl PasteStore {
    /// Every stored record is the model's entry for its identifier, every
    /// identifier of the model has a stored record, and no identifier is
    /// stored twice.
    pub closed spec fn wf(&self) -> bool {
        &&& forall|i: int|
            0 <= i < self.posts.len() ==> #[trigger] self.model@.contains_key(self.posts[i].post_id)
                && self.model@[self.posts[i].post_id] == self.posts[i]
        &&& forall|id: u128|
            #[trigger] self.model@.contains_key(id) ==> exists|i: int|
                0 <= i < self.posts.len() && self.posts[i].post_id == id
        &&& forall|i: int, j: int|
            0 <= i < j < self.posts.len() ==> #[trigger] self.posts[i].post_id
                != #[trigger] self.posts[j].post_id
    }

    /// An empty store.
    pub fn new() -> (r: Self)
        ensures
            r.wf(),
            r@ == Map::<u128, Post>::empty(),
    {
        PasteStore { posts: Vec::new(), model: Ghost(Map::empty()) }
    }

    /// Whether a paste is stored under `id`.
    pub fn contains(&self, id: u128) -> (r: bool)
        requires
            self.wf(),
        ensures
            r == self@.contains_key(id),
    {
        let mut i: usize = 0;
        while i < self.posts.len()
            invariant
                self.wf(),
                i <= self.posts.len(),
                forall|j: int| 0 <= j < i ==> self.posts[j].post_id != id,
            decreases self.posts.len() - i,
        {
            if self.posts[i].post_id == id {
                return true;
            }
            i = i + 1;
        }
        false
    }

    /// Stores `post` under its identifier, unless a paste is stored there
    /// already.
    pub fn insert_paste(&mut self, post: Post) -> (r: Result<(), PasteError>)
        requires
            old(self).wf(),
        ensures
            final(self).wf(),
            old(self)@.contains_key(post.post_id) ==> r == Err::<(), PasteError>(PasteError::Conflict)
                && final(self)@ == old(self)@,
            !old(self)@.contains_key(post.post_id) ==> r == Ok::<(), PasteError>(())
                && final(self)@ == old(self)@.insert(post.post_id, post),
    {
        if self.contains(post.post_id) {
            return Err(PasteError::Conflict);
        }
        let ghost id = post.post_id;
        let ghost p = post;
        proof {
            self.model@ = self.model@.insert(id, p);
        }
        self.posts.push(post);
        assert forall|k: u128| #[trigger] self.model@.contains_key(k) implies exists|i: int|
            0 <= i < self.posts.len() && self.posts[i].post_id == k by {
            if k == id {
                assert(self.posts[self.posts.len() - 1].post_id == k);
            } else {
                assert(old(self).model@.contains_key(k));
                let i = choose|i: int| 0 <= i < old(self).posts.len() && old(self).posts[i].post_id == k;
                assert(self.posts[i] == old(self).posts[i]);
            }
        }
        Ok(())
    }

    /// The paste stored under `id`.
    pub fn get_paste(&self, id: u128) -> (r: Result<&Post, PasteError>)
        requires
            self.wf(),
        ensures
            r is Ok ==> self@.contains_key(id) && *r->Ok_0 == self@[id] && r->Ok_0.post_id == id,
            r is Err ==> r->Err_0 == PasteError::NotFound && !self@.contains_key(id),
    {
        let mut i: usize = 0;
        while i < self.posts.len()
            invariant
                self.wf(),
                i <= self.posts.len(),
                forall|j: int| 0 <= j < i ==> self.posts[j].post_id != id,
            decreases self.posts.len() - i,
        {
            if self.posts[i].post_id == id {
                return Ok(&self.posts[i]);
            }
            i = i + 1;
        }
        Err(PasteError::NotFound)
    }
}

} // verus!
