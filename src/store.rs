use vstd::prelude::*;
use crate::error::BlogError;
use crate::models::{Comment, CommentView, Post, PostView, User, UserView};
use crate::seqs::{keys_unique, lemma_filter_keeps, lemma_filter_step, times_sorted};

verus! {

/// The abstract state of a store: its three tables in insertion order and
/// the latest timestamp it has handed out.
pub struct StoreView {
    pub users: Seq<UserView>,
    pub posts: Seq<PostView>,
    pub comments: Seq<CommentView>,
    pub clock: i64,
}

impl StoreView {
    pub open spec fn has_user(self, id: u128) -> bool {
        exists|i: int| 0 <= i < self.users.len() && #[trigger] self.users[i].id == id
    }

    /// The user with key `id`, where there is one.
    pub open spec fn user_with(self, id: u128) -> UserView {
        self.users[choose|i: int| 0 <= i < self.users.len() && #[trigger] self.users[i].id == id]
    }

    /// The post with key `id`, where there is one.
    pub open spec fn post_with(self, id: u128) -> PostView {
        self.posts[choose|i: int| 0 <= i < self.posts.len() && #[trigger] self.posts[i].id == id]
    }

    /// The comment with key `id`, where there is one.
    pub open spec fn comment_with(self, id: u128) -> CommentView {
        self.comments[choose|i: int| 0 <= i < self.comments.len() && #[trigger] self.comments[i].id == id]
    }

    pub open spec fn has_username(self, name: Seq<char>) -> bool {
        exists|i: int| 0 <= i < self.users.len() && #[trigger] self.users[i].username == name
    }

    pub open spec fn has_post(self, id: u128) -> bool {
        exists|i: int| 0 <= i < self.posts.len() && #[trigger] self.posts[i].id == id
    }

    pub open spec fn has_comment(self, id: u128) -> bool {
        exists|i: int| 0 <= i < self.comments.len() && #[trigger] self.comments[i].id == id
    }

    /// Some user other than `id` holds the username `name`.
    pub open spec fn username_taken_by_other(self, name: Seq<char>, id: u128) -> bool {
        exists|i: int|
            0 <= i < self.users.len() && #[trigger] self.users[i].username == name && self.users[i].id != id
    }

    /// The post `pid` exists and was written by `uid`.
    pub open spec fn post_by(self, pid: u128, uid: u128) -> bool {
        exists|i: int| 0 <= i < self.posts.len() && #[trigger] self.posts[i].id == pid && self.posts[i].author_id == uid
    }

    /// The store with the `i`-th user replaced.
    pub open spec fn with_user_at(self, i: int, u: UserView, clock: i64) -> StoreView {
        StoreView { users: self.users.update(i, u), clock, ..self }
    }

    /// The store with the `i`-th post replaced.
    pub open spec fn with_post_at(self, i: int, p: PostView, clock: i64) -> StoreView {
        StoreView { posts: self.posts.update(i, p), clock, ..self }
    }

    /// The store with the `i`-th comment replaced.
    pub open spec fn with_comment_at(self, i: int, c: CommentView, clock: i64) -> StoreView {
        StoreView { comments: self.comments.update(i, c), clock, ..self }
    }

    /// Keys are unique, usernames are unique, creation times never decrease
    /// along the table and never pass the clock.
    pub open spec fn users_wf(self) -> bool {
        &&& forall|i: int, j: int|
            #![trigger self.users[i], self.users[j]]
            0 <= i < self.users.len() && 0 <= j < self.users.len() && i != j ==> {
                &&& self.users[i].id != self.users[j].id
                &&& self.users[i].username != self.users[j].username
            }
        &&& forall|i: int, j: int|
            0 <= i <= j < self.users.len()
                ==> #[trigger] self.users[i].created_at <= #[trigger] self.users[j].created_at
        &&& forall|i: int| 0 <= i < self.users.len() ==> #[trigger] self.users[i].created_at <= self.clock
    }

    /// Keys are unique, every author exists, creation times never decrease
    /// along the table and never pass the clock.
    pub open spec fn posts_wf(self) -> bool {
        &&& forall|i: int, j: int|
            0 <= i < self.posts.len() && 0 <= j < self.posts.len() && i != j
                ==> #[trigger] self.posts[i].id != #[trigger] self.posts[j].id
        &&& forall|i: int| 0 <= i < self.posts.len() ==> self.has_user(#[trigger] self.posts[i].author_id)
        &&& forall|i: int, j: int|
            0 <= i <= j < self.posts.len()
                ==> #[trigger] self.posts[i].created_at <= #[trigger] self.posts[j].created_at
        &&& forall|i: int| 0 <= i < self.posts.len() ==> #[trigger] self.posts[i].created_at <= self.clock
    }

    /// Keys are unique, every post and author exists, creation times never
    /// decrease along the table and never pass the clock.
    pub open spec fn comments_wf(self) -> bool {
        &&& forall|i: int, j: int|
            0 <= i < self.comments.len() && 0 <= j < self.comments.len() && i != j
                ==> #[trigger] self.comments[i].id != #[trigger] self.comments[j].id
        &&& forall|i: int| 0 <= i < self.comments.len() ==> self.has_post(#[trigger] self.comments[i].post_id)
        &&& forall|i: int| 0 <= i < self.comments.len() ==> self.has_user(#[trigger] self.comments[i].author_id)
        &&& forall|i: int, j: int|
            0 <= i <= j < self.comments.len()
                ==> #[trigger] self.comments[i].created_at <= #[trigger] self.comments[j].created_at
        &&& forall|i: int| 0 <= i < self.comments.len() ==> #[trigger] self.comments[i].created_at <= self.clock
    }

    pub open spec fn wf(self) -> bool {
        &&& self.users_wf()
        &&& self.posts_wf()
        &&& self.comments_wf()
    }

    /// The time a write at wall-clock time `now` is stamped with: the clock
    /// never runs backwards.
    pub open spec fn stamp(self, now: i64) -> i64 {
        if now > self.clock { now } else { self.clock }
    }
}

pub open spec fn user_views(s: Seq<User>) -> Seq<UserView> {
    s.map_values(|u: User| u@)
}

pub open spec fn post_views(s: Seq<Post>) -> Seq<PostView> {
    s.map_values(|p: Post| p@)
}

pub open spec fn comment_views(s: Seq<Comment>) -> Seq<CommentView> {
    s.map_values(|c: Comment| c@)
}

/// The relational store of users, posts and comments.
pub struct BlogStore {
    users: Vec<User>,
    posts: Vec<Post>,
    comments: Vec<Comment>,
    clock: i64,
}

impl View for BlogStore {
    type V = StoreView;

    closed spec fn view(&self) -> StoreView {
        StoreView {
            users: user_views(self.users@),
            posts: post_views(self.posts@),
            comments: comment_views(self.comments@),
            clock: self.clock,
        }
    }
}

impl BlogStore {
    pub open spec fn wf(&self) -> bool {
        self@.wf()
    }

    /// An empty store whose clock starts at `i64::MIN`.
    pub fn new() -> (r: BlogStore)
        ensures
            r.wf(),
            r@.users.len() == 0,
            r@.posts.len() == 0,
            r@.comments.len() == 0,
            r@.clock == i64::MIN,
    {
        let r = BlogStore { users: Vec::new(), posts: Vec::new(), comments: Vec::new(), clock: i64::MIN };
        proof {
            assert(r@.users.len() == 0);
        }
        r
    }

    fn tick(&mut self, now: i64) -> (r: i64)
        ensures
            r == old(self)@.stamp(now),
            final(self)@ == (StoreView { clock: r, ..old(self)@ }),
    {
        if now > self.clock {
            self.clock = now;
        }
        self.clock
    }

    fn user_index(&self, id: u128) -> (r: Option<usize>)
        ensures
            match r {
                Some(i) => i < self@.users.len() && self@.users[i as int].id == id,
                None => !self@.has_user(id),
            },
    {
        let mut i: usize = 0;
        while i < self.users.len()
            invariant
                i <= self.users.len(),
                forall|k: int| 0 <= k < i ==> self@.users[k].id != id,
            decreases self.users.len() - i,
        {
            if self.users[i].id == id {
                return Some(i);
            }
            i = i + 1;
        }
        None
    }

    fn username_index(&self, name: &String) -> (r: Option<usize>)
        ensures
            match r {
                Some(i) => i < self@.users.len() && self@.users[i as int].username == name@,
                None => !self@.has_username(name@),
            },
    {
        let mut i: usize = 0;
        while i < self.users.len()
            invariant
                i <= self.users.len(),
                forall|k: int| 0 <= k < i ==> self@.users[k].username != name@,
            decreases self.users.len() - i,
        {
            if self.users[i].username == *name {
                return Some(i);
            }
            i = i + 1;
        }
        None
    }
    /// Adds a user with the given key. Fails with `DuplicateUsername` where
    /// the username is taken, and with `Infrastructure` where the key is.
    pub fn create_user(&mut self, id: u128, username: String, password_hash: String, now: i64) -> (r:
        Result<User, BlogError>)
        requires
            old(self).wf(),
        ensures
            final(self).wf(),
            old(self)@.has_username(username@) ==> r == Err::<User, BlogError>(BlogError::DuplicateUsername),
            !old(self)@.has_username(username@) && old(self)@.has_user(id) ==> r == Err::<User, BlogError>(
                BlogError::Infrastructure,
            ),
            r is Err ==> final(self)@ == old(self)@,
            !old(self)@.has_username(username@) && !old(self)@.has_user(id) ==> r is Ok,
            r is Ok ==> {
                let u = UserView {
                    id,
                    username: username@,
                    password_hash: password_hash@,
                    created_at: old(self)@.stamp(now),
                    updated_at: old(self)@.stamp(now),
                };
                &&& r->Ok_0@ == u
                &&& final(self)@ == (StoreView {
                    users: old(self)@.users.push(u),
                    clock: old(self)@.stamp(now),
                    ..old(self)@
                })
            },
    {
        if self.username_index(&username).is_some() {
            return Err(BlogError::DuplicateUsername);
        }
        if self.user_index(id).is_some() {
            return Err(BlogError::Infrastructure);
        }
        let ghost pre = self@;
        let t = self.tick(now);
        let u = User { id, username, password_hash, created_at: t, updated_at: t };
        let out = u.duplicate();
        self.users.push(u);
        proof {
            let post = self@;
            assert(post.users == pre.users.push(out@));
            assert forall|x: u128| pre.has_user(x) implies post.has_user(x) by {
                let k = choose|k: int| 0 <= k < pre.users.len() && #[trigger] pre.users[k].id == x;
                assert(post.users[k] == pre.users[k]);
            }
            assert forall|x: u128| pre.has_post(x) implies post.has_post(x) by {
                let k = choose|k: int| 0 <= k < pre.posts.len() && #[trigger] pre.posts[k].id == x;
                assert(post.posts[k] == pre.posts[k]);
            }
        }
        Ok(out)
    }

    /// The user with the given key, if any.
    pub fn get_user_by_id(&self, id: u128) -> (r: Option<User>)
        requires
            self.wf(),
        ensures
            match r {
                Some(u) => self@.has_user(id) && u@ == self@.user_with(id) && u@.id == id,
                None => !self@.has_user(id),
            },
    {
        match self.user_index(id) {
            Some(i) => {
                proof {
                    let j = choose|j: int| 0 <= j < self@.users.len() && #[trigger] self@.users[j].id == id;
                    assert(self@.users[j].id == id);
                    assert(self@.users[i as int].id == id);
                }
                Some(self.users[i].duplicate())
            },
            None => None,
        }
    }

    /// The user with the given username, if any.
    pub fn get_user_by_username(&self, username: &str) -> (r: Option<User>)
        requires
            self.wf(),
        ensures
            match r {
                Some(u) => u@.username == username@ && exists|i: int|
                    0 <= i < self@.users.len() && self@.users[i] == u@,
                None => !self@.has_username(username@),
            },
    {
        let name = username.to_owned();
        match self.username_index(&name) {
            Some(i) => Some(self.users[i].duplicate()),
            None => None,
        }
    }

    proof fn lemma_same_keys(a: StoreView, b: StoreView)
        requires
            a.wf(),
            a.users.len() == b.users.len(),
            forall|k: int| 0 <= k < a.users.len() ==> #[trigger] b.users[k].id == a.users[k].id,
            a.posts == b.posts,
            a.comments == b.comments,
            a.clock <= b.clock,
            forall|k: int| 0 <= k < a.users.len() ==> #[trigger] b.users[k].created_at == a.users[k].created_at,
            forall|i: int, j: int|
                0 <= i < b.users.len() && 0 <= j < b.users.len() && i != j
                    ==> #[trigger] b.users[i].username != #[trigger] b.users[j].username,
        ensures
            b.wf(),
    {
        assert forall|x: u128| a.has_user(x) implies b.has_user(x) by {
            let k = choose|k: int| 0 <= k < a.users.len() && #[trigger] a.users[k].id == x;
            assert(b.users[k].id == x);
        }
        assert forall|i: int, j: int|
            0 <= i < b.users.len() && 0 <= j < b.users.len() && i != j implies #[trigger] b.users[i].id
                != #[trigger] b.users[j].id by {
            assert(a.users[i].id != a.users[j].id);
        }
    }

    /// Renames a user. Fails with `NotFound` where no user has the key, and
    /// with `DuplicateUsername` where another user holds the new name.
    pub fn update_username(&mut self, id: u128, username: String, now: i64) -> (r: Result<User, BlogError>)
        requires
            old(self).wf(),
        ensures
            final(self).wf(),
            !old(self)@.has_user(id) ==> r == Err::<User, BlogError>(BlogError::NotFound),
            old(self)@.has_user(id) && old(self)@.username_taken_by_other(username@, id) ==> r == Err::<
                User,
                BlogError,
            >(BlogError::DuplicateUsername),
            r is Err ==> final(self)@ == old(self)@,
            old(self)@.has_user(id) && !old(self)@.username_taken_by_other(username@, id) ==> r is Ok,
            r is Ok ==> exists|i: int|
                0 <= i < old(self)@.users.len() && old(self)@.users[i].id == id && {
                    let u = UserView {
                        username: username@,
                        updated_at: old(self)@.stamp(now),
                        ..old(self)@.users[i]
                    };
                    &&& r->Ok_0@ == u
                    &&& final(self)@ == old(self)@.with_user_at(i, u, old(self)@.stamp(now))
                },
    {
        let i = match self.user_index(id) {
            Some(i) => i,
            None => return Err(BlogError::NotFound),
        };
        match self.username_index(&username) {
            Some(j) => {
                if self.users[j].id != id {
                    return Err(BlogError::DuplicateUsername);
                }
            },
            None => {},
        }
        proof {
            assert forall|j: int| 0 <= j < self@.users.len() && j != i implies #[trigger] self@.users[j].username
                != username@ by {
                assert(self@.users[j].id != id);
            }
        }
        let ghost pre = self@;
        let t = self.tick(now);
        let old_user = self.users[i].duplicate();
        let u = User {
            id: old_user.id,
            username,
            password_hash: old_user.password_hash,
            created_at: old_user.created_at,
            updated_at: t,
        };
        let out = u.duplicate();
        self.users.set(i, u);
        proof {
            assert(self@.users == pre.users.update(i as int, out@));
            Self::lemma_same_keys(pre, self@);
        }
        Ok(out)
    }

    /// Replaces a user's password hash. Fails with `NotFound` where no user
    /// has the key.
    pub fn update_password_hash(&mut self, id: u128, password_hash: String, now: i64) -> (r: Result<
        User,
        BlogError,
    >)
        requires
            old(self).wf(),
        ensures
            final(self).wf(),
            !old(self)@.has_user(id) ==> r == Err::<User, BlogError>(BlogError::NotFound),
            r is Err ==> final(self)@ == old(self)@,
            old(self)@.has_user(id) ==> r is Ok,
            r is Ok ==> exists|i: int|
                0 <= i < old(self)@.users.len() && old(self)@.users[i].id == id && {
                    let u = UserView {
                        password_hash: password_hash@,
                        updated_at: old(self)@.stamp(now),
                        ..old(self)@.users[i]
                    };
                    &&& r->Ok_0@ == u
                    &&& final(self)@ == old(self)@.with_user_at(i, u, old(self)@.stamp(now))
                },
    {
        let i = match self.user_index(id) {
            Some(i) => i,
            None => return Err(BlogError::NotFound),
        };
        let ghost pre = self@;
        let t = self.tick(now);
        let old_user = self.users[i].duplicate();
        let u = User {
            id: old_user.id,
            username: old_user.username,
            password_hash,
            created_at: old_user.created_at,
            updated_at: t,
        };
        let out = u.duplicate();
        self.users.set(i, u);
        proof {
            assert(self@.users == pre.users.update(i as int, out@));
            assert forall|a: int, b: int|
                0 <= a < self@.users.len() && 0 <= b < self@.users.len() && a != b implies #[trigger] self@.users[a].username
                    != #[trigger] self@.users[b].username by {
                assert(pre.users[a].username != pre.users[b].username);
            }
            Self::lemma_same_keys(pre, self@);
        }
        Ok(out)
    }
    fn post_index(&self, id: u128) -> (r: Option<usize>)
        ensures
            match r {
                Some(i) => i < self@.posts.len() && self@.posts[i as int].id == id,
                None => !self@.has_post(id),
            },
    {
        let mut i: usize = 0;
        while i < self.posts.len()
            invariant
                i <= self.posts.len(),
                forall|k: int| 0 <= k < i ==> self@.posts[k].id != id,
            decreases self.posts.len() - i,
        {
            if self.posts[i].id == id {
                return Some(i);
            }
            i = i + 1;
        }
        None
    }

    /// Adds a post by an existing author, stamped with the author's current
    /// username. Fails with `NotFound` where the author does not exist, and
    /// with `Infrastructure` where the post key is taken.
    pub fn create_post(&mut self, id: u128, title: String, content: String, author_id: u128, now: i64) -> (r:
        Result<Post, BlogError>)
        requires
            old(self).wf(),
        ensures
            final(self).wf(),
            !old(self)@.has_user(author_id) ==> r == Err::<Post, BlogError>(BlogError::NotFound),
            old(self)@.has_user(author_id) && old(self)@.has_post(id) ==> r == Err::<Post, BlogError>(
                BlogError::Infrastructure,
            ),
            r is Err ==> final(self)@ == old(self)@,
            old(self)@.has_user(author_id) && !old(self)@.has_post(id) ==> r is Ok,
            r is Ok ==> exists|k: int|
                0 <= k < old(self)@.users.len() && old(self)@.users[k].id == author_id && {
                    let p = PostView {
                        id,
                        title: title@,
                        content: content@,
                        author_id,
                        author: old(self)@.users[k].username,
                        created_at: old(self)@.stamp(now),
                        updated_at: old(self)@.stamp(now),
                    };
                    &&& r->Ok_0@ == p
                    &&& final(self)@ == (StoreView {
                        posts: old(self)@.posts.push(p),
                        clock: old(self)@.stamp(now),
                        ..old(self)@
                    })
                },
    {
        let k = match self.user_index(author_id) {
            Some(k) => k,
            None => return Err(BlogError::NotFound),
        };
        if self.post_index(id).is_some() {
            return Err(BlogError::Infrastructure);
        }
        let ghost pre = self@;
        let t = self.tick(now);
        let author = self.users[k].username.clone();
        let p = Post { id, title, content, author_id, author, created_at: t, updated_at: t };
        let out = p.duplicate();
        self.posts.push(p);
        proof {
            let post = self@;
            assert(post.posts == pre.posts.push(out@));
            assert forall|x: u128| pre.has_post(x) implies post.has_post(x) by {
                let j = choose|j: int| 0 <= j < pre.posts.len() && #[trigger] pre.posts[j].id == x;
                assert(post.posts[j] == pre.posts[j]);
            }
            assert(post.users == pre.users);
            assert(post.users[k as int].id == author_id);
        }
        Ok(out)
    }

    /// The post with the given key, if any.
    pub fn get_post(&self, id: u128) -> (r: Option<Post>)
        requires
            self.wf(),
        ensures
            match r {
                Some(p) => self@.has_post(id) && p@ == self@.post_with(id) && p@.id == id,
                None => !self@.has_post(id),
            },
    {
        match self.post_index(id) {
            Some(i) => {
                proof {
                    let j = choose|j: int| 0 <= j < self@.posts.len() && #[trigger] self@.posts[j].id == id;
                    assert(self@.posts[j].id == id);
                    assert(self@.posts[i as int].id == id);
                }
                Some(self.posts[i].duplicate())
            },
            None => None,
        }
    }

    /// Every post, newest first.
    pub fn get_posts(&self) -> (r: Vec<Post>)
        requires
            self.wf(),
        ensures
            r@.len() == self@.posts.len(),
            forall|i: int| 0 <= i < r@.len() ==> #[trigger] r@[i]@ == self@.posts[self@.posts.len() - 1 - i],
            forall|i: int, j: int| 0 <= i <= j < r@.len() ==> #[trigger] r@[i].created_at >= #[trigger] r@[j].created_at,
    {
        let mut out: Vec<Post> = Vec::new();
        let n = self.posts.len();
        let mut k: usize = n;
        while k > 0
            invariant
                k <= n,
                n == self@.posts.len(),
                out@.len() == n - k,
                forall|i: int| 0 <= i < out@.len() ==> #[trigger] out@[i]@ == self@.posts[n - 1 - i],
            decreases k,
        {
            k = k - 1;
            out.push(self.posts[k].duplicate());
        }
        proof {
            assert forall|i: int, j: int| 0 <= i <= j < out@.len() implies #[trigger] out@[i].created_at
                >= #[trigger] out@[j].created_at by {
                assert(out@[i]@ == self@.posts[n - 1 - i]);
                assert(out@[j]@ == self@.posts[n - 1 - j]);
                assert(self@.posts[n - 1 - j].created_at <= self@.posts[n - 1 - i].created_at);
            }
        }
        out
    }

    /// Replaces a post's title and content and refreshes its update time;
    /// its key, author and creation time stay. Fails with `NotFound` where no
    /// post has the key.
    pub fn update_post(&mut self, id: u128, title: String, content: String, now: i64) -> (r: Result<
        Post,
        BlogError,
    >)
        requires
            old(self).wf(),
        ensures
            final(self).wf(),
            !old(self)@.has_post(id) ==> r == Err::<Post, BlogError>(BlogError::NotFound),
            r is Err ==> final(self)@ == old(self)@,
            old(self)@.has_post(id) ==> r is Ok,
            r is Ok ==> exists|i: int|
                0 <= i < old(self)@.posts.len() && old(self)@.posts[i].id == id && {
                    let p = PostView {
                        title: title@,
                        content: content@,
                        updated_at: old(self)@.stamp(now),
                        ..old(self)@.posts[i]
                    };
                    &&& r->Ok_0@ == p
                    &&& final(self)@ == old(self)@.with_post_at(i, p, old(self)@.stamp(now))
                },
    {
        let i = match self.post_index(id) {
            Some(i) => i,
            None => return Err(BlogError::NotFound),
        };
        let ghost pre = self@;
        let t = self.tick(now);
        let old_post = self.posts[i].duplicate();
        let p = Post {
            id: old_post.id,
            title,
            content,
            author_id: old_post.author_id,
            author: old_post.author,
            created_at: old_post.created_at,
            updated_at: t,
        };
        let out = p.duplicate();
        self.posts.set(i, p);
        proof {
            let post = self@;
            assert(post.posts == pre.posts.update(i as int, out@));
            assert(post.users == pre.users && post.comments == pre.comments);
            assert forall|x: u128| pre.has_post(x) implies post.has_post(x) by {
                let j = choose|j: int| 0 <= j < pre.posts.len() && #[trigger] pre.posts[j].id == x;
                assert(post.posts[j].id == x);
            }
            assert forall|a: int, b: int|
                0 <= a < post.posts.len() && 0 <= b < post.posts.len() && a != b implies #[trigger] post.posts[a].id
                != #[trigger] post.posts[b].id by {
                assert(pre.posts[a].id != pre.posts[b].id);
            }
            assert forall|a: int, b: int| 0 <= a <= b < post.posts.len() implies #[trigger] post.posts[a].created_at
                <= #[trigger] post.posts[b].created_at by {
                assert(pre.posts[a].created_at <= pre.posts[b].created_at);
            }
            assert forall|a: int| 0 <= a < post.posts.len() implies post.has_user(#[trigger] post.posts[a].author_id) by {
                assert(pre.has_user(pre.posts[a].author_id));
            }
            assert forall|a: int| 0 <= a < post.posts.len() implies #[trigger] post.posts[a].created_at <= post.clock by {
                assert(pre.posts[a].created_at <= pre.clock);
            }
        }
        Ok(out)
    }

    /// Removes a post and every comment on it. Fails with `NotFound` where no
    /// post has the key.
    pub fn delete_post(&mut self, id: u128) -> (r: Result<(), BlogError>)
        requires
            old(self).wf(),
        ensures
            final(self).wf(),
            r is Ok <==> old(self)@.has_post(id),
            r is Err ==> r == Err::<(), BlogError>(BlogError::NotFound) && final(self)@ == old(self)@,
            r is Ok ==> final(self)@ == (StoreView {
                posts: old(self)@.posts.filter(|p: PostView| p.id != id),
                comments: old(self)@.comments.filter(|c: CommentView| c.post_id != id),
                ..old(self)@
            }),
    {
        if self.post_index(id).is_none() {
            return Err(BlogError::NotFound);
        }
        let ghost pre = self@;
        let ghost fp = |p: PostView| p.id != id;
        let ghost fc = |c: CommentView| c.post_id != id;
        let mut posts: Vec<Post> = Vec::new();
        let mut k: usize = 0;
        while k < self.posts.len()
            invariant
                k <= self.posts.len(),
                self@ == pre,
                fp == (|p: PostView| p.id != id),
                post_views(posts@) == pre.posts.subrange(0, k as int).filter(fp),
            decreases self.posts.len() - k,
        {
            proof {
                lemma_filter_step(pre.posts, fp, k as int);
                assert(pre.posts[k as int] == self.posts@[k as int]@);
                assert(fp(pre.posts[k as int]) == (self.posts@[k as int].id != id));
            }
            if self.posts[k].id != id {
                let p = self.posts[k].duplicate();
                let ghost before = posts@;
                posts.push(p);
                proof {
                    assert(post_views(posts@) =~= post_views(before).push(p@));
                }
            }
            k = k + 1;
        }
        let mut comments: Vec<Comment> = Vec::new();
        let mut k: usize = 0;
        while k < self.comments.len()
            invariant
                k <= self.comments.len(),
                self@ == pre,
                fc == (|c: CommentView| c.post_id != id),
                comment_views(comments@) == pre.comments.subrange(0, k as int).filter(fc),
            decreases self.comments.len() - k,
        {
            proof {
                lemma_filter_step(pre.comments, fc, k as int);
                assert(pre.comments[k as int] == self.comments@[k as int]@);
                assert(fc(pre.comments[k as int]) == (self.comments@[k as int].post_id != id));
            }
            if self.comments[k].post_id != id {
                let c = self.comments[k].duplicate();
                let ghost before = comments@;
                comments.push(c);
                proof {
                    assert(comment_views(comments@) =~= comment_views(before).push(c@));
                }
            }
            k = k + 1;
        }
        self.posts = posts;
        self.comments = comments;
        proof {
            assert(pre.posts.subrange(0, pre.posts.len() as int) =~= pre.posts);
            assert(pre.comments.subrange(0, pre.comments.len() as int) =~= pre.comments);
            assert(pre.users.filter(|u: UserView| true) == pre.users) by {
                lemma_filter_all(pre.users);
            }
            lemma_filtered_wf(pre, self@, |u: UserView| true, fp, fc);
        }
        Ok(())
    }
    fn comment_index(&self, id: u128) -> (r: Option<usize>)
        ensures
            match r {
                Some(i) => i < self@.comments.len() && self@.comments[i as int].id == id,
                None => !self@.has_comment(id),
            },
    {
        let mut i: usize = 0;
        while i < self.comments.len()
            invariant
                i <= self.comments.len(),
                forall|k: int| 0 <= k < i ==> self@.comments[k].id != id,
            decreases self.comments.len() - i,
        {
            if self.comments[i].id == id {
                return Some(i);
            }
            i = i + 1;
        }
        None
    }

    /// Adds a comment by an existing author on an existing post, stamped
    /// with the author's current username. Fails with `NotFound` where the
    /// post or the author does not exist, and with `Infrastructure` where the
    /// comment key is taken.
    pub fn create_comment(&mut self, id: u128, content: String, post_id: u128, author_id: u128, now: i64) -> (r:
        Result<Comment, BlogError>)
        requires
            old(self).wf(),
        ensures
            final(self).wf(),
            !old(self)@.has_post(post_id) || !old(self)@.has_user(author_id) ==> r == Err::<Comment, BlogError>(
                BlogError::NotFound,
            ),
            old(self)@.has_post(post_id) && old(self)@.has_user(author_id) && old(self)@.has_comment(id) ==> r
                == Err::<Comment, BlogError>(BlogError::Infrastructure),
            r is Err ==> final(self)@ == old(self)@,
            old(self)@.has_post(post_id) && old(self)@.has_user(author_id) && !old(self)@.has_comment(id) ==> r is Ok,
            r is Ok ==> exists|k: int|
                0 <= k < old(self)@.users.len() && old(self)@.users[k].id == author_id && {
                    let c = CommentView {
                        id,
                        content: content@,
                        post_id,
                        author_id,
                        author_username: old(self)@.users[k].username,
                        created_at: old(self)@.stamp(now),
                        updated_at: old(self)@.stamp(now),
                    };
                    &&& r->Ok_0@ == c
                    &&& final(self)@ == (StoreView {
                        comments: old(self)@.comments.push(c),
                        clock: old(self)@.stamp(now),
                        ..old(self)@
                    })
                },
    {
        let q = match self.post_index(post_id) {
            Some(q) => q,
            None => return Err(BlogError::NotFound),
        };
        let k = match self.user_index(author_id) {
            Some(k) => k,
            None => return Err(BlogError::NotFound),
        };
        if self.comment_index(id).is_some() {
            return Err(BlogError::Infrastructure);
        }
        let ghost pre = self@;
        let t = self.tick(now);
        let author_username = self.users[k].username.clone();
        let c = Comment { id, content, post_id, author_id, author_username, created_at: t, updated_at: t };
        let out = c.duplicate();
        self.comments.push(c);
        proof {
            let post = self@;
            assert(post.comments == pre.comments.push(out@));
            assert(post.users == pre.users && post.posts == pre.posts);
            assert(post.users[k as int].id == author_id);
            assert(post.posts[q as int].id == post_id);
        }
        Ok(out)
    }

    /// The comment with the given key, if any.
    pub fn get_comment(&self, id: u128) -> (r: Option<Comment>)
        requires
            self.wf(),
        ensures
            match r {
                Some(c) => self@.has_comment(id) && c@ == self@.comment_with(id) && c@.id == id,
                None => !self@.has_comment(id),
            },
    {
        match self.comment_index(id) {
            Some(i) => {
                proof {
                    let j = choose|j: int| 0 <= j < self@.comments.len() && #[trigger] self@.comments[j].id == id;
                    assert(self@.comments[j].id == id);
                    assert(self@.comments[i as int].id == id);
                }
                Some(self.comments[i].duplicate())
            },
            None => None,
        }
    }

    /// The comments on a post, oldest first; empty where the post has none or
    /// does not exist.
    pub fn get_post_comments(&self, post_id: u128) -> (r: Vec<Comment>)
        requires
            self.wf(),
        ensures
            comment_views(r@) == self@.comments.filter(|c: CommentView| c.post_id == post_id),
            forall|i: int, j: int| 0 <= i <= j < r@.len() ==> #[trigger] r@[i].created_at <= #[trigger] r@[j].created_at,
    {
        let ghost pre = self@;
        let ghost fc = |c: CommentView| c.post_id == post_id;
        let mut out: Vec<Comment> = Vec::new();
        let mut k: usize = 0;
        while k < self.comments.len()
            invariant
                k <= self.comments.len(),
                self@ == pre,
                fc == (|c: CommentView| c.post_id == post_id),
                comment_views(out@) == pre.comments.subrange(0, k as int).filter(fc),
            decreases self.comments.len() - k,
        {
            proof {
                lemma_filter_step(pre.comments, fc, k as int);
                assert(pre.comments[k as int] == self.comments@[k as int]@);
            }
            if self.comments[k].post_id == post_id {
                let c = self.comments[k].duplicate();
                let ghost before = out@;
                out.push(c);
                proof {
                    assert(comment_views(out@) =~= comment_views(before).push(c@));
                }
            }
            k = k + 1;
        }
        proof {
            assert(pre.comments.subrange(0, pre.comments.len() as int) =~= pre.comments);
            let cid = |c: CommentView| c.id;
            let ct = |c: CommentView| c.created_at;
            assert(keys_unique(pre.comments, cid));
            assert(times_sorted(pre.comments, ct));
            lemma_filter_keeps(pre.comments, fc, cid, ct);
            let v = comment_views(out@);
            assert forall|i: int, j: int| 0 <= i <= j < out@.len() implies #[trigger] out@[i].created_at
                <= #[trigger] out@[j].created_at by {
                assert(ct(v[i]) <= ct(v[j]));
            }
        }
        out
    }

    /// Replaces a comment's content and refreshes its update time; its key,
    /// post, author and creation time stay. Fails with `NotFound` where no
    /// comment has the key.
    pub fn update_comment(&mut self, id: u128, content: String, now: i64) -> (r: Result<Comment, BlogError>)
        requires
            old(self).wf(),
        ensures
            final(self).wf(),
            !old(self)@.has_comment(id) ==> r == Err::<Comment, BlogError>(BlogError::NotFound),
            r is Err ==> final(self)@ == old(self)@,
            old(self)@.has_comment(id) ==> r is Ok,
            r is Ok ==> exists|i: int|
                0 <= i < old(self)@.comments.len() && old(self)@.comments[i].id == id && {
                    let c = CommentView {
                        content: content@,
                        updated_at: old(self)@.stamp(now),
                        ..old(self)@.comments[i]
                    };
                    &&& r->Ok_0@ == c
                    &&& final(self)@ == old(self)@.with_comment_at(i, c, old(self)@.stamp(now))
                },
    {
        let i = match self.comment_index(id) {
            Some(i) => i,
            None => return Err(BlogError::NotFound),
        };
        let ghost pre = self@;
        let t = self.tick(now);
        let old_comment = self.comments[i].duplicate();
        let c = Comment {
            id: old_comment.id,
            content,
            post_id: old_comment.post_id,
            author_id: old_comment.author_id,
            author_username: old_comment.author_username,
            created_at: old_comment.created_at,
            updated_at: t,
        };
        let out = c.duplicate();
        self.comments.set(i, c);
        proof {
            let post = self@;
            assert(post.comments == pre.comments.update(i as int, out@));
            assert(post.users == pre.users && post.posts == pre.posts);
            assert forall|a: int, b: int|
                0 <= a < post.comments.len() && 0 <= b < post.comments.len() && a != b implies #[trigger] post.comments[a].id
                != #[trigger] post.comments[b].id by {
                assert(pre.comments[a].id != pre.comments[b].id);
            }
            assert forall|a: int, b: int| 0 <= a <= b < post.comments.len() implies #[trigger] post.comments[a].created_at
                <= #[trigger] post.comments[b].created_at by {
                assert(pre.comments[a].created_at <= pre.comments[b].created_at);
            }
            assert forall|a: int| #![trigger post.comments[a]] 0 <= a < post.comments.len() implies post.has_user(post.comments[a].author_id)
                && post.has_post(post.comments[a].post_id) by {
                assert(pre.has_user(pre.comments[a].author_id));
                assert(pre.has_post(pre.comments[a].post_id));
            }
            assert forall|a: int| 0 <= a < post.comments.len() implies #[trigger] post.comments[a].created_at <= post.clock by {
                assert(pre.comments[a].created_at <= pre.clock);
            }
        }
        Ok(out)
    }

    /// Removes a comment. Fails with `NotFound` where no comment has the key.
    pub fn delete_comment(&mut self, id: u128) -> (r: Result<(), BlogError>)
        requires
            old(self).wf(),
        ensures
            final(self).wf(),
            r is Ok <==> old(self)@.has_comment(id),
            r is Err ==> r == Err::<(), BlogError>(BlogError::NotFound) && final(self)@ == old(self)@,
            r is Ok ==> final(self)@ == (StoreView {
                comments: old(self)@.comments.filter(|c: CommentView| c.id != id),
                ..old(self)@
            }),
    {
        if self.comment_index(id).is_none() {
            return Err(BlogError::NotFound);
        }
        let ghost pre = self@;
        let ghost fc = |c: CommentView| c.id != id;
        let mut comments: Vec<Comment> = Vec::new();
        let mut k: usize = 0;
        while k < self.comments.len()
            invariant
                k <= self.comments.len(),
                self@ == pre,
                fc == (|c: CommentView| c.id != id),
                comment_views(comments@) == pre.comments.subrange(0, k as int).filter(fc),
            decreases self.comments.len() - k,
        {
            proof {
                lemma_filter_step(pre.comments, fc, k as int);
                assert(pre.comments[k as int] == self.comments@[k as int]@);
            }
            if self.comments[k].id != id {
                let c = self.comments[k].duplicate();
                let ghost before = comments@;
                comments.push(c);
                proof {
                    assert(comment_views(comments@) =~= comment_views(before).push(c@));
                }
            }
            k = k + 1;
        }
        self.comments = comments;
        proof {
            assert(pre.comments.subrange(0, pre.comments.len() as int) =~= pre.comments);
            lemma_filter_all(pre.users);
            lemma_filter_all(pre.posts);
            lemma_filtered_wf(pre, self@, |u: UserView| true, |p: PostView| true, fc);
        }
        Ok(())
    }

    /// Removes a user, every post they wrote, and every comment they wrote or
    /// that stood on one of their posts. Fails with `NotFound` where no user
    /// has the key.
    pub fn delete_user(&mut self, id: u128) -> (r: Result<(), BlogError>)
        requires
            old(self).wf(),
        ensures
            final(self).wf(),
            r is Ok <==> old(self)@.has_user(id),
            r is Err ==> r == Err::<(), BlogError>(BlogError::NotFound) && final(self)@ == old(self)@,
            r is Ok ==> final(self)@ == (StoreView {
                users: old(self)@.users.filter(|u: UserView| u.id != id),
                posts: old(self)@.posts.filter(|p: PostView| p.author_id != id),
                comments: old(self)@.comments.filter(
                    |c: CommentView| c.author_id != id && !old(self)@.post_by(c.post_id, id),
                ),
                ..old(self)@
            }),
    {
        if self.user_index(id).is_none() {
            return Err(BlogError::NotFound);
        }
        let ghost pre = self@;
        let ghost fu = |u: UserView| u.id != id;
        let ghost fp = |p: PostView| p.author_id != id;
        let ghost fc = |c: CommentView| c.author_id != id && !pre.post_by(c.post_id, id);
        let mut comments: Vec<Comment> = Vec::new();
        let mut k: usize = 0;
        while k < self.comments.len()
            invariant
                k <= self.comments.len(),
                self@ == pre,
                pre.wf(),
                fc == (|c: CommentView| c.author_id != id && !pre.post_by(c.post_id, id)),
                comment_views(comments@) == pre.comments.subrange(0, k as int).filter(fc),
            decreases self.comments.len() - k,
        {
            proof {
                lemma_filter_step(pre.comments, fc, k as int);
                assert(pre.comments[k as int] == self.comments@[k as int]@);
            }
            let keep = if self.comments[k].author_id == id {
                false
            } else {
                match self.post_index(self.comments[k].post_id) {
                    Some(q) => self.posts[q].author_id != id,
                    None => true,
                }
            };
            proof {
                let c = pre.comments[k as int];
                if c.author_id != id {
                    if pre.post_by(c.post_id, id) {
                        let w = choose|w: int|
                            0 <= w < pre.posts.len() && #[trigger] pre.posts[w].id == c.post_id
                                && pre.posts[w].author_id == id;
                        assert(pre.posts[w].id == c.post_id);
                    }
                }
                assert(keep == fc(c));
            }
            if keep {
                let c = self.comments[k].duplicate();
                let ghost before = comments@;
                comments.push(c);
                proof {
                    assert(comment_views(comments@) =~= comment_views(before).push(c@));
                }
            }
            k = k + 1;
        }
        let mut posts: Vec<Post> = Vec::new();
        let mut k: usize = 0;
        while k < self.posts.len()
            invariant
                k <= self.posts.len(),
                self@ == pre,
                fp == (|p: PostView| p.author_id != id),
                post_views(posts@) == pre.posts.subrange(0, k as int).filter(fp),
            decreases self.posts.len() - k,
        {
            proof {
                lemma_filter_step(pre.posts, fp, k as int);
                assert(pre.posts[k as int] == self.posts@[k as int]@);
            }
            if self.posts[k].author_id != id {
                let p = self.posts[k].duplicate();
                let ghost before = posts@;
                posts.push(p);
                proof {
                    assert(post_views(posts@) =~= post_views(before).push(p@));
                }
            }
            k = k + 1;
        }
        let mut users: Vec<User> = Vec::new();
        let mut k: usize = 0;
        while k < self.users.len()
            invariant
                k <= self.users.len(),
                self@ == pre,
                fu == (|u: UserView| u.id != id),
                user_views(users@) == pre.users.subrange(0, k as int).filter(fu),
            decreases self.users.len() - k,
        {
            proof {
                lemma_filter_step(pre.users, fu, k as int);
                assert(pre.users[k as int] == self.users@[k as int]@);
            }
            if self.users[k].id != id {
                let u = self.users[k].duplicate();
                let ghost before = users@;
                users.push(u);
                proof {
                    assert(user_views(users@) =~= user_views(before).push(u@));
                }
            }
            k = k + 1;
        }
        self.users = users;
        self.posts = posts;
        self.comments = comments;
        proof {
            assert(pre.users.subrange(0, pre.users.len() as int) =~= pre.users);
            assert(pre.posts.subrange(0, pre.posts.len() as int) =~= pre.posts);
            assert(pre.comments.subrange(0, pre.comments.len() as int) =~= pre.comments);
            assert forall|i: int, k: int|
                0 <= i < pre.comments.len() && 0 <= k < pre.posts.len() && fc(pre.comments[i]) && pre.posts[k].id
                    == pre.comments[i].post_id implies fp(#[trigger] pre.posts[k]) && #[trigger] pre.comments[i]
                    == pre.comments[i] by {
                if pre.posts[k].author_id == id {
                    assert(pre.post_by(pre.comments[i].post_id, id));
                }
            }
            lemma_filtered_wf(pre, self@, fu, fp, fc);
        }
        Ok(())
    }
}

/// In a well-formed store, the row that holds a key is the one named by it.
pub proof fn lemma_keyed_rows(s: StoreView)
    requires
        s.wf(),
    ensures
        forall|k: int| 0 <= k < s.users.len() ==> s.user_with(#[trigger] s.users[k].id) == s.users[k],
        forall|k: int| 0 <= k < s.posts.len() ==> s.post_with(#[trigger] s.posts[k].id) == s.posts[k],
        forall|k: int| 0 <= k < s.comments.len() ==> s.comment_with(#[trigger] s.comments[k].id) == s.comments[k],
{
    assert forall|k: int| 0 <= k < s.users.len() implies s.user_with(#[trigger] s.users[k].id) == s.users[k] by {
        let id = s.users[k].id;
        let j = choose|j: int| 0 <= j < s.users.len() && #[trigger] s.users[j].id == id;
        assert(s.users[j].id == id);
    }
    assert forall|k: int| 0 <= k < s.posts.len() implies s.post_with(#[trigger] s.posts[k].id) == s.posts[k] by {
        let id = s.posts[k].id;
        let j = choose|j: int| 0 <= j < s.posts.len() && #[trigger] s.posts[j].id == id;
        assert(s.posts[j].id == id);
    }
    assert forall|k: int| 0 <= k < s.comments.len() implies s.comment_with(#[trigger] s.comments[k].id)
        == s.comments[k] by {
        let id = s.comments[k].id;
        let j = choose|j: int| 0 <= j < s.comments.len() && #[trigger] s.comments[j].id == id;
        assert(s.comments[j].id == id);
    }
}

/// A filter that keeps everything is the identity.
pub proof fn lemma_filter_all<A>(s: Seq<A>)
    ensures
        s.filter(|x: A| true) == s,
    decreases s.len(),
{
    reveal(Seq::filter);
    if s.len() > 0 {
        lemma_filter_all(s.drop_last());
        assert(s.drop_last().push(s.last()) =~= s);
    }
}

/// Keeping a part of each table, where every kept row's references point to
/// kept rows, keeps the store well formed.
pub proof fn lemma_filtered_wf(
    a: StoreView,
    b: StoreView,
    fu: spec_fn(UserView) -> bool,
    fp: spec_fn(PostView) -> bool,
    fc: spec_fn(CommentView) -> bool,
)
    requires
        a.wf(),
        b.clock == a.clock,
        b.users == a.users.filter(fu),
        b.posts == a.posts.filter(fp),
        b.comments == a.comments.filter(fc),
        forall|i: int, k: int|
            0 <= i < a.posts.len() && 0 <= k < a.users.len() && fp(a.posts[i]) && a.users[k].id
                == a.posts[i].author_id ==> fu(#[trigger] a.users[k]) && #[trigger] a.posts[i] == a.posts[i],
        forall|i: int, k: int|
            0 <= i < a.comments.len() && 0 <= k < a.users.len() && fc(a.comments[i]) && a.users[k].id
                == a.comments[i].author_id ==> fu(#[trigger] a.users[k]) && #[trigger] a.comments[i] == a.comments[i],
        forall|i: int, k: int|
            0 <= i < a.comments.len() && 0 <= k < a.posts.len() && fc(a.comments[i]) && a.posts[k].id
                == a.comments[i].post_id ==> fp(#[trigger] a.posts[k]) && #[trigger] a.comments[i] == a.comments[i],
    ensures
        b.wf(),
{
    let uid = |u: UserView| u.id;
    let uname = |u: UserView| u.username;
    let ut = |u: UserView| u.created_at;
    let pid = |p: PostView| p.id;
    let pt = |p: PostView| p.created_at;
    let cid = |c: CommentView| c.id;
    let ct = |c: CommentView| c.created_at;
    assert(keys_unique(a.users, uid));
    assert(keys_unique(a.users, uname));
    assert(times_sorted(a.users, ut));
    assert(keys_unique(a.posts, pid));
    assert(times_sorted(a.posts, pt));
    assert(keys_unique(a.comments, cid));
    assert(times_sorted(a.comments, ct));
    lemma_filter_keeps(a.users, fu, uid, ut);
    lemma_filter_keeps(a.users, fu, uname, ut);
    lemma_filter_keeps(a.posts, fp, pid, pt);
    lemma_filter_keeps(a.comments, fc, cid, ct);
    assert forall|i: int| #![trigger b.users[i]] 0 <= i < b.users.len() implies b.users[i].created_at <= b.clock by {
        assert(b.users.contains(b.users[i]));
    }
    assert forall|i: int| #![trigger b.posts[i]] 0 <= i < b.posts.len() implies b.posts[i].created_at <= b.clock
        && b.has_user(b.posts[i].author_id) by {
        let p = b.posts[i];
        assert(b.posts.contains(p));
        let j = choose|j: int| 0 <= j < a.posts.len() && a.posts[j] == p;
        assert(a.has_user(a.posts[j].author_id));
        let k = choose|k: int| 0 <= k < a.users.len() && #[trigger] a.users[k].id == p.author_id;
        assert(fu(a.users[k]));
        assert(b.users.contains(a.users[k]));
        let m = choose|m: int| 0 <= m < b.users.len() && b.users[m] == a.users[k];
        assert(b.users[m].id == p.author_id);
    }
    assert forall|i: int| #![trigger b.comments[i]] 0 <= i < b.comments.len() implies b.comments[i].created_at
        <= b.clock && b.has_user(b.comments[i].author_id) && b.has_post(b.comments[i].post_id) by {
        let c = b.comments[i];
        assert(b.comments.contains(c));
        let j = choose|j: int| 0 <= j < a.comments.len() && a.comments[j] == c;
        assert(a.has_user(a.comments[j].author_id));
        assert(a.has_post(a.comments[j].post_id));
        let k = choose|k: int| 0 <= k < a.users.len() && #[trigger] a.users[k].id == c.author_id;
        assert(fu(a.users[k]));
        assert(b.users.contains(a.users[k]));
        let m = choose|m: int| 0 <= m < b.users.len() && b.users[m] == a.users[k];
        assert(b.users[m].id == c.author_id);
        let q = choose|q: int| 0 <= q < a.posts.len() && #[trigger] a.posts[q].id == c.post_id;
        assert(fp(a.posts[q]));
        assert(b.posts.contains(a.posts[q]));
        let n = choose|n: int| 0 <= n < b.posts.len() && b.posts[n] == a.posts[q];
        assert(b.posts[n].id == c.post_id);
    }
    assert forall|i: int, j: int|
        #![trigger b.users[i], b.users[j]]
        0 <= i < b.users.len() && 0 <= j < b.users.len() && i != j implies b.users[i].id != b.users[j].id
        && b.users[i].username != b.users[j].username by {
        assert(uid(b.users[i]) != uid(b.users[j]));
        assert(uname(b.users[i]) != uname(b.users[j]));
    }
    assert forall|i: int, j: int| 0 <= i <= j < b.users.len() implies #[trigger] b.users[i].created_at
        <= #[trigger] b.users[j].created_at by {
        assert(ut(b.users[i]) <= ut(b.users[j]));
    }
    assert forall|i: int, j: int|
        0 <= i < b.posts.len() && 0 <= j < b.posts.len() && i != j implies #[trigger] b.posts[i].id
        != #[trigger] b.posts[j].id by {
        assert(pid(b.posts[i]) != pid(b.posts[j]));
    }
    assert forall|i: int, j: int| 0 <= i <= j < b.posts.len() implies #[trigger] b.posts[i].created_at
        <= #[trigger] b.posts[j].created_at by {
        assert(pt(b.posts[i]) <= pt(b.posts[j]));
    }
    assert forall|i: int, j: int|
        0 <= i < b.comments.len() && 0 <= j < b.comments.len() && i != j implies #[trigger] b.comments[i].id
        != #[trigger] b.comments[j].id by {
        assert(cid(b.comments[i]) != cid(b.comments[j]));
    }
    assert forall|i: int, j: int| 0 <= i <= j < b.comments.len() implies #[trigger] b.comments[i].created_at
        <= #[trigger] b.comments[j].created_at by {
        assert(ct(b.comments[i]) <= ct(b.comments[j]));
    }
}

} // verus!