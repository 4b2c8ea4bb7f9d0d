use vstd::prelude::*;

verus! {

/// A registered user. `password_hash` is the opaque bcrypt text. Times here
/// and below are milliseconds since the Unix epoch, as the store's clock
/// stamped them.
#[derive(Debug)]
pub struct User {
    pub id: u128,
    pub username: String,
    pub password_hash: String,
    pub created_at: i64,
    pub updated_at: i64,
}

/// A post; `author` is the author's username as it was when the post was
/// written (a deliberate denormalisation: later renames do not reach it).
#[derive(Debug)]
pub struct Post {
    pub id: u128,
    pub title: String,
    pub content: String,
    pub author_id: u128,
    pub author: String,
    pub created_at: i64,
    pub updated_at: i64,
}

/// A comment on a post; `author_username` is denormalised as for posts.
#[derive(Debug)]
pub struct Comment {
    pub id: u128,
    pub content: String,
    pub post_id: u128,
    pub author_id: u128,
    pub author_username: String,
    pub created_at: i64,
    pub updated_at: i64,
}

pub struct UserView {
    pub id: u128,
    pub username: Seq<char>,
    pub password_hash: Seq<char>,
    pub created_at: i64,
    pub updated_at: i64,
}

pub struct PostView {
    pub id: u128,
    pub title: Seq<char>,
    pub content: Seq<char>,
    pub author_id: u128,
    pub author: Seq<char>,
    pub created_at: i64,
    pub updated_at: i64,
}

pub struct CommentView {
    pub id: u128,
    pub content: Seq<char>,
    pub post_id: u128,
    pub author_id: u128,
    pub author_username: Seq<char>,
    pub created_at: i64,
    pub updated_at: i64,
}

impl View for User {
    type V = UserView;

    open spec fn view(&self) -> UserView {
        UserView {
            id: self.id,
            username: self.username@,
            password_hash: self.password_hash@,
            created_at: self.created_at,
            updated_at: self.updated_at,
        }
    }
}

impl View for Post {
    type V = PostView;

    open spec fn view(&self) -> PostView {
        PostView {
            id: self.id,
            title: self.title@,
            content: self.content@,
            author_id: self.author_id,
            author: self.author@,
            created_at: self.created_at,
            updated_at: self.updated_at,
        }
    }
}

impl View for Comment {
    type V = CommentView;

    open spec fn view(&self) -> CommentView {
        CommentView {
            id: self.id,
            content: self.content@,
            post_id: self.post_id,
            author_id: self.author_id,
            author_username: self.author_username@,
            created_at: self.created_at,
            updated_at: self.updated_at,
        }
    }
}

impl User {
    /// A copy of the record.
    pub fn duplicate(&self) -> (r: User)
        ensures
            r@ == self@,
    {
        User {
            id: self.id,
            username: self.username.clone(),
            password_hash: self.password_hash.clone(),
            created_at: self.created_at,
            updated_at: self.updated_at,
        }
    }
}

impl Post {
    /// A copy of the record.
    pub fn duplicate(&self) -> (r: Post)
        ensures
            r@ == self@,
    {
        Post {
            id: self.id,
            title: self.title.clone(),
            content: self.content.clone(),
            author_id: self.author_id,
            author: self.author.clone(),
            created_at: self.created_at,
            updated_at: self.updated_at,
        }
    }
}

impl Comment {
    /// A copy of the record.
    pub fn duplicate(&self) -> (r: Comment)
        ensures
            r@ == self@,
    {
        Comment {
            id: self.id,
            content: self.content.clone(),
            post_id: self.post_id,
            author_id: self.author_id,
            author_username: self.author_username.clone(),
            created_at: self.created_at,
            updated_at: self.updated_at,
        }
    }
}

} // verus!
