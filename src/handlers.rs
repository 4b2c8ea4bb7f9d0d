use vstd::prelude::*;
use crate::error::BlogError;
use crate::forms::{CreateComment, CreatePost, CreateUser, UpdatePassword, UpdateUsername};
use crate::ids::new_random_id;
use crate::models::{Comment, CommentView, Post, PostView, User, UserView};
use crate::password::{hash_password_with_cost, verify_outcome, verify_password};
use crate::store::{lemma_keyed_rows, BlogStore, StoreView};
use crate::time::now_millis;

verus! {

/// Permits a change to a resource only to its author; anyone else is
/// `Forbidden`.
pub fn authorize(owner_id: u128, actor_id: u128) -> (r: Result<(), BlogError>)
    ensures
        r is Ok <==> owner_id == actor_id,
        r is Err ==> r == Err::<(), BlogError>(BlogError::Forbidden),
{
    if owner_id == actor_id {
        Ok(())
    } else {
        Err(BlogError::Forbidden)
    }
}

/// Registers a user: the form is validated, the username must be free, the
/// password is hashed at work factor `cost`, and the user gets a fresh
/// random key. A failed hash or a key collision is `Infrastructure`.
pub fn register(store: &mut BlogStore, form: &CreateUser, cost: u32) -> (r: Result<User, BlogError>)
    requires
        old(store).wf(),
    ensures
        final(store).wf(),
        !form.is_valid() ==> r == Err::<User, BlogError>(BlogError::ValidationFailed),
        form.is_valid() && old(store)@.has_username(form.username@) ==> r == Err::<User, BlogError>(
            BlogError::DuplicateUsername,
        ),
        form.is_valid() && !old(store)@.has_username(form.username@) && r is Err ==> r == Err::<User, BlogError>(
            BlogError::Infrastructure,
        ),
        r is Err ==> final(store)@ == old(store)@,
        r is Ok ==> {
            let u = r->Ok_0@;
            &&& u.username == form.username@
            &&& verify_outcome(form.password@, u.password_hash) == Ok::<bool, BlogError>(true)
            &&& !old(store)@.has_user(u.id)
            &&& u.created_at == final(store)@.clock
            &&& u.updated_at == final(store)@.clock
            &&& old(store)@.clock <= final(store)@.clock
            &&& final(store)@ == (StoreView {
                users: old(store)@.users.push(u),
                clock: final(store)@.clock,
                ..old(store)@
            })
        },
{
    match form.validate() {
        Ok(()) => {},
        Err(e) => return Err(e),
    }
    if store.get_user_by_username(form.username.as_str()).is_some() {
        return Err(BlogError::DuplicateUsername);
    }
    let hash = match hash_password_with_cost(form.password.as_str(), cost) {
        Ok(h) => h,
        Err(e) => return Err(e),
    };
    let id = new_random_id();
    let now = now_millis();
    store.create_user(id, form.username.clone(), hash, now)
}

/// Writes a post as `actor`. The form is validated first; an author who no
/// longer exists is `NotFound`; a key collision is `Infrastructure`.
pub fn create_post(store: &mut BlogStore, actor: &User, form: &CreatePost) -> (r: Result<Post, BlogError>)
    requires
        old(store).wf(),
    ensures
        final(store).wf(),
        !form.is_valid() ==> r == Err::<Post, BlogError>(BlogError::ValidationFailed),
        form.is_valid() && !old(store)@.has_user(actor.id) ==> r == Err::<Post, BlogError>(BlogError::NotFound),
        form.is_valid() && old(store)@.has_user(actor.id) && r is Err ==> r == Err::<Post, BlogError>(
            BlogError::Infrastructure,
        ),
        r is Err ==> final(store)@ == old(store)@,
        r is Ok ==> {
            let p = r->Ok_0@;
            &&& p == (PostView {
                id: p.id,
                title: form.title@,
                content: form.content@,
                author_id: actor.id,
                author: old(store)@.user_with(actor.id).username,
                created_at: final(store)@.clock,
                updated_at: final(store)@.clock,
            })
            &&& !old(store)@.has_post(p.id)
            &&& old(store)@.clock <= final(store)@.clock
            &&& final(store)@ == (StoreView {
                posts: old(store)@.posts.push(p),
                clock: final(store)@.clock,
                ..old(store)@
            })
        },
{
    match form.validate() {
        Ok(()) => {},
        Err(e) => return Err(e),
    }
    let id = new_random_id();
    let now = now_millis();
    proof {
        lemma_keyed_rows(store@);
    }
    store.create_post(id, form.title.clone(), form.content.clone(), actor.id, now)
}

/// Edits a post as `actor`: `NotFound` where it does not exist, `Forbidden`
/// where `actor` did not write it, `ValidationFailed` for a bad form, in
/// that order. Only title, content and update time change.
pub fn update_post(store: &mut BlogStore, actor: &User, post_id: u128, form: &CreatePost) -> (r: Result<
    Post,
    BlogError,
>)
    requires
        old(store).wf(),
    ensures
        final(store).wf(),
        !old(store)@.has_post(post_id) ==> r == Err::<Post, BlogError>(BlogError::NotFound),
        old(store)@.has_post(post_id) && old(store)@.post_with(post_id).author_id != actor.id ==> r == Err::<
            Post,
            BlogError,
        >(BlogError::Forbidden),
        old(store)@.has_post(post_id) && old(store)@.post_with(post_id).author_id == actor.id
            && !form.is_valid() ==> r == Err::<Post, BlogError>(BlogError::ValidationFailed),
        r is Err ==> final(store)@ == old(store)@,
        old(store)@.has_post(post_id) && old(store)@.post_with(post_id).author_id == actor.id && form.is_valid()
            ==> r is Ok,
        r is Ok ==> {
            let p = PostView {
                title: form.title@,
                content: form.content@,
                updated_at: final(store)@.clock,
                ..old(store)@.post_with(post_id)
            };
            &&& r->Ok_0@ == p
            &&& old(store)@.clock <= final(store)@.clock
            &&& exists|i: int|
                0 <= i < old(store)@.posts.len() && old(store)@.posts[i].id == post_id && final(store)@
                    == old(store)@.with_post_at(i, p, final(store)@.clock)
        },
{
    let existing = match store.get_post(post_id) {
        Some(p) => p,
        None => return Err(BlogError::NotFound),
    };
    match authorize(existing.author_id, actor.id) {
        Ok(()) => {},
        Err(e) => return Err(e),
    }
    match form.validate() {
        Ok(()) => {},
        Err(e) => return Err(e),
    }
    let now = now_millis();
    proof {
        lemma_keyed_rows(store@);
    }
    store.update_post(post_id, form.title.clone(), form.content.clone(), now)
}

/// Deletes a post, and the comments on it, as `actor`: `NotFound` where it
/// does not exist, `Forbidden` where `actor` did not write it.
pub fn delete_post(store: &mut BlogStore, actor: &User, post_id: u128) -> (r: Result<(), BlogError>)
    requires
        old(store).wf(),
    ensures
        final(store).wf(),
        !old(store)@.has_post(post_id) ==> r == Err::<(), BlogError>(BlogError::NotFound),
        old(store)@.has_post(post_id) && old(store)@.post_with(post_id).author_id != actor.id ==> r == Err::<
            (),
            BlogError,
        >(BlogError::Forbidden),
        r is Err ==> final(store)@ == old(store)@,
        r is Ok <==> old(store)@.has_post(post_id) && old(store)@.post_with(post_id).author_id == actor.id,
        r is Ok ==> final(store)@ == (StoreView {
            posts: old(store)@.posts.filter(|p: PostView| p.id != post_id),
            comments: old(store)@.comments.filter(|c: CommentView| c.post_id != post_id),
            ..old(store)@
        }),
{
    let existing = match store.get_post(post_id) {
        Some(p) => p,
        None => return Err(BlogError::NotFound),
    };
    match authorize(existing.author_id, actor.id) {
        Ok(()) => {},
        Err(e) => return Err(e),
    }
    store.delete_post(post_id)
}

/// Comments on a post as `actor`. The form is validated first; a post or
/// author that does not exist is `NotFound`; a key collision is
/// `Infrastructure`.
pub fn create_comment(store: &mut BlogStore, actor: &User, post_id: u128, form: &CreateComment) -> (r:
    Result<Comment, BlogError>)
    requires
        old(store).wf(),
    ensures
        final(store).wf(),
        !form.is_valid() ==> r == Err::<Comment, BlogError>(BlogError::ValidationFailed),
        form.is_valid() && (!old(store)@.has_post(post_id) || !old(store)@.has_user(actor.id)) ==> r == Err::<
            Comment,
            BlogError,
        >(BlogError::NotFound),
        form.is_valid() && old(store)@.has_post(post_id) && old(store)@.has_user(actor.id) && r is Err ==> r
            == Err::<Comment, BlogError>(BlogError::Infrastructure),
        r is Err ==> final(store)@ == old(store)@,
        r is Ok ==> {
            let c = r->Ok_0@;
            &&& c == (CommentView {
                id: c.id,
                content: form.content@,
                post_id,
                author_id: actor.id,
                author_username: old(store)@.user_with(actor.id).username,
                created_at: final(store)@.clock,
                updated_at: final(store)@.clock,
            })
            &&& !old(store)@.has_comment(c.id)
            &&& old(store)@.clock <= final(store)@.clock
            &&& final(store)@ == (StoreView {
                comments: old(store)@.comments.push(c),
                clock: final(store)@.clock,
                ..old(store)@
            })
        },
{
    match form.validate() {
        Ok(()) => {},
        Err(e) => return Err(e),
    }
    let id = new_random_id();
    let now = now_millis();
    proof {
        lemma_keyed_rows(store@);
    }
    store.create_comment(id, form.content.clone(), post_id, actor.id, now)
}

/// Edits a comment as `actor`: `NotFound` where it does not exist,
/// `Forbidden` where `actor` did not write it, `ValidationFailed` for a bad
/// form, in that order. Only content and update time change.
pub fn update_comment(store: &mut BlogStore, actor: &User, comment_id: u128, form: &CreateComment) -> (r:
    Result<Comment, BlogError>)
    requires
        old(store).wf(),
    ensures
        final(store).wf(),
        !old(store)@.has_comment(comment_id) ==> r == Err::<Comment, BlogError>(BlogError::NotFound),
        old(store)@.has_comment(comment_id) && old(store)@.comment_with(comment_id).author_id != actor.id ==> r
            == Err::<Comment, BlogError>(BlogError::Forbidden),
        old(store)@.has_comment(comment_id) && old(store)@.comment_with(comment_id).author_id == actor.id
            && !form.is_valid() ==> r == Err::<Comment, BlogError>(BlogError::ValidationFailed),
        r is Err ==> final(store)@ == old(store)@,
        old(store)@.has_comment(comment_id) && old(store)@.comment_with(comment_id).author_id == actor.id
            && form.is_valid() ==> r is Ok,
        r is Ok ==> {
            let c = CommentView {
                content: form.content@,
                updated_at: final(store)@.clock,
                ..old(store)@.comment_with(comment_id)
            };
            &&& r->Ok_0@ == c
            &&& old(store)@.clock <= final(store)@.clock
            &&& exists|i: int|
                0 <= i < old(store)@.comments.len() && old(store)@.comments[i].id == comment_id && final(store)@
                    == old(store)@.with_comment_at(i, c, final(store)@.clock)
        },
{
    let existing = match store.get_comment(comment_id) {
        Some(c) => c,
        None => return Err(BlogError::NotFound),
    };
    match authorize(existing.author_id, actor.id) {
        Ok(()) => {},
        Err(e) => return Err(e),
    }
    match form.validate() {
        Ok(()) => {},
        Err(e) => return Err(e),
    }
    let now = now_millis();
    proof {
        lemma_keyed_rows(store@);
    }
    store.update_comment(comment_id, form.content.clone(), now)
}

/// Deletes a comment as `actor`: `NotFound` where it does not exist,
/// `Forbidden` where `actor` did not write it.
pub fn delete_comment(store: &mut BlogStore, actor: &User, comment_id: u128) -> (r: Result<(), BlogError>)
    requires
        old(store).wf(),
    ensures
        final(store).wf(),
        !old(store)@.has_comment(comment_id) ==> r == Err::<(), BlogError>(BlogError::NotFound),
        old(store)@.has_comment(comment_id) && old(store)@.comment_with(comment_id).author_id != actor.id ==> r
            == Err::<(), BlogError>(BlogError::Forbidden),
        r is Err ==> final(store)@ == old(store)@,
        r is Ok <==> old(store)@.has_comment(comment_id) && old(store)@.comment_with(comment_id).author_id
            == actor.id,
        r is Ok ==> final(store)@ == (StoreView {
            comments: old(store)@.comments.filter(|c: CommentView| c.id != comment_id),
            ..old(store)@
        }),
{
    let existing = match store.get_comment(comment_id) {
        Some(c) => c,
        None => return Err(BlogError::NotFound),
    };
    match authorize(existing.author_id, actor.id) {
        Ok(()) => {},
        Err(e) => return Err(e),
    }
    store.delete_comment(comment_id)
}

/// Renames `actor`: the form is validated first, then the store's rules
/// apply (`NotFound`, `DuplicateUsername`).
pub fn update_username(store: &mut BlogStore, actor: &User, form: &UpdateUsername) -> (r: Result<
    User,
    BlogError,
>)
    requires
        old(store).wf(),
    ensures
        final(store).wf(),
        !form.is_valid() ==> r == Err::<User, BlogError>(BlogError::ValidationFailed),
        form.is_valid() && !old(store)@.has_user(actor.id) ==> r == Err::<User, BlogError>(BlogError::NotFound),
        form.is_valid() && old(store)@.has_user(actor.id) && old(store)@.username_taken_by_other(
            form.username@,
            actor.id,
        ) ==> r == Err::<User, BlogError>(BlogError::DuplicateUsername),
        r is Err ==> final(store)@ == old(store)@,
        form.is_valid() && old(store)@.has_user(actor.id) && !old(store)@.username_taken_by_other(
            form.username@,
            actor.id,
        ) ==> r is Ok,
        r is Ok ==> {
            let u = UserView {
                username: form.username@,
                updated_at: final(store)@.clock,
                ..old(store)@.user_with(actor.id)
            };
            &&& r->Ok_0@ == u
            &&& old(store)@.clock <= final(store)@.clock
            &&& exists|i: int|
                0 <= i < old(store)@.users.len() && old(store)@.users[i].id == actor.id && final(store)@
                    == old(store)@.with_user_at(i, u, final(store)@.clock)
        },
{
    match form.validate() {
        Ok(()) => {},
        Err(e) => return Err(e),
    }
    let now = now_millis();
    proof {
        lemma_keyed_rows(store@);
    }
    store.update_username(actor.id, form.username.clone(), now)
}

/// Changes `actor`'s password: the form is validated first; a user that no
/// longer exists is `NotFound`; the current password must verify against
/// the stored hash (`InvalidCredentials` where it does not, `Infrastructure`
/// where the hash is malformed); the new one is hashed at work factor `cost`.
pub fn update_password(store: &mut BlogStore, actor: &User, form: &UpdatePassword, cost: u32) -> (r: Result<
    User,
    BlogError,
>)
    requires
        old(store).wf(),
    ensures
        final(store).wf(),
        !form.is_valid() ==> r == Err::<User, BlogError>(BlogError::ValidationFailed),
        form.is_valid() && !old(store)@.has_user(actor.id) ==> r == Err::<User, BlogError>(BlogError::NotFound),
        form.is_valid() && old(store)@.has_user(actor.id) ==> match verify_outcome(
            form.current_password@,
            old(store)@.user_with(actor.id).password_hash,
        ) {
            Ok(true) => r is Ok || r == Err::<User, BlogError>(BlogError::Infrastructure),
            Ok(false) => r == Err::<User, BlogError>(BlogError::InvalidCredentials),
            Err(e) => r == Err::<User, BlogError>(e),
        },
        r is Err ==> final(store)@ == old(store)@,
        r is Ok ==> {
            let u = UserView {
                password_hash: r->Ok_0@.password_hash,
                updated_at: final(store)@.clock,
                ..old(store)@.user_with(actor.id)
            };
            &&& r->Ok_0@ == u
            &&& verify_outcome(form.new_password@, u.password_hash) == Ok::<bool, BlogError>(true)
            &&& old(store)@.clock <= final(store)@.clock
            &&& exists|i: int|
                0 <= i < old(store)@.users.len() && old(store)@.users[i].id == actor.id && final(store)@
                    == old(store)@.with_user_at(i, u, final(store)@.clock)
        },
{
    match form.validate() {
        Ok(()) => {},
        Err(e) => return Err(e),
    }
    let user = match store.get_user_by_id(actor.id) {
        Some(u) => u,
        None => return Err(BlogError::NotFound),
    };
    match verify_password(form.current_password.as_str(), user.password_hash.as_str()) {
        Ok(true) => {},
        Ok(false) => return Err(BlogError::InvalidCredentials),
        Err(e) => return Err(e),
    }
    let hash = match hash_password_with_cost(form.new_password.as_str(), cost) {
        Ok(h) => h,
        Err(e) => return Err(e),
    };
    let now = now_millis();
    proof {
        lemma_keyed_rows(store@);
    }
    store.update_password_hash(actor.id, hash, now)
}

} // verus!
