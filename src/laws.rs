use vstd::prelude::*;
use crate::models::{CommentView, PostView, UserView};
use crate::seqs::{keys_unique, lemma_filter_keeps, times_sorted};
use crate::ids::uuid_parse;
use crate::session::{session_view, AuthView};
use crate::store::{lemma_keyed_rows, StoreView};

verus! {

/// A filter that no entry passes keeps nothing.
pub proof fn lemma_filter_none<A>(s: Seq<A>, f: spec_fn(A) -> bool)
    requires
        forall|i: int| 0 <= i < s.len() ==> !f(#[trigger] s[i]),
    ensures
        s.filter(f).len() == 0,
    decreases s.len(),
{
    reveal(Seq::filter);
    if s.len() > 0 {
        let d = s.drop_last();
        assert forall|i: int| 0 <= i < d.len() implies !f(#[trigger] d[i]) by {
            assert(d[i] == s[i]);
        }
        lemma_filter_none(d, f);
        assert(!f(s[s.len() - 1]));
    }
}

/// Once a registration has added user `u`, the username is taken and names
/// `u`: registering it again fails with `DuplicateUsername` and leaves the
/// store, and so `u`, as it was.
pub proof fn law_registered_username_is_taken(before: StoreView, u: UserView, after: StoreView)
    requires
        after.wf(),
        after == (StoreView { users: before.users.push(u), clock: after.clock, ..before }),
    ensures
        after.has_username(u.username),
        after.has_user(u.id),
        after.user_with(u.id) == u,
{
    let k = before.users.len() as int;
    assert(after.users[k] == u);
    lemma_keyed_rows(after);
}

/// A session cookie whose text reads as the key of a stored user resolves
/// to that user, as the cookie that login sets does; once the cookie is
/// removed, the request is unauthenticated.
pub proof fn law_session_cookie_resolves(s: StoreView, cookie: Seq<char>, id: u128)
    requires
        s.wf(),
        s.has_user(id),
        uuid_parse(cookie) == Some(id),
    ensures
        session_view(s, Some(cookie)) == AuthView::Authenticated(s.user_with(id)),
        s.user_with(id).id == id,
        session_view(s, None) == AuthView::Unauthenticated,
{
    let k = choose|k: int| 0 <= k < s.users.len() && #[trigger] s.users[k].id == id;
    lemma_keyed_rows(s);
    assert(s.user_with(s.users[k].id) == s.users[k]);
}

/// Deleting a user leaves no user with that key, no post and no comment
/// they wrote, and no comment on any post they wrote: listing the comments
/// of such a post gives nothing.
pub proof fn law_delete_user_cascades(before: StoreView, uid: u128, after: StoreView)
    requires
        before.wf(),
        after == (StoreView {
            users: before.users.filter(|u: UserView| u.id != uid),
            posts: before.posts.filter(|p: PostView| p.author_id != uid),
            comments: before.comments.filter(
                |c: CommentView| c.author_id != uid && !before.post_by(c.post_id, uid),
            ),
            ..before
        }),
    ensures
        !after.has_user(uid),
        forall|i: int| 0 <= i < after.posts.len() ==> #[trigger] after.posts[i].author_id != uid,
        forall|i: int| 0 <= i < after.comments.len() ==> #[trigger] after.comments[i].author_id != uid,
        forall|pid: u128|
            #[trigger] before.post_by(pid, uid) ==> !after.has_post(pid) && after.comments.filter(
                |c: CommentView| c.post_id == pid,
            ).len() == 0,
{
    broadcast use vstd::seq_lib::group_filter_ensures;

    let fu = |u: UserView| u.id != uid;
    let fp = |p: PostView| p.author_id != uid;
    let fc = |c: CommentView| c.author_id != uid && !before.post_by(c.post_id, uid);
    assert forall|i: int| 0 <= i < after.users.len() implies #[trigger] after.users[i].id != uid by {
        assert(fu(after.users[i]));
    }
    assert forall|i: int| 0 <= i < after.posts.len() implies #[trigger] after.posts[i].author_id != uid by {
        assert(fp(after.posts[i]));
    }
    assert forall|i: int| 0 <= i < after.comments.len() implies #[trigger] after.comments[i].author_id != uid
        && !before.post_by(after.comments[i].post_id, uid) by {
        assert(fc(after.comments[i]));
    }
    let pid_of = |p: PostView| p.id;
    let pt = |p: PostView| p.created_at;
    assert(keys_unique(before.posts, pid_of));
    assert(times_sorted(before.posts, pt));
    lemma_filter_keeps(before.posts, fp, pid_of, pt);
    assert forall|pid: u128| #[trigger] before.post_by(pid, uid) implies !after.has_post(pid)
        && after.comments.filter(|c: CommentView| c.post_id == pid).len() == 0 by {
        let w = choose|w: int|
            0 <= w < before.posts.len() && #[trigger] before.posts[w].id == pid && before.posts[w].author_id == uid;
        assert forall|i: int| 0 <= i < after.posts.len() implies #[trigger] after.posts[i].id != pid by {
            assert(after.posts[i].author_id != uid);
            if after.posts[i].id == pid {
                assert(after.posts.contains(after.posts[i]));
                assert(before.posts.contains(after.posts[i]));
                let m = choose|m: int| 0 <= m < before.posts.len() && before.posts[m] == after.posts[i];
                assert(before.posts[m].id == pid);
                assert(before.posts[w].id == pid);
                assert(m == w);
            }
        }
        let g = |c: CommentView| c.post_id == pid;
        assert forall|i: int| 0 <= i < after.comments.len() implies !g(#[trigger] after.comments[i]) by {
            assert(!before.post_by(after.comments[i].post_id, uid));
        }
        lemma_filter_none(after.comments, g);
    }
}

} // verus!
