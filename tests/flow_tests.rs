use rust_blog::error::BlogError;
use rust_blog::forms::{CreateComment, CreatePost, CreateUser, LoginUser, UpdatePassword, UpdateUsername};
use rust_blog::handlers::{
    authorize, create_comment, create_post, delete_comment, delete_post, register, update_comment,
    update_password, update_post, update_username,
};
use rust_blog::ids::{id_to_string, parse_id};
use rust_blog::models::User;
use rust_blog::password::{hash_password_with_cost, verify_password};
use rust_blog::session::{
    login, logout, optional_user, require_user, resolve_session, AuthState, SessionCookies, SESSION_COOKIE,
};
use rust_blog::store::BlogStore;

const COST: u32 = 4;

fn signup(store: &mut BlogStore, name: &str, password: &str) -> User {
    let form = CreateUser { username: name.to_string(), password: password.to_string() };
    register(store, &form, COST).unwrap()
}

fn post_form(title: &str, content: &str) -> CreatePost {
    CreatePost { title: title.to_string(), content: content.to_string() }
}

fn no_cookie() -> SessionCookies {
    SessionCookies { user_id: None }
}

#[test]
fn hashed_password_verifies_and_others_do_not() {
    let hash = hash_password_with_cost("password123", COST).unwrap();
    assert_ne!(hash, "password123");
    assert_eq!(verify_password("password123", &hash), Ok(true));
    assert_eq!(verify_password("password124", &hash), Ok(false));
    let other = hash_password_with_cost("password124", COST).unwrap();
    assert_eq!(verify_password("password123", &other), Ok(false));
}

#[test]
fn hashes_are_salted() {
    let a = hash_password_with_cost("same-password", COST).unwrap();
    let b = hash_password_with_cost("same-password", COST).unwrap();
    assert_ne!(a, b);
    assert_eq!(verify_password("same-password", &a), Ok(true));
    assert_eq!(verify_password("same-password", &b), Ok(true));
}

#[test]
fn bad_cost_and_malformed_hash_are_infrastructure_errors() {
    assert_eq!(hash_password_with_cost("pw", 3), Err(BlogError::Infrastructure));
    assert_eq!(hash_password_with_cost("pw", 32), Err(BlogError::Infrastructure));
    assert_eq!(verify_password("pw", "not a hash"), Err(BlogError::Infrastructure));
}

#[test]
fn identifier_text_round_trips() {
    let id: u128 = 0x67e5_5044_10b1_426f_9247_bb68_0e5f_e0c8;
    let text = id_to_string(id);
    assert_eq!(text, "67e55044-10b1-426f-9247-bb680e5fe0c8");
    assert_eq!(parse_id(&text), Some(id));
    assert_eq!(parse_id("00000000-0000-0000-0000-000000000000"), Some(0));
    assert_eq!(parse_id("not-a-uuid"), None);
    assert_eq!(parse_id(""), None);
}

#[test]
fn registering_a_username_twice_fails_and_keeps_the_first() {
    let mut store = BlogStore::new();
    let first = signup(&mut store, "alice", "password1");
    let again = CreateUser { username: "alice".to_string(), password: "password2".to_string() };
    assert_eq!(register(&mut store, &again, COST).unwrap_err(), BlogError::DuplicateUsername);
    let kept = store.get_user_by_username("alice").unwrap();
    assert_eq!(kept.id, first.id);
    assert_eq!(kept.password_hash, first.password_hash);
    assert_eq!(verify_password("password1", &kept.password_hash), Ok(true));
}

#[test]
fn registration_validates_the_form() {
    let mut store = BlogStore::new();
    let short_name = CreateUser { username: "al".to_string(), password: "password1".to_string() };
    assert_eq!(register(&mut store, &short_name, COST).unwrap_err(), BlogError::ValidationFailed);
    let short_password = CreateUser { username: "alice".to_string(), password: "12345".to_string() };
    assert_eq!(register(&mut store, &short_password, COST).unwrap_err(), BlogError::ValidationFailed);
    let edge = CreateUser { username: "abc".to_string(), password: "123456".to_string() };
    assert!(register(&mut store, &edge, COST).is_ok());
}

#[test]
fn login_cookie_resolves_to_the_user_until_logout() {
    let mut store = BlogStore::new();
    let alice = signup(&mut store, "alice", "password1");
    let mut cookies = no_cookie();
    let creds = LoginUser { username: "alice".to_string(), password: "password1".to_string() };
    let user = login(&store, &mut cookies, &creds).unwrap();
    assert_eq!(user.id, alice.id);
    assert_eq!(cookies.user_id, Some(id_to_string(alice.id)));
    match resolve_session(&store, &cookies) {
        AuthState::Authenticated(u) => assert_eq!(u.id, alice.id),
        _ => panic!("expected an authenticated session"),
    }
    logout(&mut cookies);
    assert!(cookies.user_id.is_none());
    assert!(matches!(resolve_session(&store, &cookies), AuthState::Unauthenticated));
    assert_eq!(SESSION_COOKIE, "user_id");
}

#[test]
fn wrong_credentials_do_not_log_in() {
    let mut store = BlogStore::new();
    signup(&mut store, "alice", "password1");
    let mut cookies = no_cookie();
    let wrong = LoginUser { username: "alice".to_string(), password: "password2".to_string() };
    assert_eq!(login(&store, &mut cookies, &wrong).unwrap_err(), BlogError::InvalidCredentials);
    let unknown = LoginUser { username: "mallory".to_string(), password: "password1".to_string() };
    assert_eq!(login(&store, &mut cookies, &unknown).unwrap_err(), BlogError::InvalidCredentials);
    assert!(cookies.user_id.is_none());
}

#[test]
fn bad_or_stale_cookies_are_invalid() {
    let mut store = BlogStore::new();
    let alice = signup(&mut store, "alice", "password1");
    let garbage = SessionCookies { user_id: Some("garbage".to_string()) };
    assert!(matches!(resolve_session(&store, &garbage), AuthState::Invalid));
    let stranger = SessionCookies { user_id: Some(id_to_string(alice.id ^ 1)) };
    assert!(matches!(resolve_session(&store, &stranger), AuthState::Invalid));
    let fresh = SessionCookies { user_id: Some(id_to_string(alice.id)) };
    store.delete_user(alice.id).unwrap();
    assert!(matches!(resolve_session(&store, &fresh), AuthState::Invalid));
    assert_eq!(require_user(resolve_session(&store, &fresh)).unwrap_err(), BlogError::Unauthenticated);
    assert!(optional_user(resolve_session(&store, &fresh)).is_none());
    assert_eq!(require_user(AuthState::Unauthenticated).unwrap_err(), BlogError::Unauthenticated);
}

#[test]
fn required_and_optional_users_pass_the_authenticated_user() {
    let mut store = BlogStore::new();
    let alice = signup(&mut store, "alice", "password1");
    let cookies = SessionCookies { user_id: Some(id_to_string(alice.id)) };
    assert_eq!(require_user(resolve_session(&store, &cookies)).unwrap().id, alice.id);
    assert_eq!(optional_user(resolve_session(&store, &cookies)).unwrap().username, "alice");
}

#[test]
fn post_lifecycle_scenario() {
    let mut store = BlogStore::new();
    let alice = signup(&mut store, "alice", "password1");
    let created =
        create_post(&mut store, &alice, &post_form("Test Post", "This is a test post content.")).unwrap();
    let fetched = store.get_post(created.id).unwrap();
    assert_eq!(fetched.title, "Test Post");
    assert_eq!(fetched.content, "This is a test post content.");
    assert_eq!(fetched.author_id, alice.id);
    assert_eq!(fetched.author, "alice");

    update_post(&mut store, &alice, created.id, &post_form("Updated Title", "Updated content.")).unwrap();
    let refetched = store.get_post(created.id).unwrap();
    assert_eq!(refetched.title, "Updated Title");
    assert_eq!(refetched.content, "Updated content.");
    assert_eq!(refetched.id, created.id);
    assert_eq!(refetched.author_id, alice.id);
    assert_eq!(refetched.created_at, created.created_at);

    delete_post(&mut store, &alice, created.id).unwrap();
    assert!(store.get_post(created.id).is_none());
    assert_eq!(update_post(&mut store, &alice, created.id, &post_form("x", "y")).unwrap_err(), BlogError::NotFound);
}

#[test]
fn another_user_cannot_delete_a_post() {
    let mut store = BlogStore::new();
    let alice = signup(&mut store, "alice", "password1");
    let bob = signup(&mut store, "bob", "password2");
    let post = create_post(&mut store, &alice, &post_form("Test Post", "content")).unwrap();
    assert_eq!(delete_post(&mut store, &bob, post.id), Err(BlogError::Forbidden));
    let still = store.get_post(post.id).unwrap();
    assert_eq!(still.title, "Test Post");
    assert_eq!(still.updated_at, post.updated_at);
}

#[test]
fn another_user_cannot_edit_posts_or_comments() {
    let mut store = BlogStore::new();
    let alice = signup(&mut store, "alice", "password1");
    let bob = signup(&mut store, "bob", "password2");
    let post = create_post(&mut store, &alice, &post_form("Title", "Body")).unwrap();
    let comment = create_comment(
        &mut store,
        &alice,
        post.id,
        &CreateComment { content: "mine".to_string() },
    )
    .unwrap();

    assert_eq!(update_post(&mut store, &bob, post.id, &post_form("Hacked", "Hacked")).unwrap_err(), BlogError::Forbidden);
    let same = store.get_post(post.id).unwrap();
    assert_eq!(same.title, "Title");
    assert_eq!(same.content, "Body");
    assert_eq!(same.updated_at, post.updated_at);

    let edit = CreateComment { content: "hacked".to_string() };
    assert_eq!(update_comment(&mut store, &bob, comment.id, &edit).unwrap_err(), BlogError::Forbidden);
    assert_eq!(delete_comment(&mut store, &bob, comment.id), Err(BlogError::Forbidden));
    let kept = store.get_comment(comment.id).unwrap();
    assert_eq!(kept.content, "mine");
    assert_eq!(kept.updated_at, comment.updated_at);

    // Ownership is checked before the form.
    assert_eq!(update_post(&mut store, &bob, post.id, &post_form("", "")).unwrap_err(), BlogError::Forbidden);
    assert_eq!(authorize(1, 2), Err(BlogError::Forbidden));
    assert_eq!(authorize(7, 7), Ok(()));
}

#[test]
fn comment_lifecycle_through_handlers() {
    let mut store = BlogStore::new();
    let alice = signup(&mut store, "alice", "password1");
    let bob = signup(&mut store, "bob", "password2");
    let post = create_post(&mut store, &alice, &post_form("Title", "Body")).unwrap();
    let empty = CreateComment { content: String::new() };
    assert_eq!(create_comment(&mut store, &bob, post.id, &empty).unwrap_err(), BlogError::ValidationFailed);
    let form = CreateComment { content: "Nice post".to_string() };
    assert_eq!(create_comment(&mut store, &bob, post.id ^ 1, &form).unwrap_err(), BlogError::NotFound);
    let c = create_comment(&mut store, &bob, post.id, &form).unwrap();
    assert_eq!(c.author_username, "bob");
    assert_eq!(c.post_id, post.id);
    let edited =
        update_comment(&mut store, &bob, c.id, &CreateComment { content: "Edited".to_string() }).unwrap();
    assert_eq!(edited.content, "Edited");
    assert_eq!(edited.created_at, c.created_at);
    assert_eq!(update_comment(&mut store, &bob, c.id, &empty).unwrap_err(), BlogError::ValidationFailed);
    delete_comment(&mut store, &bob, c.id).unwrap();
    assert!(store.get_post_comments(post.id).is_empty());
    assert_eq!(delete_comment(&mut store, &bob, c.id), Err(BlogError::NotFound));
}

#[test]
fn post_form_bounds() {
    let mut store = BlogStore::new();
    let alice = signup(&mut store, "alice", "password1");
    let hundred = "x".repeat(100);
    let too_long = "x".repeat(101);
    assert!(create_post(&mut store, &alice, &post_form(&hundred, "c")).is_ok());
    assert_eq!(create_post(&mut store, &alice, &post_form(&too_long, "c")).unwrap_err(), BlogError::ValidationFailed);
    assert_eq!(create_post(&mut store, &alice, &post_form("", "c")).unwrap_err(), BlogError::ValidationFailed);
    assert_eq!(create_post(&mut store, &alice, &post_form("t", "")).unwrap_err(), BlogError::ValidationFailed);
    // Characters, not bytes, are counted.
    let wide = "é".repeat(100);
    assert!(create_post(&mut store, &alice, &post_form(&wide, "c")).is_ok());
    assert_eq!(store.get_posts().len(), 2);
}

#[test]
fn posting_as_a_deleted_user_is_not_found() {
    let mut store = BlogStore::new();
    let alice = signup(&mut store, "alice", "password1");
    store.delete_user(alice.id).unwrap();
    assert_eq!(create_post(&mut store, &alice, &post_form("t", "c")).unwrap_err(), BlogError::NotFound);
}

#[test]
fn profile_updates() {
    let mut store = BlogStore::new();
    let alice = signup(&mut store, "alice", "password1");
    signup(&mut store, "bob", "password2");
    let taken = UpdateUsername { username: "bob".to_string() };
    assert_eq!(update_username(&mut store, &alice, &taken).unwrap_err(), BlogError::DuplicateUsername);
    let short = UpdateUsername { username: "al".to_string() };
    assert_eq!(update_username(&mut store, &alice, &short).unwrap_err(), BlogError::ValidationFailed);
    let renamed = update_username(&mut store, &alice, &UpdateUsername { username: "alicia".to_string() }).unwrap();
    assert_eq!(renamed.username, "alicia");
    assert_eq!(renamed.id, alice.id);

    let wrong = UpdatePassword { current_password: "nope".to_string(), new_password: "newpass1".to_string() };
    assert_eq!(update_password(&mut store, &alice, &wrong, COST).unwrap_err(), BlogError::InvalidCredentials);
    let weak = UpdatePassword { current_password: "password1".to_string(), new_password: "short".to_string() };
    assert_eq!(update_password(&mut store, &alice, &weak, COST).unwrap_err(), BlogError::ValidationFailed);
    let good = UpdatePassword { current_password: "password1".to_string(), new_password: "newpass1".to_string() };
    update_password(&mut store, &alice, &good, COST).unwrap();

    let mut cookies = no_cookie();
    let old = LoginUser { username: "alicia".to_string(), password: "password1".to_string() };
    assert_eq!(login(&store, &mut cookies, &old).unwrap_err(), BlogError::InvalidCredentials);
    let new = LoginUser { username: "alicia".to_string(), password: "newpass1".to_string() };
    assert_eq!(login(&store, &mut cookies, &new).unwrap().id, alice.id);
}

#[test]
fn error_messages_are_not_empty() {
    let all = [
        BlogError::NotFound,
        BlogError::DuplicateUsername,
        BlogError::InvalidCredentials,
        BlogError::Forbidden,
        BlogError::Unauthenticated,
        BlogError::ValidationFailed,
        BlogError::Infrastructure,
    ];
    for e in all.iter() {
        assert!(!e.message().is_empty());
    }
    assert_eq!(BlogError::NotFound.message(), "not found");
}
