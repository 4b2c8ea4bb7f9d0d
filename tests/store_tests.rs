use rust_blog::error::BlogError;
use rust_blog::store::BlogStore;

const ALICE: u128 = 0x1111_1111_1111_4111_8111_1111_1111_1111;
const BOB: u128 = 0x2222_2222_2222_4222_8222_2222_2222_2222;
const POST: u128 = 0x3333_3333_3333_4333_8333_3333_3333_3333;
const POST2: u128 = 0x3333_3333_3333_4333_8333_3333_3333_3334;
const COMMENT: u128 = 0x4444_4444_4444_4444_8444_4444_4444_4444;
const COMMENT2: u128 = 0x4444_4444_4444_4444_8444_4444_4444_4445;

fn store_with_users() -> BlogStore {
    let mut store = BlogStore::new();
    store.create_user(ALICE, "testuser".to_string(), "hash-a".to_string(), 10).unwrap();
    store.create_user(BOB, "commenter".to_string(), "hash-b".to_string(), 11).unwrap();
    store
}

#[test]
fn test_post_crud() {
    let mut store = store_with_users();
    store
        .create_post(POST, "Test Post".to_string(), "This is a test post content.".to_string(), ALICE, 20)
        .unwrap();

    let fetched = store.get_post(POST).unwrap();
    assert_eq!(fetched.id, POST);
    assert_eq!(fetched.title, "Test Post");
    assert_eq!(fetched.content, "This is a test post content.");
    assert_eq!(fetched.author_id, ALICE);
    assert_eq!(fetched.author, "testuser");

    store
        .update_post(POST, "Updated Post Title".to_string(), "Updated post content.".to_string(), 30)
        .unwrap();
    let updated = store.get_post(POST).unwrap();
    assert_eq!(updated.title, "Updated Post Title");
    assert_eq!(updated.content, "Updated post content.");

    store.delete_post(POST).unwrap();
    assert!(store.get_post(POST).is_none());
}

#[test]
fn test_delete_user_cascades_to_posts() {
    let mut store = store_with_users();
    store
        .create_post(POST, "Test Post".to_string(), "This is a test post content.".to_string(), ALICE, 20)
        .unwrap();
    store.delete_user(ALICE).unwrap();
    assert!(store.get_post(POST).is_none());
}

#[test]
fn test_delete_post_cascades_to_comments() {
    let mut store = store_with_users();
    store
        .create_post(POST, "Test Post".to_string(), "This is a test post content.".to_string(), ALICE, 20)
        .unwrap();
    store.create_comment(COMMENT, "This is a test comment.".to_string(), POST, BOB, 21).unwrap();
    store.delete_post(POST).unwrap();
    assert!(store.get_comment(COMMENT).is_none());
}

#[test]
fn test_comment_crud() {
    let mut store = store_with_users();
    store
        .create_post(POST, "Test Post".to_string(), "This is a test post content.".to_string(), ALICE, 20)
        .unwrap();
    let created = store.create_comment(COMMENT, "This is a test comment.".to_string(), POST, BOB, 21).unwrap();
    assert_eq!(created.author_username, "commenter");

    let listed = store.get_post_comments(POST);
    assert_eq!(listed.len(), 1);
    assert_eq!(listed[0].id, COMMENT);
    assert_eq!(listed[0].content, "This is a test comment.");
    assert_eq!(listed[0].post_id, POST);
    assert_eq!(listed[0].author_id, BOB);

    store.update_comment(COMMENT, "Updated comment content.".to_string(), 22).unwrap();
    assert_eq!(store.get_comment(COMMENT).unwrap().content, "Updated comment content.");

    store.delete_comment(COMMENT).unwrap();
    assert!(store.get_comment(COMMENT).is_none());
}

#[test]
fn test_delete_user_cascades_to_comments() {
    let mut store = store_with_users();
    store
        .create_post(POST, "Test Post".to_string(), "This is a test post content.".to_string(), ALICE, 20)
        .unwrap();
    store.create_comment(COMMENT, "This is a test comment.".to_string(), POST, BOB, 21).unwrap();
    store.delete_user(BOB).unwrap();
    assert!(store.get_comment(COMMENT).is_none());
    assert!(store.get_post(POST).is_some());
}

#[test]
fn delete_user_removes_comments_on_their_posts_and_their_comments_elsewhere() {
    let mut store = store_with_users();
    store.create_post(POST, "Alice".to_string(), "a".to_string(), ALICE, 20).unwrap();
    store.create_post(POST2, "Bob".to_string(), "b".to_string(), BOB, 21).unwrap();
    // Bob comments on Alice's post, Alice comments on Bob's post.
    store.create_comment(COMMENT, "from bob".to_string(), POST, BOB, 22).unwrap();
    store.create_comment(COMMENT2, "from alice".to_string(), POST2, ALICE, 23).unwrap();

    store.delete_user(ALICE).unwrap();
    assert!(store.get_user_by_id(ALICE).is_none());
    assert!(store.get_post(POST).is_none());
    assert!(store.get_post_comments(POST).is_empty());
    assert!(store.get_comment(COMMENT).is_none());
    assert!(store.get_comment(COMMENT2).is_none());
    assert!(store.get_post(POST2).is_some());
    assert!(store.get_post_comments(POST2).is_empty());
    assert_eq!(store.get_posts().len(), 1);
}

#[test]
fn delete_missing_rows_is_not_found() {
    let mut store = store_with_users();
    assert_eq!(store.delete_user(POST), Err(BlogError::NotFound));
    assert_eq!(store.delete_post(POST), Err(BlogError::NotFound));
    assert_eq!(store.delete_comment(COMMENT), Err(BlogError::NotFound));
    assert_eq!(
        store.update_post(POST, "t".to_string(), "c".to_string(), 5).unwrap_err(),
        BlogError::NotFound
    );
    assert_eq!(store.update_comment(COMMENT, "c".to_string(), 5).unwrap_err(), BlogError::NotFound);
}

#[test]
fn duplicate_username_in_store_keeps_first_user() {
    let mut store = store_with_users();
    let err = store.create_user(POST, "testuser".to_string(), "other".to_string(), 40).unwrap_err();
    assert_eq!(err, BlogError::DuplicateUsername);
    let first = store.get_user_by_username("testuser").unwrap();
    assert_eq!(first.id, ALICE);
    assert_eq!(first.password_hash, "hash-a");
    assert!(store.get_user_by_id(POST).is_none());
}

#[test]
fn key_collisions_are_infrastructure_errors() {
    let mut store = store_with_users();
    assert_eq!(
        store.create_user(ALICE, "someone".to_string(), "h".to_string(), 12).unwrap_err(),
        BlogError::Infrastructure
    );
    store.create_post(POST, "t".to_string(), "c".to_string(), ALICE, 20).unwrap();
    assert_eq!(
        store.create_post(POST, "t2".to_string(), "c2".to_string(), BOB, 21).unwrap_err(),
        BlogError::Infrastructure
    );
    store.create_comment(COMMENT, "c".to_string(), POST, BOB, 22).unwrap();
    assert_eq!(
        store.create_comment(COMMENT, "c".to_string(), POST, BOB, 23).unwrap_err(),
        BlogError::Infrastructure
    );
}

#[test]
fn references_must_exist() {
    let mut store = store_with_users();
    assert_eq!(
        store.create_post(POST, "t".to_string(), "c".to_string(), POST2, 20).unwrap_err(),
        BlogError::NotFound
    );
    assert_eq!(
        store.create_comment(COMMENT, "c".to_string(), POST, ALICE, 20).unwrap_err(),
        BlogError::NotFound
    );
    store.create_post(POST, "t".to_string(), "c".to_string(), ALICE, 20).unwrap();
    assert_eq!(
        store.create_comment(COMMENT, "c".to_string(), POST, POST2, 21).unwrap_err(),
        BlogError::NotFound
    );
}

#[test]
fn posts_list_newest_first_and_comments_oldest_first() {
    let mut store = store_with_users();
    store.create_post(POST, "first".to_string(), "1".to_string(), ALICE, 100).unwrap();
    store.create_post(POST2, "second".to_string(), "2".to_string(), BOB, 200).unwrap();
    let posts = store.get_posts();
    assert_eq!(posts.len(), 2);
    assert_eq!(posts[0].title, "second");
    assert_eq!(posts[1].title, "first");

    store.create_comment(COMMENT, "older".to_string(), POST, BOB, 300).unwrap();
    store.create_comment(COMMENT2, "newer".to_string(), POST, ALICE, 400).unwrap();
    let comments = store.get_post_comments(POST);
    assert_eq!(comments.len(), 2);
    assert_eq!(comments[0].content, "older");
    assert_eq!(comments[1].content, "newer");
    assert!(store.get_post_comments(POST2).is_empty());
}

#[test]
fn clock_never_runs_backwards() {
    let mut store = store_with_users();
    let a = store.create_post(POST, "a".to_string(), "a".to_string(), ALICE, 500).unwrap();
    let b = store.create_post(POST2, "b".to_string(), "b".to_string(), ALICE, 50).unwrap();
    assert_eq!(a.created_at, 500);
    assert_eq!(b.created_at, 500);
    assert_eq!(store.get_posts()[0].title, "b");
}

#[test]
fn update_keeps_key_author_and_creation_time() {
    let mut store = store_with_users();
    store.create_post(POST, "t".to_string(), "c".to_string(), ALICE, 20).unwrap();
    let updated = store.update_post(POST, "t2".to_string(), "c2".to_string(), 90).unwrap();
    assert_eq!(updated.id, POST);
    assert_eq!(updated.author_id, ALICE);
    assert_eq!(updated.created_at, 20);
    assert_eq!(updated.updated_at, 90);
}

#[test]
fn rename_and_rehash_users() {
    let mut store = store_with_users();
    assert_eq!(
        store.update_username(ALICE, "commenter".to_string(), 30).unwrap_err(),
        BlogError::DuplicateUsername
    );
    assert_eq!(store.update_username(POST, "x".to_string(), 30).unwrap_err(), BlogError::NotFound);
    let same = store.update_username(ALICE, "testuser".to_string(), 30).unwrap();
    assert_eq!(same.username, "testuser");
    let renamed = store.update_username(ALICE, "alice".to_string(), 31).unwrap();
    assert_eq!(renamed.username, "alice");
    assert_eq!(renamed.created_at, 10);
    assert_eq!(renamed.updated_at, 31);
    assert!(store.get_user_by_username("testuser").is_none());
    assert_eq!(store.get_user_by_username("alice").unwrap().id, ALICE);

    let rehashed = store.update_password_hash(ALICE, "hash-new".to_string(), 32).unwrap();
    assert_eq!(rehashed.password_hash, "hash-new");
    assert_eq!(store.update_password_hash(POST, "h".to_string(), 33).unwrap_err(), BlogError::NotFound);
}

#[test]
fn empty_store_lists_nothing() {
    let store = BlogStore::new();
    assert!(store.get_posts().is_empty());
    assert!(store.get_post_comments(POST).is_empty());
    assert!(store.get_user_by_username("nobody").is_none());
}
