use rust_blog::blog_db::{validate_image_url, BlogDb, Post};
use rust_blog::error::BlogError;

#[test]
fn test_post_id_autoincrement() {
    let mut db = BlogDb::new_temporary().unwrap();
    let post1 = Post::new("First Post", "Content", "https://example.com/1.jpg");
    let id1 = db.create_post(&post1).unwrap();
    let post2 = Post::new("Second Post", "Content", "https://example.com/2.jpg");
    let id2 = db.create_post(&post2).unwrap();
    db.delete_post(id1).unwrap();
    let post3 = Post::new("Third Post", "Content", "https://example.com/3.jpg");
    let id3 = db.create_post(&post3).unwrap();
    assert_eq!(id1, 1);
    assert_eq!(id2, 2);
    assert_eq!(id3, 3);
}

#[test]
fn gallery_lists_highest_key_first() {
    let mut db = BlogDb::new_temporary().unwrap();
    assert!(db.list_posts().unwrap().is_empty());
    db.create_post(&Post::new("First Post", "Content of first post", "https://example.com/image1.jpg")).unwrap();
    db.create_post(&Post::new("Second Post", "Content of second post", "https://example.com/image2.jpg"))
        .unwrap();
    let posts = db.list_posts().unwrap();
    assert_eq!(posts.len(), 2);
    assert_eq!(posts[0].title, "Second Post");
    assert_eq!(posts[0].id, Some(2));
    assert_eq!(posts[1].title, "First Post");
    assert_eq!(posts[1].body, "Content of first post");
    assert_eq!(posts[1].image_url, "https://example.com/image1.jpg");
}

#[test]
fn gallery_get_update_delete() {
    let mut db = BlogDb::new_temporary().unwrap();
    let id = db
        .create_post(&Post::new("Test Post", "This is the post content.\nIt has multiple lines.", "https://example.com/image.jpg"))
        .unwrap();
    let post = db.get_post(id).unwrap();
    assert_eq!(post.id, Some(id));
    assert_eq!(post.body, "This is the post content.\nIt has multiple lines.");

    db.update_post(id, &Post::new("Updated Title", "Updated Content", "https://example.com/new.jpg")).unwrap();
    let post = db.get_post(id).unwrap();
    assert_eq!(post.title, "Updated Title");
    assert_eq!(post.body, "Updated Content");
    assert_eq!(post.image_url, "https://example.com/new.jpg");

    db.delete_post(id).unwrap();
    assert_eq!(db.get_post(id).unwrap_err(), BlogError::NotFound);
}

#[test]
fn gallery_missing_rows_are_not_found() {
    let mut db = BlogDb::new_temporary().unwrap();
    assert_eq!(db.get_post(999).unwrap_err(), BlogError::NotFound);
    assert_eq!(db.delete_post(999), Err(BlogError::NotFound));
    assert_eq!(db.update_post(999, &Post::new("t", "b", "https://e.com/x.jpg")), Err(BlogError::NotFound));
}

#[test]
fn image_urls_must_be_http() {
    assert_eq!(validate_image_url(&Post::new("Test Post", "Test content", "not-a-url")), Err(BlogError::ValidationFailed));
    assert_eq!(validate_image_url(&Post::new("t", "b", "invalid-url")), Err(BlogError::ValidationFailed));
    assert_eq!(validate_image_url(&Post::new("t", "b", "http:/")), Err(BlogError::ValidationFailed));
    assert_eq!(validate_image_url(&Post::new("t", "b", "")), Err(BlogError::ValidationFailed));
    assert_eq!(validate_image_url(&Post::new("t", "b", "ftp://example.com/a.jpg")), Err(BlogError::ValidationFailed));
    assert_eq!(validate_image_url(&Post::new("t", "b", "http://")), Ok(()));
    assert_eq!(validate_image_url(&Post::new("t", "b", "https://example.com/test.jpg")), Ok(()));
}
