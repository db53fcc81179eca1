//! Row decoding: every read path must reconstruct a typed entity from raw
//! column values or reject the row as corrupt.

use blog_cms::entities::{Post, PostRow, PostStatus, Role, RoleRow, User, UserRow};
use blog_cms::errors::DecodeError;

fn role_row(id: Vec<u8>) -> RoleRow {
    RoleRow {
        id,
        role_name: "admin".to_owned(),
        description: Some("full access".to_owned()),
        created_at: 1_700_000_000,
        updated_at: 1_700_000_001,
    }
}

#[test]
fn role_from_row_decodes() {
    let role = Role::from_row(role_row(vec![3u8; 16])).expect("valid row decodes");
    assert_eq!(role.id.encode(), vec![3u8; 16]);
    assert_eq!(role.role_name, "admin");
    assert_eq!(role.description.as_deref(), Some("full access"));
    assert_eq!(role.created_at, 1_700_000_000);
    assert_eq!(role.updated_at, 1_700_000_001);
}

#[test]
fn role_from_row_rejects_bad_id() {
    assert!(matches!(
        Role::from_row(role_row(vec![3u8; 5])),
        Err(DecodeError::InvalidIdBytes)
    ));
}

fn user_row(id: Vec<u8>, role_id: Vec<u8>) -> UserRow {
    UserRow {
        id,
        username: "alice".to_owned(),
        email: "alice@example.com".to_owned(),
        password_hash: "$2b$12$abcdefghijklmnopqrstuv".to_owned(),
        role_id,
        created_at: 5,
        updated_at: 6,
    }
}

#[test]
fn user_from_row_decodes() {
    let user = User::from_row(user_row(vec![1u8; 16], vec![2u8; 16])).expect("valid row decodes");
    assert_eq!(user.id.encode(), vec![1u8; 16]);
    assert_eq!(user.role_id.encode(), vec![2u8; 16]);
    assert_eq!(user.username, "alice");
    assert_eq!(user.email, "alice@example.com");
    assert_eq!(user.password_hash, "$2b$12$abcdefghijklmnopqrstuv");
}

#[test]
fn user_from_row_rejects_bad_role_reference() {
    assert!(matches!(
        User::from_row(user_row(vec![1u8; 16], vec![2u8; 3])),
        Err(DecodeError::InvalidIdBytes)
    ));
}

fn post_row(id: Vec<u8>, user_id: Vec<u8>, status: &str) -> PostRow {
    PostRow {
        id,
        title: "hello".to_owned(),
        content: "world".to_owned(),
        user_id,
        status: status.to_owned(),
        published_at: None,
        created_at: 7,
        updated_at: 8,
    }
}

#[test]
fn post_from_row_decodes_status_token() {
    let post =
        Post::from_row(post_row(vec![4u8; 16], vec![5u8; 16], "published")).expect("valid row");
    assert_eq!(post.status, PostStatus::Published);
    assert_eq!(post.title, "hello");
    assert_eq!(post.content, "world");
    assert_eq!(post.published_at, None);
}

#[test]
fn post_from_row_rejects_unknown_status() {
    assert!(matches!(
        Post::from_row(post_row(vec![4u8; 16], vec![5u8; 16], "removed")),
        Err(DecodeError::UnknownStatusToken)
    ));
}

#[test]
fn post_from_row_rejects_bad_ids() {
    assert!(matches!(
        Post::from_row(post_row(vec![4u8; 2], vec![5u8; 16], "draft")),
        Err(DecodeError::InvalidIdBytes)
    ));
    assert!(matches!(
        Post::from_row(post_row(vec![4u8; 16], vec![5u8; 20], "draft")),
        Err(DecodeError::InvalidIdBytes)
    ));
}
