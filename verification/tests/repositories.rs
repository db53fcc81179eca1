//! Repository behavior: create/find round trips, partial-update merging,
//! delete semantics, and the user repository's existence checks.

use blog_cms::entities::PostStatus;
use blog_cms::errors::RepoError;
use blog_cms::ident::EntityId;
use blog_cms::repositories::{PostRepository, RoleRepository, UserRepository};

fn id_from(byte: u8) -> EntityId {
    EntityId::decode(&vec![byte; 16]).expect("16 bytes decode")
}

#[test]
fn role_create_then_find_returns_supplied_fields() {
    let mut repo = RoleRepository::new();
    let created = repo.create("admin", "full access").expect("create on empty store");
    let found = repo.find_by_id(created.id).expect("created role is found");
    assert_eq!(found.role_name, "admin");
    assert_eq!(found.description.as_deref(), Some("full access"));
    assert!(found.id == created.id);
}

#[test]
fn role_update_with_all_fields_absent_is_noop() {
    let mut repo = RoleRepository::new();
    let created = repo.create("admin", "full access").expect("create");
    let updated = repo.update(created.id, None, None).expect("update existing");
    assert_eq!(updated.role_name, "admin");
    assert_eq!(updated.description.as_deref(), Some("full access"));
    let found = repo.find_by_id(created.id).expect("still present");
    assert_eq!(found.role_name, "admin");
    assert_eq!(found.description.as_deref(), Some("full access"));
}

#[test]
fn role_update_merges_present_fields() {
    let mut repo = RoleRepository::new();
    let created = repo.create("admin", "full access").expect("create");
    let updated = repo
        .update(created.id, Some("editor".to_owned()), None)
        .expect("update existing");
    assert_eq!(updated.role_name, "editor");
    assert_eq!(updated.description.as_deref(), Some("full access"));
}

#[test]
fn role_update_missing_is_not_found() {
    let mut repo = RoleRepository::new();
    assert!(matches!(
        repo.update(id_from(9), Some("editor".to_owned()), None),
        Err(RepoError::NotFound)
    ));
}

#[test]
fn role_delete_then_find_is_not_found() {
    let mut repo = RoleRepository::new();
    let created = repo.create("admin", "full access").expect("create");
    repo.delete(created.id).expect("delete always succeeds");
    assert!(matches!(repo.find_by_id(created.id), Err(RepoError::NotFound)));
}

#[test]
fn role_delete_missing_is_silent_noop() {
    let mut repo = RoleRepository::new();
    repo.create("admin", "full access").expect("create");
    repo.delete(id_from(9)).expect("deleting a missing id succeeds");
    let all = repo.find_all().expect("find_all");
    assert_eq!(all.roles.len(), 1);
}

#[test]
fn role_find_all_empty_store() {
    let repo = RoleRepository::new();
    let all = repo.find_all().expect("find_all on empty store");
    assert!(all.roles.is_empty());
}

#[test]
fn user_create_then_find_returns_supplied_fields() {
    let mut repo = UserRepository::new();
    let role_id = id_from(1);
    let created = repo
        .create("alice", "alice@example.com", "hashed-secret", role_id)
        .expect("create");
    let found = repo.find_by_id(created.id).expect("created user is found");
    assert_eq!(found.username, "alice");
    assert_eq!(found.email, "alice@example.com");
    assert!(found.role_id == role_id);
}

#[test]
fn user_update_merges_and_checks_existence() {
    let mut repo = UserRepository::new();
    let created = repo
        .create("alice", "alice@example.com", "hashed-secret", id_from(1))
        .expect("create");
    let updated = repo
        .update(created.id, None, Some("new@example.com".to_owned()), None)
        .expect("update existing");
    assert_eq!(updated.username, "alice");
    assert_eq!(updated.email, "new@example.com");
    assert!(updated.role_id == id_from(1));
    assert!(matches!(
        repo.update(id_from(9), None, None, None),
        Err(RepoError::NotFound)
    ));
}

#[test]
fn user_delete_missing_is_not_found() {
    let mut repo = UserRepository::new();
    assert_eq!(repo.delete(id_from(9)), Err(RepoError::NotFound));
}

#[test]
fn user_delete_then_find_is_not_found() {
    let mut repo = UserRepository::new();
    let created = repo
        .create("alice", "alice@example.com", "hashed-secret", id_from(1))
        .expect("create");
    repo.delete(created.id).expect("delete existing");
    assert!(matches!(repo.find_by_id(created.id), Err(RepoError::NotFound)));
}

#[test]
fn post_create_draft_without_publish_date() {
    let mut repo = PostRepository::new();
    let user_id = id_from(2);
    let created = repo
        .create(
            "hello".to_owned(),
            "world".to_owned(),
            PostStatus::Draft,
            None,
            user_id,
        )
        .expect("create");
    assert_eq!(created.status, PostStatus::Draft);
    assert_eq!(created.status.to_str(), "draft");
    let found = repo.find_by_id(created.id).expect("created post is found");
    assert_eq!(found.status, PostStatus::Draft);
    assert_eq!(found.published_at, None);
    assert_eq!(found.title, "hello");
}

#[test]
fn post_find_by_user_id_empty_is_ok() {
    let mut repo = PostRepository::new();
    repo.create(
        "hello".to_owned(),
        "world".to_owned(),
        PostStatus::Draft,
        None,
        id_from(2),
    )
    .expect("create");
    let other = repo.find_by_user_id(id_from(9)).expect("no posts is not an error");
    assert!(other.posts.is_empty());
    let mine = repo.find_by_user_id(id_from(2)).expect("owner's posts");
    assert_eq!(mine.posts.len(), 1);
}

#[test]
fn post_update_keeps_absent_optional_fields() {
    let mut repo = PostRepository::new();
    let user_id = id_from(2);
    let created = repo
        .create(
            "hello".to_owned(),
            "world".to_owned(),
            PostStatus::Draft,
            Some(1_700_000_000),
            user_id,
        )
        .expect("create");
    let updated = repo
        .update(
            created.id,
            None,
            Some("updated body".to_owned()),
            Some(PostStatus::Published),
            None,
            Some(user_id),
        )
        .expect("update existing");
    assert_eq!(updated.title, "hello");
    assert_eq!(updated.content, "updated body");
    assert_eq!(updated.status, PostStatus::Published);
    assert_eq!(updated.published_at, Some(1_700_000_000));
    assert!(updated.user_id == user_id);
}

#[test]
fn post_delete_missing_is_silent_noop() {
    let mut repo = PostRepository::new();
    repo.delete(id_from(9)).expect("deleting a missing id succeeds");
    let all = repo.find_all().expect("find_all");
    assert!(all.posts.is_empty());
}

#[test]
fn role_create_with_taken_id_is_conflict() {
    let mut repo = RoleRepository::new();
    let id = id_from(4);
    repo.create_with_id(id, "admin", "full access").expect("first insert");
    assert!(matches!(
        repo.create_with_id(id, "other", ""),
        Err(RepoError::Conflict)
    ));
}
