//! Handler scenarios: envelope shapes, the client-error mapping for
//! malformed identifiers, and the server-error mapping for everything
//! else, not-found included.

use blog_cms::entities::PostStatus;
use blog_cms::handlers::{
    check_app_health, create_post, create_role, create_user, delete_post_by_id,
    delete_role_by_id, delete_user_by_id, get_post_by_id, get_posts_by_user_id, get_role_by_id, get_roles,
    get_user_by_id, get_users, update_post_by_id, update_role_by_id, update_user_by_id,
};
use blog_cms::ident::EntityId;
use blog_cms::models::{CreatePost, CreateRole, CreateUser, UpdatePost, UpdateRole, UpdateUser};
use blog_cms::repositories::RepositoryContainer;
use blog_cms::services::ServiceContainer;

fn fresh_services() -> ServiceContainer {
    ServiceContainer::new(RepositoryContainer::new())
}

fn uuid_string_of(id: &EntityId) -> String {
    uuid::Uuid::from_slice(&id.encode()).expect("16 bytes").to_string()
}

fn id_from(byte: u8) -> EntityId {
    EntityId::decode(&vec![byte; 16]).expect("16 bytes decode")
}

#[test]
fn health_envelope_is_static() {
    let r = check_app_health();
    assert_eq!(r.code, 200);
    assert_eq!(r.status, "200 OK");
    assert_eq!(r.message, "App is running!");
    assert!(r.data.is_none());
    assert!(r.errors.is_none());
}

#[test]
fn create_role_then_get_by_id_round_trip() {
    let mut services = fresh_services();
    let created = create_role(
        &mut services,
        CreateRole { role_name: "admin".to_owned(), description: Some("full access".to_owned()) },
    );
    assert_eq!(created.code, 201);
    assert_eq!(created.status, "201 Created");
    assert_eq!(created.message, "Role created successfully");
    let role = created.data.expect("created role in data");
    assert_eq!(role.role_name, "admin");
    assert_eq!(role.description.as_deref(), Some("full access"));

    let fetched = get_role_by_id(&services, &uuid_string_of(&role.id));
    assert_eq!(fetched.code, 200);
    let fetched_role = fetched.data.expect("fetched role in data");
    assert_eq!(fetched_role.role_name, "admin");
    assert_eq!(fetched_role.description.as_deref(), Some("full access"));
}

#[test]
fn create_role_without_description_stores_empty_string() {
    let mut services = fresh_services();
    let created = create_role(
        &mut services,
        CreateRole { role_name: "viewer".to_owned(), description: None },
    );
    let role = created.data.expect("created role in data");
    assert_eq!(role.description.as_deref(), Some(""));
}

#[test]
fn get_role_with_malformed_id_is_client_error() {
    let services = fresh_services();
    let r = get_role_by_id(&services, "not-a-uuid");
    assert_eq!(r.code, 400);
    assert_eq!(r.status, "400 Bad Request");
    assert_eq!(r.message, "Invalid role id");
    assert!(r.data.is_none());
    assert!(r.errors.is_some());
}

#[test]
fn get_missing_role_is_server_error() {
    let services = fresh_services();
    let r = get_role_by_id(&services, &uuid_string_of(&id_from(9)));
    assert_eq!(r.code, 500);
    assert_eq!(r.status, "500 Internal Server Error");
    assert_eq!(r.message, "Failed to get role");
    assert_eq!(
        r.errors.as_deref(),
        Some("no rows returned by a query that expected to return at least one row")
    );
}

#[test]
fn update_role_merges_against_stored_values() {
    let mut services = fresh_services();
    let created = create_role(
        &mut services,
        CreateRole { role_name: "admin".to_owned(), description: Some("full access".to_owned()) },
    );
    let role = created.data.expect("created role");
    let updated = update_role_by_id(
        &mut services,
        &uuid_string_of(&role.id),
        UpdateRole { id: role.id, role_name: Some("editor".to_owned()), description: None },
    );
    assert_eq!(updated.code, 200);
    let updated_role = updated.data.expect("updated role");
    assert_eq!(updated_role.role_name, "editor");
    assert_eq!(updated_role.description.as_deref(), Some("full access"));
}

#[test]
fn delete_role_returns_deleted_value_then_get_fails() {
    let mut services = fresh_services();
    let created = create_role(
        &mut services,
        CreateRole { role_name: "admin".to_owned(), description: None },
    );
    let role = created.data.expect("created role");
    let id_text = uuid_string_of(&role.id);
    let deleted = delete_role_by_id(&mut services, &id_text);
    assert_eq!(deleted.code, 200);
    assert_eq!(deleted.message, "Role deleted successfully");
    assert_eq!(deleted.data.expect("deleted role in data").role_name, "admin");
    let gone = get_role_by_id(&services, &id_text);
    assert_eq!(gone.code, 500);
}

#[test]
fn get_roles_lists_all() {
    let mut services = fresh_services();
    create_role(&mut services, CreateRole { role_name: "a".to_owned(), description: None });
    create_role(&mut services, CreateRole { role_name: "b".to_owned(), description: None });
    let r = get_roles(&services);
    assert_eq!(r.code, 200);
    assert_eq!(r.data.expect("list in data").roles.len(), 2);
}

#[test]
fn create_user_hashes_password() {
    let mut services = fresh_services();
    let created = create_user(
        &mut services,
        CreateUser {
            username: "alice".to_owned(),
            email: "alice@example.com".to_owned(),
            password: "hunter2".to_owned(),
            role_id: id_from(1),
        },
    );
    assert_eq!(created.code, 201);
    assert_eq!(created.message, "User created successfully");
    let user = created.data.expect("created user in data");
    assert_eq!(user.username, "alice");
    assert_eq!(user.email, "alice@example.com");

    let fetched = get_user_by_id(&services, &uuid_string_of(&user.id));
    assert_eq!(fetched.code, 200);
    assert_eq!(fetched.data.expect("fetched user").username, "alice");
}

#[test]
fn get_user_with_malformed_id_is_client_error() {
    let services = fresh_services();
    let r = get_user_by_id(&services, "not-a-uuid");
    assert_eq!(r.code, 400);
    assert_eq!(r.status, "400 Bad Request");
    assert_eq!(r.message, "Invalid user id");
    assert!(r.data.is_none());
    let errors = r.errors.expect("errors describe the parse failure");
    assert!(!errors.is_empty());
}

#[test]
fn get_users_lists_all() {
    let mut services = fresh_services();
    create_user(
        &mut services,
        CreateUser {
            username: "alice".to_owned(),
            email: "a@example.com".to_owned(),
            password: "pw-one".to_owned(),
            role_id: id_from(1),
        },
    );
    let r = get_users(&services);
    assert_eq!(r.code, 200);
    assert_eq!(r.data.expect("list in data").users.len(), 1);
}

#[test]
fn update_user_overwrites_all_carried_fields() {
    let mut services = fresh_services();
    let created = create_user(
        &mut services,
        CreateUser {
            username: "alice".to_owned(),
            email: "a@example.com".to_owned(),
            password: "pw-one".to_owned(),
            role_id: id_from(1),
        },
    );
    let user = created.data.expect("created user");
    let updated = update_user_by_id(
        &mut services,
        UpdateUser {
            id: user.id,
            username: "alice2".to_owned(),
            email: "a2@example.com".to_owned(),
            role_id: id_from(3),
        },
    );
    assert_eq!(updated.code, 200);
    let updated_user = updated.data.expect("updated user");
    assert_eq!(updated_user.username, "alice2");
    assert_eq!(updated_user.email, "a2@example.com");
    assert!(updated_user.role_id == id_from(3));
}

#[test]
fn delete_missing_user_surfaces_not_found_as_server_error() {
    let mut services = fresh_services();
    let repo_result = services.user_service.delete_by_id(id_from(9));
    assert_eq!(repo_result, Err(blog_cms::errors::RepoError::NotFound));

    let r = delete_user_by_id(&mut services, &uuid_string_of(&id_from(9)));
    assert_eq!(r.code, 500);
    assert_eq!(r.status, "500 Internal Server Error");
    assert_eq!(r.message, "Failed to delete user");
    assert_eq!(
        r.errors.as_deref(),
        Some("no rows returned by a query that expected to return at least one row")
    );
}

#[test]
fn delete_existing_user_succeeds() {
    let mut services = fresh_services();
    let created = create_user(
        &mut services,
        CreateUser {
            username: "alice".to_owned(),
            email: "a@example.com".to_owned(),
            password: "pw-one".to_owned(),
            role_id: id_from(1),
        },
    );
    let user = created.data.expect("created user");
    let r = delete_user_by_id(&mut services, &uuid_string_of(&user.id));
    assert_eq!(r.code, 200);
    assert_eq!(r.message, "User deleted successfully");
    let gone = get_user_by_id(&services, &uuid_string_of(&user.id));
    assert_eq!(gone.code, 500);
}

#[test]
fn create_draft_post_round_trip_keeps_status_and_null_publish_date() {
    let mut services = fresh_services();
    let created = create_post(
        &mut services,
        CreatePost {
            title: "hello".to_owned(),
            content: "world".to_owned(),
            status: PostStatus::Draft,
            published_at: None,
            user_id: id_from(2),
        },
    );
    assert_eq!(created.code, 201);
    let post = created.data.expect("created post in data");
    assert_eq!(post.status, PostStatus::Draft);
    assert_eq!(post.status.to_str(), "draft");
    assert_eq!(post.published_at, None);

    let fetched = get_post_by_id(&services, post.id);
    assert_eq!(fetched.code, 200);
    let fetched_post = fetched.data.expect("fetched post");
    assert_eq!(fetched_post.status, PostStatus::Draft);
    assert_eq!(fetched_post.published_at, None);
}

#[test]
fn update_post_requires_status_and_user_id_present() {
    let mut services = fresh_services();
    let created = create_post(
        &mut services,
        CreatePost {
            title: "hello".to_owned(),
            content: "world".to_owned(),
            status: PostStatus::Draft,
            published_at: None,
            user_id: id_from(2),
        },
    );
    let post = created.data.expect("created post");
    let updated = update_post_by_id(
        &mut services,
        UpdatePost {
            id: post.id,
            title: None,
            content: None,
            status: Some(PostStatus::Archived),
            published_at: None,
            user_id: Some(id_from(2)),
        },
    );
    assert_eq!(updated.code, 200);
    let updated_post = updated.data.expect("updated post");
    assert_eq!(updated_post.title, "hello");
    assert_eq!(updated_post.status, PostStatus::Archived);
}

#[test]
fn posts_of_user_without_posts_is_empty_list() {
    let mut services = fresh_services();
    create_post(
        &mut services,
        CreatePost {
            title: "hello".to_owned(),
            content: "world".to_owned(),
            status: PostStatus::Published,
            published_at: Some(1_700_000_000),
            user_id: id_from(2),
        },
    );
    let r = get_posts_by_user_id(&services, id_from(9));
    assert_eq!(r.code, 200);
    assert!(r.data.expect("list in data").posts.is_empty());
    assert!(r.errors.is_none());
}

#[test]
fn delete_post_reports_no_content_and_post_is_gone() {
    let mut services = fresh_services();
    let created = create_post(
        &mut services,
        CreatePost {
            title: "hello".to_owned(),
            content: "world".to_owned(),
            status: PostStatus::Draft,
            published_at: None,
            user_id: id_from(2),
        },
    );
    let post = created.data.expect("created post");
    let deleted = delete_post_by_id(&mut services, post.id);
    assert_eq!(deleted.code, 204);
    assert_eq!(deleted.status, "204 No Content");
    assert_eq!(deleted.message, "Post deleted successfully");
    assert!(deleted.data.is_none());
    assert!(deleted.errors.is_none());
    let gone = get_post_by_id(&services, post.id);
    assert_eq!(gone.code, 500);
    assert_eq!(gone.message, "Failed to retrieve post");
}
