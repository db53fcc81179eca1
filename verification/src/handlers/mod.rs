mod envelope;
mod health;
mod post;
mod role;
mod user;

pub use envelope::{
    error_envelope, message_envelope, spec_status_label, success_envelope, ApiEnvelope,
};
pub use health::check_app_health;
pub use post::{
    create_post, delete_post_by_id, get_post_by_id, get_posts, get_posts_by_user_id,
    update_post_by_id,
};
pub use post::{
    created_post_envelope, deleted_post_envelope, fetched_post_envelope, fetched_posts_envelope,
    updated_post_envelope,
};
pub use role::{create_role, delete_role_by_id, get_role_by_id, get_roles, update_role_by_id};
pub use role::{
    created_role_envelope, deleted_role_envelope, fetched_role_envelope, fetched_roles_envelope,
    invalid_role_id_envelope, role_not_found_envelope, updated_role_envelope,
};
pub use user::{create_user, delete_user_by_id, get_user_by_id, get_users, update_user_by_id};
pub use user::{
    created_user_envelope, deleted_user_envelope, fetched_user_envelope, fetched_users_envelope,
    hash_failure_envelope, invalid_user_id_envelope, invalid_user_id_unit_envelope,
    updated_user_envelope,
};
