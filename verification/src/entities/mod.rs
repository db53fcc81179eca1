mod post;
mod role;
mod user;

pub use post::{Post, PostRow, PostStatus};
pub use post::{lemma_status_token_injective, lemma_status_round_trip, parse_status};
pub use post::{spec_status_of, spec_status_token};
pub use role::{Role, RoleRow};
pub use user::{User, UserRow};
