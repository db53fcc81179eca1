mod post;
mod role;
mod user;

pub use post::{
    contains_post, lemma_create_then_find_post, lemma_delete_then_find_post,
    lemma_posts_of_user_empty, lemma_remove_post, lemma_update_all_absent_post, lookup_post,
    merge_post, post_index, post_rows_wf, posts_of_user, remove_post, PostRepository,
};

pub use user::{
    contains_user, lemma_create_then_find_user, lemma_delete_then_find_user, lemma_remove_user,
    lemma_update_all_absent_user, lookup_user, merge_user, remove_user, user_index,
    user_response_of, user_rows_wf, UserRepository, UserRowData,
};

pub use role::{
    contains_role, lemma_create_then_find_role, lemma_delete_then_find_role, lemma_remove_role,
    lemma_update_all_absent_role, lookup_role, merge_role, remove_role, role_index, role_rows_wf,
    RoleRepository,
};

use vstd::prelude::*;

use crate::models::{PostData, RoleData};

verus! {

/// The three repositories, wired together at composition time.
pub struct RepositoryContainer {
    pub role_repository: RoleRepository,
    pub user_repository: UserRepository,
    pub post_repository: PostRepository,
}

impl RepositoryContainer {
    /// A container whose repositories all start over an empty store.
    pub fn new() -> (r: RepositoryContainer)
        ensures
            r.role_repository@ == Seq::<RoleData>::empty(),
            r.user_repository@ == Seq::<UserRowData>::empty(),
            r.post_repository@ == Seq::<PostData>::empty(),
            r.role_repository.wf(),
            r.user_repository.wf(),
            r.post_repository.wf(),
    {
        RepositoryContainer {
            role_repository: RoleRepository::new(),
            user_repository: UserRepository::new(),
            post_repository: PostRepository::new(),
        }
    }
}

} // verus!
