mod post;
mod roles;
mod user;

pub use post::PostService;
pub use roles::RoleService;
pub use user::UserService;

use vstd::prelude::*;

use crate::repositories::RepositoryContainer;

verus! {

/// The three services, one per entity, wired over the repository
/// container at composition time.
pub struct ServiceContainer {
    pub role_service: RoleService,
    pub user_service: UserService,
    pub post_service: PostService,
}

impl ServiceContainer {
    pub open spec fn wf(&self) -> bool {
        &&& self.role_service.wf()
        &&& self.user_service.wf()
        &&& self.post_service.wf()
    }

    /// Wire each service to its repository.
    pub fn new(repository_container: RepositoryContainer) -> (r: ServiceContainer)
        ensures
            r.role_service@ == repository_container.role_repository@,
            r.user_service@ == repository_container.user_repository@,
            r.post_service@ == repository_container.post_repository@,
    {
        ServiceContainer {
            role_service: RoleService::new(repository_container.role_repository),
            user_service: UserService::new(repository_container.user_repository),
            post_service: PostService::new(repository_container.post_repository),
        }
    }
}

} // verus!
