//! The role service: a pass-through delegation layer over the role
//! repository, the intended home for business rules if any are ever added.
//! Every operation keeps its repository's contract verbatim.

use vstd::prelude::*;

use crate::errors::RepoError;
use crate::ident::EntityId;
use crate::models::{opt_string_view, RoleData, RoleListResponse, RoleResponse};
use crate::repositories::{
    contains_role, lookup_role, merge_role, remove_role, role_index, role_rows_wf, RoleRepository,
};

verus! {

/// A thin façade over the role repository.
pub struct RoleService {
    role_repo: RoleRepository,
}

impl View for RoleService {
    type V = Seq<RoleData>;

    closed spec fn view(&self) -> Seq<RoleData> {
        self.role_repo@
    }
}

impl RoleService {
    pub open spec fn wf(&self) -> bool {
        role_rows_wf(self@)
    }

    pub fn new(role_repo: RoleRepository) -> (r: RoleService)
        ensures
            r@ == role_repo@,
    {
        Self { role_repo }
    }

    /// Delegates to the repository's find-all.
    pub fn find_all(&self) -> (r: Result<RoleListResponse, RepoError>)
        ensures
            r matches Ok(list) && list@ == self@,
    {
        self.role_repo.find_all()
    }

    /// Delegates to the repository's create.
    pub fn create(&mut self, role_name: &str, description: &str) -> (r: Result<
        RoleResponse,
        RepoError,
    >)
        requires
            old(self).wf(),
        ensures
            final(self).wf(),
            match r {
                Ok(resp) => {
                    &&& !contains_role(old(self)@, resp.id@)
                    &&& resp.role_name@ == role_name@
                    &&& (resp.description matches Some(d) && d@ == description@)
                    &&& final(self)@ == old(self)@.push(resp@)
                },
                Err(e) => e == RepoError::Conflict && final(self)@ == old(self)@,
            },
    {
        self.role_repo.create(role_name, description)
    }

    /// Delegates to the repository's point lookup.
    pub fn find_by_id(&self, id: EntityId) -> (r: Result<RoleResponse, RepoError>)
        requires
            self.wf(),
        ensures
            match r {
                Ok(resp) => lookup_role(self@, id@) == Some(resp@),
                Err(e) => e == RepoError::NotFound && !contains_role(self@, id@),
            },
            r is Ok <==> contains_role(self@, id@),
    {
        self.role_repo.find_by_id(id)
    }

    /// Delegates to the repository's merge-update.
    pub fn update_by_id(&mut self, id: EntityId, role_name: Option<String>, description: Option<
        String,
    >) -> (r: Result<RoleResponse, RepoError>)
        requires
            old(self).wf(),
        ensures
            final(self).wf(),
            match r {
                Ok(resp) => {
                    &&& contains_role(old(self)@, id@)
                    &&& resp@ == merge_role(
                        old(self)@[role_index(old(self)@, id@)],
                        opt_string_view(role_name),
                        opt_string_view(description),
                    )
                    &&& final(self)@ == old(self)@.update(role_index(old(self)@, id@), resp@)
                },
                Err(e) => e == RepoError::NotFound && !contains_role(old(self)@, id@)
                    && final(self)@ == old(self)@,
            },
            r is Ok <==> contains_role(old(self)@, id@),
    {
        self.role_repo.update(id, role_name, description)
    }

    /// Delegates to the repository's delete.
    pub fn delete_by_id(&mut self, id: EntityId) -> (r: Result<(), RepoError>)
        requires
            old(self).wf(),
        ensures
            final(self).wf(),
            r is Ok,
            final(self)@ == remove_role(old(self)@, id@),
    {
        self.role_repo.delete(id)
    }
}

} // verus!
