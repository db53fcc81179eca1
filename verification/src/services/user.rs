//! The user service: a pass-through delegation layer over the user
//! repository. Every operation keeps its repository's contract verbatim,
//! including the existence check that `update_by_id` and `delete_by_id`
//! inherit.

use vstd::prelude::*;

use crate::errors::RepoError;
use crate::ident::EntityId;
use crate::models::{opt_id_view, opt_string_view, UserListResponse, UserResponse};
use crate::repositories::{
    contains_user, lookup_user, merge_user, remove_user, user_index, user_response_of,
    user_rows_wf, UserRepository, UserRowData,
};

verus! {

/// A thin façade over the user repository.
pub struct UserService {
    user_repo: UserRepository,
}

impl View for UserService {
    type V = Seq<UserRowData>;

    closed spec fn view(&self) -> Seq<UserRowData> {
        self.user_repo@
    }
}

impl UserService {
    pub open spec fn wf(&self) -> bool {
        user_rows_wf(self@)
    }

    pub fn new(user_repo: UserRepository) -> (r: UserService)
        ensures
            r@ == user_repo@,
    {
        Self { user_repo }
    }

    /// Delegates to the repository's find-all.
    pub fn find_all(&self) -> (r: Result<UserListResponse, RepoError>)
        ensures
            r matches Ok(list) && list@ == self@.map_values(|u: UserRowData| user_response_of(u)),
    {
        self.user_repo.find_all()
    }

    /// Delegates to the repository's create; the received password is
    /// already hashed.
    pub fn create(&mut self, username: &str, email: &str, password_hash: &str, role_id: EntityId)
        -> (r: Result<UserResponse, RepoError>)
        requires
            old(self).wf(),
        ensures
            final(self).wf(),
            match r {
                Ok(resp) => {
                    &&& !contains_user(old(self)@, resp.id@)
                    &&& resp.username@ == username@
                    &&& resp.email@ == email@
                    &&& resp.role_id@ == role_id@
                    &&& final(self)@ == old(self)@.push(
                        UserRowData {
                            id: resp.id@,
                            username: username@,
                            email: email@,
                            password_hash: password_hash@,
                            role_id: role_id@,
                        },
                    )
                },
                Err(e) => e == RepoError::Conflict && final(self)@ == old(self)@,
            },
    {
        self.user_repo.create(username, email, password_hash, role_id)
    }

    /// Delegates to the repository's point lookup.
    pub fn find_by_id(&self, id: EntityId) -> (r: Result<UserResponse, RepoError>)
        requires
            self.wf(),
        ensures
            match r {
                Ok(resp) => contains_user(self@, id@) && (lookup_user(self@, id@) matches Some(row)
                    && resp@ == user_response_of(row)),
                Err(e) => e == RepoError::NotFound && !contains_user(self@, id@),
            },
            r is Ok <==> contains_user(self@, id@),
    {
        self.user_repo.find_by_id(id)
    }

    /// Delegates to the repository's checked merge-update.
    pub fn update_by_id(
        &mut self,
        id: EntityId,
        username: Option<String>,
        email: Option<String>,
        role_id: Option<EntityId>,
    ) -> (r: Result<UserResponse, RepoError>)
        requires
            old(self).wf(),
        ensures
            final(self).wf(),
            match r {
                Ok(resp) => {
                    &&& contains_user(old(self)@, id@)
                    &&& resp@ == user_response_of(
                        merge_user(
                            old(self)@[user_index(old(self)@, id@)],
                            opt_string_view(username),
                            opt_string_view(email),
                            opt_id_view(role_id),
                        ),
                    )
                    &&& final(self)@ == old(self)@.update(
                        user_index(old(self)@, id@),
                        merge_user(
                            old(self)@[user_index(old(self)@, id@)],
                            opt_string_view(username),
                            opt_string_view(email),
                            opt_id_view(role_id),
                        ),
                    )
                },
                Err(e) => e == RepoError::NotFound && !contains_user(old(self)@, id@)
                    && final(self)@ == old(self)@,
            },
            r is Ok <==> contains_user(old(self)@, id@),
    {
        self.user_repo.update(id, username, email, role_id)
    }

    /// Delegates to the repository's checked delete.
    pub fn delete_by_id(&mut self, id: EntityId) -> (r: Result<(), RepoError>)
        requires
            old(self).wf(),
        ensures
            final(self).wf(),
            match r {
                Ok(_) => contains_user(old(self)@, id@) && final(self)@ == remove_user(
                    old(self)@,
                    id@,
                ),
                Err(e) => e == RepoError::NotFound && !contains_user(old(self)@, id@)
                    && final(self)@ == old(self)@,
            },
            r is Ok <==> contains_user(old(self)@, id@),
    {
        self.user_repo.delete(id)
    }
}

} // verus!
