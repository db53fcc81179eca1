//! The user handlers. Creation hashes the password before the repository
//! ever sees it; identifier parse failures map to a client-error code and
//! every service failure, not-found included, maps to the generic
//! server-error code, with the failure's description under `errors`. The
//! per-outcome envelope functions fix each endpoint's codes and messages
//! in one place.

use vstd::prelude::*;

use super::envelope::{error_envelope, now_unix, spec_status_label, success_envelope, ApiEnvelope};
use crate::errors::{spec_repo_error_text, RepoError};
use crate::ident::{parse_id, parsed_id};
use crate::models::{CreateUser, UpdateUser, UserListResponse, UserResponse};
use crate::repositories::{
    contains_user, lookup_user, merge_user, remove_user, user_index, user_response_of, UserRowData,
};
use crate::services::ServiceContainer;

verus! {

/// Relies on bcrypt::hash with the default cost: a salted hash of the
/// password. The salt is drawn at random, so nothing is promised about
/// the result; on failure the error describes it.
#[verifier::external_body]
fn hash_password(password: &str) -> (r: Result<String, String>) {
    match bcrypt::hash(password, bcrypt::DEFAULT_COST) {
        Ok(h) => Ok(h),
        Err(e) => Err(e.to_string()),
    }
}

/// The envelope of a user creation outcome.
pub fn created_user_envelope(outcome: Result<UserResponse, String>, now: i64) -> (r: ApiEnvelope<
    UserResponse,
>)
    ensures
        match outcome {
            Ok(user) => {
                &&& r.code == 201
                &&& r.status@ == spec_status_label(201)
                &&& r.message@ == "User created successfully"@
                &&& (r.data matches Some(d) && d == user)
                &&& r.errors is None
                &&& r.timestamp == now
            },
            Err(e) => {
                &&& r.code == 500
                &&& r.status@ == spec_status_label(500)
                &&& r.message@ == "Failed to create user"@
                &&& r.data is None
                &&& (r.errors matches Some(x) && x == e)
                &&& r.timestamp == now
            },
        },
{
    match outcome {
        Ok(user) => success_envelope(201, "User created successfully", user, now),
        Err(e) => error_envelope(500, "Failed to create user", e, now),
    }
}

/// The envelope of the password hash failing before any store round trip.
pub fn hash_failure_envelope(errors: String, now: i64) -> (r: ApiEnvelope<UserResponse>)
    ensures
        r.code == 500,
        r.status@ == spec_status_label(500),
        r.message@ == "Failed to hash password"@,
        r.data is None,
        (r.errors matches Some(x) && x == errors),
        r.timestamp == now,
{
    error_envelope(500, "Failed to hash password", errors, now)
}

/// The envelope of a list-all-users outcome.
pub fn fetched_users_envelope(outcome: Result<UserListResponse, String>, now: i64) -> (r:
    ApiEnvelope<UserListResponse>)
    ensures
        match outcome {
            Ok(users) => {
                &&& r.code == 200
                &&& r.status@ == spec_status_label(200)
                &&& r.message@ == "Users fetched successfully"@
                &&& (r.data matches Some(d) && d == users)
                &&& r.errors is None
                &&& r.timestamp == now
            },
            Err(e) => {
                &&& r.code == 500
                &&& r.status@ == spec_status_label(500)
                &&& r.message@ == "Failed to fetch users"@
                &&& r.data is None
                &&& (r.errors matches Some(x) && x == e)
                &&& r.timestamp == now
            },
        },
{
    match outcome {
        Ok(users) => success_envelope(200, "Users fetched successfully", users, now),
        Err(e) => error_envelope(500, "Failed to fetch users", e, now),
    }
}

/// The envelope of a point-lookup outcome.
pub fn fetched_user_envelope(outcome: Result<UserResponse, String>, now: i64) -> (r: ApiEnvelope<
    UserResponse,
>)
    ensures
        match outcome {
            Ok(user) => {
                &&& r.code == 200
                &&& r.status@ == spec_status_label(200)
                &&& r.message@ == "User fetched successfully"@
                &&& (r.data matches Some(d) && d == user)
                &&& r.errors is None
                &&& r.timestamp == now
            },
            Err(e) => {
                &&& r.code == 500
                &&& r.status@ == spec_status_label(500)
                &&& r.message@ == "Failed to fetch user"@
                &&& r.data is None
                &&& (r.errors matches Some(x) && x == e)
                &&& r.timestamp == now
            },
        },
{
    match outcome {
        Ok(user) => success_envelope(200, "User fetched successfully", user, now),
        Err(e) => error_envelope(500, "Failed to fetch user", e, now),
    }
}

/// The envelope of a user update outcome.
pub fn updated_user_envelope(outcome: Result<UserResponse, String>, now: i64) -> (r: ApiEnvelope<
    UserResponse,
>)
    ensures
        match outcome {
            Ok(user) => {
                &&& r.code == 200
                &&& r.status@ == spec_status_label(200)
                &&& r.message@ == "User updated successfully"@
                &&& (r.data matches Some(d) && d == user)
                &&& r.errors is None
                &&& r.timestamp == now
            },
            Err(e) => {
                &&& r.code == 500
                &&& r.status@ == spec_status_label(500)
                &&& r.message@ == "Failed to update user"@
                &&& r.data is None
                &&& (r.errors matches Some(x) && x == e)
                &&& r.timestamp == now
            },
        },
{
    match outcome {
        Ok(user) => success_envelope(200, "User updated successfully", user, now),
        Err(e) => error_envelope(500, "Failed to update user", e, now),
    }
}

/// The envelope of a user deletion outcome: success carries an empty
/// payload under `data`.
pub fn deleted_user_envelope(outcome: Result<(), String>, now: i64) -> (r: ApiEnvelope<()>)
    ensures
        match outcome {
            Ok(_) => {
                &&& r.code == 200
                &&& r.status@ == spec_status_label(200)
                &&& r.message@ == "User deleted successfully"@
                &&& r.data is Some
                &&& r.errors is None
                &&& r.timestamp == now
            },
            Err(e) => {
                &&& r.code == 500
                &&& r.status@ == spec_status_label(500)
                &&& r.message@ == "Failed to delete user"@
                &&& r.data is None
                &&& (r.errors matches Some(x) && x == e)
                &&& r.timestamp == now
            },
        },
{
    match outcome {
        Ok(_) => success_envelope(200, "User deleted successfully", (), now),
        Err(e) => error_envelope(500, "Failed to delete user", e, now),
    }
}

/// The envelope of a malformed user identifier in the path, for routes
/// that answer with a user payload.
pub fn invalid_user_id_envelope(errors: String, now: i64) -> (r: ApiEnvelope<UserResponse>)
    ensures
        r.code == 400,
        r.status@ == spec_status_label(400),
        r.message@ == "Invalid user id"@,
        r.data is None,
        (r.errors matches Some(x) && x == errors),
        r.timestamp == now,
{
    error_envelope(400, "Invalid user id", errors, now)
}

/// The envelope of a malformed user identifier in the path, for the
/// deletion route's bare payload.
pub fn invalid_user_id_unit_envelope(errors: String, now: i64) -> (r: ApiEnvelope<()>)
    ensures
        r.code == 400,
        r.status@ == spec_status_label(400),
        r.message@ == "Invalid user id"@,
        r.data is None,
        (r.errors matches Some(x) && x == errors),
        r.timestamp == now,
{
    error_envelope(400, "Invalid user id", errors, now)
}

/// POST /api/user: hash the password, then create the user. The stored
/// row carries the hash, never the plaintext.
pub fn create_user(service: &mut ServiceContainer, payload: CreateUser) -> (r: ApiEnvelope<
    UserResponse,
>)
    requires
        old(service).wf(),
    ensures
        final(service).wf(),
        final(service).role_service@ == old(service).role_service@,
        final(service).post_service@ == old(service).post_service@,
        match r.data {
            Some(resp) => {
                &&& r.code == 201
                &&& r.status@ == spec_status_label(201)
                &&& r.message@ == "User created successfully"@
                &&& r.errors is None
                &&& resp.username@ == payload.username@
                &&& resp.email@ == payload.email@
                &&& resp.role_id@ == payload.role_id@
                &&& !contains_user(old(service).user_service@, resp.id@)
                &&& exists|h: Seq<char>|
                    final(service).user_service@ == old(service).user_service@.push(
                        UserRowData {
                            id: resp.id@,
                            username: payload.username@,
                            email: payload.email@,
                            password_hash: h,
                            role_id: payload.role_id@,
                        },
                    )
            },
            None => {
                &&& r.code == 500
                &&& r.status@ == spec_status_label(500)
                &&& (r.message@ == "Failed to hash password"@ || (r.message@
                    == "Failed to create user"@ && (r.errors matches Some(x) && x@
                    == spec_repo_error_text(RepoError::Conflict))))
                &&& r.errors is Some
                &&& final(service).user_service@ == old(service).user_service@
            },
        },
{
    let now = now_unix();
    let password_hash = match hash_password(payload.password.as_str()) {
        Ok(hash) => hash,
        Err(e) => {
            return hash_failure_envelope(e, now);
        },
    };
    match service.user_service.create(
        payload.username.as_str(),
        payload.email.as_str(),
        password_hash.as_str(),
        payload.role_id,
    ) {
        Ok(user) => {
            proof {
                assert(service.user_service@ == old(service).user_service@.push(
                    UserRowData {
                        id: user.id@,
                        username: payload.username@,
                        email: payload.email@,
                        password_hash: password_hash@,
                        role_id: payload.role_id@,
                    },
                ));
            }
            created_user_envelope(Ok(user), now)
        },
        Err(e) => created_user_envelope(Err(e.message()), now),
    }
}

/// GET /api/user: every user, without password hashes.
pub fn get_users(service: &ServiceContainer) -> (r: ApiEnvelope<UserListResponse>)
    ensures
        (r.data matches Some(list) && list@ == service.user_service@.map_values(
            |u: UserRowData| user_response_of(u),
        )),
        r.code == 200,
        r.status@ == spec_status_label(200),
        r.message@ == "Users fetched successfully"@,
        r.errors is None,
{
    let now = now_unix();
    match service.user_service.find_all() {
        Ok(users) => fetched_users_envelope(Ok(users), now),
        Err(e) => fetched_users_envelope(Err(e.message()), now),
    }
}

/// GET /api/user/:id: the user under a textual identifier.
pub fn get_user_by_id(service: &ServiceContainer, id: &str) -> (r: ApiEnvelope<UserResponse>)
    requires
        service.wf(),
    ensures
        match parsed_id(id@) {
            None => {
                &&& r.code == 400
                &&& r.status@ == spec_status_label(400)
                &&& r.message@ == "Invalid user id"@
                &&& r.data is None
                &&& r.errors is Some
            },
            Some(idb) => match r.data {
                Some(resp) => {
                    &&& r.code == 200
                    &&& r.status@ == spec_status_label(200)
                    &&& r.message@ == "User fetched successfully"@
                    &&& r.errors is None
                    &&& (lookup_user(service.user_service@, idb) matches Some(row) && resp@
                        == user_response_of(row))
                },
                None => {
                    &&& r.code == 500
                    &&& r.status@ == spec_status_label(500)
                    &&& r.message@ == "Failed to fetch user"@
                    &&& (r.errors matches Some(x) && x@ == spec_repo_error_text(
                        RepoError::NotFound,
                    ))
                    &&& !contains_user(service.user_service@, idb)
                },
            },
        },
{
    let now = now_unix();
    let user_id = match parse_id(id) {
        Ok(user_id) => user_id,
        Err(e) => {
            return invalid_user_id_envelope(e, now);
        },
    };
    match service.user_service.find_by_id(user_id) {
        Ok(user) => fetched_user_envelope(Ok(user), now),
        Err(e) => fetched_user_envelope(Err(e.message()), now),
    }
}

/// PUT /api/user/:id: update the user named by the body's own identifier;
/// the body carries full values, which merge as present fields.
pub fn update_user_by_id(service: &mut ServiceContainer, payload: UpdateUser) -> (r: ApiEnvelope<
    UserResponse,
>)
    requires
        old(service).wf(),
    ensures
        final(service).wf(),
        final(service).role_service@ == old(service).role_service@,
        final(service).post_service@ == old(service).post_service@,
        match r.data {
            Some(resp) => {
                &&& r.code == 200
                &&& r.status@ == spec_status_label(200)
                &&& r.message@ == "User updated successfully"@
                &&& r.errors is None
                &&& contains_user(old(service).user_service@, payload.id@)
                &&& resp@ == user_response_of(
                    merge_user(
                        old(service).user_service@[user_index(
                            old(service).user_service@,
                            payload.id@,
                        )],
                        Some(payload.username@),
                        Some(payload.email@),
                        Some(payload.role_id@),
                    ),
                )
                &&& final(service).user_service@ == old(service).user_service@.update(
                    user_index(old(service).user_service@, payload.id@),
                    merge_user(
                        old(service).user_service@[user_index(
                            old(service).user_service@,
                            payload.id@,
                        )],
                        Some(payload.username@),
                        Some(payload.email@),
                        Some(payload.role_id@),
                    ),
                )
            },
            None => {
                &&& r.code == 500
                &&& r.status@ == spec_status_label(500)
                &&& r.message@ == "Failed to update user"@
                &&& (r.errors matches Some(x) && x@ == spec_repo_error_text(RepoError::NotFound))
                &&& !contains_user(old(service).user_service@, payload.id@)
                &&& final(service).user_service@ == old(service).user_service@
            },
        },
{
    let now = now_unix();
    match service.user_service.update_by_id(
        payload.id,
        Some(payload.username),
        Some(payload.email),
        Some(payload.role_id),
    ) {
        Ok(user) => updated_user_envelope(Ok(user), now),
        Err(e) => updated_user_envelope(Err(e.message()), now),
    }
}

/// DELETE /api/user/:id: delete the user under a textual identifier. A
/// missing user surfaces as a server error, not a client one, with the
/// not-found description under `errors`.
pub fn delete_user_by_id(service: &mut ServiceContainer, id: &str) -> (r: ApiEnvelope<()>)
    requires
        old(service).wf(),
    ensures
        final(service).wf(),
        final(service).role_service@ == old(service).role_service@,
        final(service).post_service@ == old(service).post_service@,
        match parsed_id(id@) {
            None => {
                &&& r.code == 400
                &&& r.status@ == spec_status_label(400)
                &&& r.message@ == "Invalid user id"@
                &&& r.data is None
                &&& r.errors is Some
                &&& final(service).user_service@ == old(service).user_service@
            },
            Some(idb) => if contains_user(old(service).user_service@, idb) {
                &&& r.code == 200
                &&& r.status@ == spec_status_label(200)
                &&& r.message@ == "User deleted successfully"@
                &&& r.data is Some
                &&& r.errors is None
                &&& final(service).user_service@ == remove_user(old(service).user_service@, idb)
            } else {
                &&& r.code == 500
                &&& r.status@ == spec_status_label(500)
                &&& r.message@ == "Failed to delete user"@
                &&& r.data is None
                &&& (r.errors matches Some(x) && x@ == spec_repo_error_text(RepoError::NotFound))
                &&& final(service).user_service@ == old(service).user_service@
            },
        },
{
    let now = now_unix();
    let user_id = match parse_id(id) {
        Ok(user_id) => user_id,
        Err(e) => {
            return invalid_user_id_unit_envelope(e, now);
        },
    };
    match service.user_service.delete_by_id(user_id) {
        Ok(user) => deleted_user_envelope(Ok(user), now),
        Err(e) => deleted_user_envelope(Err(e.message()), now),
    }
}

} // verus!
