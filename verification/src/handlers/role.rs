//! The role handlers: each parses its plain inputs, drives the role
//! service, and wraps the outcome in the uniform envelope. Identifier
//! parse failures map to a client-error code; every service failure,
//! not-found included, maps to the generic server-error code, with the
//! failure's description under `errors`. The per-outcome envelope
//! functions fix each endpoint's codes and messages in one place.

use vstd::prelude::*;

use super::envelope::{error_envelope, now_unix, spec_status_label, success_envelope, ApiEnvelope};
use crate::errors::{spec_repo_error_text, RepoError};
use crate::ident::{parse_id, parsed_id};
use crate::models::{opt_string_view, CreateRole, RoleListResponse, RoleResponse, UpdateRole};
use crate::repositories::{contains_role, lookup_role, merge_role, remove_role, role_index};
use crate::services::ServiceContainer;

verus! {

/// The envelope of a role creation outcome.
pub fn created_role_envelope(outcome: Result<RoleResponse, String>, now: i64) -> (r: ApiEnvelope<
    RoleResponse,
>)
    ensures
        match outcome {
            Ok(role) => {
                &&& r.code == 201
                &&& r.status@ == spec_status_label(201)
                &&& r.message@ == "Role created successfully"@
                &&& (r.data matches Some(d) && d == role)
                &&& r.errors is None
                &&& r.timestamp == now
            },
            Err(e) => {
                &&& r.code == 500
                &&& r.status@ == spec_status_label(500)
                &&& r.message@ == "Failed to create role"@
                &&& r.data is None
                &&& (r.errors matches Some(x) && x == e)
                &&& r.timestamp == now
            },
        },
{
    match outcome {
        Ok(role) => success_envelope(201, "Role created successfully", role, now),
        Err(e) => error_envelope(500, "Failed to create role", e, now),
    }
}

/// The envelope of a list-all-roles outcome.
pub fn fetched_roles_envelope(outcome: Result<RoleListResponse, String>, now: i64) -> (r:
    ApiEnvelope<RoleListResponse>)
    ensures
        match outcome {
            Ok(roles) => {
                &&& r.code == 200
                &&& r.status@ == spec_status_label(200)
                &&& r.message@ == "Roles fetched successfully"@
                &&& (r.data matches Some(d) && d == roles)
                &&& r.errors is None
                &&& r.timestamp == now
            },
            Err(e) => {
                &&& r.code == 500
                &&& r.status@ == spec_status_label(500)
                &&& r.message@ == "Failed to get roles"@
                &&& r.data is None
                &&& (r.errors matches Some(x) && x == e)
                &&& r.timestamp == now
            },
        },
{
    match outcome {
        Ok(roles) => success_envelope(200, "Roles fetched successfully", roles, now),
        Err(e) => error_envelope(500, "Failed to get roles", e, now),
    }
}

/// The envelope of a point-lookup outcome.
pub fn fetched_role_envelope(outcome: Result<RoleResponse, String>, now: i64) -> (r: ApiEnvelope<
    RoleResponse,
>)
    ensures
        match outcome {
            Ok(role) => {
                &&& r.code == 200
                &&& r.status@ == spec_status_label(200)
                &&& r.message@ == "Role fetched successfully"@
                &&& (r.data matches Some(d) && d == role)
                &&& r.errors is None
                &&& r.timestamp == now
            },
            Err(e) => {
                &&& r.code == 500
                &&& r.status@ == spec_status_label(500)
                &&& r.message@ == "Failed to get role"@
                &&& r.data is None
                &&& (r.errors matches Some(x) && x == e)
                &&& r.timestamp == now
            },
        },
{
    match outcome {
        Ok(role) => success_envelope(200, "Role fetched successfully", role, now),
        Err(e) => error_envelope(500, "Failed to get role", e, now),
    }
}

/// The envelope of a role update outcome.
pub fn updated_role_envelope(outcome: Result<RoleResponse, String>, now: i64) -> (r: ApiEnvelope<
    RoleResponse,
>)
    ensures
        match outcome {
            Ok(role) => {
                &&& r.code == 200
                &&& r.status@ == spec_status_label(200)
                &&& r.message@ == "Role updated successfully"@
                &&& (r.data matches Some(d) && d == role)
                &&& r.errors is None
                &&& r.timestamp == now
            },
            Err(e) => {
                &&& r.code == 500
                &&& r.status@ == spec_status_label(500)
                &&& r.message@ == "Failed to update role"@
                &&& r.data is None
                &&& (r.errors matches Some(x) && x == e)
                &&& r.timestamp == now
            },
        },
{
    match outcome {
        Ok(role) => success_envelope(200, "Role updated successfully", role, now),
        Err(e) => error_envelope(500, "Failed to update role", e, now),
    }
}

/// The envelope of a role deletion outcome: the deleted value rides along
/// on success.
pub fn deleted_role_envelope(outcome: Result<RoleResponse, String>, now: i64) -> (r: ApiEnvelope<
    RoleResponse,
>)
    ensures
        match outcome {
            Ok(role) => {
                &&& r.code == 200
                &&& r.status@ == spec_status_label(200)
                &&& r.message@ == "Role deleted successfully"@
                &&& (r.data matches Some(d) && d == role)
                &&& r.errors is None
                &&& r.timestamp == now
            },
            Err(e) => {
                &&& r.code == 500
                &&& r.status@ == spec_status_label(500)
                &&& r.message@ == "Failed to delete role"@
                &&& r.data is None
                &&& (r.errors matches Some(x) && x == e)
                &&& r.timestamp == now
            },
        },
{
    match outcome {
        Ok(role) => success_envelope(200, "Role deleted successfully", role, now),
        Err(e) => error_envelope(500, "Failed to delete role", e, now),
    }
}

/// The envelope of the pre-deletion lookup failing: the role to delete is
/// not there.
pub fn role_not_found_envelope(errors: String, now: i64) -> (r: ApiEnvelope<RoleResponse>)
    ensures
        r.code == 500,
        r.status@ == spec_status_label(500),
        r.message@ == "Role not found"@,
        r.data is None,
        (r.errors matches Some(x) && x == errors),
        r.timestamp == now,
{
    error_envelope(500, "Role not found", errors, now)
}

/// The envelope of a malformed role identifier in the path.
pub fn invalid_role_id_envelope(errors: String, now: i64) -> (r: ApiEnvelope<RoleResponse>)
    ensures
        r.code == 400,
        r.status@ == spec_status_label(400),
        r.message@ == "Invalid role id"@,
        r.data is None,
        (r.errors matches Some(x) && x == errors),
        r.timestamp == now,
{
    error_envelope(400, "Invalid role id", errors, now)
}

/// POST /api/role: create a role; an absent description is stored as the
/// empty string.
pub fn create_role(service: &mut ServiceContainer, payload: CreateRole) -> (r: ApiEnvelope<
    RoleResponse,
>)
    requires
        old(service).wf(),
    ensures
        final(service).wf(),
        final(service).user_service@ == old(service).user_service@,
        final(service).post_service@ == old(service).post_service@,
        match r.data {
            Some(resp) => {
                &&& r.code == 201
                &&& r.status@ == spec_status_label(201)
                &&& r.message@ == "Role created successfully"@
                &&& r.errors is None
                &&& resp.role_name@ == payload.role_name@
                &&& (resp.description matches Some(d) && d@ == match payload.description {
                    Some(p) => p@,
                    None => Seq::<char>::empty(),
                })
                &&& !contains_role(old(service).role_service@, resp.id@)
                &&& final(service).role_service@ == old(service).role_service@.push(resp@)
            },
            None => {
                &&& r.code == 500
                &&& r.status@ == spec_status_label(500)
                &&& r.message@ == "Failed to create role"@
                &&& (r.errors matches Some(x) && x@ == spec_repo_error_text(RepoError::Conflict))
                &&& final(service).role_service@ == old(service).role_service@
            },
        },
{
    let description = match payload.description {
        Some(d) => d,
        None => String::new(),
    };
    let now = now_unix();
    match service.role_service.create(payload.role_name.as_str(), description.as_str()) {
        Ok(role) => created_role_envelope(Ok(role), now),
        Err(e) => created_role_envelope(Err(e.message()), now),
    }
}

/// GET /api/role: every role.
pub fn get_roles(service: &ServiceContainer) -> (r: ApiEnvelope<RoleListResponse>)
    ensures
        (r.data matches Some(list) && list@ == service.role_service@),
        r.code == 200,
        r.status@ == spec_status_label(200),
        r.message@ == "Roles fetched successfully"@,
        r.errors is None,
{
    let now = now_unix();
    match service.role_service.find_all() {
        Ok(roles) => fetched_roles_envelope(Ok(roles), now),
        Err(e) => fetched_roles_envelope(Err(e.message()), now),
    }
}

/// GET /api/role/:id: the role under a textual identifier.
pub fn get_role_by_id(service: &ServiceContainer, id: &str) -> (r: ApiEnvelope<RoleResponse>)
    requires
        service.wf(),
    ensures
        match parsed_id(id@) {
            None => {
                &&& r.code == 400
                &&& r.status@ == spec_status_label(400)
                &&& r.message@ == "Invalid role id"@
                &&& r.data is None
                &&& r.errors is Some
            },
            Some(idb) => match r.data {
                Some(resp) => {
                    &&& r.code == 200
                    &&& r.status@ == spec_status_label(200)
                    &&& r.message@ == "Role fetched successfully"@
                    &&& r.errors is None
                    &&& lookup_role(service.role_service@, idb) == Some(resp@)
                },
                None => {
                    &&& r.code == 500
                    &&& r.status@ == spec_status_label(500)
                    &&& r.message@ == "Failed to get role"@
                    &&& (r.errors matches Some(x) && x@ == spec_repo_error_text(
                        RepoError::NotFound,
                    ))
                    &&& !contains_role(service.role_service@, idb)
                },
            },
        },
{
    let now = now_unix();
    let role_id = match parse_id(id) {
        Ok(role_id) => role_id,
        Err(e) => {
            return invalid_role_id_envelope(e, now);
        },
    };
    match service.role_service.find_by_id(role_id) {
        Ok(role) => fetched_role_envelope(Ok(role), now),
        Err(e) => fetched_role_envelope(Err(e.message()), now),
    }
}

/// PUT /api/role/:id: merge the body's optional fields into the stored
/// role; the identifier comes from the path, not the body.
pub fn update_role_by_id(service: &mut ServiceContainer, id: &str, payload: UpdateRole) -> (r:
    ApiEnvelope<RoleResponse>)
    requires
        old(service).wf(),
    ensures
        final(service).wf(),
        final(service).user_service@ == old(service).user_service@,
        final(service).post_service@ == old(service).post_service@,
        match parsed_id(id@) {
            None => {
                &&& r.code == 400
                &&& r.status@ == spec_status_label(400)
                &&& r.message@ == "Invalid role id"@
                &&& r.data is None
                &&& r.errors is Some
                &&& final(service).role_service@ == old(service).role_service@
            },
            Some(idb) => match r.data {
                Some(resp) => {
                    &&& r.code == 200
                    &&& r.status@ == spec_status_label(200)
                    &&& r.message@ == "Role updated successfully"@
                    &&& r.errors is None
                    &&& contains_role(old(service).role_service@, idb)
                    &&& resp@ == merge_role(
                        old(service).role_service@[role_index(old(service).role_service@, idb)],
                        opt_string_view(payload.role_name),
                        opt_string_view(payload.description),
                    )
                    &&& final(service).role_service@ == old(service).role_service@.update(
                        role_index(old(service).role_service@, idb),
                        resp@,
                    )
                },
                None => {
                    &&& r.code == 500
                    &&& r.status@ == spec_status_label(500)
                    &&& r.message@ == "Failed to update role"@
                    &&& (r.errors matches Some(x) && x@ == spec_repo_error_text(
                        RepoError::NotFound,
                    ))
                    &&& !contains_role(old(service).role_service@, idb)
                    &&& final(service).role_service@ == old(service).role_service@
                },
            },
        },
{
    let now = now_unix();
    let role_id = match parse_id(id) {
        Ok(role_id) => role_id,
        Err(e) => {
            return invalid_role_id_envelope(e, now);
        },
    };
    match service.role_service.update_by_id(role_id, payload.role_name, payload.description) {
        Ok(role) => updated_role_envelope(Ok(role), now),
        Err(e) => updated_role_envelope(Err(e.message()), now),
    }
}

/// DELETE /api/role/:id: look the role up first so the deleted value can
/// be returned, then delete it. A missing role surfaces as a server
/// error, not a client one.
pub fn delete_role_by_id(service: &mut ServiceContainer, id: &str) -> (r: ApiEnvelope<
    RoleResponse,
>)
    requires
        old(service).wf(),
    ensures
        final(service).wf(),
        final(service).user_service@ == old(service).user_service@,
        final(service).post_service@ == old(service).post_service@,
        match parsed_id(id@) {
            None => {
                &&& r.code == 400
                &&& r.status@ == spec_status_label(400)
                &&& r.message@ == "Invalid role id"@
                &&& r.data is None
                &&& r.errors is Some
                &&& final(service).role_service@ == old(service).role_service@
            },
            Some(idb) => match r.data {
                Some(resp) => {
                    &&& r.code == 200
                    &&& r.status@ == spec_status_label(200)
                    &&& r.message@ == "Role deleted successfully"@
                    &&& r.errors is None
                    &&& lookup_role(old(service).role_service@, idb) == Some(resp@)
                    &&& final(service).role_service@ == remove_role(
                        old(service).role_service@,
                        idb,
                    )
                },
                None => {
                    &&& r.code == 500
                    &&& r.status@ == spec_status_label(500)
                    &&& r.message@ == "Role not found"@
                    &&& (r.errors matches Some(x) && x@ == spec_repo_error_text(
                        RepoError::NotFound,
                    ))
                    &&& !contains_role(old(service).role_service@, idb)
                    &&& final(service).role_service@ == old(service).role_service@
                },
            },
        },
{
    let now = now_unix();
    let role_id = match parse_id(id) {
        Ok(role_id) => role_id,
        Err(e) => {
            return invalid_role_id_envelope(e, now);
        },
    };
    let role = match service.role_service.find_by_id(role_id) {
        Ok(role) => role,
        Err(e) => {
            return role_not_found_envelope(e.message(), now);
        },
    };
    match service.role_service.delete_by_id(role_id) {
        Ok(_) => deleted_role_envelope(Ok(role), now),
        Err(e) => deleted_role_envelope(Err(e.message()), now),
    }
}

} // verus!
