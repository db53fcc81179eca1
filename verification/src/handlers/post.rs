//! The post handlers. Identifiers arrive already parsed (the framework
//! parses path identifiers for these routes), and every service failure,
//! not-found included, maps to the generic server-error code, with the
//! failure's description under `errors`. An update must carry `status`
//! and `user_id`: they are required on this route and the call fails
//! without them, so callers check before calling. The per-outcome
//! envelope functions fix each endpoint's codes and messages in one
//! place.

use vstd::prelude::*;

use super::envelope::{
    error_envelope, message_envelope, now_unix, spec_status_label, success_envelope, ApiEnvelope,
};
use crate::errors::{spec_repo_error_text, RepoError};
use crate::ident::EntityId;
use crate::models::{opt_string_view, CreatePost, PostListResponse, PostResponse, UpdatePost};
use crate::repositories::{
    contains_post, lookup_post, merge_post, post_index, posts_of_user, remove_post,
};
use crate::services::ServiceContainer;

verus! {

/// The envelope of a post creation outcome.
pub fn created_post_envelope(outcome: Result<PostResponse, String>, now: i64) -> (r: ApiEnvelope<
    PostResponse,
>)
    ensures
        match outcome {
            Ok(post) => {
                &&& r.code == 201
                &&& r.status@ == spec_status_label(201)
                &&& r.message@ == "Post created successfully"@
                &&& (r.data matches Some(d) && d == post)
                &&& r.errors is None
                &&& r.timestamp == now
            },
            Err(e) => {
                &&& r.code == 500
                &&& r.status@ == spec_status_label(500)
                &&& r.message@ == "Failed to create post"@
                &&& r.data is None
                &&& (r.errors matches Some(x) && x == e)
                &&& r.timestamp == now
            },
        },
{
    match outcome {
        Ok(post) => success_envelope(201, "Post created successfully", post, now),
        Err(e) => error_envelope(500, "Failed to create post", e, now),
    }
}

/// The envelope of a post-list outcome, shared by the list-all route and
/// the by-owner route.
pub fn fetched_posts_envelope(outcome: Result<PostListResponse, String>, now: i64) -> (r:
    ApiEnvelope<PostListResponse>)
    ensures
        match outcome {
            Ok(posts) => {
                &&& r.code == 200
                &&& r.status@ == spec_status_label(200)
                &&& r.message@ == "Posts retrieved successfully"@
                &&& (r.data matches Some(d) && d == posts)
                &&& r.errors is None
                &&& r.timestamp == now
            },
            Err(e) => {
                &&& r.code == 500
                &&& r.status@ == spec_status_label(500)
                &&& r.message@ == "Failed to retrieve posts"@
                &&& r.data is None
                &&& (r.errors matches Some(x) && x == e)
                &&& r.timestamp == now
            },
        },
{
    match outcome {
        Ok(posts) => success_envelope(200, "Posts retrieved successfully", posts, now),
        Err(e) => error_envelope(500, "Failed to retrieve posts", e, now),
    }
}

/// The envelope of a point-lookup outcome.
pub fn fetched_post_envelope(outcome: Result<PostResponse, String>, now: i64) -> (r: ApiEnvelope<
    PostResponse,
>)
    ensures
        match outcome {
            Ok(post) => {
                &&& r.code == 200
                &&& r.status@ == spec_status_label(200)
                &&& r.message@ == "Post retrieved successfully"@
                &&& (r.data matches Some(d) && d == post)
                &&& r.errors is None
                &&& r.timestamp == now
            },
            Err(e) => {
                &&& r.code == 500
                &&& r.status@ == spec_status_label(500)
                &&& r.message@ == "Failed to retrieve post"@
                &&& r.data is None
                &&& (r.errors matches Some(x) && x == e)
                &&& r.timestamp == now
            },
        },
{
    match outcome {
        Ok(post) => success_envelope(200, "Post retrieved successfully", post, now),
        Err(e) => error_envelope(500, "Failed to retrieve post", e, now),
    }
}

/// The envelope of a post update outcome.
pub fn updated_post_envelope(outcome: Result<PostResponse, String>, now: i64) -> (r: ApiEnvelope<
    PostResponse,
>)
    ensures
        match outcome {
            Ok(post) => {
                &&& r.code == 200
                &&& r.status@ == spec_status_label(200)
                &&& r.message@ == "Post updated successfully"@
                &&& (r.data matches Some(d) && d == post)
                &&& r.errors is None
                &&& r.timestamp == now
            },
            Err(e) => {
                &&& r.code == 500
                &&& r.status@ == spec_status_label(500)
                &&& r.message@ == "Failed to update post"@
                &&& r.data is None
                &&& (r.errors matches Some(x) && x == e)
                &&& r.timestamp == now
            },
        },
{
    match outcome {
        Ok(post) => success_envelope(200, "Post updated successfully", post, now),
        Err(e) => error_envelope(500, "Failed to update post", e, now),
    }
}

/// The envelope of a post deletion outcome: success carries neither
/// payload nor errors.
pub fn deleted_post_envelope(outcome: Result<(), String>, now: i64) -> (r: ApiEnvelope<()>)
    ensures
        match outcome {
            Ok(_) => {
                &&& r.code == 204
                &&& r.status@ == spec_status_label(204)
                &&& r.message@ == "Post deleted successfully"@
                &&& r.data is None
                &&& r.errors is None
                &&& r.timestamp == now
            },
            Err(e) => {
                &&& r.code == 500
                &&& r.status@ == spec_status_label(500)
                &&& r.message@ == "Failed to delete post"@
                &&& r.data is None
                &&& (r.errors matches Some(x) && x == e)
                &&& r.timestamp == now
            },
        },
{
    match outcome {
        Ok(_) => message_envelope(204, "Post deleted successfully", now),
        Err(e) => error_envelope(500, "Failed to delete post", e, now),
    }
}

/// POST /api/post: create a post from the request body.
pub fn create_post(service: &mut ServiceContainer, payload: CreatePost) -> (r: ApiEnvelope<
    PostResponse,
>)
    requires
        old(service).wf(),
    ensures
        final(service).wf(),
        final(service).role_service@ == old(service).role_service@,
        final(service).user_service@ == old(service).user_service@,
        match r.data {
            Some(resp) => {
                &&& r.code == 201
                &&& r.status@ == spec_status_label(201)
                &&& r.message@ == "Post created successfully"@
                &&& r.errors is None
                &&& resp.title@ == payload.title@
                &&& resp.content@ == payload.content@
                &&& resp.status == payload.status
                &&& resp.published_at == payload.published_at
                &&& resp.user_id@ == payload.user_id@
                &&& !contains_post(old(service).post_service@, resp.id@)
                &&& final(service).post_service@ == old(service).post_service@.push(resp@)
            },
            None => {
                &&& r.code == 500
                &&& r.status@ == spec_status_label(500)
                &&& r.message@ == "Failed to create post"@
                &&& (r.errors matches Some(x) && x@ == spec_repo_error_text(RepoError::Conflict))
                &&& final(service).post_service@ == old(service).post_service@
            },
        },
{
    let now = now_unix();
    match service.post_service.create(
        payload.title,
        payload.content,
        payload.status,
        payload.published_at,
        payload.user_id,
    ) {
        Ok(post) => created_post_envelope(Ok(post), now),
        Err(e) => created_post_envelope(Err(e.message()), now),
    }
}

/// GET /api/post: every post.
pub fn get_posts(service: &ServiceContainer) -> (r: ApiEnvelope<PostListResponse>)
    ensures
        (r.data matches Some(list) && list@ == service.post_service@),
        r.code == 200,
        r.status@ == spec_status_label(200),
        r.message@ == "Posts retrieved successfully"@,
        r.errors is None,
{
    let now = now_unix();
    match service.post_service.find_all() {
        Ok(posts) => fetched_posts_envelope(Ok(posts), now),
        Err(e) => fetched_posts_envelope(Err(e.message()), now),
    }
}

/// GET /api/post/:id: the post under an identifier.
pub fn get_post_by_id(service: &ServiceContainer, id: EntityId) -> (r: ApiEnvelope<PostResponse>)
    requires
        service.wf(),
    ensures
        match r.data {
            Some(resp) => {
                &&& r.code == 200
                &&& r.status@ == spec_status_label(200)
                &&& r.message@ == "Post retrieved successfully"@
                &&& r.errors is None
                &&& lookup_post(service.post_service@, id@) == Some(resp@)
            },
            None => {
                &&& r.code == 500
                &&& r.status@ == spec_status_label(500)
                &&& r.message@ == "Failed to retrieve post"@
                &&& (r.errors matches Some(x) && x@ == spec_repo_error_text(RepoError::NotFound))
                &&& !contains_post(service.post_service@, id@)
            },
        },
{
    let now = now_unix();
    match service.post_service.find_by_id(id) {
        Ok(post) => fetched_post_envelope(Ok(post), now),
        Err(e) => fetched_post_envelope(Err(e.message()), now),
    }
}

/// PUT /api/post/:id: merge the body into the post named by the body's
/// own identifier. `status` and `user_id` are required; `title`,
/// `content` and `published_at` pass through unchanged when absent.
pub fn update_post_by_id(service: &mut ServiceContainer, payload: UpdatePost) -> (r: ApiEnvelope<
    PostResponse,
>)
    requires
        old(service).wf(),
        payload.status is Some,
        payload.user_id is Some,
    ensures
        final(service).wf(),
        final(service).role_service@ == old(service).role_service@,
        final(service).user_service@ == old(service).user_service@,
        match r.data {
            Some(resp) => {
                &&& r.code == 200
                &&& r.status@ == spec_status_label(200)
                &&& r.message@ == "Post updated successfully"@
                &&& r.errors is None
                &&& contains_post(old(service).post_service@, payload.id@)
                &&& resp@ == merge_post(
                    old(service).post_service@[post_index(
                        old(service).post_service@,
                        payload.id@,
                    )],
                    opt_string_view(payload.title),
                    opt_string_view(payload.content),
                    payload.status.unwrap(),
                    payload.published_at,
                    payload.user_id.unwrap()@,
                )
                &&& final(service).post_service@ == old(service).post_service@.update(
                    post_index(old(service).post_service@, payload.id@),
                    resp@,
                )
            },
            None => {
                &&& r.code == 500
                &&& r.status@ == spec_status_label(500)
                &&& r.message@ == "Failed to update post"@
                &&& (r.errors matches Some(x) && x@ == spec_repo_error_text(RepoError::NotFound))
                &&& !contains_post(old(service).post_service@, payload.id@)
                &&& final(service).post_service@ == old(service).post_service@
            },
        },
{
    let now = now_unix();
    match service.post_service.update_by_id(
        payload.id,
        payload.title,
        payload.content,
        payload.status,
        payload.published_at,
        payload.user_id,
    ) {
        Ok(post) => updated_post_envelope(Ok(post), now),
        Err(e) => updated_post_envelope(Err(e.message()), now),
    }
}

/// DELETE /api/post/:id: delete by identifier; a missing post is a silent
/// no-op, so the operation always reports success, with a bare body.
pub fn delete_post_by_id(service: &mut ServiceContainer, id: EntityId) -> (r: ApiEnvelope<()>)
    requires
        old(service).wf(),
    ensures
        final(service).wf(),
        final(service).role_service@ == old(service).role_service@,
        final(service).user_service@ == old(service).user_service@,
        r.code == 204,
        r.status@ == spec_status_label(204),
        r.message@ == "Post deleted successfully"@,
        r.data is None,
        r.errors is None,
        final(service).post_service@ == remove_post(old(service).post_service@, id@),
{
    let now = now_unix();
    match service.post_service.delete_by_id(id) {
        Ok(done) => deleted_post_envelope(Ok(done), now),
        Err(e) => deleted_post_envelope(Err(e.message()), now),
    }
}

/// GET /api/user/:id/posts: the posts belonging to a user; a user with no
/// posts yields an empty list, not an error.
pub fn get_posts_by_user_id(service: &ServiceContainer, id: EntityId) -> (r: ApiEnvelope<
    PostListResponse,
>)
    ensures
        (r.data matches Some(list) && list@ == posts_of_user(service.post_service@, id@)),
        r.code == 200,
        r.status@ == spec_status_label(200),
        r.message@ == "Posts retrieved successfully"@,
        r.errors is None,
{
    let now = now_unix();
    match service.post_service.find_all_by_user_id(id) {
        Ok(posts) => fetched_posts_envelope(Ok(posts), now),
        Err(e) => fetched_posts_envelope(Err(e.message()), now),
    }
}

} // verus!
