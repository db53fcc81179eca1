//! The post service: a pass-through delegation layer over the post
//! repository. Every operation keeps its repository's contract verbatim,
//! including the requirement that an update supply `status` and `user_id`.

use vstd::prelude::*;

use crate::entities::PostStatus;
use crate::errors::RepoError;
use crate::ident::EntityId;
use crate::models::{opt_string_view, PostData, PostListResponse, PostResponse};
use crate::repositories::{
    contains_post, lookup_post, merge_post, post_index, post_rows_wf, posts_of_user, remove_post,
    PostRepository,
};

verus! {

/// A thin façade over the post repository.
pub struct PostService {
    post_repo: PostRepository,
}

impl View for PostService {
    type V = Seq<PostData>;

    closed spec fn view(&self) -> Seq<PostData> {
        self.post_repo@
    }
}

impl PostService {
    pub open spec fn wf(&self) -> bool {
        post_rows_wf(self@)
    }

    pub fn new(post_repo: PostRepository) -> (r: PostService)
        ensures
            r@ == post_repo@,
    {
        Self { post_repo }
    }

    /// Delegates to the repository's find-all.
    pub fn find_all(&self) -> (r: Result<PostListResponse, RepoError>)
        ensures
            r matches Ok(list) && list@ == self@,
    {
        self.post_repo.find_all()
    }

    /// Delegates to the repository's create.
    pub fn create(
        &mut self,
        title: String,
        content: String,
        status: PostStatus,
        published_at: Option<i64>,
        user_id: EntityId,
    ) -> (r: Result<PostResponse, RepoError>)
        requires
            old(self).wf(),
        ensures
            final(self).wf(),
            match r {
                Ok(resp) => {
                    &&& !contains_post(old(self)@, resp.id@)
                    &&& resp.title@ == title@
                    &&& resp.content@ == content@
                    &&& resp.status == status
                    &&& resp.published_at == published_at
                    &&& resp.user_id@ == user_id@
                    &&& final(self)@ == old(self)@.push(resp@)
                },
                Err(e) => e == RepoError::Conflict && final(self)@ == old(self)@,
            },
    {
        self.post_repo.create(title, content, status, published_at, user_id)
    }

    /// Delegates to the repository's point lookup.
    pub fn find_by_id(&self, id: EntityId) -> (r: Result<PostResponse, RepoError>)
        requires
            self.wf(),
        ensures
            match r {
                Ok(resp) => lookup_post(self@, id@) == Some(resp@),
                Err(e) => e == RepoError::NotFound && !contains_post(self@, id@),
            },
            r is Ok <==> contains_post(self@, id@),
    {
        self.post_repo.find_by_id(id)
    }

    /// Delegates to the repository's merge-update; `status` and `user_id`
    /// are required.
    pub fn update_by_id(
        &mut self,
        id: EntityId,
        title: Option<String>,
        content: Option<String>,
        status: Option<PostStatus>,
        published_at: Option<i64>,
        user_id: Option<EntityId>,
    ) -> (r: Result<PostResponse, RepoError>)
        requires
            old(self).wf(),
            status is Some,
            user_id is Some,
        ensures
            final(self).wf(),
            match r {
                Ok(resp) => {
                    &&& contains_post(old(self)@, id@)
                    &&& resp@ == merge_post(
                        old(self)@[post_index(old(self)@, id@)],
                        opt_string_view(title),
                        opt_string_view(content),
                        status.unwrap(),
                        published_at,
                        user_id.unwrap()@,
                    )
                    &&& final(self)@ == old(self)@.update(post_index(old(self)@, id@), resp@)
                },
                Err(e) => e == RepoError::NotFound && !contains_post(old(self)@, id@)
                    && final(self)@ == old(self)@,
            },
            r is Ok <==> contains_post(old(self)@, id@),
    {
        self.post_repo.update(id, title, content, status, published_at, user_id)
    }

    /// Delegates to the repository's delete.
    pub fn delete_by_id(&mut self, id: EntityId) -> (r: Result<(), RepoError>)
        requires
            old(self).wf(),
        ensures
            final(self).wf(),
            r is Ok,
            final(self)@ == remove_post(old(self)@, id@),
    {
        self.post_repo.delete(id)
    }

    /// Delegates to the repository's lookup by owning user.
    pub fn find_all_by_user_id(&self, user_id: EntityId) -> (r: Result<
        PostListResponse,
        RepoError,
    >)
        ensures
            r matches Ok(list) && list@ == posts_of_user(self@, user_id@),
    {
        self.post_repo.find_by_user_id(user_id)
    }
}

} // verus!
