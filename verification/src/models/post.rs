//! Request and response shapes for the post entity.

use vstd::prelude::*;

use crate::entities::PostStatus;
use crate::ident::EntityId;

verus! {

/// Body of a post creation request.
pub struct CreatePost {
    pub title: String,
    pub content: String,
    pub status: PostStatus,
    pub published_at: Option<i64>,
    pub user_id: EntityId,
}

/// Body of a post update request. Unlike the role and user shapes, `status`
/// and `user_id` are effectively required: an update without them is
/// rejected before it reaches the store.
pub struct UpdatePost {
    pub id: EntityId,
    pub title: Option<String>,
    pub content: Option<String>,
    pub status: Option<PostStatus>,
    pub published_at: Option<i64>,
    pub user_id: Option<EntityId>,
}

/// A post as a repository returns it: the typed status, not the stored
/// token.
pub struct PostResponse {
    pub id: EntityId,
    pub title: String,
    pub content: String,
    pub status: PostStatus,
    pub published_at: Option<i64>,
    pub user_id: EntityId,
}

/// The mathematical content of a post row.
#[verifier::ext_equal]
pub ghost struct PostData {
    pub id: Seq<u8>,
    pub title: Seq<char>,
    pub content: Seq<char>,
    pub status: PostStatus,
    pub published_at: Option<i64>,
    pub user_id: Seq<u8>,
}

impl View for PostResponse {
    type V = PostData;

    open spec fn view(&self) -> PostData {
        PostData {
            id: self.id@,
            title: self.title@,
            content: self.content@,
            status: self.status,
            published_at: self.published_at,
            user_id: self.user_id@,
        }
    }
}

impl PostResponse {
    /// A field-equal copy.
    pub fn duplicate(&self) -> (r: PostResponse)
        ensures
            r@ == self@,
    {
        PostResponse {
            id: self.id,
            title: self.title.clone(),
            content: self.content.clone(),
            status: self.status,
            published_at: self.published_at,
            user_id: self.user_id,
        }
    }
}

/// The unordered collection of posts an operation selected.
pub struct PostListResponse {
    pub posts: Vec<PostResponse>,
}

impl View for PostListResponse {
    type V = Seq<PostData>;

    open spec fn view(&self) -> Seq<PostData> {
        self.posts@.map_values(|p: PostResponse| p@)
    }
}

} // verus!
