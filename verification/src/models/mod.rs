mod post;
mod role;
mod user;

use vstd::prelude::*;

pub use post::{CreatePost, PostData, PostListResponse, PostResponse, UpdatePost};
pub use role::{CreateRole, RoleData, RoleListResponse, RoleResponse, UpdateRole};
pub use user::{CreateUser, UpdateUser, UserData, UserListResponse, UserResponse};

verus! {

/// The view of an optional string: its character sequence when present.
pub open spec fn opt_string_view(o: Option<String>) -> Option<Seq<char>> {
    match o {
        Some(s) => Some(s@),
        None => None,
    }
}

/// The view of an optional identifier: its byte sequence when present.
pub open spec fn opt_id_view(o: Option<crate::ident::EntityId>) -> Option<Seq<u8>> {
    match o {
        Some(id) => Some(id@),
        None => None,
    }
}

} // verus!
