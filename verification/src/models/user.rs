//! Request and response shapes for the user entity.

use vstd::prelude::*;

use crate::ident::EntityId;

verus! {

/// Body of a user creation request. The password travels only to the
/// hashing step; repositories never receive it.
pub struct CreateUser {
    pub username: String,
    pub email: String,
    pub password: String,
    pub role_id: EntityId,
}

/// Body of a user update request.
pub struct UpdateUser {
    pub id: EntityId,
    pub username: String,
    pub email: String,
    pub role_id: EntityId,
}

/// A user as a repository returns it: the stored password hash is never
/// exposed.
pub struct UserResponse {
    pub id: EntityId,
    pub username: String,
    pub email: String,
    pub role_id: EntityId,
}

/// The mathematical content of a user response.
#[verifier::ext_equal]
pub ghost struct UserData {
    pub id: Seq<u8>,
    pub username: Seq<char>,
    pub email: Seq<char>,
    pub role_id: Seq<u8>,
}

impl View for UserResponse {
    type V = UserData;

    open spec fn view(&self) -> UserData {
        UserData {
            id: self.id@,
            username: self.username@,
            email: self.email@,
            role_id: self.role_id@,
        }
    }
}

impl UserResponse {
    /// A field-equal copy.
    pub fn duplicate(&self) -> (r: UserResponse)
        ensures
            r@ == self@,
    {
        UserResponse {
            id: self.id,
            username: self.username.clone(),
            email: self.email.clone(),
            role_id: self.role_id,
        }
    }
}

/// The unordered collection of all users.
pub struct UserListResponse {
    pub users: Vec<UserResponse>,
}

impl View for UserListResponse {
    type V = Seq<UserData>;

    open spec fn view(&self) -> Seq<UserData> {
        self.users@.map_values(|u: UserResponse| u@)
    }
}

} // verus!
