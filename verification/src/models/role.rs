//! Request and response shapes for the role entity.

use vstd::prelude::*;

use crate::ident::EntityId;
use super::opt_string_view;

verus! {

/// Body of a role creation request.
pub struct CreateRole {
    pub role_name: String,
    pub description: Option<String>,
}

/// Body of a role update request; absent fields leave stored values
/// unchanged.
pub struct UpdateRole {
    pub id: EntityId,
    pub role_name: Option<String>,
    pub description: Option<String>,
}

/// A role as a repository returns it.
pub struct RoleResponse {
    pub id: EntityId,
    pub role_name: String,
    pub description: Option<String>,
}

/// The mathematical content of a role row.
#[verifier::ext_equal]
pub ghost struct RoleData {
    pub id: Seq<u8>,
    pub role_name: Seq<char>,
    pub description: Option<Seq<char>>,
}

impl View for RoleResponse {
    type V = RoleData;

    open spec fn view(&self) -> RoleData {
        RoleData {
            id: self.id@,
            role_name: self.role_name@,
            description: opt_string_view(self.description),
        }
    }
}

impl RoleResponse {
    /// A field-equal copy.
    pub fn duplicate(&self) -> (r: RoleResponse)
        ensures
            r@ == self@,
    {
        RoleResponse {
            id: self.id,
            role_name: self.role_name.clone(),
            description: match &self.description {
                Some(d) => Some(d.clone()),
                None => None,
            },
        }
    }
}

/// The unordered collection of all roles.
pub struct RoleListResponse {
    pub roles: Vec<RoleResponse>,
}

impl View for RoleListResponse {
    type V = Seq<RoleData>;

    open spec fn view(&self) -> Seq<RoleData> {
        self.roles@.map_values(|r: RoleResponse| r@)
    }
}

} // verus!
