//! The role entity and the decoding of a raw role row.

use vstd::prelude::*;

use crate::errors::DecodeError;
use crate::ident::EntityId;

verus! {

/// A raw role row, as the store hands it back.
pub struct RoleRow {
    pub id: Vec<u8>,
    pub role_name: String,
    pub description: Option<String>,
    pub created_at: i64,
    pub updated_at: i64,
}

/// A typed role entity.
pub struct Role {
    pub id: EntityId,
    pub role_name: String,
    pub description: Option<String>,
    pub created_at: i64,
    pub updated_at: i64,
}

impl Role {
    /// Reconstruct a typed role from a raw row. The row is rejected as
    /// corrupt when its identifier column is not 16 bytes long.
    pub fn from_row(row: RoleRow) -> (r: Result<Role, DecodeError>)
        ensures
            match r {
                Ok(role) => {
                    &&& row.id@.len() == 16
                    &&& role.id@ == row.id@
                    &&& role.role_name == row.role_name
                    &&& role.description == row.description
                    &&& role.created_at == row.created_at
                    &&& role.updated_at == row.updated_at
                },
                Err(e) => row.id@.len() != 16 && e == DecodeError::InvalidIdBytes,
            },
            r is Ok <==> row.id@.len() == 16,
    {
        let id = match EntityId::decode(row.id.as_slice()) {
            Ok(id) => id,
            Err(e) => {
                return Err(e);
            },
        };
        Ok(Role {
            id,
            role_name: row.role_name,
            description: row.description,
            created_at: row.created_at,
            updated_at: row.updated_at,
        })
    }
}

} // verus!
