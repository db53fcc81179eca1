//! The user entity and the decoding of a raw user row.

use vstd::prelude::*;

use crate::errors::DecodeError;
use crate::ident::EntityId;

verus! {

/// A raw user row, as the store hands it back.
pub struct UserRow {
    pub id: Vec<u8>,
    pub username: String,
    pub email: String,
    pub password_hash: String,
    pub role_id: Vec<u8>,
    pub created_at: i64,
    pub updated_at: i64,
}

/// A typed user entity.
pub struct User {
    pub id: EntityId,
    pub username: String,
    pub email: String,
    pub password_hash: String,
    pub role_id: EntityId,
    pub created_at: i64,
    pub updated_at: i64,
}

impl User {
    /// Reconstruct a typed user from a raw row. The row is rejected as
    /// corrupt when an identifier column is not 16 bytes long; the primary
    /// identifier is checked before the role reference.
    pub fn from_row(row: UserRow) -> (r: Result<User, DecodeError>)
        ensures
            match r {
                Ok(user) => {
                    &&& row.id@.len() == 16
                    &&& row.role_id@.len() == 16
                    &&& user.id@ == row.id@
                    &&& user.role_id@ == row.role_id@
                    &&& user.username == row.username
                    &&& user.email == row.email
                    &&& user.password_hash == row.password_hash
                    &&& user.created_at == row.created_at
                    &&& user.updated_at == row.updated_at
                },
                Err(e) => (row.id@.len() != 16 || row.role_id@.len() != 16)
                    && e == DecodeError::InvalidIdBytes,
            },
            r is Ok <==> (row.id@.len() == 16 && row.role_id@.len() == 16),
    {
        let id = match EntityId::decode(row.id.as_slice()) {
            Ok(id) => id,
            Err(e) => {
                return Err(e);
            },
        };
        let role_id = match EntityId::decode(row.role_id.as_slice()) {
            Ok(rid) => rid,
            Err(e) => {
                return Err(e);
            },
        };
        Ok(User {
            id,
            username: row.username,
            email: row.email,
            password_hash: row.password_hash,
            role_id,
            created_at: row.created_at,
            updated_at: row.updated_at,
        })
    }
}

} // verus!
