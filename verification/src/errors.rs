use vstd::prelude::*;

verus! {

/// A stored row that cannot be reconstructed into its typed entity.
#[derive(Clone, Copy, Debug, PartialEq, Eq, Structural)]
pub enum DecodeError {
    /// An identifier column did not hold exactly 16 bytes.
    InvalidIdBytes,
    /// The status column held a token outside the closed set.
    UnknownStatusToken,
}

pub open spec fn spec_decode_error_text(e: DecodeError) -> Seq<char> {
    match e {
        DecodeError::InvalidIdBytes => "stored id column does not hold a 16-byte identifier"@,
        DecodeError::UnknownStatusToken => "stored status column holds an unrecognized token"@,
    }
}

impl DecodeError {
    /// The textual description surfaced in a response envelope.
    pub fn message(&self) -> (r: String)
        ensures
            r@ == spec_decode_error_text(*self),
    {
        match self {
            DecodeError::InvalidIdBytes => "stored id column does not hold a 16-byte identifier".to_owned(),
            DecodeError::UnknownStatusToken => "stored status column holds an unrecognized token".to_owned(),
        }
    }
}

/// A failure of a repository operation.
#[derive(Clone, Copy, Debug, PartialEq, Eq, Structural)]
pub enum RepoError {
    /// A point lookup matched zero rows.
    NotFound,
    /// An insert collided with an existing identifier.
    Conflict,
}

pub open spec fn spec_repo_error_text(e: RepoError) -> Seq<char> {
    match e {
        RepoError::NotFound => "no rows returned by a query that expected to return at least one row"@,
        RepoError::Conflict => "a row with the generated identifier already exists"@,
    }
}

impl RepoError {
    /// The textual description surfaced in a response envelope.
    pub fn message(&self) -> (r: String)
        ensures
            r@ == spec_repo_error_text(*self),
    {
        match self {
            RepoError::NotFound => "no rows returned by a query that expected to return at least one row".to_owned(),
            RepoError::Conflict => "a row with the generated identifier already exists".to_owned(),
        }
    }
}

} // verus!
