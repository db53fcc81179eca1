//! The post entity: its status enum with the string-token codec, and the
//! decoding of a raw post row into a typed entity.

use vstd::prelude::*;

use crate::errors::DecodeError;
use crate::ident::EntityId;

verus! {

/// The lifecycle state of a post, persisted as a lowercase string token.
#[derive(Clone, Copy, Debug, PartialEq, Eq, Structural)]
pub enum PostStatus {
    Draft,
    Published,
    Archived,
}

/// The storage token of a status value.
pub open spec fn spec_status_token(s: PostStatus) -> Seq<char> {
    match s {
        PostStatus::Draft => "draft"@,
        PostStatus::Published => "published"@,
        PostStatus::Archived => "archived"@,
    }
}

/// The status a stored token denotes; tokens outside the closed set denote
/// nothing and must fail decode.
pub open spec fn spec_status_of(t: Seq<char>) -> Option<PostStatus> {
    if t == "draft"@ {
        Some(PostStatus::Draft)
    } else if t == "published"@ {
        Some(PostStatus::Published)
    } else if t == "archived"@ {
        Some(PostStatus::Archived)
    } else {
        None
    }
}

impl PostStatus {
    /// The lowercase token under which this status is persisted.
    pub fn to_str(&self) -> (r: &str)
        ensures
            r@ == spec_status_token(*self),
    {
        match self {
            PostStatus::Draft => "draft",
            PostStatus::Published => "published",
            PostStatus::Archived => "archived",
        }
    }
}

/// Decode a stored status token; fails exactly on tokens outside the
/// closed set.
pub fn parse_status(token: &str) -> (r: Result<PostStatus, DecodeError>)
    ensures
        match r {
            Ok(s) => spec_status_of(token@) == Some(s),
            Err(e) => spec_status_of(token@) is None && e == DecodeError::UnknownStatusToken,
        },
        r is Ok <==> spec_status_of(token@) is Some,
{
    let t = token.to_owned();
    if t == "draft".to_owned() {
        Ok(PostStatus::Draft)
    } else if t == "published".to_owned() {
        Ok(PostStatus::Published)
    } else if t == "archived".to_owned() {
        Ok(PostStatus::Archived)
    } else {
        Err(DecodeError::UnknownStatusToken)
    }
}

/// Law: encoding a status to its token and decoding the token yields the
/// original status.
pub proof fn lemma_status_round_trip(s: PostStatus)
    ensures
        spec_status_of(spec_status_token(s)) == Some(s),
{
    reveal_strlit("draft");
    reveal_strlit("published");
    reveal_strlit("archived");
    assert("published"@.len() == 9);
    assert("draft"@.len() == 5);
    assert("archived"@.len() == 8);
}

/// Law: a token that decodes to a status is that status's own token, so no
/// two distinct statuses share a token.
pub proof fn lemma_status_token_injective(t: Seq<char>, s: PostStatus)
    requires
        spec_status_of(t) == Some(s),
    ensures
        spec_status_token(s) == t,
{
}

/// A raw post row, as the store hands it back: identifiers as raw bytes,
/// the status as its stored token, timestamps as epoch values.
pub struct PostRow {
    pub id: Vec<u8>,
    pub title: String,
    pub content: String,
    pub user_id: Vec<u8>,
    pub status: String,
    pub published_at: Option<i64>,
    pub created_at: i64,
    pub updated_at: i64,
}

/// A typed post entity.
pub struct Post {
    pub id: EntityId,
    pub title: String,
    pub content: String,
    pub user_id: EntityId,
    pub status: PostStatus,
    pub published_at: Option<i64>,
    pub created_at: i64,
    pub updated_at: i64,
}

impl Post {
    /// Reconstruct a typed post from a raw row. The row is rejected as
    /// corrupt when an identifier column is not 16 bytes long or the status
    /// token is unrecognized; identifiers are checked first.
    pub fn from_row(row: PostRow) -> (r: Result<Post, DecodeError>)
        ensures
            match r {
                Ok(post) => {
                    &&& row.id@.len() == 16
                    &&& row.user_id@.len() == 16
                    &&& post.id@ == row.id@
                    &&& post.user_id@ == row.user_id@
                    &&& spec_status_of(row.status@) == Some(post.status)
                    &&& post.title == row.title
                    &&& post.content == row.content
                    &&& post.published_at == row.published_at
                    &&& post.created_at == row.created_at
                    &&& post.updated_at == row.updated_at
                },
                Err(e) => match e {
                    DecodeError::InvalidIdBytes => row.id@.len() != 16 || row.user_id@.len() != 16,
                    DecodeError::UnknownStatusToken => {
                        &&& row.id@.len() == 16
                        &&& row.user_id@.len() == 16
                        &&& spec_status_of(row.status@) is None
                    },
                },
            },
            r is Ok <==> (row.id@.len() == 16 && row.user_id@.len() == 16
                && spec_status_of(row.status@) is Some),
    {
        let id = match EntityId::decode(row.id.as_slice()) {
            Ok(id) => id,
            Err(e) => {
                return Err(e);
            },
        };
        let user_id = match EntityId::decode(row.user_id.as_slice()) {
            Ok(uid) => uid,
            Err(e) => {
                return Err(e);
            },
        };
        let status = match parse_status(row.status.as_str()) {
            Ok(s) => s,
            Err(e) => {
                return Err(e);
            },
        };
        Ok(Post {
            id,
            title: row.title,
            content: row.content,
            user_id,
            status,
            published_at: row.published_at,
            created_at: row.created_at,
            updated_at: row.updated_at,
        })
    }
}

} // verus!
