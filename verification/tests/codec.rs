//! The identity codec and the status-token codec.

use blog_cms::entities::{parse_status, PostStatus};
use blog_cms::errors::DecodeError;
use blog_cms::ident::EntityId;

#[test]
fn id_encode_decode_round_trip() {
    let bytes: Vec<u8> = (0u8..16u8).collect();
    let id = EntityId::decode(&bytes).expect("16 bytes decode");
    assert_eq!(id.encode(), bytes);
    let again = EntityId::decode(&id.encode()).expect("round trip decodes");
    assert!(again == id);
}

#[test]
fn id_decode_rejects_wrong_length() {
    let short: Vec<u8> = vec![0u8; 15];
    let long: Vec<u8> = vec![0u8; 17];
    let empty: Vec<u8> = Vec::new();
    assert_eq!(EntityId::decode(&short), Err(DecodeError::InvalidIdBytes));
    assert_eq!(EntityId::decode(&long), Err(DecodeError::InvalidIdBytes));
    assert_eq!(EntityId::decode(&empty), Err(DecodeError::InvalidIdBytes));
}

#[test]
fn id_encode_matches_uuid_bytes() {
    let u = uuid::Uuid::new_v4();
    let id = EntityId::decode(u.as_bytes()).expect("uuid bytes decode");
    assert_eq!(id.encode().as_slice(), u.as_bytes());
}

#[test]
fn status_token_round_trip() {
    for s in [PostStatus::Draft, PostStatus::Published, PostStatus::Archived] {
        let token = s.to_str();
        assert_eq!(parse_status(token), Ok(s));
    }
}

#[test]
fn status_tokens_are_lowercase() {
    assert_eq!(PostStatus::Draft.to_str(), "draft");
    assert_eq!(PostStatus::Published.to_str(), "published");
    assert_eq!(PostStatus::Archived.to_str(), "archived");
}

#[test]
fn status_rejects_unknown_tokens() {
    for bad in ["Draft", "PUBLISHED", "bogus", "", "draft "] {
        assert_eq!(parse_status(bad), Err(DecodeError::UnknownStatusToken));
    }
}
