//! The entity identity codec: the bidirectional mapping between a 128-bit
//! identifier and its fixed 16-byte storage encoding, together with the
//! generation and textual parsing of identifiers.

use vstd::prelude::*;

use crate::errors::DecodeError;

verus! {

/// A 128-bit entity identifier, held as its 16 raw bytes.
#[derive(Clone, Copy, Debug)]
pub struct EntityId {
    bytes: [u8; 16],
}

impl View for EntityId {
    type V = Seq<u8>;

    closed spec fn view(&self) -> Seq<u8> {
        self.bytes@
    }
}

impl PartialEq for EntityId {
    fn eq(&self, other: &EntityId) -> (r: bool) {
        let mut i: usize = 0;
        while i < 16
            invariant
                0 <= i <= 16,
                forall|k: int| 0 <= k < i ==> self.bytes@[k] == other.bytes@[k],
            decreases 16 - i,
        {
            if self.bytes[i] != other.bytes[i] {
                proof {
                    assert(self@ != other@) by {
                        assert(self@[i as int] != other@[i as int]);
                    }
                }
                return false;
            }
            i = i + 1;
        }
        proof {
            assert(self@ =~= other@);
        }
        true
    }
}

impl vstd::std_specs::cmp::PartialEqSpecImpl for EntityId {
    open spec fn obeys_eq_spec() -> bool {
        true
    }

    open spec fn eq_spec(&self, other: &EntityId) -> bool {
        self@ == other@
    }
}

/// What the storage decoder yields on a raw identifier column: the 16 bytes
/// themselves, or nothing when the column is not exactly 16 bytes long.
pub open spec fn spec_decode(bytes: Seq<u8>) -> Option<Seq<u8>> {
    if bytes.len() == 16 {
        Some(bytes)
    } else {
        None
    }
}

impl EntityId {
    /// Encode an identifier into its 16-byte storage representation.
    /// Total: always succeeds.
    pub fn encode(&self) -> (r: Vec<u8>)
        ensures
            r@ == self@,
            r@.len() == 16,
    {
        let mut out: Vec<u8> = Vec::new();
        let mut i: usize = 0;
        while i < 16
            invariant
                0 <= i <= 16,
                out@.len() == i,
                forall|k: int| 0 <= k < i ==> out@[k] == self.bytes@[k],
            decreases 16 - i,
        {
            out.push(self.bytes[i]);
            i = i + 1;
        }
        proof {
            assert(out@ =~= self@);
        }
        out
    }

    /// Decode a storage byte sequence back into an identifier; fails exactly
    /// when the sequence is not 16 bytes long.
    pub fn decode(bytes: &[u8]) -> (r: Result<EntityId, DecodeError>)
        ensures
            match r {
                Ok(id) => spec_decode(bytes@) == Some(id@),
                Err(e) => spec_decode(bytes@) is None && e == DecodeError::InvalidIdBytes,
            },
            r is Ok <==> bytes@.len() == 16,
    {
        if bytes.len() != 16 {
            return Err(DecodeError::InvalidIdBytes);
        }
        let mut arr: [u8; 16] = [0u8; 16];
        let mut i: usize = 0;
        while i < 16
            invariant
                0 <= i <= 16,
                bytes@.len() == 16,
                forall|k: int| 0 <= k < i ==> arr@[k] == bytes@[k],
            decreases 16 - i,
        {
            arr[i] = bytes[i];
            i = i + 1;
        }
        let id = EntityId { bytes: arr };
        proof {
            assert(id@ =~= bytes@);
        }
        Ok(id)
    }
}

/// An identifier always holds exactly 16 bytes.
pub proof fn lemma_entity_id_len(id: EntityId)
    ensures
        id@.len() == 16,
{
}

/// Law: decoding the encoding of an identifier yields the identifier
/// unchanged. `encode` returns its identifier's own 16 bytes, so decoding
/// any 16-byte encoding gives those bytes back.
pub proof fn lemma_id_round_trip(id: Seq<u8>)
    requires
        id.len() == 16,
    ensures
        spec_decode(id) == Some(id),
{
}

/// Relies on uuid::Uuid::new_v4 (and Uuid::as_bytes): a freshly drawn
/// random version-4 identifier as its 16 bytes. The value depends on a
/// random source, so nothing is promised about it.
#[verifier::external_body]
pub(crate) fn fresh_id() -> EntityId {
    EntityId { bytes: *uuid::Uuid::new_v4().as_bytes() }
}

/// What uuid::Uuid::parse_str yields on a string: the 16 denoted bytes when
/// the string is a well-formed textual UUID, and nothing otherwise. The
/// result depends on the characters alone.
pub uninterp spec fn parsed_id(s: Seq<char>) -> Option<Seq<u8>>;

/// Relies on uuid::Uuid::parse_str: parsing succeeds exactly on well-formed
/// textual UUIDs and denotes 16 bytes determined by the string alone; on
/// failure the error describes the parse failure.
#[verifier::external_body]
pub(crate) fn parse_id(s: &str) -> (r: Result<EntityId, String>)
    ensures
        match r {
            Ok(id) => parsed_id(s@) == Some(id@),
            Err(_) => parsed_id(s@) is None,
        },
{
    match uuid::Uuid::parse_str(s) {
        Ok(u) => Ok(EntityId { bytes: *u.as_bytes() }),
        Err(e) => Err(e.to_string()),
    }
}

} // verus!
