//! The role repository: find-all / create / find-by-id / update / delete,
//! specified against the sequence of stored role rows.

use vstd::prelude::*;

use crate::errors::RepoError;
use crate::ident::{fresh_id, EntityId};
use crate::models::{opt_string_view, RoleData, RoleListResponse, RoleResponse};

verus! {

/// Every stored row holds a 16-byte identifier and no two rows share one.
pub open spec fn role_rows_wf(rows: Seq<RoleData>) -> bool {
    &&& forall|i: int| 0 <= i < rows.len() ==> (#[trigger] rows[i]).id.len() == 16
    &&& forall|i: int, j: int|
        #![trigger rows[i], rows[j]]
        0 <= i < j < rows.len() ==> rows[i].id != rows[j].id
}

/// Whether some stored row holds the identifier.
pub open spec fn contains_role(rows: Seq<RoleData>, id: Seq<u8>) -> bool {
    exists|i: int| 0 <= i < rows.len() && (#[trigger] rows[i]).id == id
}

/// The position a point lookup selects (meaningful only when the
/// identifier is present; unique once the rows are well-formed).
pub open spec fn role_index(rows: Seq<RoleData>, id: Seq<u8>) -> int {
    choose|i: int| 0 <= i < rows.len() && (#[trigger] rows[i]).id == id
}

/// What a point lookup returns.
pub open spec fn lookup_role(rows: Seq<RoleData>, id: Seq<u8>) -> Option<RoleData> {
    if contains_role(rows, id) {
        Some(rows[role_index(rows, id)])
    } else {
        None
    }
}

/// COALESCE-style merge: each optional field replaces the stored value
/// only when present.
pub open spec fn merge_role(
    cur: RoleData,
    role_name: Option<Seq<char>>,
    description: Option<Seq<char>>,
) -> RoleData {
    RoleData {
        id: cur.id,
        role_name: match role_name {
            Some(n) => n,
            None => cur.role_name,
        },
        description: match description {
            Some(d) => Some(d),
            None => cur.description,
        },
    }
}

/// The rows that survive deleting an identifier.
pub open spec fn remove_role(rows: Seq<RoleData>, id: Seq<u8>) -> Seq<RoleData> {
    rows.filter(|r: RoleData| r.id != id)
}

/// Deleting an identifier keeps only rows drawn from the original store,
/// keeps well-formedness, and leaves no row under that identifier.
pub proof fn lemma_remove_role(rows: Seq<RoleData>, id: Seq<u8>)
    requires
        role_rows_wf(rows),
    ensures
        role_rows_wf(remove_role(rows, id)),
        !contains_role(remove_role(rows, id), id),
        forall|k: int|
            0 <= k < remove_role(rows, id).len() ==> rows.contains(
                #[trigger] remove_role(rows, id)[k],
            ),
    decreases rows.len(),
{
    reveal(Seq::filter);
    if rows.len() == 0 {
        assert(remove_role(rows, id) =~= Seq::<RoleData>::empty());
    } else {
        let pre = rows.drop_last();
        let last = rows.last();
        assert(role_rows_wf(pre)) by {
            assert(forall|i: int| 0 <= i < pre.len() ==> pre[i] == rows[i]);
        }
        lemma_remove_role(pre, id);
        let flt = remove_role(pre, id);
        assert(forall|k: int| 0 <= k < flt.len() ==> rows.contains(#[trigger] flt[k])) by {
            assert(forall|k: int|
                0 <= k < flt.len() ==> exists|j: int| 0 <= j < pre.len() && pre[j] == #[trigger] flt[k]);
            assert(forall|j: int| 0 <= j < pre.len() ==> pre[j] == rows[j]);
        }
        if last.id != id {
            assert(remove_role(rows, id) == flt.push(last));
            assert(forall|k: int| 0 <= k < flt.len() ==> (#[trigger] flt[k]).id != last.id) by {
                assert(forall|k: int|
                    0 <= k < flt.len() ==> exists|j: int|
                        0 <= j < pre.len() && pre[j] == #[trigger] flt[k]);
            }
        } else {
            assert(remove_role(rows, id) == flt);
        }
    }
}

/// Law: after deleting an identifier, a point lookup under it finds
/// nothing.
pub proof fn lemma_delete_then_find_role(rows: Seq<RoleData>, id: Seq<u8>)
    requires
        role_rows_wf(rows),
    ensures
        lookup_role(remove_role(rows, id), id) is None,
{
    lemma_remove_role(rows, id);
}

/// Law: a row just created is found under its identifier with exactly the
/// supplied fields.
pub proof fn lemma_create_then_find_role(rows: Seq<RoleData>, row: RoleData)
    requires
        role_rows_wf(rows),
        !contains_role(rows, row.id),
    ensures
        lookup_role(rows.push(row), row.id) == Some(row),
{
    let rows2 = rows.push(row);
    assert(rows2[rows.len() as int] == row);
    assert(contains_role(rows2, row.id));
    let j = role_index(rows2, row.id);
    if j < rows.len() {
        assert(rows[j] == rows2[j]);
        assert(contains_role(rows, row.id));
    }
}

/// Law: an update in which every optional field is absent writes the
/// stored row back unchanged, so the store is untouched.
pub proof fn lemma_update_all_absent_role(rows: Seq<RoleData>, id: Seq<u8>)
    requires
        role_rows_wf(rows),
        contains_role(rows, id),
    ensures
        ({
            let i = role_index(rows, id);
            rows.update(i, merge_role(rows[i], None, None)) == rows
        }),
{
    let i = role_index(rows, id);
    assert(merge_role(rows[i], None, None) == rows[i]);
    assert(rows.update(i, rows[i]) =~= rows);
}

/// The role store: rows keyed by their generated identifier.
pub struct RoleRepository {
    rows: Vec<RoleResponse>,
}

impl View for RoleRepository {
    type V = Seq<RoleData>;

    closed spec fn view(&self) -> Seq<RoleData> {
        self.rows@.map_values(|r: RoleResponse| r@)
    }
}

impl RoleRepository {
    pub open spec fn wf(&self) -> bool {
        role_rows_wf(self@)
    }

    /// A repository over an empty store.
    pub fn new() -> (r: RoleRepository)
        ensures
            r@ == Seq::<RoleData>::empty(),
            r.wf(),
    {
        let r = RoleRepository { rows: Vec::new() };
        proof {
            assert(r@ =~= Seq::<RoleData>::empty());
        }
        r
    }

    /// Whether a row holds the identifier.
    fn exists_id(&self, id: &EntityId) -> (r: bool)
        ensures
            r == contains_role(self@, id@),
    {
        let mut i: usize = 0;
        while i < self.rows.len()
            invariant
                0 <= i <= self.rows.len(),
                forall|k: int| 0 <= k < i ==> (#[trigger] self@[k]).id != id@,
            decreases self.rows.len() - i,
        {
            if self.rows[i].id == *id {
                proof {
                    assert(self@[i as int].id == id@);
                }
                return true;
            }
            i = i + 1;
        }
        false
    }

    /// Every stored role, unordered; an empty store yields an empty list,
    /// not an error.
    pub fn find_all(&self) -> (r: Result<RoleListResponse, RepoError>)
        ensures
            r matches Ok(list) && list@ == self@,
    {
        let mut roles: Vec<RoleResponse> = Vec::new();
        let mut i: usize = 0;
        while i < self.rows.len()
            invariant
                0 <= i <= self.rows.len(),
                roles@.len() == i,
                forall|k: int| 0 <= k < i ==> (#[trigger] roles@[k])@ == self@[k],
            decreases self.rows.len() - i,
        {
            roles.push(self.rows[i].duplicate());
            i = i + 1;
        }
        let list = RoleListResponse { roles };
        proof {
            assert(list@ =~~= self@);
        }
        Ok(list)
    }

    /// Insert a role under a caller-supplied identifier: refused exactly
    /// when the identifier is already taken, otherwise the row is appended
    /// and the constructed value (not a re-read) is returned.
    pub fn create_with_id(&mut self, id: EntityId, role_name: &str, description: &str) -> (r:
        Result<RoleResponse, RepoError>)
        requires
            old(self).wf(),
        ensures
            final(self).wf(),
            contains_role(old(self)@, id@) ==> (r matches Err(e) && e == RepoError::Conflict
                && final(self)@ == old(self)@),
            !contains_role(old(self)@, id@) ==> (r matches Ok(resp) && {
                &&& resp.id@ == id@
                &&& resp.role_name@ == role_name@
                &&& (resp.description matches Some(d) && d@ == description@)
                &&& final(self)@ == old(self)@.push(resp@)
            }),
    {
        if self.exists_id(&id) {
            return Err(RepoError::Conflict);
        }
        let resp = RoleResponse {
            id,
            role_name: role_name.to_owned(),
            description: Some(description.to_owned()),
        };
        self.rows.push(resp.duplicate());
        proof {
            crate::ident::lemma_entity_id_len(id);
            assert(self@ =~= old(self)@.push(resp@));
        }
        Ok(resp)
    }

    /// Insert a role under a freshly generated identifier. The identifier
    /// is drawn at random, so all that is promised of a failure is that it
    /// reports a collision and leaves the store unchanged;
    /// [`Self::create_with_id`] carries the exact contract.
    pub fn create(&mut self, role_name: &str, description: &str) -> (r: Result<
        RoleResponse,
        RepoError,
    >)
        requires
            old(self).wf(),
        ensures
            final(self).wf(),
            match r {
                Ok(resp) => {
                    &&& !contains_role(old(self)@, resp.id@)
                    &&& resp.role_name@ == role_name@
                    &&& resp.description matches Some(d) && d@ == description@
                    &&& final(self)@ == old(self)@.push(resp@)
                },
                Err(e) => e == RepoError::Conflict && final(self)@ == old(self)@,
            },
    {
        let id = fresh_id();
        self.create_with_id(id, role_name, description)
    }

    /// The role stored under an identifier; NotFound exactly when no row
    /// matches.
    pub fn find_by_id(&self, id: EntityId) -> (r: Result<RoleResponse, RepoError>)
        requires
            self.wf(),
        ensures
            match r {
                Ok(resp) => lookup_role(self@, id@) == Some(resp@),
                Err(e) => e == RepoError::NotFound && !contains_role(self@, id@),
            },
            r is Ok <==> contains_role(self@, id@),
    {
        let mut i: usize = 0;
        while i < self.rows.len()
            invariant
                0 <= i <= self.rows.len(),
                self.wf(),
                forall|k: int| 0 <= k < i ==> (#[trigger] self@[k]).id != id@,
            decreases self.rows.len() - i,
        {
            if self.rows[i].id == id {
                let resp = self.rows[i].duplicate();
                proof {
                    assert(self@[i as int].id == id@);
                    let j = role_index(self@, id@);
                    if j != i as int {
                        if j < i as int {
                            assert(self@[j].id != self@[i as int].id);
                        } else {
                            assert(self@[i as int].id != self@[j].id);
                        }
                    }
                }
                return Ok(resp);
            }
            i = i + 1;
        }
        Err(RepoError::NotFound)
    }

    /// Merge the optional fields into the stored row (absent fields pass
    /// through unchanged) and return the row as re-read after the write;
    /// NotFound exactly when no row matches, leaving the store untouched.
    pub fn update(&mut self, id: EntityId, role_name: Option<String>, description: Option<
        String,
    >) -> (r: Result<RoleResponse, RepoError>)
        requires
            old(self).wf(),
        ensures
            final(self).wf(),
            match r {
                Ok(resp) => {
                    &&& contains_role(old(self)@, id@)
                    &&& resp@ == merge_role(
                        old(self)@[role_index(old(self)@, id@)],
                        opt_string_view(role_name),
                        opt_string_view(description),
                    )
                    &&& final(self)@ == old(self)@.update(role_index(old(self)@, id@), resp@)
                },
                Err(e) => e == RepoError::NotFound && !contains_role(old(self)@, id@)
                    && final(self)@ == old(self)@,
            },
            r is Ok <==> contains_role(old(self)@, id@),
    {
        let mut i: usize = 0;
        while i < self.rows.len()
            invariant
                0 <= i <= self.rows.len(),
                forall|k: int| 0 <= k < i ==> (#[trigger] self@[k]).id != id@,
                self@ == old(self)@,
                self.wf(),
            decreases self.rows.len() - i,
        {
            if self.rows[i].id == id {
                proof {
                    assert(self@[i as int].id == id@);
                    let j = role_index(self@, id@);
                    if j != i as int {
                        if j < i as int {
                            assert(self@[j].id != self@[i as int].id);
                        } else {
                            assert(self@[i as int].id != self@[j].id);
                        }
                    }
                }
                let merged = RoleResponse {
                    id,
                    role_name: match role_name {
                        Some(n) => n,
                        None => self.rows[i].role_name.clone(),
                    },
                    description: match description {
                        Some(d) => Some(d),
                        None => match &self.rows[i].description {
                            Some(d) => Some(d.clone()),
                            None => None,
                        },
                    },
                };
                let resp = merged.duplicate();
                self.rows[i] = merged;
                proof {
                    assert(self@ =~= old(self)@.update(i as int, resp@));
                    assert(self.wf()) by {
                        assert(forall|k: int|
                            0 <= k < self@.len() ==> (#[trigger] self@[k]).id == old(self)@[k].id);
                    }
                }
                return Ok(resp);
            }
            i = i + 1;
        }
        Err(RepoError::NotFound)
    }

    /// Delete by identifier; deleting a missing identifier is a silent
    /// no-op at this layer, so the operation always succeeds.
    pub fn delete(&mut self, id: EntityId) -> (r: Result<(), RepoError>)
        requires
            old(self).wf(),
        ensures
            final(self).wf(),
            r is Ok,
            final(self)@ == remove_role(old(self)@, id@),
    {
        let mut kept: Vec<RoleResponse> = Vec::new();
        let mut i: usize = 0;
        proof {
            reveal(Seq::filter);
            assert(kept@.map_values(|r: RoleResponse| r@) =~= remove_role(
                old(self)@.subrange(0, 0),
                id@,
            ));
        }
        while i < self.rows.len()
            invariant
                0 <= i <= self.rows.len(),
                self@ == old(self)@,
                kept@.map_values(|r: RoleResponse| r@) == remove_role(
                    old(self)@.subrange(0, i as int),
                    id@,
                ),
            decreases self.rows.len() - i,
        {
            let ghost prev = old(self)@.subrange(0, i as int);
            if !(self.rows[i].id == id) {
                kept.push(self.rows[i].duplicate());
            }
            i = i + 1;
            proof {
                reveal(Seq::filter);
                let cur = old(self)@.subrange(0, i as int);
                assert(cur.drop_last() =~= prev);
                assert(cur.last() == old(self)@[i - 1]);
                assert(kept@.map_values(|r: RoleResponse| r@) =~= remove_role(cur, id@));
            }
        }
        proof {
            assert(old(self)@.subrange(0, self.rows@.len() as int) =~= old(self)@);
            lemma_remove_role(old(self)@, id@);
        }
        self.rows = kept;
        Ok(())
    }
}

} // verus!
