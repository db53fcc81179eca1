//! The user repository. It has the same operation set as the role
//! repository, with one additional discipline: `update` and `delete` check
//! that the row exists before mutating and surface NotFound when it does
//! not. Stored rows carry the password hash; responses never expose it.

use vstd::prelude::*;

use crate::errors::RepoError;
use crate::ident::{fresh_id, EntityId};
use crate::models::{opt_id_view, opt_string_view, UserData, UserListResponse, UserResponse};

verus! {

/// The mathematical content of a stored user row, password hash included.
#[verifier::ext_equal]
pub ghost struct UserRowData {
    pub id: Seq<u8>,
    pub username: Seq<char>,
    pub email: Seq<char>,
    pub password_hash: Seq<char>,
    pub role_id: Seq<u8>,
}

/// What a stored row looks like through a response: every field but the
/// password hash.
pub open spec fn user_response_of(u: UserRowData) -> UserData {
    UserData { id: u.id, username: u.username, email: u.email, role_id: u.role_id }
}

/// Every stored row holds a 16-byte identifier and no two rows share one.
pub open spec fn user_rows_wf(rows: Seq<UserRowData>) -> bool {
    &&& forall|i: int| 0 <= i < rows.len() ==> (#[trigger] rows[i]).id.len() == 16
    &&& forall|i: int, j: int|
        #![trigger rows[i], rows[j]]
        0 <= i < j < rows.len() ==> rows[i].id != rows[j].id
}

/// Whether some stored row holds the identifier.
pub open spec fn contains_user(rows: Seq<UserRowData>, id: Seq<u8>) -> bool {
    exists|i: int| 0 <= i < rows.len() && (#[trigger] rows[i]).id == id
}

/// The position a point lookup selects (unique once the rows are
/// well-formed).
pub open spec fn user_index(rows: Seq<UserRowData>, id: Seq<u8>) -> int {
    choose|i: int| 0 <= i < rows.len() && (#[trigger] rows[i]).id == id
}

/// What a point lookup returns.
pub open spec fn lookup_user(rows: Seq<UserRowData>, id: Seq<u8>) -> Option<UserRowData> {
    if contains_user(rows, id) {
        Some(rows[user_index(rows, id)])
    } else {
        None
    }
}

/// COALESCE-style merge: each optional field replaces the stored value
/// only when present; the password hash is never touched by an update.
pub open spec fn merge_user(
    cur: UserRowData,
    username: Option<Seq<char>>,
    email: Option<Seq<char>>,
    role_id: Option<Seq<u8>>,
) -> UserRowData {
    UserRowData {
        id: cur.id,
        username: match username {
            Some(n) => n,
            None => cur.username,
        },
        email: match email {
            Some(e) => e,
            None => cur.email,
        },
        password_hash: cur.password_hash,
        role_id: match role_id {
            Some(r) => r,
            None => cur.role_id,
        },
    }
}

/// The rows that survive deleting an identifier.
pub open spec fn remove_user(rows: Seq<UserRowData>, id: Seq<u8>) -> Seq<UserRowData> {
    rows.filter(|r: UserRowData| r.id != id)
}

/// Deleting an identifier keeps only rows drawn from the original store,
/// keeps well-formedness, and leaves no row under that identifier.
pub proof fn lemma_remove_user(rows: Seq<UserRowData>, id: Seq<u8>)
    requires
        user_rows_wf(rows),
    ensures
        user_rows_wf(remove_user(rows, id)),
        !contains_user(remove_user(rows, id), id),
        forall|k: int|
            0 <= k < remove_user(rows, id).len() ==> rows.contains(
                #[trigger] remove_user(rows, id)[k],
            ),
    decreases rows.len(),
{
    reveal(Seq::filter);
    if rows.len() == 0 {
        assert(remove_user(rows, id) =~= Seq::<UserRowData>::empty());
    } else {
        let pre = rows.drop_last();
        let last = rows.last();
        assert(user_rows_wf(pre)) by {
            assert(forall|i: int| 0 <= i < pre.len() ==> pre[i] == rows[i]);
        }
        lemma_remove_user(pre, id);
        let flt = remove_user(pre, id);
        assert(forall|k: int| 0 <= k < flt.len() ==> rows.contains(#[trigger] flt[k])) by {
            assert(forall|k: int|
                0 <= k < flt.len() ==> exists|j: int| 0 <= j < pre.len() && pre[j] == #[trigger] flt[k]);
            assert(forall|j: int| 0 <= j < pre.len() ==> pre[j] == rows[j]);
        }
        if last.id != id {
            assert(remove_user(rows, id) == flt.push(last));
            assert(forall|k: int| 0 <= k < flt.len() ==> (#[trigger] flt[k]).id != last.id) by {
                assert(forall|k: int|
                    0 <= k < flt.len() ==> exists|j: int|
                        0 <= j < pre.len() && pre[j] == #[trigger] flt[k]);
            }
        } else {
            assert(remove_user(rows, id) == flt);
        }
    }
}

/// Law: after deleting an identifier, a point lookup under it finds
/// nothing.
pub proof fn lemma_delete_then_find_user(rows: Seq<UserRowData>, id: Seq<u8>)
    requires
        user_rows_wf(rows),
    ensures
        lookup_user(remove_user(rows, id), id) is None,
{
    lemma_remove_user(rows, id);
}

/// Law: a row just created is found under its identifier with exactly the
/// supplied fields.
pub proof fn lemma_create_then_find_user(rows: Seq<UserRowData>, row: UserRowData)
    requires
        user_rows_wf(rows),
        !contains_user(rows, row.id),
    ensures
        lookup_user(rows.push(row), row.id) == Some(row),
{
    let rows2 = rows.push(row);
    assert(rows2[rows.len() as int] == row);
    assert(contains_user(rows2, row.id));
    let j = user_index(rows2, row.id);
    if j < rows.len() {
        assert(rows[j] == rows2[j]);
        assert(contains_user(rows, row.id));
    }
}

/// Law: an update in which every optional field is absent writes the
/// stored row back unchanged, so the store is untouched.
pub proof fn lemma_update_all_absent_user(rows: Seq<UserRowData>, id: Seq<u8>)
    requires
        user_rows_wf(rows),
        contains_user(rows, id),
    ensures
        ({
            let i = user_index(rows, id);
            rows.update(i, merge_user(rows[i], None, None, None)) == rows
        }),
{
    let i = user_index(rows, id);
    assert(merge_user(rows[i], None, None, None) == rows[i]);
    assert(rows.update(i, rows[i]) =~= rows);
}

/// A stored user row.
struct UserRecord {
    id: EntityId,
    username: String,
    email: String,
    password_hash: String,
    role_id: EntityId,
}

impl View for UserRecord {
    type V = UserRowData;

    closed spec fn view(&self) -> UserRowData {
        UserRowData {
            id: self.id@,
            username: self.username@,
            email: self.email@,
            password_hash: self.password_hash@,
            role_id: self.role_id@,
        }
    }
}

impl UserRecord {
    /// A field-equal copy.
    fn duplicate(&self) -> (r: UserRecord)
        ensures
            r@ == self@,
    {
        UserRecord {
            id: self.id,
            username: self.username.clone(),
            email: self.email.clone(),
            password_hash: self.password_hash.clone(),
            role_id: self.role_id,
        }
    }

    /// The response shape of this row: every field but the password hash.
    fn response(&self) -> (r: UserResponse)
        ensures
            r@ == user_response_of(self@),
    {
        UserResponse {
            id: self.id,
            username: self.username.clone(),
            email: self.email.clone(),
            role_id: self.role_id,
        }
    }
}

/// The user store: rows keyed by their generated identifier.
pub struct UserRepository {
    rows: Vec<UserRecord>,
}

impl View for UserRepository {
    type V = Seq<UserRowData>;

    closed spec fn view(&self) -> Seq<UserRowData> {
        self.rows@.map_values(|r: UserRecord| r@)
    }
}

impl UserRepository {
    pub open spec fn wf(&self) -> bool {
        user_rows_wf(self@)
    }

    /// A repository over an empty store.
    pub fn new() -> (r: UserRepository)
        ensures
            r@ == Seq::<UserRowData>::empty(),
            r.wf(),
    {
        let r = UserRepository { rows: Vec::new() };
        proof {
            assert(r@ =~= Seq::<UserRowData>::empty());
        }
        r
    }

    /// Whether a row holds the identifier.
    fn exists_id(&self, id: &EntityId) -> (r: bool)
        ensures
            r == contains_user(self@, id@),
    {
        let mut i: usize = 0;
        while i < self.rows.len()
            invariant
                0 <= i <= self.rows.len(),
                forall|k: int| 0 <= k < i ==> (#[trigger] self@[k]).id != id@,
            decreases self.rows.len() - i,
        {
            if self.rows[i].id == *id {
                proof {
                    assert(self@[i as int].id == id@);
                }
                return true;
            }
            i = i + 1;
        }
        false
    }

    /// Every stored user, unordered and without password hashes; an empty
    /// store yields an empty list, not an error.
    pub fn find_all(&self) -> (r: Result<UserListResponse, RepoError>)
        ensures
            r matches Ok(list) && list@ == self@.map_values(|u: UserRowData| user_response_of(u)),
    {
        let mut users: Vec<UserResponse> = Vec::new();
        let mut i: usize = 0;
        while i < self.rows.len()
            invariant
                0 <= i <= self.rows.len(),
                users@.len() == i,
                forall|k: int| 0 <= k < i ==> (#[trigger] users@[k])@ == user_response_of(self@[k]),
            decreases self.rows.len() - i,
        {
            users.push(self.rows[i].response());
            i = i + 1;
        }
        let list = UserListResponse { users };
        proof {
            assert(list@ =~~= self@.map_values(|u: UserRowData| user_response_of(u)));
        }
        Ok(list)
    }

    /// Insert a user under a caller-supplied identifier: refused exactly
    /// when the identifier is already taken, otherwise the row is appended
    /// and the constructed value (not a re-read) is returned. The received
    /// password is already hashed; this layer stores it opaquely.
    pub fn create_with_id(
        &mut self,
        id: EntityId,
        username: &str,
        email: &str,
        password_hash: &str,
        role_id: EntityId,
    ) -> (r: Result<UserResponse, RepoError>)
        requires
            old(self).wf(),
        ensures
            final(self).wf(),
            contains_user(old(self)@, id@) ==> (r matches Err(e) && e == RepoError::Conflict
                && final(self)@ == old(self)@),
            !contains_user(old(self)@, id@) ==> (r matches Ok(resp) && {
                &&& resp.id@ == id@
                &&& resp.username@ == username@
                &&& resp.email@ == email@
                &&& resp.role_id@ == role_id@
                &&& final(self)@ == old(self)@.push(
                    UserRowData {
                        id: id@,
                        username: username@,
                        email: email@,
                        password_hash: password_hash@,
                        role_id: role_id@,
                    },
                )
            }),
    {
        if self.exists_id(&id) {
            return Err(RepoError::Conflict);
        }
        let record = UserRecord {
            id,
            username: username.to_owned(),
            email: email.to_owned(),
            password_hash: password_hash.to_owned(),
            role_id,
        };
        let resp = record.response();
        self.rows.push(record);
        proof {
            crate::ident::lemma_entity_id_len(id);
            assert(self@ =~~= old(self)@.push(
                UserRowData {
                    id: id@,
                    username: username@,
                    email: email@,
                    password_hash: password_hash@,
                    role_id: role_id@,
                },
            ));
        }
        Ok(resp)
    }

    /// Insert a user under a freshly generated identifier. The identifier
    /// is drawn at random, so all that is promised of a failure is that it
    /// reports a collision and leaves the store unchanged;
    /// [`Self::create_with_id`] carries the exact contract.
    pub fn create(&mut self, username: &str, email: &str, password_hash: &str, role_id: EntityId)
        -> (r: Result<UserResponse, RepoError>)
        requires
            old(self).wf(),
        ensures
            final(self).wf(),
            match r {
                Ok(resp) => {
                    &&& !contains_user(old(self)@, resp.id@)
                    &&& resp.username@ == username@
                    &&& resp.email@ == email@
                    &&& resp.role_id@ == role_id@
                    &&& final(self)@ == old(self)@.push(
                        UserRowData {
                            id: resp.id@,
                            username: username@,
                            email: email@,
                            password_hash: password_hash@,
                            role_id: role_id@,
                        },
                    )
                },
                Err(e) => e == RepoError::Conflict && final(self)@ == old(self)@,
            },
    {
        let id = fresh_id();
        self.create_with_id(id, username, email, password_hash, role_id)
    }

    /// The user stored under an identifier; NotFound exactly when no row
    /// matches.
    pub fn find_by_id(&self, id: EntityId) -> (r: Result<UserResponse, RepoError>)
        requires
            self.wf(),
        ensures
            match r {
                Ok(resp) => contains_user(self@, id@) && (lookup_user(self@, id@) matches Some(row)
                    && resp@ == user_response_of(row)),
                Err(e) => e == RepoError::NotFound && !contains_user(self@, id@),
            },
            r is Ok <==> contains_user(self@, id@),
    {
        let mut i: usize = 0;
        while i < self.rows.len()
            invariant
                0 <= i <= self.rows.len(),
                self.wf(),
                forall|k: int| 0 <= k < i ==> (#[trigger] self@[k]).id != id@,
            decreases self.rows.len() - i,
        {
            if self.rows[i].id == id {
                let resp = self.rows[i].response();
                proof {
                    assert(self@[i as int].id == id@);
                    let j = user_index(self@, id@);
                    if j != i as int {
                        if j < i as int {
                            assert(self@[j].id != self@[i as int].id);
                        } else {
                            assert(self@[i as int].id != self@[j].id);
                        }
                    }
                }
                return Ok(resp);
            }
            i = i + 1;
        }
        Err(RepoError::NotFound)
    }

    /// Merge the optional fields into the stored row (absent fields pass
    /// through unchanged; the password hash is never touched) and return
    /// the row as re-read after the write. The row's existence is checked
    /// before the write; NotFound exactly when no row matches, leaving the
    /// store untouched.
    pub fn update(
        &mut self,
        id: EntityId,
        username: Option<String>,
        email: Option<String>,
        role_id: Option<EntityId>,
    ) -> (r: Result<UserResponse, RepoError>)
        requires
            old(self).wf(),
        ensures
            final(self).wf(),
            match r {
                Ok(resp) => {
                    &&& contains_user(old(self)@, id@)
                    &&& resp@ == user_response_of(
                        merge_user(
                            old(self)@[user_index(old(self)@, id@)],
                            opt_string_view(username),
                            opt_string_view(email),
                            opt_id_view(role_id),
                        ),
                    )
                    &&& final(self)@ == old(self)@.update(
                        user_index(old(self)@, id@),
                        merge_user(
                            old(self)@[user_index(old(self)@, id@)],
                            opt_string_view(username),
                            opt_string_view(email),
                            opt_id_view(role_id),
                        ),
                    )
                },
                Err(e) => e == RepoError::NotFound && !contains_user(old(self)@, id@)
                    && final(self)@ == old(self)@,
            },
            r is Ok <==> contains_user(old(self)@, id@),
    {
        let mut i: usize = 0;
        while i < self.rows.len()
            invariant
                0 <= i <= self.rows.len(),
                forall|k: int| 0 <= k < i ==> (#[trigger] self@[k]).id != id@,
                self@ == old(self)@,
                self.wf(),
            decreases self.rows.len() - i,
        {
            if self.rows[i].id == id {
                proof {
                    assert(self@[i as int].id == id@);
                    let j = user_index(self@, id@);
                    if j != i as int {
                        if j < i as int {
                            assert(self@[j].id != self@[i as int].id);
                        } else {
                            assert(self@[i as int].id != self@[j].id);
                        }
                    }
                }
                let merged = UserRecord {
                    id,
                    username: match username {
                        Some(n) => n,
                        None => self.rows[i].username.clone(),
                    },
                    email: match email {
                        Some(e) => e,
                        None => self.rows[i].email.clone(),
                    },
                    password_hash: self.rows[i].password_hash.clone(),
                    role_id: match role_id {
                        Some(rid) => rid,
                        None => self.rows[i].role_id,
                    },
                };
                let resp = merged.response();
                self.rows[i] = merged;
                proof {
                    assert(self@ =~~= old(self)@.update(
                        i as int,
                        merge_user(
                            old(self)@[i as int],
                            opt_string_view(username),
                            opt_string_view(email),
                            opt_id_view(role_id),
                        ),
                    ));
                    assert(self.wf()) by {
                        assert(forall|k: int|
                            0 <= k < self@.len() ==> (#[trigger] self@[k]).id == old(self)@[k].id);
                    }
                }
                return Ok(resp);
            }
            i = i + 1;
        }
        Err(RepoError::NotFound)
    }

    /// Delete by identifier. The row's existence is checked before the
    /// delete; NotFound exactly when no row matches, leaving the store
    /// untouched.
    pub fn delete(&mut self, id: EntityId) -> (r: Result<(), RepoError>)
        requires
            old(self).wf(),
        ensures
            final(self).wf(),
            match r {
                Ok(_) => contains_user(old(self)@, id@) && final(self)@ == remove_user(
                    old(self)@,
                    id@,
                ),
                Err(e) => e == RepoError::NotFound && !contains_user(old(self)@, id@)
                    && final(self)@ == old(self)@,
            },
            r is Ok <==> contains_user(old(self)@, id@),
    {
        if !self.exists_id(&id) {
            return Err(RepoError::NotFound);
        }
        let mut kept: Vec<UserRecord> = Vec::new();
        let mut i: usize = 0;
        proof {
            reveal(Seq::filter);
            assert(kept@.map_values(|r: UserRecord| r@) =~= remove_user(
                old(self)@.subrange(0, 0),
                id@,
            ));
        }
        while i < self.rows.len()
            invariant
                0 <= i <= self.rows.len(),
                self@ == old(self)@,
                kept@.map_values(|r: UserRecord| r@) == remove_user(
                    old(self)@.subrange(0, i as int),
                    id@,
                ),
            decreases self.rows.len() - i,
        {
            let ghost prev = old(self)@.subrange(0, i as int);
            if !(self.rows[i].id == id) {
                kept.push(self.rows[i].duplicate());
            }
            i = i + 1;
            proof {
                reveal(Seq::filter);
                let cur = old(self)@.subrange(0, i as int);
                assert(cur.drop_last() =~= prev);
                assert(cur.last() == old(self)@[i - 1]);
                assert(kept@.map_values(|r: UserRecord| r@) =~= remove_user(cur, id@));
            }
        }
        proof {
            assert(old(self)@.subrange(0, self.rows@.len() as int) =~= old(self)@);
            lemma_remove_user(old(self)@, id@);
        }
        self.rows = kept;
        Ok(())
    }
}

} // verus!
