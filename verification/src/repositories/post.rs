//! The post repository. It has the same shape as the role repository with
//! two extra dimensions: the status enum persisted as a string token, and a
//! secondary lookup by the owning user. One deliberate asymmetry: on
//! update, `status` and `user_id` are required, so callers must supply
//! them; the remaining optional fields coalesce against the stored row as
//! elsewhere.

use vstd::prelude::*;

use crate::entities::PostStatus;
use crate::errors::RepoError;
use crate::ident::{fresh_id, EntityId};
use crate::models::{opt_string_view, PostData, PostListResponse, PostResponse};

verus! {

/// Every stored row holds 16-byte identifiers and no two rows share a
/// primary identifier.
pub open spec fn post_rows_wf(rows: Seq<PostData>) -> bool {
    &&& forall|i: int|
        0 <= i < rows.len() ==> (#[trigger] rows[i]).id.len() == 16 && rows[i].user_id.len() == 16
    &&& forall|i: int, j: int|
        #![trigger rows[i], rows[j]]
        0 <= i < j < rows.len() ==> rows[i].id != rows[j].id
}

/// Whether some stored row holds the identifier.
pub open spec fn contains_post(rows: Seq<PostData>, id: Seq<u8>) -> bool {
    exists|i: int| 0 <= i < rows.len() && (#[trigger] rows[i]).id == id
}

/// The position a point lookup selects (unique once the rows are
/// well-formed).
pub open spec fn post_index(rows: Seq<PostData>, id: Seq<u8>) -> int {
    choose|i: int| 0 <= i < rows.len() && (#[trigger] rows[i]).id == id
}

/// What a point lookup returns.
pub open spec fn lookup_post(rows: Seq<PostData>, id: Seq<u8>) -> Option<PostData> {
    if contains_post(rows, id) {
        Some(rows[post_index(rows, id)])
    } else {
        None
    }
}

/// The merge an update writes: `title`, `content` and `published_at`
/// coalesce against the stored row, while `status` and `user_id` are
/// required and always overwrite.
pub open spec fn merge_post(
    cur: PostData,
    title: Option<Seq<char>>,
    content: Option<Seq<char>>,
    status: PostStatus,
    published_at: Option<i64>,
    user_id: Seq<u8>,
) -> PostData {
    PostData {
        id: cur.id,
        title: match title {
            Some(t) => t,
            None => cur.title,
        },
        content: match content {
            Some(c) => c,
            None => cur.content,
        },
        status: status,
        published_at: match published_at {
            Some(p) => Some(p),
            None => cur.published_at,
        },
        user_id: user_id,
    }
}

/// The rows that survive deleting an identifier.
pub open spec fn remove_post(rows: Seq<PostData>, id: Seq<u8>) -> Seq<PostData> {
    rows.filter(|r: PostData| r.id != id)
}

/// The rows belonging to a user, in store order.
pub open spec fn posts_of_user(rows: Seq<PostData>, user_id: Seq<u8>) -> Seq<PostData> {
    rows.filter(|r: PostData| r.user_id == user_id)
}

/// Deleting an identifier keeps only rows drawn from the original store,
/// keeps well-formedness, and leaves no row under that identifier.
pub proof fn lemma_remove_post(rows: Seq<PostData>, id: Seq<u8>)
    requires
        post_rows_wf(rows),
    ensures
        post_rows_wf(remove_post(rows, id)),
        !contains_post(remove_post(rows, id), id),
        forall|k: int|
            0 <= k < remove_post(rows, id).len() ==> rows.contains(
                #[trigger] remove_post(rows, id)[k],
            ),
    decreases rows.len(),
{
    reveal(Seq::filter);
    if rows.len() == 0 {
        assert(remove_post(rows, id) =~= Seq::<PostData>::empty());
    } else {
        let pre = rows.drop_last();
        let last = rows.last();
        assert(post_rows_wf(pre)) by {
            assert(forall|i: int| 0 <= i < pre.len() ==> pre[i] == rows[i]);
        }
        lemma_remove_post(pre, id);
        let flt = remove_post(pre, id);
        assert(forall|k: int| 0 <= k < flt.len() ==> rows.contains(#[trigger] flt[k])) by {
            assert(forall|k: int|
                0 <= k < flt.len() ==> exists|j: int| 0 <= j < pre.len() && pre[j] == #[trigger] flt[k]);
            assert(forall|j: int| 0 <= j < pre.len() ==> pre[j] == rows[j]);
        }
        if last.id != id {
            assert(remove_post(rows, id) == flt.push(last));
            assert(forall|k: int| 0 <= k < flt.len() ==> (#[trigger] flt[k]).id != last.id) by {
                assert(forall|k: int|
                    0 <= k < flt.len() ==> exists|j: int|
                        0 <= j < pre.len() && pre[j] == #[trigger] flt[k]);
            }
        } else {
            assert(remove_post(rows, id) == flt);
        }
    }
}

/// Law: after deleting an identifier, a point lookup under it finds
/// nothing.
pub proof fn lemma_delete_then_find_post(rows: Seq<PostData>, id: Seq<u8>)
    requires
        post_rows_wf(rows),
    ensures
        lookup_post(remove_post(rows, id), id) is None,
{
    lemma_remove_post(rows, id);
}

/// Law: a row just created is found under its identifier with exactly the
/// supplied fields.
pub proof fn lemma_create_then_find_post(rows: Seq<PostData>, row: PostData)
    requires
        post_rows_wf(rows),
        !contains_post(rows, row.id),
    ensures
        lookup_post(rows.push(row), row.id) == Some(row),
{
    let rows2 = rows.push(row);
    assert(rows2[rows.len() as int] == row);
    assert(contains_post(rows2, row.id));
    let j = post_index(rows2, row.id);
    if j < rows.len() {
        assert(rows[j] == rows2[j]);
        assert(contains_post(rows, row.id));
    }
}

/// Law: an update whose optional fields are all absent and whose required
/// `status` and `user_id` repeat the stored values writes the stored row
/// back unchanged, so the store is untouched. (An update with `status` or
/// `user_id` absent is rejected before it reaches the store, so the
/// all-fields-absent form cannot arise here.)
pub proof fn lemma_update_all_absent_post(rows: Seq<PostData>, id: Seq<u8>)
    requires
        post_rows_wf(rows),
        contains_post(rows, id),
    ensures
        ({
            let i = post_index(rows, id);
            rows.update(
                i,
                merge_post(rows[i], None, None, rows[i].status, None, rows[i].user_id),
            ) == rows
        }),
{
    let i = post_index(rows, id);
    assert(merge_post(rows[i], None, None, rows[i].status, None, rows[i].user_id) == rows[i]);
    assert(rows.update(i, rows[i]) =~= rows);
}

/// Law: a user with no stored posts selects the empty sequence, not an
/// error.
pub proof fn lemma_posts_of_user_empty(rows: Seq<PostData>, user_id: Seq<u8>)
    requires
        forall|i: int| 0 <= i < rows.len() ==> (#[trigger] rows[i]).user_id != user_id,
    ensures
        posts_of_user(rows, user_id) == Seq::<PostData>::empty(),
    decreases rows.len(),
{
    reveal(Seq::filter);
    if rows.len() == 0 {
        assert(posts_of_user(rows, user_id) =~= Seq::<PostData>::empty());
    } else {
        let pre = rows.drop_last();
        assert(forall|i: int| 0 <= i < pre.len() ==> (#[trigger] pre[i]).user_id != user_id) by {
            assert(forall|i: int| 0 <= i < pre.len() ==> pre[i] == rows[i]);
        }
        lemma_posts_of_user_empty(pre, user_id);
        assert(posts_of_user(rows, user_id) == posts_of_user(pre, user_id));
    }
}

/// The post store: rows keyed by their generated identifier.
pub struct PostRepository {
    rows: Vec<PostResponse>,
}

impl View for PostRepository {
    type V = Seq<PostData>;

    closed spec fn view(&self) -> Seq<PostData> {
        self.rows@.map_values(|r: PostResponse| r@)
    }
}

impl PostRepository {
    pub open spec fn wf(&self) -> bool {
        post_rows_wf(self@)
    }

    /// A repository over an empty store.
    pub fn new() -> (r: PostRepository)
        ensures
            r@ == Seq::<PostData>::empty(),
            r.wf(),
    {
        let r = PostRepository { rows: Vec::new() };
        proof {
            assert(r@ =~= Seq::<PostData>::empty());
        }
        r
    }

    /// Whether a row holds the identifier.
    fn exists_id(&self, id: &EntityId) -> (r: bool)
        ensures
            r == contains_post(self@, id@),
    {
        let mut i: usize = 0;
        while i < self.rows.len()
            invariant
                0 <= i <= self.rows.len(),
                forall|k: int| 0 <= k < i ==> (#[trigger] self@[k]).id != id@,
            decreases self.rows.len() - i,
        {
            if self.rows[i].id == *id {
                proof {
                    assert(self@[i as int].id == id@);
                }
                return true;
            }
            i = i + 1;
        }
        false
    }

    /// Every stored post, unordered; an empty store yields an empty list,
    /// not an error.
    pub fn find_all(&self) -> (r: Result<PostListResponse, RepoError>)
        ensures
            r matches Ok(list) && list@ == self@,
    {
        let mut posts: Vec<PostResponse> = Vec::new();
        let mut i: usize = 0;
        while i < self.rows.len()
            invariant
                0 <= i <= self.rows.len(),
                posts@.len() == i,
                forall|k: int| 0 <= k < i ==> (#[trigger] posts@[k])@ == self@[k],
            decreases self.rows.len() - i,
        {
            posts.push(self.rows[i].duplicate());
            i = i + 1;
        }
        let list = PostListResponse { posts };
        proof {
            assert(list@ =~~= self@);
        }
        Ok(list)
    }

    /// Insert a post under a caller-supplied identifier: refused exactly
    /// when the identifier is already taken, otherwise the row is appended
    /// and the constructed value, carrying the typed status rather than
    /// its stored token, is returned.
    pub fn create_with_id(
        &mut self,
        id: EntityId,
        title: String,
        content: String,
        status: PostStatus,
        published_at: Option<i64>,
        user_id: EntityId,
    ) -> (r: Result<PostResponse, RepoError>)
        requires
            old(self).wf(),
        ensures
            final(self).wf(),
            contains_post(old(self)@, id@) ==> (r matches Err(e) && e == RepoError::Conflict
                && final(self)@ == old(self)@),
            !contains_post(old(self)@, id@) ==> (r matches Ok(resp) && {
                &&& resp.id@ == id@
                &&& resp.title@ == title@
                &&& resp.content@ == content@
                &&& resp.status == status
                &&& resp.published_at == published_at
                &&& resp.user_id@ == user_id@
                &&& final(self)@ == old(self)@.push(resp@)
            }),
    {
        if self.exists_id(&id) {
            return Err(RepoError::Conflict);
        }
        let resp = PostResponse { id, title, content, status, published_at, user_id };
        self.rows.push(resp.duplicate());
        proof {
            crate::ident::lemma_entity_id_len(id);
            crate::ident::lemma_entity_id_len(user_id);
            assert(self@ =~= old(self)@.push(resp@));
        }
        Ok(resp)
    }

    /// Insert a post under a freshly generated identifier. The identifier
    /// is drawn at random, so all that is promised of a failure is that it
    /// reports a collision and leaves the store unchanged;
    /// [`Self::create_with_id`] carries the exact contract.
    pub fn create(
        &mut self,
        title: String,
        content: String,
        status: PostStatus,
        published_at: Option<i64>,
        user_id: EntityId,
    ) -> (r: Result<PostResponse, RepoError>)
        requires
            old(self).wf(),
        ensures
            final(self).wf(),
            match r {
                Ok(resp) => {
                    &&& !contains_post(old(self)@, resp.id@)
                    &&& resp.title@ == title@
                    &&& resp.content@ == content@
                    &&& resp.status == status
                    &&& resp.published_at == published_at
                    &&& resp.user_id@ == user_id@
                    &&& final(self)@ == old(self)@.push(resp@)
                },
                Err(e) => e == RepoError::Conflict && final(self)@ == old(self)@,
            },
    {
        let id = fresh_id();
        self.create_with_id(id, title, content, status, published_at, user_id)
    }

    /// The post stored under an identifier; NotFound exactly when no row
    /// matches.
    pub fn find_by_id(&self, id: EntityId) -> (r: Result<PostResponse, RepoError>)
        requires
            self.wf(),
        ensures
            match r {
                Ok(resp) => lookup_post(self@, id@) == Some(resp@),
                Err(e) => e == RepoError::NotFound && !contains_post(self@, id@),
            },
            r is Ok <==> contains_post(self@, id@),
    {
        let mut i: usize = 0;
        while i < self.rows.len()
            invariant
                0 <= i <= self.rows.len(),
                self.wf(),
                forall|k: int| 0 <= k < i ==> (#[trigger] self@[k]).id != id@,
            decreases self.rows.len() - i,
        {
            if self.rows[i].id == id {
                let resp = self.rows[i].duplicate();
                proof {
                    assert(self@[i as int].id == id@);
                    let j = post_index(self@, id@);
                    if j != i as int {
                        if j < i as int {
                            assert(self@[j].id != self@[i as int].id);
                        } else {
                            assert(self@[i as int].id != self@[j].id);
                        }
                    }
                }
                return Ok(resp);
            }
            i = i + 1;
        }
        Err(RepoError::NotFound)
    }

    /// The posts belonging to a user, in store order; a user with no posts
    /// yields an empty list, not an error.
    pub fn find_by_user_id(&self, user_id: EntityId) -> (r: Result<PostListResponse, RepoError>)
        ensures
            r matches Ok(list) && list@ == posts_of_user(self@, user_id@),
    {
        let mut posts: Vec<PostResponse> = Vec::new();
        let mut i: usize = 0;
        proof {
            reveal(Seq::filter);
            assert(posts@.map_values(|r: PostResponse| r@) =~= posts_of_user(
                self@.subrange(0, 0),
                user_id@,
            ));
        }
        while i < self.rows.len()
            invariant
                0 <= i <= self.rows.len(),
                posts@.map_values(|r: PostResponse| r@) == posts_of_user(
                    self@.subrange(0, i as int),
                    user_id@,
                ),
            decreases self.rows.len() - i,
        {
            let ghost prev = self@.subrange(0, i as int);
            if self.rows[i].user_id == user_id {
                posts.push(self.rows[i].duplicate());
            }
            i = i + 1;
            proof {
                reveal(Seq::filter);
                let cur = self@.subrange(0, i as int);
                assert(cur.drop_last() =~= prev);
                assert(cur.last() == self@[i - 1]);
                assert(posts@.map_values(|r: PostResponse| r@) =~= posts_of_user(cur, user_id@));
            }
        }
        proof {
            assert(self@.subrange(0, self.rows@.len() as int) =~= self@);
        }
        Ok(PostListResponse { posts })
    }

    /// Merge into the stored row and return the row as re-read after the
    /// write: `title`, `content` and `published_at` pass through unchanged
    /// when absent, while the required `status` and `user_id` always
    /// overwrite. NotFound exactly when no row matches, leaving the store
    /// untouched.
    pub fn update(
        &mut self,
        id: EntityId,
        title: Option<String>,
        content: Option<String>,
        status: Option<PostStatus>,
        published_at: Option<i64>,
        user_id: Option<EntityId>,
    ) -> (r: Result<PostResponse, RepoError>)
        requires
            old(self).wf(),
            status is Some,
            user_id is Some,
        ensures
            final(self).wf(),
            match r {
                Ok(resp) => {
                    &&& contains_post(old(self)@, id@)
                    &&& resp@ == merge_post(
                        old(self)@[post_index(old(self)@, id@)],
                        opt_string_view(title),
                        opt_string_view(content),
                        status.unwrap(),
                        published_at,
                        user_id.unwrap()@,
                    )
                    &&& final(self)@ == old(self)@.update(post_index(old(self)@, id@), resp@)
                },
                Err(e) => e == RepoError::NotFound && !contains_post(old(self)@, id@)
                    && final(self)@ == old(self)@,
            },
            r is Ok <==> contains_post(old(self)@, id@),
    {
        let status_v = match status {
            Some(s) => s,
            None => {
                return Err(RepoError::NotFound);
            },
        };
        let user_id_v = match user_id {
            Some(u) => u,
            None => {
                return Err(RepoError::NotFound);
            },
        };
        let mut i: usize = 0;
        while i < self.rows.len()
            invariant
                0 <= i <= self.rows.len(),
                forall|k: int| 0 <= k < i ==> (#[trigger] self@[k]).id != id@,
                self@ == old(self)@,
                self.wf(),
                status == Some(status_v),
                user_id == Some(user_id_v),
            decreases self.rows.len() - i,
        {
            if self.rows[i].id == id {
                proof {
                    assert(self@[i as int].id == id@);
                    let j = post_index(self@, id@);
                    if j != i as int {
                        if j < i as int {
                            assert(self@[j].id != self@[i as int].id);
                        } else {
                            assert(self@[i as int].id != self@[j].id);
                        }
                    }
                }
                let merged = PostResponse {
                    id,
                    title: match title {
                        Some(t) => t,
                        None => self.rows[i].title.clone(),
                    },
                    content: match content {
                        Some(c) => c,
                        None => self.rows[i].content.clone(),
                    },
                    status: status_v,
                    published_at: match published_at {
                        Some(p) => Some(p),
                        None => self.rows[i].published_at,
                    },
                    user_id: user_id_v,
                };
                let resp = merged.duplicate();
                self.rows[i] = merged;
                proof {
                    crate::ident::lemma_entity_id_len(user_id_v);
                    assert(self@ =~~= old(self)@.update(i as int, resp@));
                    assert(self.wf()) by {
                        assert(forall|k: int|
                            0 <= k < self@.len() ==> (#[trigger] self@[k]).id == old(self)@[k].id);
                    }
                }
                return Ok(resp);
            }
            i = i + 1;
        }
        Err(RepoError::NotFound)
    }

    /// Delete by identifier; deleting a missing identifier is a silent
    /// no-op at this layer, so the operation always succeeds.
    pub fn delete(&mut self, id: EntityId) -> (r: Result<(), RepoError>)
        requires
            old(self).wf(),
        ensures
            final(self).wf(),
            r is Ok,
            final(self)@ == remove_post(old(self)@, id@),
    {
        let mut kept: Vec<PostResponse> = Vec::new();
        let mut i: usize = 0;
        proof {
            reveal(Seq::filter);
            assert(kept@.map_values(|r: PostResponse| r@) =~= remove_post(
                old(self)@.subrange(0, 0),
                id@,
            ));
        }
        while i < self.rows.len()
            invariant
                0 <= i <= self.rows.len(),
                self@ == old(self)@,
                kept@.map_values(|r: PostResponse| r@) == remove_post(
                    old(self)@.subrange(0, i as int),
                    id@,
                ),
            decreases self.rows.len() - i,
        {
            let ghost prev = old(self)@.subrange(0, i as int);
            if !(self.rows[i].id == id) {
                kept.push(self.rows[i].duplicate());
            }
            i = i + 1;
            proof {
                reveal(Seq::filter);
                let cur = old(self)@.subrange(0, i as int);
                assert(cur.drop_last() =~= prev);
                assert(cur.last() == old(self)@[i - 1]);
                assert(kept@.map_values(|r: PostResponse| r@) =~= remove_post(cur, id@));
            }
        }
        proof {
            assert(old(self)@.subrange(0, self.rows@.len() as int) =~= old(self)@);
            lemma_remove_post(old(self)@, id@);
        }
        self.rows = kept;
        Ok(())
    }
}

} // verus!
