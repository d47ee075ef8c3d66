//! The transactional operations over a row store. Each operation is a
//! function of one consistent image of the todos table: it corresponds to
//! the body of one serializable, deferred transaction, which reads and
//! writes a single snapshot and commits atomically or leaves no effect.

use vstd::prelude::*;

use crate::errors::ArrayRes;
use crate::errors::Field;
use crate::errors::TodoError;
use crate::models::built_todo;
use crate::models::creatable;
use crate::models::has_body;
use crate::models::has_start_time;
use crate::models::has_title;
use crate::models::merge_ok;
use crate::models::merged_todo;
use crate::models::start_time_parses;
use crate::models::Todo;
use crate::models::TodoDto;
use crate::models::TodoReq;

verus! {

broadcast use Seq::lemma_filter_push;

/// No two rows carry the same id.
pub open spec fn ids_unique(rows: Seq<Todo>) -> bool {
    forall|i: int, j: int|
        0 <= i < j < rows.len() ==> (#[trigger] rows[i]).id != (#[trigger] rows[j]).id
}

/// Some row carries the given id.
pub open spec fn has_id(rows: Seq<Todo>, tid: i32) -> bool {
    exists|i: int| 0 <= i < rows.len() && (#[trigger] rows[i]).id == tid
}

/// The index of a row carrying the given id (unique when `ids_unique`).
pub open spec fn idx_of(rows: Seq<Todo>, tid: i32) -> int {
    choose|i: int| 0 <= i < rows.len() && (#[trigger] rows[i]).id == tid
}

/// The rows a listing shows: those with a non-negative id. The filter is
/// purely defensive; a well-formed store only holds such rows.
pub open spec fn nonneg_rows(rows: Seq<Todo>) -> Seq<Todo> {
    rows.filter(|t: Todo| t.id >= 0)
}

/// The view shows the row's id and text.
pub open spec fn views_row(d: TodoDto, t: Todo) -> bool {
    d.id == t.id && d.title == t.title && d.body == t.body
}

/// An in-memory image of the todos table, together with the sequence the
/// store draws fresh ids from.
pub struct Store {
    pub rows: Vec<Todo>,
    pub next_id: i32,
}

impl Store {
    /// Every row id is non-negative, unique, and below the sequence's
    /// next value, so a fresh id collides with nothing.
    pub open spec fn wf(&self) -> bool {
        &&& 0 <= self.next_id
        &&& ids_unique(self.rows@)
        &&& forall|i: int|
            0 <= i < self.rows@.len() ==> 0 <= (#[trigger] self.rows@[i]).id < self.next_id
    }

    /// An empty store.
    pub fn new() -> (r: Store)
        ensures
            r.wf(),
            r.rows@.len() == 0,
            r.next_id == 0,
    {
        Store { rows: Vec::new(), next_id: 0 }
    }

    /// List every row with a non-negative id, in store order, as outbound
    /// views under a success message.
    pub fn list(&self) -> (r: ArrayRes<TodoDto>)
        ensures
            r.msg@ == "Success"@,
            r.datas@.len() == nonneg_rows(self.rows@).len(),
            forall|j: int|
                0 <= j < r.datas@.len() ==> views_row(
                    #[trigger] r.datas@[j],
                    nonneg_rows(self.rows@)[j],
                ),
    {
        let mut datas: Vec<TodoDto> = Vec::new();
        let n = self.rows.len();
        let mut i: usize = 0;
        while i < n
            invariant
                i <= n,
                n == self.rows@.len(),
                datas@.len() == nonneg_rows(self.rows@.take(i as int)).len(),
                forall|j: int|
                    0 <= j < datas@.len() ==> views_row(
                        #[trigger] datas@[j],
                        nonneg_rows(self.rows@.take(i as int))[j],
                    ),
            decreases n - i,
        {
            let t = &self.rows[i];
            if t.id >= 0 {
                datas.push(t.to_dto());
            }
            proof {
                assert(self.rows@.take(i + 1) =~= self.rows@.take(i as int).push(
                    self.rows@[i as int],
                ));
            }
            i = i + 1;
        }
        proof {
            assert(self.rows@.take(n as int) =~= self.rows@);
        }
        ArrayRes { msg: String::from_str("Success"), datas }
    }

    /// Run the validation pipeline on a creation request at the given
    /// instant and, when it passes, commit the built entity under a fresh
    /// store-assigned id; a request that fails validation leaves the
    /// store untouched and reports which check refused it.
    pub fn create(&mut self, req: &TodoReq, now: i64) -> (r: Result<Todo, TodoError>)
        requires
            old(self).wf(),
            old(self).next_id < i32::MAX,
        ensures
            final(self).wf(),
            r is Ok <==> creatable(*req),
            r matches Ok(t) ==> ({
                &&& t == Todo { id: old(self).next_id, ..built_todo(*req, now) }
                &&& final(self).rows@ == old(self).rows@.push(t)
                &&& final(self).next_id == old(self).next_id + 1
            }),
            r is Err ==> *final(self) == *old(self),
            !has_title(*req) ==> r == Err::<Todo, TodoError>(TodoError::MissingField(Field::Title)),
            has_title(*req) && !has_body(*req) ==> r == Err::<Todo, TodoError>(
                TodoError::MissingField(Field::Body),
            ),
            has_title(*req) && has_body(*req) && !has_start_time(*req) ==> r == Err::<
                Todo,
                TodoError,
            >(TodoError::MissingField(Field::StartTime)),
            has_title(*req) && has_body(*req) && has_start_time(*req) && !start_time_parses(
                *req,
            ) ==> (r matches Err(e) && e matches TodoError::InvalidTimestamp(_)),
    {
        let mut t = match req.to_model_at(now) {
            Ok(t) => t,
            Err(e) => {
                return Err(e);
            },
        };
        t.id = self.next_id;
        self.rows.push(t.duplicate());
        self.next_id = self.next_id + 1;
        proof {
            assert forall|i: int, j: int| 0 <= i < j < self.rows@.len() implies (
            #[trigger] self.rows@[i]).id != (#[trigger] self.rows@[j]).id by {
                if j == self.rows@.len() - 1 {
                    assert(self.rows@[i] == old(self).rows@[i]);
                }
            }
        }
        Ok(t)
    }

    /// Re-read the row with the given id, merge the partial request into
    /// it, and write the merged row back; the merged row is returned. A
    /// missing row or a malformed supplied start time leaves the store
    /// untouched.
    pub fn update(&mut self, target_id: i32, req: &TodoReq) -> (r: Result<Todo, TodoError>)
        requires
            old(self).wf(),
        ensures
            final(self).wf(),
            final(self).next_id == old(self).next_id,
            r is Ok <==> has_id(old(self).rows@, target_id) && merge_ok(*req),
            !has_id(old(self).rows@, target_id) ==> r == Err::<Todo, TodoError>(TodoError::NotFound)
                && final(self).rows@ == old(self).rows@,
            has_id(old(self).rows@, target_id) && !merge_ok(*req) ==> (r matches Err(e)
                && e matches TodoError::InvalidTimestamp(_)) && final(self).rows@ == old(
                self,
            ).rows@,
            has_id(old(self).rows@, target_id) && merge_ok(*req) ==> ({
                let i = idx_of(old(self).rows@, target_id);
                let m = merged_todo(old(self).rows@[i], *req);
                r == Ok::<Todo, TodoError>(m) && final(self).rows@ == old(self).rows@.update(i, m)
            }),
    {
        let idx = match find_index(&self.rows, target_id) {
            Some(i) => i,
            None => {
                return Err(TodoError::NotFound);
            },
        };
        proof {
            lemma_found_is_idx_of(self.rows@, target_id, idx as int);
        }
        let mut row = self.rows[idx].duplicate();
        match req.put_model(&mut row) {
            Some(e) => Err(e),
            None => {
                self.rows.remove(idx);
                self.rows.insert(idx, row.duplicate());
                proof {
                    assert(self.rows@ =~= old(self).rows@.update(
                        idx as int,
                        merged_todo(old(self).rows@[idx as int], *req),
                    ));
                }
                Ok(row)
            },
        }
    }

    /// Read the row with the given id, remove it, and hand back its state
    /// as it was immediately before removal; afterwards no row carries
    /// that id. Without a matching row nothing changes.
    pub fn delete(&mut self, target_id: i32) -> (r: Result<Todo, TodoError>)
        requires
            old(self).wf(),
        ensures
            final(self).wf(),
            final(self).next_id == old(self).next_id,
            r is Ok <==> has_id(old(self).rows@, target_id),
            !has_id(old(self).rows@, target_id) ==> r == Err::<Todo, TodoError>(TodoError::NotFound)
                && final(self).rows@ == old(self).rows@,
            has_id(old(self).rows@, target_id) ==> ({
                let i = idx_of(old(self).rows@, target_id);
                r == Ok::<Todo, TodoError>(old(self).rows@[i]) && final(self).rows@ == old(
                    self,
                ).rows@.remove(i)
            }),
            !has_id(final(self).rows@, target_id),
    {
        let idx = match find_index(&self.rows, target_id) {
            Some(i) => i,
            None => {
                return Err(TodoError::NotFound);
            },
        };
        proof {
            lemma_found_is_idx_of(self.rows@, target_id, idx as int);
        }
        let removed = self.rows.remove(idx);
        proof {
            assert forall|j: int| 0 <= j < self.rows@.len() implies (
            #[trigger] self.rows@[j]).id != target_id by {
                if j < idx as int {
                    assert(self.rows@[j] == old(self).rows@[j]);
                } else {
                    assert(self.rows@[j] == old(self).rows@[j + 1]);
                }
            }
        }
        Ok(removed)
    }
}

/// The index of the first row with the given id, if any.
fn find_index(rows: &Vec<Todo>, target_id: i32) -> (r: Option<usize>)
    ensures
        match r {
            Some(i) => 0 <= i < rows@.len() && rows@[i as int].id == target_id && forall|k: int|
                0 <= k < i ==> (#[trigger] rows@[k]).id != target_id,
            None => !has_id(rows@, target_id),
        },
{
    let n = rows.len();
    let mut i: usize = 0;
    while i < n
        invariant
            i <= n,
            n == rows@.len(),
            forall|k: int| 0 <= k < i ==> (#[trigger] rows@[k]).id != target_id,
        decreases n - i,
    {
        if rows[i].id == target_id {
            return Some(i);
        }
        i = i + 1;
    }
    None
}

/// With unique ids, the first index carrying an id is the only one, so it
/// coincides with `idx_of`.
proof fn lemma_found_is_idx_of(rows: Seq<Todo>, tid: i32, i: int)
    requires
        ids_unique(rows),
        0 <= i < rows.len(),
        rows[i].id == tid,
        forall|k: int| 0 <= k < i ==> (#[trigger] rows[k]).id != tid,
    ensures
        has_id(rows, tid),
        idx_of(rows, tid) == i,
{
    assert(has_id(rows, tid));
    let c = idx_of(rows, tid);
    assert(0 <= c < rows.len() && rows[c].id == tid);
}

/// Law: removing the row that carries an id from rows with unique ids
/// leaves no row carrying it, so a second delete of the same id finds
/// nothing and reports a missing row rather than success.
pub proof fn lemma_delete_idempotent(rows: Seq<Todo>, tid: i32)
    requires
        ids_unique(rows),
        has_id(rows, tid),
    ensures
        !has_id(rows.remove(idx_of(rows, tid)), tid),
{
    let i = idx_of(rows, tid);
    let rest = rows.remove(i);
    assert forall|j: int| 0 <= j < rest.len() implies (#[trigger] rest[j]).id != tid by {
        if j < i {
            assert(rest[j] == rows[j]);
        } else {
            assert(rest[j] == rows[j + 1]);
        }
    }
}

/// Law: a listing shows only rows the store holds, so once no row carries
/// an id — as after a successful delete — no listed view carries it
/// either.
pub proof fn lemma_absent_id_not_listed(rows: Seq<Todo>, tid: i32)
    requires
        !has_id(rows, tid),
    ensures
        forall|j: int|
            0 <= j < nonneg_rows(rows).len() ==> (#[trigger] nonneg_rows(rows)[j]).id != tid,
    decreases rows.len(),
{
    reveal_with_fuel(Seq::filter, 2);
    if rows.len() == 0 {
        assert(nonneg_rows(rows) =~= Seq::<Todo>::empty());
    } else {
        let prefix = rows.drop_last();
        assert(forall|k: int| 0 <= k < prefix.len() ==> prefix[k] == rows[k]);
        assert(!has_id(prefix, tid));
        lemma_absent_id_not_listed(prefix, tid);
        assert(rows.last().id != tid);
        if rows.last().id >= 0 {
            assert(nonneg_rows(rows) == nonneg_rows(prefix).push(rows.last()));
        } else {
            assert(nonneg_rows(rows) == nonneg_rows(prefix));
        }
    }
}
} // verus!
