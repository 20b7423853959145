use vstd::prelude::*;

use crate::models::{apply_update, Todo, TodoError, TodoUpdateRequest};
use crate::store::{
    after_delete, after_insert, after_update, delete_result, find, has_id, ids_unique,
    insert_result, position_of, update_result,
};

verus! {

/// The records after inserting each of `ts`, in order, into `s`.
pub open spec fn after_inserts(s: Seq<Todo>, ts: Seq<Todo>) -> Seq<Todo>
    decreases ts.len(),
{
    if ts.len() == 0 {
        s
    } else {
        after_insert(after_inserts(s, ts.drop_last()), ts.last())
    }
}

/// No record of `s` shares its id with a record of `ts`.
pub open spec fn ids_disjoint(s: Seq<Todo>, ts: Seq<Todo>) -> bool {
    forall|i: int, j: int| 0 <= i < s.len() && 0 <= j < ts.len() ==> s[i].id != ts[j].id
}

/// An insert never creates a second record with an id; an insert whose id is
/// taken fails with `Conflict` and leaves the records, and the one with that id,
/// as they were.
pub proof fn lemma_insert_keeps_ids_unique(s: Seq<Todo>, t: Todo)
    requires
        ids_unique(s),
    ensures
        ids_unique(after_insert(s, t)),
        has_id(s, t.id) ==> insert_result(s, t) == Err::<Todo, TodoError>(
            TodoError::Conflict(t.id),
        ),
        has_id(s, t.id) ==> after_insert(s, t) == s,
        has_id(s, t.id) ==> find(after_insert(s, t), t.id) == find(s, t.id),
{
    let r = after_insert(s, t);
    if !has_id(s, t.id) {
        assert forall|i: int, j: int|
            0 <= i < r.len() && 0 <= j < r.len() && i != j implies r[i].id != r[j].id by {
            if i == s.len() {
                assert(r[j] == s[j]);
            } else if j == s.len() {
                assert(r[i] == s[i]);
            } else {
                assert(r[i] == s[i] && r[j] == s[j]);
            }
        }
    }
}

/// Any sequence of inserts, of whatever records, keeps ids unique.
pub proof fn lemma_inserts_keep_ids_unique(s: Seq<Todo>, ts: Seq<Todo>)
    requires
        ids_unique(s),
    ensures
        ids_unique(after_inserts(s, ts)),
    decreases ts.len(),
{
    if ts.len() > 0 {
        lemma_inserts_keep_ids_unique(s, ts.drop_last());
        lemma_insert_keeps_ids_unique(after_inserts(s, ts.drop_last()), ts.last());
    }
}

/// Inserting records whose ids are distinct and new: every insert succeeds and
/// the records afterwards are exactly the old ones followed by the new ones,
/// with no id twice.
pub proof fn lemma_distinct_inserts(s: Seq<Todo>, ts: Seq<Todo>)
    requires
        ids_unique(s),
        ids_unique(ts),
        ids_disjoint(s, ts),
    ensures
        forall|k: int|
            0 <= k < ts.len() ==> insert_result(after_inserts(s, ts.take(k)), ts[k]) == Ok::<
                Todo,
                TodoError,
            >(ts[k]),
        after_inserts(s, ts) == s + ts,
        ids_unique(s + ts),
    decreases ts.len(),
{
    if ts.len() == 0 {
        assert(s + ts =~= s);
    } else {
        let p = ts.drop_last();
        let t = ts.last();
        assert(ids_unique(p)) by {
            assert forall|i: int, j: int|
                0 <= i < p.len() && 0 <= j < p.len() && i != j implies p[i].id != p[j].id by {
                assert(p[i] == ts[i] && p[j] == ts[j]);
            }
        }
        assert(ids_disjoint(s, p)) by {
            assert forall|i: int, j: int| 0 <= i < s.len() && 0 <= j < p.len() implies s[i].id
                != p[j].id by {
                assert(p[j] == ts[j]);
            }
        }
        lemma_distinct_inserts(s, p);
        let sp = s + p;
        assert(!has_id(sp, t.id)) by {
            if has_id(sp, t.id) {
                let i = choose|i: int| 0 <= i < sp.len() && sp[i].id == t.id;
                if i < s.len() {
                    assert(sp[i] == s[i]);
                    assert(s[i].id != ts[ts.len() - 1].id);
                } else {
                    assert(sp[i] == p[i - s.len()]);
                    assert(p[i - s.len()] == ts[i - s.len()]);
                    assert(ts[i - s.len()].id != ts[ts.len() - 1].id);
                }
            }
        }
        assert(ts.take(ts.len() - 1) =~= p);
        assert(sp.push(t) =~= s + ts);
        assert forall|k: int| 0 <= k < ts.len() implies insert_result(
            after_inserts(s, ts.take(k)),
            ts[k],
        ) == Ok::<Todo, TodoError>(ts[k]) by {
            if k < ts.len() - 1 {
                assert(ts.take(k) =~= p.take(k));
                assert(ts[k] == p[k]);
            }
        }
        let r = s + ts;
        assert forall|i: int, j: int|
            0 <= i < r.len() && 0 <= j < r.len() && i != j implies r[i].id != r[j].id by {
            if i < s.len() && j < s.len() {
                assert(r[i] == s[i] && r[j] == s[j]);
            } else if i < s.len() {
                assert(r[i] == s[i] && r[j] == ts[j - s.len()]);
            } else if j < s.len() {
                assert(r[j] == s[j] && r[i] == ts[i - s.len()]);
            } else {
                assert(r[i] == ts[i - s.len()] && r[j] == ts[j - s.len()]);
            }
        }
    }
}

/// An update changes only the fields its request carries: with no `checked` the
/// flag stays, with no `value` the text stays, and with neither the update
/// changes nothing and returns the current record.
pub proof fn lemma_update_partial(s: Seq<Todo>, id: i32, req: TodoUpdateRequest)
    requires
        ids_unique(s),
        has_id(s, id),
    ensures
        find(s, id) is Some,
        update_result(s, id, req) is Ok,
        update_result(s, id, req)->Ok_0.id == id,
        update_result(s, id, req)->Ok_0.value == (match req.value {
            Some(v) => v,
            None => find(s, id)->Some_0.value,
        }),
        update_result(s, id, req)->Ok_0.checked == (match req.checked {
            Some(c) => c,
            None => find(s, id)->Some_0.checked,
        }),
        find(after_update(s, id, req), id) == Some(update_result(s, id, req)->Ok_0),
        req.value is None && req.checked is None ==> after_update(s, id, req) == s,
        req.value is None && req.checked is None ==> update_result(s, id, req) == Ok::<
            Todo,
            TodoError,
        >(find(s, id)->Some_0),
{
    let p = position_of(s, id);
    let r = after_update(s, id, req);
    assert(r[p] == apply_update(s[p], req));
    assert(has_id(r, id));
    let q = position_of(r, id);
    if q != p {
        assert(r[q] == s[q]);
    }
    if req.value is None && req.checked is None {
        assert(r =~= s);
    }
}

/// For an id that no record has, lookup, update and delete all report it as not
/// found, and update and delete leave the records as they were.
pub proof fn lemma_absent_id_not_found(s: Seq<Todo>, id: i32, req: TodoUpdateRequest)
    requires
        !has_id(s, id),
    ensures
        find(s, id) is None,
        update_result(s, id, req) == Err::<Todo, TodoError>(TodoError::NotFound(id)),
        after_update(s, id, req) == s,
        delete_result(s, id) == Err::<bool, TodoError>(TodoError::NotFound(id)),
        after_delete(s, id) == s,
{
}

/// After a delete no record has the deleted id.
pub proof fn lemma_delete_removes_id(s: Seq<Todo>, id: i32)
    requires
        ids_unique(s),
    ensures
        !has_id(after_delete(s, id), id),
{
    if has_id(s, id) {
        let p = position_of(s, id);
        let r = after_delete(s, id);
        assert forall|k: int| 0 <= k < r.len() implies r[k].id != id by {
            if k < p {
                assert(r[k] == s[k]);
            } else {
                assert(r[k] == s[k + 1]);
            }
        }
    }
}

/// Deleting an id twice succeeds the first time and fails with `NotFound` the second.
pub proof fn lemma_delete_twice(s: Seq<Todo>, id: i32)
    requires
        ids_unique(s),
        has_id(s, id),
    ensures
        delete_result(s, id) == Ok::<bool, TodoError>(true),
        delete_result(after_delete(s, id), id) == Err::<bool, TodoError>(TodoError::NotFound(id)),
{
    lemma_delete_removes_id(s, id);
}

} // verus!
