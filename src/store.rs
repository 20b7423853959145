use vstd::prelude::*;

use crate::models::{apply_update, Todo, TodoError, TodoUpdateRequest};

verus! {

/// No two records of `s` share an id.
pub open spec fn ids_unique(s: Seq<Todo>) -> bool {
    forall|i: int, j: int| 0 <= i < s.len() && 0 <= j < s.len() && i != j ==> s[i].id != s[j].id
}

/// Some record of `s` has the id `id`.
pub open spec fn has_id(s: Seq<Todo>, id: i32) -> bool {
    exists|i: int| 0 <= i < s.len() && s[i].id == id
}

/// The position of the record with id `id` in `s` (meaningful when `has_id(s, id)`).
pub open spec fn position_of(s: Seq<Todo>, id: i32) -> int {
    choose|i: int| 0 <= i < s.len() && s[i].id == id
}

/// The record with id `id`, if `s` holds one.
pub open spec fn find(s: Seq<Todo>, id: i32) -> Option<Todo> {
    if has_id(s, id) {
        Some(s[position_of(s, id)])
    } else {
        None
    }
}

/// The records after inserting `t`: appended when its id is new, else unchanged.
pub open spec fn after_insert(s: Seq<Todo>, t: Todo) -> Seq<Todo> {
    if has_id(s, t.id) {
        s
    } else {
        s.push(t)
    }
}

/// What inserting `t` returns.
pub open spec fn insert_result(s: Seq<Todo>, t: Todo) -> Result<Todo, TodoError> {
    if has_id(s, t.id) {
        Err(TodoError::Conflict(t.id))
    } else {
        Ok(t)
    }
}

/// The records after updating the one with id `id` by `req`, in place.
pub open spec fn after_update(s: Seq<Todo>, id: i32, req: TodoUpdateRequest) -> Seq<Todo> {
    if has_id(s, id) {
        s.update(position_of(s, id), apply_update(s[position_of(s, id)], req))
    } else {
        s
    }
}

/// What updating the record with id `id` by `req` returns.
pub open spec fn update_result(s: Seq<Todo>, id: i32, req: TodoUpdateRequest) -> Result<
    Todo,
    TodoError,
> {
    if has_id(s, id) {
        Ok(apply_update(s[position_of(s, id)], req))
    } else {
        Err(TodoError::NotFound(id))
    }
}

/// The records after deleting the one with id `id`; the others keep their order.
pub open spec fn after_delete(s: Seq<Todo>, id: i32) -> Seq<Todo> {
    if has_id(s, id) {
        s.remove(position_of(s, id))
    } else {
        s
    }
}

/// What deleting the record with id `id` returns.
pub open spec fn delete_result(s: Seq<Todo>, id: i32) -> Result<bool, TodoError> {
    if has_id(s, id) {
        Ok(true)
    } else {
        Err(TodoError::NotFound(id))
    }
}

/// In a sequence with unique ids, the record found at `i` is the one `position_of` picks.
pub proof fn lemma_position_unique(s: Seq<Todo>, i: int)
    requires
        ids_unique(s),
        0 <= i < s.len(),
    ensures
        has_id(s, s[i].id),
        position_of(s, s[i].id) == i,
{
    assert(has_id(s, s[i].id));
}

/// The todo records, in insertion order, with at most one record per id.
pub struct TodoStore {
    todos: Vec<Todo>,
}

impl View for TodoStore {
    type V = Seq<Todo>;

    closed spec fn view(&self) -> Seq<Todo> {
        self.todos@
    }
}

impl TodoStore {
    /// The store's invariant: ids are unique.
    pub open spec fn wf(&self) -> bool {
        ids_unique(self@)
    }

    /// An empty store.
    pub fn new() -> (r: TodoStore)
        ensures
            r.wf(),
            r@ == Seq::<Todo>::empty(),
    {
        TodoStore { todos: Vec::new() }
    }

    /// The index of the record with id `id`, if any.
    fn index_of(&self, id: i32) -> (r: Option<usize>)
        requires
            self.wf(),
        ensures
            r is None <==> !has_id(self@, id),
            r matches Some(i) ==> i < self@.len() && position_of(self@, id) == i && self@[i as int].id
                == id,
    {
        let mut i: usize = 0;
        while i < self.todos.len()
            invariant
                self.wf(),
                i <= self.todos@.len(),
                forall|k: int| 0 <= k < i ==> self.todos@[k].id != id,
            decreases self.todos@.len() - i,
        {
            if self.todos[i].id == id {
                proof {
                    lemma_position_unique(self@, i as int);
                }
                return Some(i);
            }
            i = i + 1;
        }
        None
    }

    /// A copy of every record, in insertion order.
    pub fn get_all(&self) -> (r: Vec<Todo>)
        ensures
            r@ == self@,
    {
        let mut out: Vec<Todo> = Vec::new();
        let mut i: usize = 0;
        while i < self.todos.len()
            invariant
                i <= self.todos@.len(),
                out@ == self@.subrange(0, i as int),
            decreases self.todos@.len() - i,
        {
            out.push(self.todos[i].clone());
            i = i + 1;
            assert(out@ =~= self@.subrange(0, i as int));
        }
        assert(out@ =~= self@);
        out
    }

    /// A copy of the record with id `id`, if one is stored.
    pub fn get_by_id(&self, id: i32) -> (r: Option<Todo>)
        requires
            self.wf(),
        ensures
            r == find(self@, id),
    {
        match self.index_of(id) {
            Some(i) => Some(self.todos[i].clone()),
            None => None,
        }
    }

    /// Appends `entity` unless its id is taken, in which case nothing changes.
    pub fn insert(&mut self, entity: Todo) -> (r: Result<Todo, TodoError>)
        requires
            old(self).wf(),
        ensures
            final(self).wf(),
            final(self)@ == after_insert(old(self)@, entity),
            r == insert_result(old(self)@, entity),
    {
        match self.index_of(entity.id) {
            Some(_) => Err(TodoError::Conflict(entity.id)),
            None => {
                let r = entity.clone();
                self.todos.push(entity);
                assert(ids_unique(self@)) by {
                    let s = self@;
                    assert forall|i: int, j: int|
                        0 <= i < s.len() && 0 <= j < s.len() && i != j implies s[i].id
                        != s[j].id by {
                        if i == s.len() - 1 {
                            assert(old(self)@[j] == s[j]);
                        } else if j == s.len() - 1 {
                            assert(old(self)@[i] == s[i]);
                        } else {
                            assert(old(self)@[i] == s[i] && old(self)@[j] == s[j]);
                        }
                    }
                }
                Ok(r)
            },
        }
    }

    /// Applies `request` to the record with id `id`, in place, and returns the result.
    pub fn update(&mut self, id: i32, request: TodoUpdateRequest) -> (r: Result<Todo, TodoError>)
        requires
            old(self).wf(),
        ensures
            final(self).wf(),
            final(self)@ == after_update(old(self)@, id, request),
            r == update_result(old(self)@, id, request),
    {
        match self.index_of(id) {
            None => Err(TodoError::NotFound(id)),
            Some(i) => {
                let current = &self.todos[i];
                let value = match request.value {
                    Some(v) => v,
                    None => current.value.clone(),
                };
                let checked = match request.checked {
                    Some(c) => c,
                    None => current.checked,
                };
                let updated = Todo { id, value, checked };
                let r = updated.clone();
                self.todos.set(i, updated);
                assert(ids_unique(self@)) by {
                    let s = self@;
                    assert forall|a: int, b: int|
                        0 <= a < s.len() && 0 <= b < s.len() && a != b implies s[a].id
                        != s[b].id by {
                        assert(s[a].id == old(self)@[a].id);
                        assert(s[b].id == old(self)@[b].id);
                    }
                }
                Ok(r)
            },
        }
    }

    /// Removes the record with id `id`; the others keep their order.
    pub fn delete(&mut self, id: i32) -> (r: Result<bool, TodoError>)
        requires
            old(self).wf(),
        ensures
            final(self).wf(),
            final(self)@ == after_delete(old(self)@, id),
            r == delete_result(old(self)@, id),
    {
        match self.index_of(id) {
            None => Err(TodoError::NotFound(id)),
            Some(i) => {
                self.todos.remove(i);
                assert(ids_unique(self@)) by {
                    let s = self@;
                    let o = old(self)@;
                    assert forall|a: int, b: int|
                        0 <= a < s.len() && 0 <= b < s.len() && a != b implies s[a].id
                        != s[b].id by {
                        let oa = if a < i { a } else { a + 1 };
                        let ob = if b < i { b } else { b + 1 };
                        assert(s[a] == o[oa]);
                        assert(s[b] == o[ob]);
                    }
                }
                Ok(true)
            },
        }
    }
}

} // verus!
