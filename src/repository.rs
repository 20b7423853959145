use vstd::prelude::*;
use vstd::rwlock::{RwLock, RwLockPredicate};

use crate::models::{Todo, TodoError, TodoUpdateRequest};
use crate::store::{ids_unique, TodoStore};

verus! {

/// The invariant that the lock keeps over the shared store: ids are unique.
pub struct UniqueIds;

impl RwLockPredicate<TodoStore> for UniqueIds {
    open spec fn inv(self, v: TodoStore) -> bool {
        v.wf()
    }
}

/// A todo store shared between request handlers.
///
/// Every operation takes the one lock for its whole duration, so operations are
/// atomic with respect to each other, and every state the store passes through
/// has unique ids. What a single call returns depends on what other callers did
/// before it; each method states what holds whatever that was, and the exact
/// behaviour of each step is that of the matching `TodoStore` method.
pub struct TodoRepository {
    store: RwLock<TodoStore, UniqueIds>,
}

impl TodoRepository {
    /// A repository with no records.
    pub fn new() -> (r: TodoRepository) {
        TodoRepository { store: RwLock::new(TodoStore::new(), Ghost(UniqueIds)) }
    }

    /// A copy of all records, in insertion order; no two share an id.
    pub fn get_all(&self) -> (r: Vec<Todo>)
        ensures
            ids_unique(r@),
    {
        let handle = self.store.acquire_read();
        let r = handle.borrow().get_all();
        handle.release_read();
        r
    }

    /// A copy of the record with id `todo_id`, if one is stored.
    pub fn get_by_id(&self, todo_id: i32) -> (r: Option<Todo>)
        ensures
            r matches Some(t) ==> t.id == todo_id,
    {
        let handle = self.store.acquire_read();
        let r = handle.borrow().get_by_id(todo_id);
        handle.release_read();
        r
    }

    /// Stores `entity` unless a record with its id is stored already.
    pub fn insert(&self, entity: Todo) -> (r: Result<Todo, TodoError>)
        ensures
            r == Ok::<Todo, TodoError>(entity) || r == Err::<Todo, TodoError>(
                TodoError::Conflict(entity.id),
            ),
    {
        let (mut store, handle) = self.store.acquire_write();
        let r = store.insert(entity);
        handle.release_write(store);
        r
    }

    /// Applies `entity` to the record with id `todo_id` and returns the updated record.
    pub fn update(&self, todo_id: i32, entity: TodoUpdateRequest) -> (r: Result<Todo, TodoError>)
        ensures
            r matches Ok(t) ==> t.id == todo_id,
            r matches Ok(t) ==> (entity.value matches Some(v) ==> t.value == v),
            r matches Ok(t) ==> (entity.checked matches Some(c) ==> t.checked == c),
            r matches Err(e) ==> e == TodoError::NotFound(todo_id),
    {
        let (mut store, handle) = self.store.acquire_write();
        let r = store.update(todo_id, entity);
        handle.release_write(store);
        r
    }

    /// Removes the record with id `todo_id`.
    pub fn delete(&self, todo_id: i32) -> (r: Result<bool, TodoError>)
        ensures
            r == Ok::<bool, TodoError>(true) || r == Err::<bool, TodoError>(
                TodoError::NotFound(todo_id),
            ),
    {
        let (mut store, handle) = self.store.acquire_write();
        let r = store.delete(todo_id);
        handle.release_write(store);
        r
    }
}

impl Default for TodoRepository {
    fn default() -> (r: TodoRepository) {
        TodoRepository::new()
    }
}

} // verus!
