use vstd::prelude::*;

verus! {

/// Task to do.
#[derive(Debug, PartialEq, Eq)]
pub struct Todo {
    /// Unique id for the todo item.
    pub id: i32,
    /// Description of the task to do.
    pub value: String,
    /// Whether the task is done.
    pub checked: bool,
}

impl Clone for Todo {
    fn clone(&self) -> (r: Self)
        ensures
            r == *self,
    {
        Todo { id: self.id, value: self.value.clone(), checked: self.checked }
    }
}

/// Request to update an existing `Todo`; an absent field is left as it is.
#[derive(Debug)]
pub struct TodoUpdateRequest {
    /// Optional new value for the task.
    pub value: Option<String>,
    /// Optional new completion flag.
    pub checked: Option<bool>,
}

impl Clone for TodoUpdateRequest {
    fn clone(&self) -> (r: Self)
        ensures
            r == *self,
    {
        let value = match &self.value {
            Some(v) => Some(v.clone()),
            None => None,
        };
        TodoUpdateRequest { value, checked: self.checked }
    }
}

/// Query for searching todos by the text of their value.
#[derive(Debug)]
pub struct SearchTodos {
    /// Content that should be found in a todo's value.
    pub value: String,
}

/// Why a store operation did not take place.
#[derive(Clone, Copy, Debug, PartialEq, Eq, Structural)]
pub enum TodoError {
    /// No todo with this id is stored.
    NotFound(i32),
    /// A todo with this id is stored already.
    Conflict(i32),
}

impl TodoError {
    /// The HTTP status code that reports the error: 404 or 409.
    pub fn status_code(&self) -> (r: u16)
        ensures
            r == match *self {
                TodoError::NotFound(_) => 404u16,
                TodoError::Conflict(_) => 409u16,
            },
    {
        match *self {
            TodoError::NotFound(_) => 404,
            TodoError::Conflict(_) => 409,
        }
    }

    /// The id that the error is about.
    pub fn id(&self) -> (r: i32)
        ensures
            r == match *self {
                TodoError::NotFound(id) => id,
                TodoError::Conflict(id) => id,
            },
    {
        match *self {
            TodoError::NotFound(id) => id,
            TodoError::Conflict(id) => id,
        }
    }
}

/// The todo that `req` makes of `t`: each field the request carries replaces
/// the old one, every other field stays.
pub open spec fn apply_update(t: Todo, req: TodoUpdateRequest) -> Todo {
    Todo {
        id: t.id,
        value: match req.value {
            Some(v) => v,
            None => t.value,
        },
        checked: match req.checked {
            Some(c) => c,
            None => t.checked,
        },
    }
}

} // verus!
