//! The rules of the three changes, on plain values.
//!
//! Each function decides one change from what a host has read and says what
//! the host is to write and to announce. The store in this crate follows
//! them on its own map; a host with storage of its own can do the same.

use vstd::prelude::*;
use crate::event::{EventView, TodoCreated, TodoDeleted, TodoUpdated};
use crate::model::{fresh_todo, id_after};
use crate::record::{Todo, TodoStatus, TodoView};

verus! {

/// The reason given when a task is to be created without a title.
pub open spec fn title_empty_text() -> Seq<char> {
    "Title cannot be empty"@
}

/// The reason given when no task has the id asked for.
pub open spec fn not_found_text() -> Seq<char> {
    "Todo not found"@
}

/// A creation that was accepted: the task to store under its id, the counter
/// to keep, and the notification to give out once the task is stored.
pub struct Creation {
    pub todo: Todo,
    pub next_todo_id: u32,
    pub event: TodoCreated,
}

/// A status change that was accepted: the whole task to store again, and the
/// notification to give out.
pub struct StatusChange {
    pub todo: Todo,
    pub event: TodoUpdated,
}

/// Decides a creation. `next_todo_id` is the id that the host's counter
/// holds. The title is taken as it is, without trimming; the description may
/// be anything.
pub fn create(next_todo_id: u32, title: String, description: String) -> (decision: Result<
    Creation,
    String,
>)
    ensures
        match decision {
            Ok(made) => {
                &&& title@.len() > 0
                &&& made.todo@ == fresh_todo(next_todo_id, title@, description@)
                &&& made.next_todo_id == id_after(next_todo_id)
                &&& made.event@ == (EventView::Created { todo_id: next_todo_id, title: title@ })
            },
            Err(reason) => title@.len() == 0 && reason@ == title_empty_text(),
        },
{
    if title.as_str().is_empty() {
        return Err("Title cannot be empty".to_string());
    }
    let event = TodoCreated { todo_id: next_todo_id, title: title.clone() };
    let todo = Todo { id: next_todo_id, title, description, status: TodoStatus::Pending };
    Ok(Creation { todo, next_todo_id: next_todo_id.saturating_add(1), event })
}

/// Decides a status change. `found` is what the host holds under `todo_id`.
/// Any status may replace any other, the same one included.
pub fn update_status(found: Option<Todo>, todo_id: u32, new_status: TodoStatus) -> (decision:
    Result<StatusChange, String>)
    ensures
        match decision {
            Ok(change) => {
                &&& found matches Some(todo)
                &&& change.todo@ == (TodoView { status: new_status, ..todo@ })
                &&& change.event@ == (EventView::Updated { todo_id, new_status })
            },
            Err(reason) => found is None && reason@ == not_found_text(),
        },
{
    match found {
        None => Err("Todo not found".to_string()),
        Some(todo) => {
            let todo = Todo { status: new_status, ..todo };
            Ok(StatusChange { todo, event: TodoUpdated { todo_id, new_status } })
        },
    }
}

/// Decides a deletion. `found` is what the host holds under `todo_id`; the
/// notification carries the title found there.
pub fn delete(found: Option<Todo>, todo_id: u32) -> (decision: Result<TodoDeleted, String>)
    ensures
        match decision {
            Ok(event) => {
                &&& found matches Some(todo)
                &&& event@ == (EventView::Deleted { todo_id, title: todo.title@ })
            },
            Err(reason) => found is None && reason@ == not_found_text(),
        },
{
    match found {
        None => Err("Todo not found".to_string()),
        Some(todo) => Ok(TodoDeleted { todo_id, title: todo.title }),
    }
}

} // verus!
