//! The task record and the value it stands for in contracts.

use vstd::prelude::*;

verus! {

/// How far a task has come. A new task is `Pending`; any status may follow
/// any other.
#[derive(Debug, Clone, Copy, PartialEq, Eq, Structural)]
pub enum TodoStatus {
    Pending,
    Completed,
    Cancelled,
}

/// One task. `id`, `title` and `description` are fixed when the task is
/// created; only `status` changes afterwards.
#[derive(Debug, PartialEq, Eq)]
pub struct Todo {
    pub id: u32,
    pub title: String,
    pub description: String,
    pub status: TodoStatus,
}

/// What a `Todo` is in contracts: its fields, with the texts as sequences
/// of characters.
pub struct TodoView {
    pub id: u32,
    pub title: Seq<char>,
    pub description: Seq<char>,
    pub status: TodoStatus,
}

impl View for Todo {
    type V = TodoView;

    open spec fn view(&self) -> TodoView {
        TodoView {
            id: self.id,
            title: self.title@,
            description: self.description@,
            status: self.status,
        }
    }
}

impl Clone for Todo {
    fn clone(&self) -> (copy: Self)
        ensures
            copy == *self,
    {
        Todo {
            id: self.id,
            title: self.title.clone(),
            description: self.description.clone(),
            status: self.status,
        }
    }
}

} // verus!
