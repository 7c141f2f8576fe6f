//! The notifications that the store gives out, one for each change it makes.

use vstd::prelude::*;
use crate::record::TodoStatus;

verus! {

/// A task was created.
#[derive(Debug, PartialEq, Eq)]
pub struct TodoCreated {
    pub todo_id: u32,
    pub title: String,
}

/// A task's status was replaced by `new_status`.
#[derive(Debug, Clone, Copy, PartialEq, Eq, Structural)]
pub struct TodoUpdated {
    pub todo_id: u32,
    pub new_status: TodoStatus,
}

/// A task was deleted; `title` is the one it had at that moment.
#[derive(Debug, PartialEq, Eq)]
pub struct TodoDeleted {
    pub todo_id: u32,
    pub title: String,
}

/// Any one of the three notifications, as the log holds them.
#[derive(Debug, PartialEq, Eq)]
pub enum TodoEvent {
    Created(TodoCreated),
    Updated(TodoUpdated),
    Deleted(TodoDeleted),
}

/// What a notification is in contracts.
pub enum EventView {
    Created { todo_id: u32, title: Seq<char> },
    Updated { todo_id: u32, new_status: TodoStatus },
    Deleted { todo_id: u32, title: Seq<char> },
}

impl EventView {
    /// The task that the notification is about.
    pub open spec fn subject(self) -> u32 {
        match self {
            EventView::Created { todo_id, .. } => todo_id,
            EventView::Updated { todo_id, .. } => todo_id,
            EventView::Deleted { todo_id, .. } => todo_id,
        }
    }
}

impl View for TodoCreated {
    type V = EventView;

    open spec fn view(&self) -> EventView {
        EventView::Created { todo_id: self.todo_id, title: self.title@ }
    }
}

impl View for TodoUpdated {
    type V = EventView;

    open spec fn view(&self) -> EventView {
        EventView::Updated { todo_id: self.todo_id, new_status: self.new_status }
    }
}

impl View for TodoDeleted {
    type V = EventView;

    open spec fn view(&self) -> EventView {
        EventView::Deleted { todo_id: self.todo_id, title: self.title@ }
    }
}

impl View for TodoEvent {
    type V = EventView;

    open spec fn view(&self) -> EventView {
        match self {
            TodoEvent::Created(e) => e@,
            TodoEvent::Updated(e) => e@,
            TodoEvent::Deleted(e) => e@,
        }
    }
}

/// A log of notifications as contracts see it: each entry by its view, in
/// the same order.
pub open spec fn log_view(log: Seq<TodoEvent>) -> Seq<EventView> {
    log.map_values(|event: TodoEvent| event@)
}

} // verus!
