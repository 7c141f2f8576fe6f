//! The store as a mathematical value, and what each operation makes of it.
//!
//! Every contract of the executable store is stated over `StoreState`.

use vstd::prelude::*;
use crate::event::EventView;
use crate::record::{TodoStatus, TodoView};

verus! {

/// The state of a store: the id that the next task gets, the tasks by id,
/// and every notification given out so far, oldest first.
pub struct StoreState {
    pub next_todo_id: u32,
    pub todos: Map<u32, TodoView>,
    pub events: Seq<EventView>,
}

/// A call that changes the store.
pub enum Request {
    Create { title: Seq<char>, description: Seq<char> },
    UpdateStatus { todo_id: u32, new_status: TodoStatus },
    Delete { todo_id: u32 },
}

/// The id that the first task of a store gets.
pub const FIRST_TODO_ID: u32 = 1;

/// The counter once `id` has been given out: one more, except that it stays
/// at the largest `u32`.
pub open spec fn id_after(id: u32) -> u32 {
    if id < u32::MAX {
        (id + 1) as u32
    } else {
        u32::MAX
    }
}

/// The task that `create` builds under `id`.
pub open spec fn fresh_todo(id: u32, title: Seq<char>, description: Seq<char>) -> TodoView {
    TodoView { id, title, description, status: TodoStatus::Pending }
}

impl StoreState {
    /// A store in which nothing has happened yet.
    pub open spec fn empty() -> StoreState {
        StoreState { next_todo_id: FIRST_TODO_ID, todos: Map::empty(), events: Seq::empty() }
    }

    /// The task stored under `todo_id`, if there is one.
    pub open spec fn get(self, todo_id: u32) -> Option<TodoView> {
        if self.todos.contains_key(todo_id) {
            Some(self.todos[todo_id])
        } else {
            None
        }
    }

    /// What `create` returns for a title: the id that the task gets, which is
    /// the counter, or nothing where the title is empty.
    pub open spec fn created_id(self, title: Seq<char>) -> Option<u32> {
        if title.len() == 0 {
            None
        } else {
            Some(self.next_todo_id)
        }
    }

    /// The store after `create`. An empty title changes nothing; otherwise
    /// the task is stored under the counter, the counter moves on and one
    /// `Created` notification is added.
    pub open spec fn after_create(self, title: Seq<char>, description: Seq<char>) -> StoreState {
        if title.len() == 0 {
            self
        } else {
            StoreState {
                next_todo_id: id_after(self.next_todo_id),
                todos: self.todos.insert(
                    self.next_todo_id,
                    fresh_todo(self.next_todo_id, title, description),
                ),
                events: self.events.push(
                    EventView::Created { todo_id: self.next_todo_id, title },
                ),
            }
        }
    }

    /// The store after `update_status`. An unknown id changes nothing;
    /// otherwise the task's status is replaced, the rest of it kept, and one
    /// `Updated` notification is added.
    pub open spec fn after_update(self, todo_id: u32, new_status: TodoStatus) -> StoreState {
        if !self.todos.contains_key(todo_id) {
            self
        } else {
            StoreState {
                next_todo_id: self.next_todo_id,
                todos: self.todos.insert(
                    todo_id,
                    TodoView { status: new_status, ..self.todos[todo_id] },
                ),
                events: self.events.push(EventView::Updated { todo_id, new_status }),
            }
        }
    }

    /// The store after `delete`. An unknown id changes nothing; otherwise the
    /// task is gone and one `Deleted` notification carries its title.
    pub open spec fn after_delete(self, todo_id: u32) -> StoreState {
        if !self.todos.contains_key(todo_id) {
            self
        } else {
            StoreState {
                next_todo_id: self.next_todo_id,
                todos: self.todos.remove(todo_id),
                events: self.events.push(
                    EventView::Deleted { todo_id, title: self.todos[todo_id].title },
                ),
            }
        }
    }

    /// Whether a request is accepted: a create needs a title, a status change
    /// and a deletion need a task under the id they name.
    pub open spec fn accepts(self, request: Request) -> bool {
        match request {
            Request::Create { title, .. } => title.len() > 0,
            Request::UpdateStatus { todo_id, .. } => self.todos.contains_key(todo_id),
            Request::Delete { todo_id } => self.todos.contains_key(todo_id),
        }
    }

    /// The store after one request.
    pub open spec fn apply(self, request: Request) -> StoreState {
        match request {
            Request::Create { title, description } => self.after_create(title, description),
            Request::UpdateStatus { todo_id, new_status } => self.after_update(
                todo_id,
                new_status,
            ),
            Request::Delete { todo_id } => self.after_delete(todo_id),
        }
    }

    /// The store after a series of requests, the first of them applied first.
    pub open spec fn run(self, requests: Seq<Request>) -> StoreState
        decreases requests.len(),
    {
        if requests.len() == 0 {
            self
        } else {
            self.run(requests.drop_last()).apply(requests.last())
        }
    }

    /// Whether `id` lies among the ids that the counter has passed. Once the
    /// counter has stopped at the largest `u32`, that id itself may have been
    /// given out too.
    pub open spec fn has_issued(self, id: u32) -> bool {
        FIRST_TODO_ID <= id && (id < self.next_todo_id || self.next_todo_id == u32::MAX)
    }

    /// What holds of every store that was built by the operations alone: the
    /// counter is at least 1; each task is stored under its own id, has a
    /// title, and got its id from the counter; and each notification is about
    /// an id that the counter gave out.
    pub open spec fn wf(self) -> bool {
        &&& self.next_todo_id >= FIRST_TODO_ID
        &&& self.todos.dom().finite()
        &&& forall|id: u32| #[trigger]
            self.todos.contains_key(id) ==> {
                &&& self.todos[id].id == id
                &&& self.todos[id].title.len() > 0
                &&& self.has_issued(id)
            }
        &&& forall|i: int|
            0 <= i < self.events.len() ==> self.has_issued(#[trigger] self.events[i].subject())
    }
}

} // verus!
