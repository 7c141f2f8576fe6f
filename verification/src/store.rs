//! The store itself: a counter, the tasks by id, and the log of
//! notifications.

use std::collections::HashMap;
use vstd::prelude::*;
use crate::event::{log_view, TodoEvent};
use crate::model::{StoreState, FIRST_TODO_ID};
use crate::record::{Todo, TodoStatus};
use crate::rules;

verus! {

/// A task store. It is one owned value that the caller hands to each
/// operation; nothing in it is shared. Any caller may change any task.
pub struct InkyTodo {
    next_todo_id: u32,
    todos: HashMap<u32, Todo>,
    events: Vec<TodoEvent>,
}

impl View for InkyTodo {
    type V = StoreState;

    closed spec fn view(&self) -> StoreState {
        StoreState {
            next_todo_id: self.next_todo_id,
            todos: self.todos@.map_values(|todo: Todo| todo@),
            events: log_view(self.events@),
        }
    }
}

impl InkyTodo {
    #[verifier::type_invariant]
    spec fn inv(self) -> bool {
        self@.wf()
    }

    /// A store with no task and no notification, whose first task gets id 1.
    pub fn new() -> (store: Self)
        ensures
            store@ == StoreState::empty(),
            store@.wf(),
    {
        let todos: HashMap<u32, Todo> = HashMap::new();
        let events: Vec<TodoEvent> = Vec::new();
        assert(todos@.map_values(|todo: Todo| todo@) =~= Map::empty());
        assert(log_view(events@) =~= Seq::empty());
        InkyTodo { next_todo_id: FIRST_TODO_ID, todos, events }
    }

    /// Stores a new task and returns its id.
    ///
    /// The title must not be empty; it is not trimmed, so a title of blanks
    /// counts. The description may be anything. The task gets the id that the
    /// counter holds and the status `Pending`; the counter moves on by one and
    /// stays at the largest `u32` once it is there. The task is stored before
    /// the `Created` notification is logged. A refused call changes nothing.
    pub fn create_todo(&mut self, title: String, description: String) -> (result: Result<
        u32,
        String,
    >)
        ensures
            final(self)@ == old(self)@.after_create(title@, description@),
            final(self)@.wf(),
            match result {
                Ok(todo_id) => old(self)@.created_id(title@) == Some(todo_id),
                Err(reason) => {
                    &&& old(self)@.created_id(title@) is None
                    &&& reason@ == rules::title_empty_text()
                    &&& final(self)@ == old(self)@
                },
            },
    {
        proof {
            use_type_invariant(&*self);
        }
        match rules::create(self.next_todo_id, title, description) {
            Err(reason) => Err(reason),
            Ok(made) => {
                // The parts are moved out, changed and put back as a whole
                // store, so that no half-changed store ever exists.
                let mut taken = InkyTodo::new();
                std::mem::swap(self, &mut taken);
                let InkyTodo { next_todo_id: todo_id, mut todos, mut events } = taken;
                todos.insert(todo_id, made.todo);
                events.push(TodoEvent::Created(made.event));
                proof {
                    let after = old(self)@.after_create(title@, description@);
                    assert(todos@.map_values(|todo: Todo| todo@) =~= after.todos);
                    assert(log_view(events@) =~= after.events);
                }
                *self = InkyTodo { next_todo_id: made.next_todo_id, todos, events };
                Ok(todo_id)
            },
        }
    }

    /// A copy of the task stored under `todo_id`, or `None` where there is
    /// none: the id was never given out, or its task was deleted.
    ///
    /// Every store is well-formed; the first clause hands that to the caller,
    /// who learns from it that the task found carries the id asked for.
    pub fn get_todo(&self, todo_id: u32) -> (found: Option<Todo>)
        ensures
            self@.wf(),
            match found {
                Some(todo) => self@.get(todo_id) == Some(todo@),
                None => self@.get(todo_id) is None,
            },
    {
        proof {
            use_type_invariant(self);
        }
        match self.todos.get(&todo_id) {
            Some(todo) => Some(todo.clone()),
            None => None,
        }
    }

    /// Replaces the status of the task stored under `todo_id`.
    ///
    /// Any status may replace any other, the same one included. The task's
    /// id, title and description stay as they are, and one `Updated`
    /// notification with `new_status` is logged. A refused call changes
    /// nothing.
    pub fn update_todo_status(&mut self, todo_id: u32, new_status: TodoStatus) -> (result: Result<
        (),
        String,
    >)
        ensures
            final(self)@ == old(self)@.after_update(todo_id, new_status),
            final(self)@.wf(),
            match result {
                Ok(_) => old(self)@.todos.contains_key(todo_id),
                Err(reason) => {
                    &&& !old(self)@.todos.contains_key(todo_id)
                    &&& reason@ == rules::not_found_text()
                    &&& final(self)@ == old(self)@
                },
            },
    {
        proof {
            use_type_invariant(&*self);
        }
        let found = self.get_todo(todo_id);
        match rules::update_status(found, todo_id, new_status) {
            Err(reason) => Err(reason),
            Ok(change) => {
                let mut taken = InkyTodo::new();
                std::mem::swap(self, &mut taken);
                let InkyTodo { next_todo_id, mut todos, mut events } = taken;
                todos.insert(todo_id, change.todo);
                events.push(TodoEvent::Updated(change.event));
                proof {
                    let after = old(self)@.after_update(todo_id, new_status);
                    assert(todos@.map_values(|todo: Todo| todo@) =~= after.todos);
                    assert(log_view(events@) =~= after.events);
                }
                *self = InkyTodo { next_todo_id, todos, events };
                Ok(())
            },
        }
    }

    /// Removes the task stored under `todo_id` for good.
    ///
    /// One `Deleted` notification with the title that the task had is logged.
    /// The counter is not touched, so the id is not given out again. A
    /// refused call changes nothing.
    pub fn delete_todo(&mut self, todo_id: u32) -> (result: Result<(), String>)
        ensures
            final(self)@ == old(self)@.after_delete(todo_id),
            final(self)@.wf(),
            match result {
                Ok(_) => old(self)@.todos.contains_key(todo_id),
                Err(reason) => {
                    &&& !old(self)@.todos.contains_key(todo_id)
                    &&& reason@ == rules::not_found_text()
                    &&& final(self)@ == old(self)@
                },
            },
    {
        proof {
            use_type_invariant(&*self);
        }
        let found = self.get_todo(todo_id);
        match rules::delete(found, todo_id) {
            Err(reason) => Err(reason),
            Ok(event) => {
                let mut taken = InkyTodo::new();
                std::mem::swap(self, &mut taken);
                let InkyTodo { next_todo_id, mut todos, mut events } = taken;
                todos.remove(&todo_id);
                events.push(TodoEvent::Deleted(event));
                proof {
                    let after = old(self)@.after_delete(todo_id);
                    assert(todos@.map_values(|todo: Todo| todo@) =~= after.todos);
                    assert(log_view(events@) =~= after.events);
                }
                *self = InkyTodo { next_todo_id, todos, events };
                Ok(())
            },
        }
    }

    /// Every notification given out so far, oldest first.
    pub fn events(&self) -> (log: &Vec<TodoEvent>)
        ensures
            log_view(log@) == self@.events,
    {
        &self.events
    }
}

impl Default for InkyTodo {
    fn default() -> (store: Self)
        ensures
            store@ == StoreState::empty(),
            store@.wf(),
    {
        InkyTodo::new()
    }
}

} // verus!
