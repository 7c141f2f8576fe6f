//! A small task tracker: numbered records that are created, have their
//! status changed and are deleted, with one notification per change.
//!
//! - `record`, `event`: the task and the three notifications.
//! - `model`: the store as a mathematical value, `StoreState`, and what each
//!   operation makes of it.
//! - `rules`: what each operation decides, on plain values.
//! - `store`: `InkyTodo`, the store itself.
//! - `laws`: what is proved of the store over more than one call.

pub mod event;
pub mod laws;
pub mod model;
pub mod record;
pub mod rules;
pub mod store;

pub use event::{log_view, EventView, TodoCreated, TodoDeleted, TodoEvent, TodoUpdated};
pub use model::{Request, StoreState, FIRST_TODO_ID};
pub use record::{Todo, TodoStatus, TodoView};
pub use store::InkyTodo;
