//! What holds of the store over more than one call.
//!
//! Each statement is over `StoreState`, the value that the contracts of the
//! executable store speak of: `create_todo` on a store `s` leaves
//! `s.after_create(..)` and returns `s.created_id(..)`; `update_todo_status`
//! leaves `s.after_update(..)`, `delete_todo` leaves `s.after_delete(..)`,
//! and `get_todo` returns `s.get(..)`.

use vstd::prelude::*;
use crate::event::EventView;
use crate::model::{fresh_todo, Request, StoreState};
use crate::record::{TodoStatus, TodoView};

verus! {

/// A request leaves a well-formed store well-formed.
pub proof fn lemma_apply_keeps_wf(s: StoreState, request: Request)
    requires
        s.wf(),
    ensures
        s.apply(request).wf(),
{
}

/// Any series of requests leaves a well-formed store well-formed.
pub proof fn lemma_run_keeps_wf(s: StoreState, requests: Seq<Request>)
    requires
        s.wf(),
    ensures
        s.run(requests).wf(),
    decreases requests.len(),
{
    if requests.len() > 0 {
        lemma_run_keeps_wf(s, requests.drop_last());
        lemma_apply_keeps_wf(s.run(requests.drop_last()), requests.last());
    }
}

/// Whatever is asked of a new store, what comes of it is well-formed.
pub proof fn lemma_reachable_is_wf(requests: Seq<Request>)
    ensures
        StoreState::empty().run(requests).wf(),
{
    lemma_run_keeps_wf(StoreState::empty(), requests);
}

/// An accepted request adds exactly one notification to the end of the log;
/// a refused one leaves the whole store as it was.
pub proof fn lemma_one_notification_per_change(s: StoreState, request: Request)
    ensures
        s.accepts(request) ==> s.apply(request).events.len() == s.events.len() + 1
            && s.apply(request).events.drop_last() == s.events,
        !s.accepts(request) ==> s.apply(request) == s,
{
}

/// The log is only ever added to: what it held stays at its front, in order.
pub proof fn lemma_log_only_grows(s: StoreState, requests: Seq<Request>)
    ensures
        s.events.is_prefix_of(s.run(requests).events),
    decreases requests.len(),
{
    if requests.len() > 0 {
        let before = s.run(requests.drop_last());
        lemma_log_only_grows(s, requests.drop_last());
        lemma_one_notification_per_change(before, requests.last());
    }
}

/// The counter never goes back, whatever is asked of the store.
pub proof fn lemma_counter_never_goes_back(s: StoreState, requests: Seq<Request>)
    ensures
        s.run(requests).next_todo_id >= s.next_todo_id,
    decreases requests.len(),
{
    if requests.len() > 0 {
        lemma_counter_never_goes_back(s, requests.drop_last());
    }
}

/// Ids come out in strictly increasing order, so none is returned twice:
/// where a create is accepted, and after it any further requests are made
/// (creates, status changes, deletions, accepted or refused), a create that
/// is accepted then returns a larger id than the first did.
///
/// This is stated for a first create that finds the counter below the
/// largest `u32`. Once the counter has stopped there, each create returns
/// that same id.
pub proof fn lemma_later_create_gets_larger_id(
    s: StoreState,
    first_title: Seq<char>,
    first_description: Seq<char>,
    between: Seq<Request>,
    second_title: Seq<char>,
)
    requires
        first_title.len() > 0,
        second_title.len() > 0,
        s.next_todo_id < u32::MAX,
    ensures
        s.created_id(first_title) matches Some(first) && s.after_create(
            first_title,
            first_description,
        ).run(between).created_id(second_title) matches Some(second) && first < second,
{
    lemma_counter_never_goes_back(s.after_create(first_title, first_description), between);
}

/// A task that was just created is found under the id returned, as it was
/// given and with the status `Pending`; every other id holds what it held.
pub proof fn lemma_get_after_create(s: StoreState, title: Seq<char>, description: Seq<char>)
    requires
        title.len() > 0,
    ensures
        s.created_id(title) matches Some(todo_id) && s.after_create(title, description).get(
            todo_id,
        ) == Some(fresh_todo(todo_id, title, description)),
        forall|other: u32|
            s.created_id(title) != Some(other) ==> s.after_create(title, description).get(other)
                == s.get(other),
{
}

/// A status change on a stored task changes that task's status and nothing
/// else: its id, title and description are as before, every other task is as
/// before, the counter is as before, and the log has grown by exactly one
/// `Updated` notification that carries the new status.
pub proof fn lemma_update_changes_only_status(s: StoreState, todo_id: u32, new_status: TodoStatus)
    requires
        s.todos.contains_key(todo_id),
    ensures
        s.after_update(todo_id, new_status).get(todo_id) == Some(
            TodoView { status: new_status, ..s.todos[todo_id] },
        ),
        forall|other: u32|
            other != todo_id ==> s.after_update(todo_id, new_status).get(other) == s.get(other),
        s.after_update(todo_id, new_status).next_todo_id == s.next_todo_id,
        s.after_update(todo_id, new_status).events == s.events.push(
            EventView::Updated { todo_id, new_status },
        ),
{
}

/// A status change or a deletion that names an id without a task leaves the
/// whole store as it was: every lookup gives what it gave, and the log is no
/// longer than before.
pub proof fn lemma_unknown_id_changes_nothing(s: StoreState, todo_id: u32, new_status: TodoStatus)
    requires
        !s.todos.contains_key(todo_id),
    ensures
        s.after_update(todo_id, new_status) == s,
        s.after_delete(todo_id) == s,
{
}

/// A deleted task is gone for good: right after the deletion its id holds
/// nothing, and after any further requests it still holds nothing and no
/// create returns it.
///
/// This is stated for ids below the largest `u32`. That one id can be given
/// out again, because the counter stops at it.
pub proof fn lemma_deleted_id_stays_unused(
    s: StoreState,
    todo_id: u32,
    later: Seq<Request>,
    title: Seq<char>,
)
    requires
        s.wf(),
        s.todos.contains_key(todo_id),
        todo_id < u32::MAX,
    ensures
        s.after_delete(todo_id).get(todo_id) is None,
        s.after_delete(todo_id).run(later).get(todo_id) is None,
        s.after_delete(todo_id).run(later).next_todo_id > todo_id,
        s.after_delete(todo_id).run(later).created_id(title) != Some(todo_id),
    decreases later.len(),
{
    if later.len() > 0 {
        lemma_deleted_id_stays_unused(s, todo_id, later.drop_last(), title);
    }
}

} // verus!
