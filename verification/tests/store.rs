use inky_todo::{InkyTodo, Todo, TodoCreated, TodoDeleted, TodoEvent, TodoStatus, TodoUpdated};

fn text(s: &str) -> String {
    s.to_string()
}

#[test]
fn end_to_end() {
    let mut store = InkyTodo::new();
    assert_eq!(store.create_todo(text("Buy milk"), text("2L")), Ok(1));
    assert_eq!(store.create_todo(text("Walk dog"), text("")), Ok(2));
    assert_eq!(store.update_todo_status(1, TodoStatus::Completed), Ok(()));
    assert_eq!(store.get_todo(1).unwrap().status, TodoStatus::Completed);
    assert_eq!(store.delete_todo(2), Ok(()));
    assert_eq!(store.get_todo(2), None);
    assert_eq!(store.create_todo(text("Feed cat"), text("")), Ok(3));
}

#[test]
fn end_to_end_log() {
    let mut store = InkyTodo::new();
    store.create_todo(text("Buy milk"), text("2L")).unwrap();
    store.create_todo(text("Walk dog"), text("")).unwrap();
    store.update_todo_status(1, TodoStatus::Completed).unwrap();
    store.delete_todo(2).unwrap();
    store.create_todo(text("Feed cat"), text("")).unwrap();
    let expected = vec![
        TodoEvent::Created(TodoCreated { todo_id: 1, title: text("Buy milk") }),
        TodoEvent::Created(TodoCreated { todo_id: 2, title: text("Walk dog") }),
        TodoEvent::Updated(TodoUpdated { todo_id: 1, new_status: TodoStatus::Completed }),
        TodoEvent::Deleted(TodoDeleted { todo_id: 2, title: text("Walk dog") }),
        TodoEvent::Created(TodoCreated { todo_id: 3, title: text("Feed cat") }),
    ];
    assert_eq!(store.events(), &expected);
}

#[test]
fn new_store_is_empty() {
    let store = InkyTodo::new();
    assert_eq!(store.get_todo(0), None);
    assert_eq!(store.get_todo(1), None);
    assert_eq!(store.get_todo(u32::MAX), None);
    assert!(store.events().is_empty());
}

#[test]
fn default_store_starts_at_one() {
    let mut store = InkyTodo::default();
    assert!(store.events().is_empty());
    assert_eq!(store.create_todo(text("first"), text("")), Ok(1));
}

#[test]
fn created_ids_increase_across_deletes() {
    let mut store = InkyTodo::new();
    let mut last = 0;
    for round in 0..20u32 {
        let id = store.create_todo(text("task"), text("")).unwrap();
        assert!(id > last);
        assert_eq!(id, round + 1);
        last = id;
        if round % 3 == 0 {
            assert_eq!(store.delete_todo(id), Ok(()));
        }
        if round % 5 == 0 {
            assert!(store.delete_todo(id + 100).is_err());
        }
    }
}

#[test]
fn empty_title_is_refused() {
    let mut store = InkyTodo::new();
    assert_eq!(
        store.create_todo(text(""), text("anything")),
        Err(text("Title cannot be empty"))
    );
    assert_eq!(store.get_todo(1), None);
    assert!(store.events().is_empty());
    // the counter did not move: the next accepted task still gets id 1
    assert_eq!(store.create_todo(text("real"), text("")), Ok(1));
}

#[test]
fn empty_title_is_refused_in_a_used_store() {
    let mut store = InkyTodo::new();
    store.create_todo(text("a"), text("")).unwrap();
    store.create_todo(text("b"), text("")).unwrap();
    assert_eq!(store.create_todo(text(""), text("")), Err(text("Title cannot be empty")));
    assert_eq!(store.events().len(), 2);
    assert_eq!(store.get_todo(3), None);
    assert_eq!(store.create_todo(text("c"), text("")), Ok(3));
}

#[test]
fn title_is_not_trimmed() {
    let mut store = InkyTodo::new();
    assert_eq!(store.create_todo(text(" "), text("")), Ok(1));
    assert_eq!(store.get_todo(1).unwrap().title, " ");
}

#[test]
fn get_after_create() {
    let mut store = InkyTodo::new();
    let id = store.create_todo(text("Buy milk"), text("2L")).unwrap();
    assert_eq!(
        store.get_todo(id),
        Some(Todo {
            id: 1,
            title: text("Buy milk"),
            description: text("2L"),
            status: TodoStatus::Pending,
        })
    );
    assert_eq!(
        store.events(),
        &vec![TodoEvent::Created(TodoCreated { todo_id: 1, title: text("Buy milk") })]
    );
}

#[test]
fn empty_description_is_accepted() {
    let mut store = InkyTodo::new();
    let id = store.create_todo(text("Walk dog"), text("")).unwrap();
    let todo = store.get_todo(id).unwrap();
    assert_eq!(todo.description, "");
    assert_eq!(todo.status, TodoStatus::Pending);
}

#[test]
fn multibyte_title_is_kept() {
    let mut store = InkyTodo::new();
    let id = store.create_todo(text("café ☕"), text("naïve")).unwrap();
    let todo = store.get_todo(id).unwrap();
    assert_eq!(todo.title, "café ☕");
    assert_eq!(todo.description, "naïve");
}

#[test]
fn update_changes_only_status() {
    let mut store = InkyTodo::new();
    store.create_todo(text("Buy milk"), text("2L")).unwrap();
    store.create_todo(text("Walk dog"), text("park")).unwrap();
    let other_before = store.get_todo(2);
    let log_before = store.events().len();

    assert_eq!(store.update_todo_status(1, TodoStatus::Cancelled), Ok(()));

    assert_eq!(
        store.get_todo(1),
        Some(Todo {
            id: 1,
            title: text("Buy milk"),
            description: text("2L"),
            status: TodoStatus::Cancelled,
        })
    );
    assert_eq!(store.get_todo(2), other_before);
    assert_eq!(store.events().len(), log_before + 1);
    assert_eq!(
        store.events().last(),
        Some(&TodoEvent::Updated(TodoUpdated { todo_id: 1, new_status: TodoStatus::Cancelled }))
    );
    // the counter is untouched
    assert_eq!(store.create_todo(text("Feed cat"), text("")), Ok(3));
}

#[test]
fn any_status_may_follow_any_other() {
    let mut store = InkyTodo::new();
    store.create_todo(text("t"), text("")).unwrap();
    let steps = [
        TodoStatus::Pending,
        TodoStatus::Completed,
        TodoStatus::Completed,
        TodoStatus::Cancelled,
        TodoStatus::Pending,
        TodoStatus::Cancelled,
        TodoStatus::Completed,
    ];
    for (n, status) in steps.iter().enumerate() {
        assert_eq!(store.update_todo_status(1, *status), Ok(()));
        assert_eq!(store.get_todo(1).unwrap().status, *status);
        assert_eq!(store.events().len(), n + 2);
    }
}

#[test]
fn update_of_unknown_id_changes_nothing() {
    let mut store = InkyTodo::new();
    store.create_todo(text("Buy milk"), text("2L")).unwrap();
    let one_before = store.get_todo(1);
    let two_before = store.get_todo(2);
    let log_before = store.events().len();

    assert_eq!(
        store.update_todo_status(2, TodoStatus::Completed),
        Err(text("Todo not found"))
    );
    assert_eq!(store.update_todo_status(0, TodoStatus::Completed), Err(text("Todo not found")));

    assert_eq!(store.get_todo(1), one_before);
    assert_eq!(store.get_todo(2), two_before);
    assert_eq!(store.get_todo(2), None);
    assert_eq!(store.events().len(), log_before);
}

#[test]
fn delete_of_unknown_id_changes_nothing() {
    let mut store = InkyTodo::new();
    store.create_todo(text("Buy milk"), text("2L")).unwrap();
    let one_before = store.get_todo(1);
    let log_before = store.events().len();

    assert_eq!(store.delete_todo(7), Err(text("Todo not found")));

    assert_eq!(store.get_todo(1), one_before);
    assert_eq!(store.get_todo(7), None);
    assert_eq!(store.events().len(), log_before);
    assert_eq!(store.create_todo(text("next"), text("")), Ok(2));
}

#[test]
fn calls_on_an_empty_store_are_refused() {
    let mut store = InkyTodo::new();
    assert_eq!(store.update_todo_status(1, TodoStatus::Completed), Err(text("Todo not found")));
    assert_eq!(store.delete_todo(1), Err(text("Todo not found")));
    assert!(store.events().is_empty());
}

#[test]
fn delete_removes_and_id_is_not_reused() {
    let mut store = InkyTodo::new();
    store.create_todo(text("Buy milk"), text("2L")).unwrap();
    assert_eq!(store.delete_todo(1), Ok(()));
    assert_eq!(store.get_todo(1), None);
    assert_eq!(
        store.events().last(),
        Some(&TodoEvent::Deleted(TodoDeleted { todo_id: 1, title: text("Buy milk") }))
    );
    for expected in 2..10u32 {
        assert_eq!(store.create_todo(text("again"), text("")), Ok(expected));
        assert_eq!(store.get_todo(1), None);
    }
}

#[test]
fn deleted_task_cannot_be_changed_or_deleted_again() {
    let mut store = InkyTodo::new();
    store.create_todo(text("Buy milk"), text("2L")).unwrap();
    store.delete_todo(1).unwrap();
    assert_eq!(store.update_todo_status(1, TodoStatus::Completed), Err(text("Todo not found")));
    assert_eq!(store.delete_todo(1), Err(text("Todo not found")));
    assert_eq!(store.events().len(), 2);
}

#[test]
fn delete_reports_the_title_after_a_status_change() {
    let mut store = InkyTodo::new();
    store.create_todo(text("Walk dog"), text("")).unwrap();
    store.update_todo_status(1, TodoStatus::Completed).unwrap();
    store.delete_todo(1).unwrap();
    assert_eq!(
        store.events().last(),
        Some(&TodoEvent::Deleted(TodoDeleted { todo_id: 1, title: text("Walk dog") }))
    );
}

#[test]
fn get_returns_a_copy() {
    let mut store = InkyTodo::new();
    store.create_todo(text("Buy milk"), text("2L")).unwrap();
    let mut copy = store.get_todo(1).unwrap();
    copy.title = text("changed");
    copy.status = TodoStatus::Cancelled;
    let again = store.get_todo(1).unwrap();
    assert_eq!(again.title, "Buy milk");
    assert_eq!(again.status, TodoStatus::Pending);
    assert_eq!(again.clone(), again);
}
