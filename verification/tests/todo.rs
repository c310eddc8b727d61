use llm_plugin_utils::todo::{
    create_todo, delete_reply, delete_todo, list_todos, new_todo, DeleteStep, NewTodo,
    StorageFailure, Todo, TodoCreate, TodoDelete, TodoRecord, Username,
};
use llm_plugin_utils::Status;

fn record(id: i32, username: &str, item: &str) -> TodoRecord {
    TodoRecord { id, username: username.to_string(), item: item.to_string() }
}

fn user(name: &str) -> Username {
    Username { username: name.to_string() }
}

#[test]
fn record_is_shown_without_its_owner() {
    let shown = Todo::from(record(7, "ann", "Buy groceries"));
    assert_eq!(shown, Todo { id: 7, item: "Buy groceries".to_string() });
}

#[test]
fn listing_keeps_the_order_found() {
    let found = Ok(vec![record(3, "ann", "c"), record(1, "ann", "a"), record(2, "ann", "b")]);
    assert_eq!(
        list_todos(found),
        Ok(vec![
            Todo { id: 3, item: "c".to_string() },
            Todo { id: 1, item: "a".to_string() },
            Todo { id: 2, item: "b".to_string() },
        ])
    );
}

#[test]
fn listing_of_nothing_is_empty() {
    assert_eq!(list_todos(Ok(Vec::new())), Ok(Vec::new()));
}

#[test]
fn listing_of_one_item() {
    assert_eq!(
        list_todos(Ok(vec![record(-5, "bob", "x")])),
        Ok(vec![Todo { id: -5, item: "x".to_string() }])
    );
}

#[test]
fn listing_fails_with_storage() {
    assert_eq!(list_todos(Err(StorageFailure {})), Err(Status::InternalServerError));
}

#[test]
fn new_item_takes_user_and_text() {
    let made = new_todo(user("ann"), TodoCreate { item: "Buy groceries".to_string() });
    assert_eq!(made, NewTodo { username: "ann".to_string(), item: "Buy groceries".to_string() });
}

#[test]
fn creation_replies_created_or_server_error() {
    assert_eq!(create_todo(Ok(())), Status::Created);
    assert_eq!(create_todo(Err(StorageFailure {})), Status::InternalServerError);
}

#[test]
fn deletion_fails_with_storage() {
    assert_eq!(
        delete_todo(&user("ann"), Err(StorageFailure {})),
        DeleteStep::Refuse(Status::InternalServerError)
    );
}

#[test]
fn deletion_of_a_missing_item_is_not_found() {
    assert_eq!(delete_todo(&user("ann"), Ok(None)), DeleteStep::Refuse(Status::NotFound));
}

#[test]
fn deletion_of_another_users_item_is_forbidden() {
    assert_eq!(
        delete_todo(&user("ann"), Ok(Some(record(1, "bob", "x")))),
        DeleteStep::Refuse(Status::Forbidden)
    );
    assert_eq!(
        delete_todo(&user("ann"), Ok(Some(record(1, "Ann", "x")))),
        DeleteStep::Refuse(Status::Forbidden)
    );
    assert_eq!(
        delete_todo(&user(""), Ok(Some(record(1, "ann", "x")))),
        DeleteStep::Refuse(Status::Forbidden)
    );
}

#[test]
fn deletion_of_an_own_item_removes_it() {
    assert_eq!(
        delete_todo(&user("ann"), Ok(Some(record(1, "ann", "x")))),
        DeleteStep::Remove(record(1, "ann", "x"))
    );
}

#[test]
fn deletion_ends_in_success_or_server_error() {
    assert_eq!(delete_reply(Ok(())), Ok(Status::Success));
    assert_eq!(delete_reply(Err(StorageFailure {})), Err(Status::InternalServerError));
}

#[test]
fn delete_request_names_the_item() {
    let request = TodoDelete { id: 42 };
    assert_eq!(request.id, 42);
    assert_eq!(request, request.clone());
}
