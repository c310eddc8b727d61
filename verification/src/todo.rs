//! The to-do service's requests, replies and decisions. Storage is not part
//! of the library: each decision takes what storage answered and says what
//! to reply, or what to ask of storage next.

use crate::http::Status;
use vstd::prelude::*;
use vstd::std_specs::convert::FromSpecImpl;
use vstd::string::*;

verus! {

/// To-do item, as shown to callers.
#[derive(Debug, PartialEq, Eq)]
pub struct Todo {
    pub id: i32,
    pub item: String,
}

/// The user named in a request's path.
#[derive(Debug, PartialEq, Eq)]
pub struct Username {
    /// The name of the user.
    pub username: String,
}

/// Request to create a to-do item.
#[derive(Debug, PartialEq, Eq)]
pub struct TodoCreate {
    pub item: String,
}

/// Request to delete a to-do item.
#[derive(Debug, Clone, Copy, PartialEq, Eq)]
pub struct TodoDelete {
    pub id: i32,
}

/// A to-do item as storage holds it: with the user who owns it.
#[derive(Debug, PartialEq, Eq)]
pub struct TodoRecord {
    pub id: i32,
    pub username: String,
    pub item: String,
}

/// A to-do item that storage has yet to take in and number.
#[derive(Debug, PartialEq, Eq)]
pub struct NewTodo {
    pub username: String,
    pub item: String,
}

/// Storage could not carry out what was asked of it.
#[derive(Debug, Clone, Copy, PartialEq, Eq)]
pub struct StorageFailure {}

/// Mathematical content of a [`Todo`].
pub struct TodoView {
    pub id: int,
    pub item: Seq<char>,
}

/// Mathematical content of a [`TodoRecord`].
pub struct TodoRecordView {
    pub id: int,
    pub username: Seq<char>,
    pub item: Seq<char>,
}

/// Mathematical content of a [`NewTodo`].
pub struct NewTodoView {
    pub username: Seq<char>,
    pub item: Seq<char>,
}

impl View for Todo {
    type V = TodoView;

    open spec fn view(&self) -> TodoView {
        TodoView { id: self.id as int, item: self.item@ }
    }
}

impl View for TodoRecord {
    type V = TodoRecordView;

    open spec fn view(&self) -> TodoRecordView {
        TodoRecordView { id: self.id as int, username: self.username@, item: self.item@ }
    }
}

impl View for NewTodo {
    type V = NewTodoView;

    open spec fn view(&self) -> NewTodoView {
        NewTodoView { username: self.username@, item: self.item@ }
    }
}

/// What callers see of a stored item: its number and its text, not its
/// owner.
pub open spec fn shown(record: TodoRecordView) -> TodoView {
    TodoView { id: record.id, item: record.item }
}

impl From<TodoRecord> for Todo {
    fn from(value: TodoRecord) -> (r: Todo)
        ensures
            r@ == shown(value@),
    {
        Todo { id: value.id, item: value.item }
    }
}

impl FromSpecImpl<TodoRecord> for Todo {
    open spec fn obeys_from_spec() -> bool {
        true
    }

    open spec fn from_spec(value: TodoRecord) -> Todo {
        Todo { id: value.id, item: value.item }
    }
}

/// Replies to a request for a user's items, given what storage found for
/// that user: the items as callers see them, in the order found, or a
/// server error where storage failed.
pub fn list_todos(found: Result<Vec<TodoRecord>, StorageFailure>) -> (r: Result<Vec<Todo>, Status>)
    ensures
        match found {
            Ok(rows) => r matches Ok(items) && items@.len() == rows@.len() && forall|i: int|
                0 <= i < rows@.len() ==> (#[trigger] items@[i])@ == shown(rows@[i]@),
            Err(_) => r == Err::<Vec<Todo>, Status>(Status::InternalServerError),
        },
{
    match found {
        Ok(rows) => {
            let ghost all = rows@;
            let mut items: Vec<Todo> = Vec::new();
            for row in it: rows
                invariant
                    it.seq() == all,
                    items@.len() == it.index(),
                    forall|i: int|
                        0 <= i < items@.len() ==> (#[trigger] items@[i])@ == shown(all[i]@),
            {
                items.push(Todo::from(row));
            }
            Ok(items)
        },
        Err(_) => Err(Status::InternalServerError),
    }
}

/// The item to hand to storage for a request to create one.
pub fn new_todo(username: Username, todo: TodoCreate) -> (r: NewTodo)
    ensures
        r@ == (NewTodoView { username: username.username@, item: todo.item@ }),
{
    NewTodo { username: username.username, item: todo.item }
}

/// The status that answers a request to create an item, given whether
/// storage took it in.
pub open spec fn creation_status(inserted: Result<(), StorageFailure>) -> Status {
    match inserted {
        Ok(_) => Status::Created,
        Err(_) => Status::InternalServerError,
    }
}

/// Replies to a request to create an item, given whether storage took the
/// item in.
pub fn create_todo(inserted: Result<(), StorageFailure>) -> (r: Status)
    ensures
        r == creation_status(inserted),
{
    match inserted {
        Ok(_) => Status::Created,
        Err(_) => Status::InternalServerError,
    }
}

/// What to do about a request to delete an item once storage has been asked
/// for it.
#[derive(Debug, PartialEq, Eq)]
pub enum DeleteStep {
    /// Remove this item from storage.
    Remove(TodoRecord),
    /// Reply with this status and remove nothing.
    Refuse(Status),
}

/// Mathematical content of a [`DeleteStep`].
pub enum DeleteStepView {
    Remove(TodoRecordView),
    Refuse(Status),
}

impl View for DeleteStep {
    type V = DeleteStepView;

    open spec fn view(&self) -> DeleteStepView {
        match *self {
            DeleteStep::Remove(record) => DeleteStepView::Remove(record@),
            DeleteStep::Refuse(status) => DeleteStepView::Refuse(status),
        }
    }
}

/// View of what storage found for a request to delete.
pub open spec fn found_view(found: Result<Option<TodoRecord>, StorageFailure>) -> Result<
    Option<TodoRecordView>,
    StorageFailure,
> {
    match found {
        Ok(Some(record)) => Ok(Some(record@)),
        Ok(None) => Ok(None),
        Err(e) => Err(e),
    }
}

/// The decision on a request by `username` to delete an item: a server
/// error where storage failed, not found where there is no such item,
/// forbidden where the item belongs to someone else, and otherwise the
/// removal of the item.
pub open spec fn delete_decision(
    username: Seq<char>,
    found: Result<Option<TodoRecordView>, StorageFailure>,
) -> DeleteStepView {
    match found {
        Err(_) => DeleteStepView::Refuse(Status::InternalServerError),
        Ok(None) => DeleteStepView::Refuse(Status::NotFound),
        Ok(Some(record)) => if record.username != username {
            DeleteStepView::Refuse(Status::Forbidden)
        } else {
            DeleteStepView::Remove(record)
        },
    }
}

/// Decides a request by `username` to delete an item, given what storage
/// found under the item's number.
pub fn delete_todo(username: &Username, found: Result<Option<TodoRecord>, StorageFailure>) -> (r:
    DeleteStep)
    ensures
        r@ == delete_decision(username.username@, found_view(found)),
{
    match found {
        Err(_) => DeleteStep::Refuse(Status::InternalServerError),
        Ok(None) => DeleteStep::Refuse(Status::NotFound),
        Ok(Some(record)) => {
            if record.username != username.username {
                DeleteStep::Refuse(Status::Forbidden)
            } else {
                DeleteStep::Remove(record)
            }
        },
    }
}

/// The reply that ends a deletion, given whether storage removed the item:
/// success, or a server error.
pub open spec fn removal_reply(removed: Result<(), StorageFailure>) -> Result<Status, Status> {
    match removed {
        Ok(_) => Ok(Status::Success),
        Err(_) => Err(Status::InternalServerError),
    }
}

/// Ends a deletion, given whether storage removed the item.
pub fn delete_reply(removed: Result<(), StorageFailure>) -> (r: Result<Status, Status>)
    ensures
        r == removal_reply(removed),
{
    match removed {
        Ok(_) => Ok(Status::Success),
        Err(_) => Err(Status::InternalServerError),
    }
}

/// An item is removed only for its owner: the decision is a removal exactly
/// when storage found the item and its owner is the user who asks, and what
/// is removed is then the very item found.
pub proof fn lemma_only_owner_removes(
    username: Seq<char>,
    found: Result<Option<TodoRecordView>, StorageFailure>,
)
    ensures
        delete_decision(username, found) is Remove <==> (found matches Ok(Some(record))
            && record.username == username),
        delete_decision(username, found) matches DeleteStepView::Remove(record) ==> found == Ok::<
            Option<TodoRecordView>,
            StorageFailure,
        >(Some(record)),
{
}

} // verus!
