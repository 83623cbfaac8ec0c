//! The todo endpoints: list all, list by owner, fetch by id, create under an
//! owner, update, delete. Shaped like the account endpoints: one store
//! operation, one response mapping, and the mapping functions stand alone.

use vstd::prelude::*;
use vstd::string::StringExecFns;
use crate::auth_api::{spec_error, spec_invalid};
use crate::model::{CreateUpdateTodo, Todo, TodoV};
use crate::response::{Body, ContentType, Response};
use crate::store::{
    created_todo, has_todo, todo_index_of, todo_with_id, todos_with_creator, Store, StoreV,
};
use crate::validate::validate_todo;

verus! {

/// The fixed validation-failure response of the todo write endpoints.
pub fn todo_invalid() -> (r: Response)
    ensures
        spec_invalid(r, "Todo title is requied!"@),
{
    Response {
        status: 200,
        content_type: ContentType::Text,
        body: Body::Message(String::from_str("Todo title is requied!")),
    }
}

/// Maps the outcome of the select behind `GET /todos`.
pub fn todos_listed(rows: Option<Vec<Todo>>) -> (r: Response)
    ensures
        rows matches Some(v) ==> r == (Response {
            status: 200,
            content_type: ContentType::Json,
            body: Body::Todos(v),
        }),
        rows is None ==> spec_error(r, "Failed to get todos"@),
{
    match rows {
        Some(v) => Response { status: 200, content_type: ContentType::Json, body: Body::Todos(v) },
        None => Response {
            status: 500,
            content_type: ContentType::Json,
            body: Body::Message(String::from_str("Failed to get todos")),
        },
    }
}

/// Maps the outcome of the select behind `GET /auth/{id}/todos`.
pub fn auth_todos_listed(rows: Option<Vec<Todo>>) -> (r: Response)
    ensures
        rows matches Some(v) ==> r == (Response {
            status: 200,
            content_type: ContentType::Json,
            body: Body::Todos(v),
        }),
        rows is None ==> spec_error(r, "Failed to get auth's todos"@),
{
    match rows {
        Some(v) => Response { status: 200, content_type: ContentType::Json, body: Body::Todos(v) },
        None => Response {
            status: 500,
            content_type: ContentType::Json,
            body: Body::Message(String::from_str("Failed to get auth's todos")),
        },
    }
}

/// Maps the outcome of the select behind `GET /todos/{id}`.
pub fn todo_fetched(row: Option<Todo>) -> (r: Response)
    ensures
        row matches Some(t) ==> r == (Response {
            status: 200,
            content_type: ContentType::Json,
            body: Body::OneTodo(t),
        }),
        row is None ==> spec_error(r, "Failed to get todo"@),
{
    match row {
        Some(t) => Response { status: 200, content_type: ContentType::Json, body: Body::OneTodo(t) },
        None => Response {
            status: 500,
            content_type: ContentType::Json,
            body: Body::Message(String::from_str("Failed to get todo")),
        },
    }
}

/// Maps the outcome of the insert behind `POST /auth/{id}/todos`, whose
/// statement returns the `title`, `content` and `creator` of the new row.
pub fn todo_created(row: Option<(String, String, i32)>) -> (r: Response)
    ensures
        row matches Some(tcc) ==> r == (Response {
            status: 200,
            content_type: ContentType::Json,
            body: Body::TitleContentCreator(tcc.0, tcc.1, tcc.2),
        }),
        row is None ==> spec_error(r, "Failed to create todo"@),
{
    match row {
        Some(tcc) => Response {
            status: 200,
            content_type: ContentType::Json,
            body: Body::TitleContentCreator(tcc.0, tcc.1, tcc.2),
        },
        None => Response {
            status: 500,
            content_type: ContentType::Json,
            body: Body::Message(String::from_str("Failed to create todo")),
        },
    }
}

/// Maps the outcome of the update behind `PATCH /updatetodo/{id}`, whose
/// statement returns the new `title` and `content` of the updated row.
pub fn todo_updated(row: Option<(String, String)>) -> (r: Response)
    ensures
        row matches Some(tc) ==> r == (Response {
            status: 200,
            content_type: ContentType::Json,
            body: Body::TitleContent(tc.0, tc.1),
        }),
        row is None ==> spec_error(r, "Failed to update todo"@),
{
    match row {
        Some(tc) => Response {
            status: 200,
            content_type: ContentType::Json,
            body: Body::TitleContent(tc.0, tc.1),
        },
        None => Response {
            status: 500,
            content_type: ContentType::Json,
            body: Body::Message(String::from_str("Failed to update todo")),
        },
    }
}

/// Maps the outcome of the delete behind `DELETE /delete_todo/{id}`, which
/// answers with the full deleted row.
pub fn todo_deleted(row: Option<Todo>) -> (r: Response)
    ensures
        row matches Some(t) ==> r == (Response {
            status: 200,
            content_type: ContentType::Json,
            body: Body::OneTodo(t),
        }),
        row is None ==> spec_error(r, "Failed to delete todo"@),
{
    match row {
        Some(t) => Response { status: 200, content_type: ContentType::Json, body: Body::OneTodo(t) },
        None => Response {
            status: 500,
            content_type: ContentType::Json,
            body: Body::Message(String::from_str("Failed to delete todo")),
        },
    }
}

/// `GET /todos`: every todo row, in store order.
pub fn get_todos(store: &Store) -> (r: Response)
    ensures
        r.status == 200 && r.content_type == ContentType::Json,
        r.body matches Body::Todos(v) && v@.map_values(|t: Todo| t@) == store@.todos,
{
    todos_listed(Some(store.select_todos()))
}

/// `GET /auth/{id}/todos`: exactly the todo rows whose `creator` equals the
/// path id, in store order, and no others.
pub fn get_auth_todos(store: &Store, id: i32) -> (r: Response)
    ensures
        r.status == 200 && r.content_type == ContentType::Json,
        r.body matches Body::Todos(v) && v@.map_values(|t: Todo| t@) == todos_with_creator(
            store@.todos,
            id as int,
        ),
{
    auth_todos_listed(Some(store.select_todos_by_creator(id)))
}

/// `GET /todos/{id}`: the todo row with that id; an absent row is not told
/// apart from a store failure.
pub fn get_todo(store: &Store, id: i32) -> (r: Response)
    requires
        store@.wf(),
    ensures
        match todo_with_id(store@, id as int) {
            Some(tv) => r.status == 200 && r.content_type == ContentType::Json && (r.body matches Body::OneTodo(t)
                && t@ == tv),
            None => spec_error(r, "Failed to get todo"@),
        },
{
    todo_fetched(store.select_todo_by_id(id))
}

/// `POST /auth/{id}/todos`: validates `title`, then inserts the submitted
/// columns owned by the path id under a store-assigned id, and echoes
/// `title`, `content` and `creator`. On validation failure nothing is
/// written and the fixed text answer goes out with status 200.
pub fn create_todo(store: &mut Store, id: i32, body: &CreateUpdateTodo) -> (r: Response)
    requires
        old(store)@.wf(),
    ensures
        final(store)@.wf(),
        body.title@.len() == 0 ==> *final(store) == *old(store) && spec_invalid(
            r,
            "Todo title is requied!"@,
        ),
        body.title@.len() > 0 && old(store)@.next_todo_id < i32::MAX as int ==> {
            &&& final(store)@ == (StoreV {
                todos: old(store)@.todos.push(
                    created_todo(old(store)@, body.title@, body.content@, id as int),
                ),
                next_todo_id: old(store)@.next_todo_id + 1,
                ..old(store)@
            })
            &&& r.status == 200 && r.content_type == ContentType::Json
            &&& r.body matches Body::TitleContentCreator(t, c, cr) && t@ == body.title@ && c@
                == body.content@ && cr == id
        },
        body.title@.len() > 0 && old(store)@.next_todo_id == i32::MAX as int ==> *final(store)
            == *old(store) && spec_error(r, "Failed to create todo"@),
{
    let errors = validate_todo(body);
    if errors.len() == 0 {
        match store.insert_todo(&body.title, &body.content, id) {
            Some(t) => todo_created(Some((t.title, t.content, t.creator))),
            None => todo_created(None),
        }
    } else {
        todo_invalid()
    }
}

/// `PATCH /updatetodo/{id}`: validates `title`, then overwrites `title` and
/// `content` of the row with that id, keeping its creator, and answers with
/// the new `title` and `content`. On validation failure nothing is written.
pub fn update_todo(store: &mut Store, id: i32, body: &CreateUpdateTodo) -> (r: Response)
    requires
        old(store)@.wf(),
    ensures
        final(store)@.wf(),
        body.title@.len() == 0 ==> *final(store) == *old(store) && spec_invalid(
            r,
            "Todo title is requied!"@,
        ),
        body.title@.len() > 0 && has_todo(old(store)@.todos, id as int) ==> {
            &&& final(store)@ == (StoreV {
                todos: old(store)@.todos.update(
                    todo_index_of(old(store)@.todos, id as int),
                    (TodoV {
                        title: body.title@,
                        content: body.content@,
                        creator: old(store)@.todos[todo_index_of(old(store)@.todos, id as int)].creator,
                        id: id as int,
                    }),
                ),
                ..old(store)@
            })
            &&& r.status == 200 && r.content_type == ContentType::Json
            &&& r.body matches Body::TitleContent(t, c) && t@ == body.title@ && c@ == body.content@
        },
        body.title@.len() > 0 && !has_todo(old(store)@.todos, id as int) ==> *final(store) == *old(
            store,
        ) && spec_error(r, "Failed to update todo"@),
{
    let errors = validate_todo(body);
    if errors.len() == 0 {
        let row = store.update_todo_row(id, &body.title, &body.content);
        todo_updated(row)
    } else {
        todo_invalid()
    }
}

/// `DELETE /delete_todo/{id}`: deletes the row with that id and answers with
/// the full deleted row; an absent row is a plain store failure.
pub fn delete_todo(store: &mut Store, id: i32) -> (r: Response)
    requires
        old(store)@.wf(),
    ensures
        final(store)@.wf(),
        has_todo(old(store)@.todos, id as int) ==> {
            &&& final(store)@ == (StoreV {
                todos: old(store)@.todos.remove(todo_index_of(old(store)@.todos, id as int)),
                ..old(store)@
            })
            &&& r.status == 200 && r.content_type == ContentType::Json
            &&& r.body matches Body::OneTodo(t) && t@ == old(store)@.todos[todo_index_of(
                old(store)@.todos,
                id as int,
            )]
        },
        !has_todo(old(store)@.todos, id as int) ==> *final(store) == *old(store) && spec_error(
            r,
            "Failed to delete todo"@,
        ),
{
    let row = store.delete_todo_row(id);
    todo_deleted(row)
}

} // verus!
