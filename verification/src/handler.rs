//! The decision half of the todo handlers: validation, row construction
//! and response shaping, between the request and the store.

use vstd::prelude::*;
use crate::dto::{new_todo_fault, todo_response_of, update_todo_fault, NewTodoRequest,
    TodoResponse, TodosResponse, UpdateTodoRequest};
use crate::error::ServiceError;
use crate::protocol::{matches_fault, Validate};
use crate::todo;

verus! {

/// Presents every stored todo, in store order.
pub fn todos_response(items: Vec<todo::Model>) -> (r: TodosResponse)
    ensures
        r.todos@.len() == items@.len(),
        forall|i: int| 0 <= i < items@.len() ==> r.todos@[i] == todo_response_of(items@[i]),
{
    let mut todos: Vec<TodoResponse> = Vec::new();
    let mut idx: usize = 0;
    let n = items.len();
    while idx < n
        invariant
            idx <= n,
            n == items@.len(),
            todos@.len() == idx,
            forall|i: int| 0 <= i < idx ==> todos@[i] == todo_response_of(items@[i]),
        decreases n - idx,
    {
        let m = &items[idx];
        todos.push(
            TodoResponse {
                id: m.id,
                body: m.body.clone(),
                complated: m.complated,
                created_at: m.created_at,
                updated_at: m.updated_at,
            },
        );
        idx += 1;
    }
    TodosResponse { todos }
}

/// Decides a todo-creation request: rejects an unacceptable body, or yields
/// the row to insert. A missing completion flag defaults to not completed.
pub fn plan_post_todo(req: NewTodoRequest) -> (r: Result<todo::Model, ServiceError>)
    ensures
        r is Ok <==> new_todo_fault(req) is None,
        r matches Err(e) ==> (new_todo_fault(req) matches Some(f) && matches_fault(e, f)),
        r matches Ok(m) ==> m.id == 0 && m.body@ == req.body@ && m.complated
            == req.complated.unwrap_or(false) && m.created_at == 0 && m.updated_at == 0,
{
    match req.validate() {
        Ok(_) => {},
        Err(e) => {
            return Err(e);
        },
    }
    Ok(
        todo::Model {
            id: 0,
            body: req.body,
            complated: req.complated.unwrap_or(false),
            created_at: 0,
            updated_at: 0,
        },
    )
}

/// Decides a todo lookup: presents the found row, or reports which id was
/// missing.
pub fn get_todo_response(id: i64, found: Option<todo::Model>) -> (r: Result<
    TodoResponse,
    ServiceError,
>)
    ensures
        r is Ok <==> found is Some,
        found matches Some(m) ==> (r matches Ok(resp) && resp == todo_response_of(m)),
        found is None ==> (r matches Err(e) && e matches ServiceError::TodoNotFoundError(i) && i
            == id),
{
    match found {
        Some(m) => Ok(TodoResponse::from(m)),
        None => Err(ServiceError::TodoNotFoundError(id)),
    }
}

/// Decides a todo upsert. An unacceptable body in the payload is rejected
/// outright. When a row with the id exists, the present fields of the
/// payload replace its own, its update time becomes `now`, and it is
/// written back with status 200. When none exists, the payload is re-read
/// as a creation request (so a missing body is rejected) and a fresh row
/// under that id is inserted with status 201.
pub fn plan_put_todo(id: i64, found: Option<todo::Model>, req: UpdateTodoRequest, now: i64) -> (r:
    Result<(u16, todo::Model), ServiceError>)
    ensures
        r is Ok <==> (update_todo_fault(req) is None && (found is Some || req.body is Some)),
        update_todo_fault(req) matches Some(f) ==> (r matches Err(e) && matches_fault(e, f)),
        found matches Some(t) ==> (update_todo_fault(req) is None ==> (r matches Ok(p) && p.0
            == 200 && p.1.id == t.id && p.1.body@ == (if req.body is Some {
            req.body.unwrap()@
        } else {
            t.body@
        }) && p.1.complated == req.complated.unwrap_or(t.complated) && p.1.created_at
            == t.created_at && p.1.updated_at == now)),
        req.body matches Some(b) ==> (update_todo_fault(req) is None && found is None ==> (
        r matches Ok(p) && p.0 == 201 && p.1.id == id && p.1.body@ == b@ && p.1.complated
            == req.complated.unwrap_or(false) && p.1.created_at == 0 && p.1.updated_at == 0)),
        update_todo_fault(req) is None && found is None && req.body is None ==> (r matches Err(e)
            && e matches ServiceError::InvalidInputError(m) && m@
            == "body must have between 1 and 1024 characters"@),
{
    match req.validate() {
        Ok(_) => {},
        Err(e) => {
            return Err(e);
        },
    }
    match found {
        Some(t) => {
            let body = match req.body {
                Some(b) => b,
                None => t.body,
            };
            let complated = match req.complated {
                Some(c) => c,
                None => t.complated,
            };
            Ok(
                (
                    200,
                    todo::Model {
                        id: t.id,
                        body,
                        complated,
                        created_at: t.created_at,
                        updated_at: now,
                    },
                ),
            )
        },
        None => {
            let payload = NewTodoRequest::from_update(req);
            match payload.validate() {
                Ok(_) => {},
                Err(e) => {
                    return Err(e);
                },
            }
            Ok(
                (
                    201,
                    todo::Model {
                        id,
                        body: payload.body,
                        complated: payload.complated.unwrap_or(false),
                        created_at: 0,
                        updated_at: 0,
                    },
                ),
            )
        },
    }
}

} // verus!
