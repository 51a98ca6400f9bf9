//! Todo-list request and response bodies, with their validation rule: a
//! todo's body must hold between one and 1024 characters.

use vstd::prelude::*;
use vstd::string::StrSliceExecFns;
use vstd::string::StringExecFns;
use crate::error::{code_of, prompt_of, ServiceError};
use crate::protocol::{CreateFault, Validate};
use crate::todo;

verus! {

/// The error body sent for every failed request: the stable internal code
/// and the human-readable message.
#[derive(Debug)]
pub struct ErrorResponse {
    pub code: i32,
    pub message: String,
}

/// The body reporting an error: its stable code and its message.
pub fn error_response(e: &ServiceError) -> (r: ErrorResponse)
    ensures
        r.code == code_of(*e),
        r.message@ == prompt_of(*e),
{
    ErrorResponse { code: e.get_internal_code(), message: e.get_prompt_message() }
}

/// The state of the service's inner connections.
#[derive(Debug)]
pub struct ServiceStatusResponse {
    pub database: bool,
}

/// A request to create a todo.
#[derive(Debug)]
pub struct NewTodoRequest {
    pub body: String,
    pub complated: Option<bool>,
}

/// A request to update a todo; absent fields are left as they are.
#[derive(Debug)]
pub struct UpdateTodoRequest {
    pub body: Option<String>,
    pub complated: Option<bool>,
}

/// The public shape of a todo.
#[derive(Debug)]
pub struct TodoResponse {
    pub id: i64,
    pub body: String,
    pub complated: bool,
    pub created_at: i64,
    pub updated_at: i64,
}

/// All todos at once.
#[derive(Debug)]
pub struct TodosResponse {
    pub todos: Vec<TodoResponse>,
}

/// Whether a todo body's length is acceptable.
pub open spec fn body_len_ok(body: Seq<char>) -> bool {
    1 <= body.len() <= 1024
}

/// The rule a todo-creation payload violates, or `None`.
pub open spec fn new_todo_fault(req: NewTodoRequest) -> Option<CreateFault> {
    if !body_len_ok(req.body@) {
        Some(CreateFault::InvalidInput("body must have between 1 and 1024 characters"@))
    } else {
        None
    }
}

/// The rule a todo-update payload violates, or `None`: an absent body is
/// acceptable, a present one must have an acceptable length.
pub open spec fn update_todo_fault(req: UpdateTodoRequest) -> Option<CreateFault> {
    if req.body matches Some(b) && !body_len_ok(b@) {
        Some(CreateFault::InvalidInput("body must have between 1 and 1024 characters"@))
    } else {
        None
    }
}

impl Validate for NewTodoRequest {
    open spec fn fault_spec(&self) -> Option<CreateFault> {
        new_todo_fault(*self)
    }

    fn validate(&self) -> (r: Result<(), ServiceError>) {
        let len = self.body.as_str().unicode_len();
        if len < 1 || len > 1024 {
            return Err(
                ServiceError::InvalidInputError(
                    String::from_str("body must have between 1 and 1024 characters"),
                ),
            );
        }
        Ok(())
    }
}

impl Validate for UpdateTodoRequest {
    open spec fn fault_spec(&self) -> Option<CreateFault> {
        update_todo_fault(*self)
    }

    fn validate(&self) -> (r: Result<(), ServiceError>) {
        match &self.body {
            Some(b) => {
                let len = b.as_str().unicode_len();
                if len < 1 || len > 1024 {
                    return Err(
                        ServiceError::InvalidInputError(
                            String::from_str("body must have between 1 and 1024 characters"),
                        ),
                    );
                }
                Ok(())
            },
            None => Ok(()),
        }
    }
}

impl NewTodoRequest {
    /// Reads an update payload as a creation payload: an absent body becomes
    /// the empty string (which then fails validation).
    pub fn from_update(value: UpdateTodoRequest) -> (r: NewTodoRequest)
        ensures
            value.body matches Some(b) ==> r.body@ == b@,
            value.body is None ==> r.body@ == Seq::<char>::empty(),
            r.complated == value.complated,
    {
        NewTodoRequest {
            body: match value.body {
                Some(b) => b,
                None => String::new(),
            },
            complated: value.complated,
        }
    }
}

/// The response shape presenting a stored todo, field for field.
pub open spec fn todo_response_of(m: todo::Model) -> TodoResponse {
    TodoResponse {
        id: m.id,
        body: m.body,
        complated: m.complated,
        created_at: m.created_at,
        updated_at: m.updated_at,
    }
}

impl From<todo::Model> for TodoResponse {
    fn from(value: todo::Model) -> (r: TodoResponse) {
        TodoResponse {
            id: value.id,
            body: value.body,
            complated: value.complated,
            created_at: value.created_at,
            updated_at: value.updated_at,
        }
    }
}

impl vstd::std_specs::convert::FromSpecImpl<todo::Model> for TodoResponse {
    open spec fn obeys_from_spec() -> bool {
        true
    }

    open spec fn from_spec(m: todo::Model) -> TodoResponse {
        todo_response_of(m)
    }
}

} // verus!
