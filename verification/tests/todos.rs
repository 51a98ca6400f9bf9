use olivier::dto::{NewTodoRequest, TodosResponse, UpdateTodoRequest};
use olivier::error::ServiceError;
use olivier::handler::{get_todo_response, plan_post_todo, plan_put_todo, todos_response};
use olivier::protocol::Validate;
use olivier::todo;

fn new_req(body: &str) -> NewTodoRequest {
    NewTodoRequest { body: body.to_string(), complated: None }
}

fn stored(id: i64, body: &str) -> todo::Model {
    todo::Model {
        id,
        body: body.to_string(),
        complated: false,
        created_at: 100,
        updated_at: 100,
    }
}

#[test]
fn todo_bodies_must_have_between_1_and_1024_characters() {
    assert!(matches!(new_req("").validate(), Err(ServiceError::InvalidInputError(_))));
    assert!(new_req("x").validate().is_ok());
    assert!(new_req(&"x".repeat(1024)).validate().is_ok());
    match new_req(&"x".repeat(1025)).validate() {
        Err(ServiceError::InvalidInputError(m)) => {
            assert_eq!(m, "body must have between 1 and 1024 characters");
        }
        other => panic!("an oversized body must be rejected, got {:?}", other),
    }
}

#[test]
fn update_bodies_may_be_absent_but_not_empty() {
    let absent = UpdateTodoRequest { body: None, complated: Some(true) };
    assert!(absent.validate().is_ok());
    let empty = UpdateTodoRequest { body: Some(String::new()), complated: None };
    assert!(matches!(empty.validate(), Err(ServiceError::InvalidInputError(_))));
}

#[test]
fn reading_an_update_as_a_creation_defaults_the_body() {
    let r = NewTodoRequest::from_update(UpdateTodoRequest { body: None, complated: Some(true) });
    assert_eq!(r.body, "");
    assert_eq!(r.complated, Some(true));
    let r = NewTodoRequest::from_update(UpdateTodoRequest {
        body: Some("keep".to_string()),
        complated: None,
    });
    assert_eq!(r.body, "keep");
    assert_eq!(r.complated, None);
}

#[test]
fn posting_a_todo_defaults_the_completion_flag() {
    let row = plan_post_todo(new_req("write tests")).expect("a sized body must pass");
    assert_eq!(row.body, "write tests");
    assert!(!row.complated);
    assert_eq!(row.id, 0);

    let row = plan_post_todo(NewTodoRequest { body: "done".to_string(), complated: Some(true) })
        .expect("a sized body must pass");
    assert!(row.complated);

    assert!(matches!(
        plan_post_todo(new_req("")),
        Err(ServiceError::InvalidInputError(_))
    ));
}

#[test]
fn todo_lookups_report_the_missing_id() {
    let resp = get_todo_response(5, Some(stored(5, "b"))).expect("a found row must present");
    assert_eq!(resp.id, 5);
    assert_eq!(resp.body, "b");
    assert_eq!(resp.created_at, 100);
    assert!(matches!(
        get_todo_response(6, None),
        Err(ServiceError::TodoNotFoundError(6))
    ));
}

#[test]
fn putting_a_todo_updates_present_fields_only() {
    let req = UpdateTodoRequest { body: Some("new".to_string()), complated: None };
    let (status, row) = plan_put_todo(5, Some(stored(5, "old")), req, 999).unwrap();
    assert_eq!(status, 200);
    assert_eq!(row.body, "new");
    assert!(!row.complated);
    assert_eq!(row.created_at, 100);
    assert_eq!(row.updated_at, 999);

    let req = UpdateTodoRequest { body: None, complated: Some(true) };
    let (status, row) = plan_put_todo(5, Some(stored(5, "old")), req, 1000).unwrap();
    assert_eq!(status, 200);
    assert_eq!(row.body, "old");
    assert!(row.complated);
    assert_eq!(row.updated_at, 1000);
}

#[test]
fn putting_a_missing_todo_creates_it_if_a_body_is_given() {
    let req = UpdateTodoRequest { body: Some("fresh".to_string()), complated: None };
    let (status, row) = plan_put_todo(9, None, req, 999).unwrap();
    assert_eq!(status, 201);
    assert_eq!(row.id, 9);
    assert_eq!(row.body, "fresh");
    assert!(!row.complated);
    assert_eq!(row.updated_at, 0);

    let req = UpdateTodoRequest { body: None, complated: Some(true) };
    match plan_put_todo(9, None, req, 999) {
        Err(ServiceError::InvalidInputError(m)) => {
            assert_eq!(m, "body must have between 1 and 1024 characters");
        }
        other => panic!("an absent body cannot create a todo, got {:?}", other),
    }
}

#[test]
fn all_todos_are_presented_in_store_order() {
    let TodosResponse { todos } = todos_response(vec![stored(1, "a"), stored(2, "b")]);
    assert_eq!(todos.len(), 2);
    assert_eq!(todos[0].id, 1);
    assert_eq!(todos[0].body, "a");
    assert_eq!(todos[1].id, 2);
    assert_eq!(todos[1].body, "b");
}
