//! The decision half of each request handler: everything between reading
//! the request and talking to the store. Each function takes plain values
//! (the payload, and what the store returned) and decides the row to write,
//! the response to send, or the error to report.

use vstd::prelude::*;
use crate::category::{parse_category, parse_category_spec, Category, InvalidCategoryError};
use crate::error::ServiceError;
use crate::item;
use crate::protocol::{item_create_fault, matches_fault, user_create_fault, PostItemRequest,
    PostUserRequest, Validate};
use crate::user;
use crate::v0::{project_item, project_item_spec, project_user, project_user_spec, Response};

verus! {

/// Builds the row to insert for a validated item-creation request: the
/// required fields are taken from the payload, every column the category
/// does not use gets its zero-value default, the score starts at one, and
/// the kids list starts empty. The store assigns `id` and `time`, so both
/// are left zero here.
pub fn new_item(req: PostItemRequest, category: Category) -> (m: item::Model)
    requires
        parse_category_spec(req.category@) == Ok::<Category, InvalidCategoryError>(category),
        item_create_fault(req) is None,
    ensures
        m.id == 0 && m.time == 0,
        m.deleted == false && m.dead == false,
        m.category == category,
        m.by == req.by,
        m.score == 1,
        m.descendants == 0,
        m.kids@ == Seq::<i64>::empty(),
        category is Ask ==> m.text@ == req.text.unwrap()@ && m.title@ == req.title.unwrap()@
            && m.parent == 0 && m.url@ == Seq::<char>::empty(),
        category is Comment ==> m.text@ == req.text.unwrap()@ && m.parent == req.parent.unwrap()
            && m.url@ == Seq::<char>::empty() && m.title@ == Seq::<char>::empty(),
        category is Story ==> m.url@ == req.url.unwrap()@ && m.title@ == req.title.unwrap()@
            && m.parent == 0 && m.text@ == Seq::<char>::empty(),
{
    proof {
        reveal_strlit("ask");
        reveal_strlit("comment");
        reveal_strlit("story");
        assert("ask"@.len() == 3);
        assert("comment"@.len() == 7);
        assert("story"@.len() == 5);
    }
    match category {
        Category::Ask => item::Model {
            id: 0,
            deleted: false,
            category,
            by: req.by,
            time: 0,
            text: req.text.unwrap(),
            dead: false,
            parent: 0,
            kids: Vec::new(),
            url: String::new(),
            score: 1,
            title: req.title.unwrap(),
            descendants: 0,
        },
        Category::Comment => item::Model {
            id: 0,
            deleted: false,
            category,
            by: req.by,
            time: 0,
            text: req.text.unwrap(),
            dead: false,
            parent: req.parent.unwrap(),
            kids: Vec::new(),
            url: String::new(),
            score: 1,
            title: String::new(),
            descendants: 0,
        },
        Category::Story => item::Model {
            id: 0,
            deleted: false,
            category,
            by: req.by,
            time: 0,
            text: String::new(),
            dead: false,
            parent: 0,
            kids: Vec::new(),
            url: req.url.unwrap(),
            score: 1,
            title: req.title.unwrap(),
            descendants: 0,
        },
    }
}

/// Decides an item-creation request: rejects it with the first violated
/// rule, or yields the row to insert.
pub fn plan_post_item(req: PostItemRequest) -> (r: Result<item::Model, ServiceError>)
    ensures
        r is Ok <==> item_create_fault(req) is None,
        r matches Err(e) ==> (item_create_fault(req) matches Some(f) && matches_fault(e, f)),
        r matches Ok(m) ==> parse_category_spec(req.category@) == Ok::<
            Category,
            InvalidCategoryError,
        >(m.category) && m.id == 0 && m.time == 0 && m.deleted == false && m.dead == false
            && m.by == req.by && m.score == 1 && m.descendants == 0 && m.kids@ == Seq::<
            i64,
        >::empty(),
        r matches Ok(m) ==> (m.category is Ask ==> m.text@ == req.text.unwrap()@ && m.title@
            == req.title.unwrap()@ && m.parent == 0 && m.url@ == Seq::<char>::empty()),
        r matches Ok(m) ==> (m.category is Comment ==> m.text@ == req.text.unwrap()@ && m.parent
            == req.parent.unwrap() && m.url@ == Seq::<char>::empty() && m.title@ == Seq::<
            char,
        >::empty()),
        r matches Ok(m) ==> (m.category is Story ==> m.url@ == req.url.unwrap()@ && m.title@
            == req.title.unwrap()@ && m.parent == 0 && m.text@ == Seq::<char>::empty()),
{
    proof {
        reveal_strlit("ask");
        reveal_strlit("comment");
        reveal_strlit("story");
        assert("ask"@.len() == 3);
        assert("comment"@.len() == 7);
        assert("story"@.len() == 5);
    }
    let category = match parse_category(req.category.as_str()) {
        Ok(c) => c,
        Err(_) => {
            return Err(ServiceError::InvalidCategory);
        },
    };
    match req.validate() {
        Ok(_) => {},
        Err(e) => {
            return Err(e);
        },
    }
    Ok(new_item(req, category))
}

/// Decides an item lookup: projects the found row, or reports which id was
/// missing.
pub fn get_item_response(id: i64, found: Option<item::Model>) -> (r: Result<
    Response,
    ServiceError,
>)
    ensures
        r is Ok <==> found is Some,
        found matches Some(m) ==> (r matches Ok(resp) && resp@ == project_item_spec(m@)),
        found is None ==> (r matches Err(e) && e matches ServiceError::ItemNotFound(i) && i == id),
{
    match found {
        Some(m) => Ok(project_item(m)),
        None => Err(ServiceError::ItemNotFound(id)),
    }
}

/// Decides a newest-item lookup: projects the row with the highest id, or
/// reports an empty table.
pub fn max_item_response(found: Option<item::Model>) -> (r: Result<Response, ServiceError>)
    ensures
        r is Ok <==> found is Some,
        found matches Some(m) ==> (r matches Ok(resp) && resp@ == project_item_spec(m@)),
        found is None ==> (r matches Err(e) && e is ItemEmpty),
{
    match found {
        Some(m) => Ok(project_item(m)),
        None => Err(ServiceError::ItemEmpty),
    }
}

/// Builds the row to insert for a validated user-creation request: the
/// submitted list starts empty, and the store assigns `id` and `created`.
pub fn new_user(req: PostUserRequest) -> (u: user::Model)
    ensures
        u.id == 0 && u.created == 0,
        u.name@ == req.name@,
        u.about@ == req.about@,
        u.submitted@ == Seq::<i64>::empty(),
{
    user::Model { id: 0, name: req.name, created: 0, about: req.about, submitted: Vec::new() }
}

/// Decides a user-creation request: rejects an empty name, or yields the
/// row to insert.
pub fn plan_post_user(req: PostUserRequest) -> (r: Result<user::Model, ServiceError>)
    ensures
        r is Ok <==> user_create_fault(req) is None,
        r matches Err(e) ==> (user_create_fault(req) matches Some(f) && matches_fault(e, f)),
        r matches Ok(u) ==> u.id == 0 && u.created == 0 && u.name@ == req.name@ && u.about@
            == req.about@ && u.submitted@ == Seq::<i64>::empty(),
{
    match req.validate() {
        Ok(_) => {},
        Err(e) => {
            return Err(e);
        },
    }
    Ok(new_user(req))
}

/// Decides a user lookup: projects the found row, or reports which id was
/// missing.
pub fn get_user_response(id: i64, found: Option<user::Model>) -> (r: Result<
    Response,
    ServiceError,
>)
    ensures
        r is Ok <==> found is Some,
        found matches Some(u) ==> (r matches Ok(resp) && resp@ == project_user_spec(u@)),
        found is None ==> (r matches Err(e) && e matches ServiceError::UserNotFound(i) && i == id),
{
    match found {
        Some(u) => Ok(project_user(u)),
        None => Err(ServiceError::UserNotFound(id)),
    }
}

/// Decides a newest-user lookup: projects the row with the highest id, or
/// reports an empty table.
pub fn max_user_response(found: Option<user::Model>) -> (r: Result<Response, ServiceError>)
    ensures
        r is Ok <==> found is Some,
        found matches Some(u) ==> (r matches Ok(resp) && resp@ == project_user_spec(u@)),
        found is None ==> (r matches Err(e) && e is UserEmpty),
{
    match found {
        Some(u) => Ok(project_user(u)),
        None => Err(ServiceError::UserEmpty),
    }
}

/// Decides a user upsert. When a row with the id exists, its name and about
/// are replaced and the rest is kept, to be written back with status 200.
/// When none exists, a fresh row under that id is inserted, with status
/// 201. The upsert applies the payload as given: it runs no validation.
pub fn plan_put_user(id: i64, found: Option<user::Model>, req: PostUserRequest) -> (r: (
    u16,
    user::Model,
))
    ensures
        r.1.name@ == req.name@ && r.1.about@ == req.about@,
        found matches Some(u) ==> r.0 == 200 && r.1.id == u.id && r.1.created == u.created
            && r.1.submitted@ == u.submitted@,
        found is None ==> r.0 == 201 && r.1.id == id && r.1.created == 0 && r.1.submitted@
            == Seq::<i64>::empty(),
{
    match found {
        Some(u) => (
            200,
            user::Model {
                id: u.id,
                name: req.name,
                created: u.created,
                about: req.about,
                submitted: u.submitted,
            },
        ),
        None => (
            201,
            user::Model {
                id,
                name: req.name,
                created: 0,
                about: req.about,
                submitted: Vec::new(),
            },
        ),
    }
}

/// The status for a deletion: 204 when no row was affected, 200 otherwise.
pub fn delete_status(rows_affected: u64) -> (r: u16)
    ensures
        r == (if rows_affected == 0 {
            204u16
        } else {
            200u16
        }),
{
    if rows_affected == 0 {
        204
    } else {
        200
    }
}

} // verus!
