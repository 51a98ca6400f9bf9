use olivier::category::Category;
use olivier::error::ServiceError;
use olivier::item;
use olivier::protocol::{PostItemRequest, PostUserRequest};
use olivier::routes::{delete_status, get_item_response, get_user_response, max_item_response,
    max_user_response, plan_post_item, plan_post_user, plan_put_user};
use olivier::user;
use olivier::v0::{project_item, Response};

#[test]
fn posting_a_story_yields_a_story_row_with_defaults() {
    let req = PostItemRequest {
        category: "story".to_string(),
        by: 1,
        text: None,
        parent: None,
        url: Some("http://x".to_string()),
        title: Some("T".to_string()),
    };
    let row = plan_post_item(req).expect("a valid story must pass");
    assert_eq!(row.category, Category::Story);
    assert_eq!(row.by, 1);
    assert_eq!(row.url, "http://x");
    assert_eq!(row.title, "T");
    assert_eq!(row.score, 1);
    assert_eq!(row.kids, Vec::<i64>::new());
    assert_eq!(row.descendants, 0);
    assert_eq!(row.text, "");
    assert_eq!(row.parent, 0);
    assert!(!row.deleted);
    assert!(!row.dead);

    match project_item(row) {
        Response::ItemStory(d) => {
            assert_eq!(d.score, 1);
            assert_eq!(d.kids, Vec::<i64>::new());
            assert_eq!(d.descendants, 0);
            assert_eq!(d.url, "http://x");
            assert_eq!(d.title, "T");
            assert_eq!(d.by, 1);
        }
        other => panic!("expected a story-shaped response, got {:?}", other),
    }
}

#[test]
fn posting_an_empty_ask_is_rejected() {
    let req = PostItemRequest {
        category: "ask".to_string(),
        by: 1,
        text: None,
        parent: None,
        url: None,
        title: None,
    };
    match plan_post_item(req) {
        Err(ServiceError::Validation(m)) => {
            assert_eq!(m, "ask's text must exist and not empty");
        }
        other => panic!("an ask without text must fail validation, got {:?}", other),
    }
}

#[test]
fn posting_a_comment_keeps_its_parent() {
    let req = PostItemRequest {
        category: "comment".to_string(),
        by: 2,
        text: Some("reply".to_string()),
        parent: Some(10),
        url: None,
        title: None,
    };
    let row = plan_post_item(req).expect("a valid comment must pass");
    assert_eq!(row.category, Category::Comment);
    assert_eq!(row.parent, 10);
    assert_eq!(row.text, "reply");
    assert_eq!(row.url, "");
    assert_eq!(row.title, "");
    assert_eq!(row.score, 1);
}

fn sample_item() -> item::Model {
    item::Model {
        id: 5,
        deleted: false,
        category: Category::Story,
        by: 1,
        time: 0,
        text: String::new(),
        dead: false,
        parent: 0,
        kids: Vec::new(),
        url: "u".to_string(),
        score: 1,
        title: "t".to_string(),
        descendants: 0,
    }
}

fn sample_user() -> user::Model {
    user::Model {
        id: 8,
        name: "Oliver".to_string(),
        created: 7,
        about: "about".to_string(),
        submitted: vec![5],
    }
}

#[test]
fn item_lookups_report_the_missing_id() {
    assert!(matches!(
        get_item_response(5, Some(sample_item())),
        Ok(Response::ItemStory(_))
    ));
    assert!(matches!(
        get_item_response(41, None),
        Err(ServiceError::ItemNotFound(41))
    ));
    assert!(matches!(
        max_item_response(Some(sample_item())),
        Ok(Response::ItemStory(_))
    ));
    assert!(matches!(max_item_response(None), Err(ServiceError::ItemEmpty)));
}

#[test]
fn user_lookups_report_the_missing_id() {
    assert!(matches!(
        get_user_response(8, Some(sample_user())),
        Ok(Response::User(_))
    ));
    assert!(matches!(
        get_user_response(9, None),
        Err(ServiceError::UserNotFound(9))
    ));
    assert!(matches!(
        max_user_response(Some(sample_user())),
        Ok(Response::User(_))
    ));
    assert!(matches!(max_user_response(None), Err(ServiceError::UserEmpty)));
}

#[test]
fn posting_a_user_starts_with_nothing_submitted() {
    let row = plan_post_user(PostUserRequest {
        name: "Oliver".to_string(),
        about: "hi".to_string(),
    })
    .expect("a named user must pass");
    assert_eq!(row.name, "Oliver");
    assert_eq!(row.about, "hi");
    assert_eq!(row.submitted, Vec::<i64>::new());

    match plan_post_user(PostUserRequest { name: String::new(), about: "hi".to_string() }) {
        Err(ServiceError::Validation(m)) => assert_eq!(m, "name could not be empty"),
        other => panic!("an unnamed user must fail validation, got {:?}", other),
    }
}

#[test]
fn putting_a_user_updates_or_creates() {
    let req = PostUserRequest { name: "New".to_string(), about: "n".to_string() };
    let (status, row) = plan_put_user(8, Some(sample_user()), req);
    assert_eq!(status, 200);
    assert_eq!(row.id, 8);
    assert_eq!(row.name, "New");
    assert_eq!(row.about, "n");
    assert_eq!(row.created, 7);
    assert_eq!(row.submitted, vec![5]);

    let req = PostUserRequest { name: "New".to_string(), about: "n".to_string() };
    let (status, row) = plan_put_user(33, None, req);
    assert_eq!(status, 201);
    assert_eq!(row.id, 33);
    assert_eq!(row.name, "New");
    assert_eq!(row.submitted, Vec::<i64>::new());
}

#[test]
fn deletions_answer_by_rows_affected() {
    assert_eq!(delete_status(0), 204);
    assert_eq!(delete_status(1), 200);
    assert_eq!(delete_status(17), 200);
}
