use olivier::error::ServiceError;
use olivier::protocol::{PostItemRequest, PostUserRequest, Validate};

fn item(
    category: &str,
    text: Option<&str>,
    parent: Option<i64>,
    url: Option<&str>,
    title: Option<&str>,
) -> PostItemRequest {
    PostItemRequest {
        category: category.to_string(),
        by: 1,
        text: text.map(|s| s.to_string()),
        parent,
        url: url.map(|s| s.to_string()),
        title: title.map(|s| s.to_string()),
    }
}

fn validation_message(r: Result<(), ServiceError>) -> String {
    match r {
        Err(ServiceError::Validation(m)) => m,
        other => panic!("expected a validation error, got {:?}", other),
    }
}

#[test]
fn story_requires_url_and_title() {
    let msg_url = "story's url must exist and not empty";
    let msg_title = "story's title must exist and not empty";
    assert_eq!(validation_message(item("story", None, None, None, Some("T")).validate()), msg_url);
    assert_eq!(
        validation_message(item("story", None, None, Some(""), Some("T")).validate()),
        msg_url
    );
    assert_eq!(
        validation_message(item("story", None, None, Some("http://x"), None).validate()),
        msg_title
    );
    assert_eq!(
        validation_message(item("story", None, None, Some("http://x"), Some("")).validate()),
        msg_title
    );
    assert!(item("story", None, None, Some("http://x"), Some("T")).validate().is_ok());
}

#[test]
fn ask_requires_text_and_title() {
    let msg_text = "ask's text must exist and not empty";
    let msg_title = "ask's title must exist and not empty";
    assert_eq!(validation_message(item("ask", None, None, None, Some("T")).validate()), msg_text);
    assert_eq!(
        validation_message(item("ask", Some(""), None, None, Some("T")).validate()),
        msg_text
    );
    assert_eq!(validation_message(item("ask", Some("t"), None, None, None).validate()), msg_title);
    assert_eq!(
        validation_message(item("ask", Some("t"), None, None, Some("")).validate()),
        msg_title
    );
    assert!(item("ask", Some("t"), None, None, Some("T")).validate().is_ok());
    // the rule table marks no field forbidden for checking: extras are ignored
    assert!(item("ask", Some("t"), Some(9), Some("http://x"), Some("T")).validate().is_ok());
}

#[test]
fn comment_requires_text_and_parent() {
    let msg_text = "comment's text must exist and not empty";
    let msg_parent = "comment's parent must exist and not empty";
    assert_eq!(
        validation_message(item("comment", None, Some(1), None, None).validate()),
        msg_text
    );
    assert_eq!(
        validation_message(item("comment", Some(""), Some(1), None, None).validate()),
        msg_text
    );
    assert_eq!(
        validation_message(item("comment", Some("t"), None, None, None).validate()),
        msg_parent
    );
    assert!(item("comment", Some("t"), Some(1), None, None).validate().is_ok());
    assert!(item("comment", Some("t"), Some(1), Some("u"), Some("T")).validate().is_ok());
}

#[test]
fn unknown_category_is_rejected_first() {
    let r = item("poll", Some("t"), Some(1), Some("u"), Some("T")).validate();
    assert!(matches!(r, Err(ServiceError::InvalidCategory)));
    let r = item("Story", None, None, Some("http://x"), Some("T")).validate();
    assert!(matches!(r, Err(ServiceError::InvalidCategory)));
}

#[test]
fn user_name_must_not_be_empty() {
    let r = PostUserRequest { name: String::new(), about: "hi".to_string() }.validate();
    assert_eq!(validation_message(r), "name could not be empty");
    assert!(PostUserRequest { name: "Oliver".to_string(), about: String::new() }
        .validate()
        .is_ok());
    assert!(PostUserRequest { name: "Oliver".to_string(), about: "anything".to_string() }
        .validate()
        .is_ok());
}
