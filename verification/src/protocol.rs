//! Creation requests and their field-presence validation rules.
//!
//! Per category, a creation payload must carry certain non-empty fields:
//! a story needs `url` and `title`; an ask needs `text` and `title`; a
//! comment needs `text` and a `parent` id. A present-but-empty string
//! counts as absent. Fields the table does not require are simply ignored.
//!
//! A comment's `parent` is checked for presence only: whether the
//! referenced item actually exists in the store is deliberately not this
//! rule's affair.

use vstd::prelude::*;
use vstd::string::StrSliceExecFns;
use vstd::string::StringExecFns;
use crate::category::{parse_category, parse_category_spec, Category};
use crate::error::ServiceError;

verus! {

/// A request to create a user.
#[derive(Debug)]
pub struct PostUserRequest {
    pub name: String,
    pub about: String,
}

/// A request to create an item; `category` is the raw token, resolved by
/// `parse_category` before the field rules apply.
#[derive(Debug)]
pub struct PostItemRequest {
    pub category: String,
    pub by: i64,
    pub text: Option<String>,
    pub parent: Option<i64>,
    pub url: Option<String>,
    pub title: Option<String>,
}

/// The ways a creation request can be rejected, at the specification level.
pub enum CreateFault {
    /// The category token matched none of the three categories.
    InvalidCategory,
    /// A field-presence rule was violated, with the exact message.
    Validation(Seq<char>),
    /// Declarative input validation failed, with the exact message.
    InvalidInput(Seq<char>),
}

/// Whether an error value reports the given fault.
pub open spec fn matches_fault(e: ServiceError, f: CreateFault) -> bool {
    match f {
        CreateFault::InvalidCategory => e is InvalidCategory,
        CreateFault::Validation(m) => e matches ServiceError::Validation(s) && s@ == m,
        CreateFault::InvalidInput(m) => e matches ServiceError::InvalidInputError(s) && s@ == m,
    }
}

/// Whether an optional string field is present and non-empty.
pub open spec fn nonempty_str(o: Option<String>) -> bool {
    o matches Some(s) && s@.len() > 0
}

/// The first rule an item-creation payload violates, or `None` when it is
/// acceptable. Checks run in the order the rule table lists them.
pub open spec fn item_create_fault(req: PostItemRequest) -> Option<CreateFault> {
    if req.category@ == "ask"@ {
        if !nonempty_str(req.text) {
            Some(CreateFault::Validation("ask's text must exist and not empty"@))
        } else if !nonempty_str(req.title) {
            Some(CreateFault::Validation("ask's title must exist and not empty"@))
        } else {
            None
        }
    } else if req.category@ == "comment"@ {
        if !nonempty_str(req.text) {
            Some(CreateFault::Validation("comment's text must exist and not empty"@))
        } else if req.parent is None {
            Some(CreateFault::Validation("comment's parent must exist and not empty"@))
        } else {
            None
        }
    } else if req.category@ == "story"@ {
        if !nonempty_str(req.url) {
            Some(CreateFault::Validation("story's url must exist and not empty"@))
        } else if !nonempty_str(req.title) {
            Some(CreateFault::Validation("story's title must exist and not empty"@))
        } else {
            None
        }
    } else {
        Some(CreateFault::InvalidCategory)
    }
}

/// The rule a user-creation payload violates, or `None`: the name must be
/// non-empty; `about` is unconstrained.
pub open spec fn user_create_fault(req: PostUserRequest) -> Option<CreateFault> {
    if req.name@.len() == 0 {
        Some(CreateFault::Validation("name could not be empty"@))
    } else {
        None
    }
}

/// A request that checks its own fields before it is acted on.
pub trait Validate: Sized {
    /// The first rule this request violates, if any.
    spec fn fault_spec(&self) -> Option<CreateFault>;

    /// Checks the request, returning the error for the first violated rule.
    fn validate(&self) -> (r: Result<(), ServiceError>)
        ensures
            r is Ok <==> self.fault_spec() is None,
            r matches Err(e) ==> (self.fault_spec() matches Some(f) && matches_fault(e, f)),
    ;
}

/// Whether an optional string field is present and non-empty.
fn has_nonempty(o: &Option<String>) -> (r: bool)
    ensures
        r == nonempty_str(*o),
{
    match o {
        Some(s) => !s.as_str().is_empty(),
        None => false,
    }
}

impl Validate for PostUserRequest {
    open spec fn fault_spec(&self) -> Option<CreateFault> {
        user_create_fault(*self)
    }

    fn validate(&self) -> (r: Result<(), ServiceError>) {
        if self.name.as_str().is_empty() {
            return Err(ServiceError::Validation(String::from_str("name could not be empty")));
        }
        Ok(())
    }
}

impl Validate for PostItemRequest {
    open spec fn fault_spec(&self) -> Option<CreateFault> {
        item_create_fault(*self)
    }

    fn validate(&self) -> (r: Result<(), ServiceError>) {
        proof {
            reveal_strlit("ask");
            reveal_strlit("comment");
            reveal_strlit("story");
            assert("ask"@.len() == 3);
            assert("comment"@.len() == 7);
            assert("story"@.len() == 5);
        }
        let category = match parse_category(self.category.as_str()) {
            Ok(c) => c,
            Err(_) => {
                return Err(ServiceError::InvalidCategory);
            },
        };
        match category {
            Category::Ask => {
                if !has_nonempty(&self.text) {
                    return Err(
                        ServiceError::Validation(
                            String::from_str("ask's text must exist and not empty"),
                        ),
                    );
                }
                if !has_nonempty(&self.title) {
                    return Err(
                        ServiceError::Validation(
                            String::from_str("ask's title must exist and not empty"),
                        ),
                    );
                }
            },
            Category::Comment => {
                if !has_nonempty(&self.text) {
                    return Err(
                        ServiceError::Validation(
                            String::from_str("comment's text must exist and not empty"),
                        ),
                    );
                }
                if self.parent.is_none() {
                    return Err(
                        ServiceError::Validation(
                            String::from_str("comment's parent must exist and not empty"),
                        ),
                    );
                }
            },
            Category::Story => {
                if !has_nonempty(&self.url) {
                    return Err(
                        ServiceError::Validation(
                            String::from_str("story's url must exist and not empty"),
                        ),
                    );
                }
                if !has_nonempty(&self.title) {
                    return Err(
                        ServiceError::Validation(
                            String::from_str("story's title must exist and not empty"),
                        ),
                    );
                }
            },
        }
        Ok(())
    }
}

/// A story payload is acceptable exactly when `url` and `title` are present
/// and non-empty; `text` and `parent` play no part.
pub proof fn lemma_story_validation(req: PostItemRequest)
    requires
        req.category@ == "story"@,
    ensures
        item_create_fault(req) is None <==> (nonempty_str(req.url) && nonempty_str(req.title)),
{
    reveal_strlit("ask");
    reveal_strlit("comment");
    reveal_strlit("story");
    assert("ask"@.len() == 3);
    assert("comment"@.len() == 7);
    assert("story"@.len() == 5);
}

/// An ask payload is acceptable exactly when `text` and `title` are present
/// and non-empty, whatever `parent` and `url` hold.
pub proof fn lemma_ask_validation(req: PostItemRequest)
    requires
        req.category@ == "ask"@,
    ensures
        item_create_fault(req) is None <==> (nonempty_str(req.text) && nonempty_str(req.title)),
{
}

/// A comment payload is acceptable exactly when `text` is present and
/// non-empty and a `parent` id is given, whatever `url` and `title` hold.
pub proof fn lemma_comment_validation(req: PostItemRequest)
    requires
        req.category@ == "comment"@,
    ensures
        item_create_fault(req) is None <==> (nonempty_str(req.text) && req.parent is Some),
{
    reveal_strlit("ask");
    reveal_strlit("comment");
    assert("ask"@.len() == 3);
    assert("comment"@.len() == 7);
}

/// A user payload is acceptable exactly when the name is non-empty; `about`
/// plays no part.
pub proof fn lemma_user_validation(req: PostUserRequest)
    ensures
        user_create_fault(req) is None <==> req.name@.len() > 0,
{
}

} // verus!
