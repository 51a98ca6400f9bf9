//! Response shapes, and the projection of stored rows into them.
//!
//! A stored item has one shape internally; its public shape depends on its
//! category. The projection is a function of the row alone — stated below
//! as the spec function `project_item_spec`, so it is total and
//! deterministic by construction — and each shape simply has no field for
//! the columns its category does not use.

use vstd::prelude::*;
use crate::category::Category;
use crate::item;
use crate::user;

verus! {

/// The public shape of a story: no `text`, no `parent`.
#[derive(Debug)]
pub struct ItemStoryResponseData {
    pub id: i64,
    pub category: Category,
    pub by: i64,
    pub time: i64,
    pub kids: Vec<i64>,
    pub url: String,
    pub score: i32,
    pub title: String,
    pub descendants: i32,
}

/// The public shape of a comment: no `url`, `score`, `title` or
/// `descendants`.
#[derive(Debug)]
pub struct ItemCommentResponseData {
    pub id: i64,
    pub category: Category,
    pub by: i64,
    pub time: i64,
    pub parent: i64,
    pub kids: Vec<i64>,
    pub text: String,
}

/// The public shape of an ask: no `url`, no `parent`.
#[derive(Debug)]
pub struct ItemAskResponseData {
    pub id: i64,
    pub category: Category,
    pub by: i64,
    pub time: i64,
    pub text: String,
    pub kids: Vec<i64>,
    pub score: i32,
    pub title: String,
    pub descendants: i32,
}

/// The public shape of a user.
#[derive(Debug)]
pub struct UserResponse {
    pub id: i64,
    pub name: String,
    pub created: i64,
    pub about: String,
    pub submitted: Vec<i64>,
}

/// A successful response body: one of the three item shapes, a user, or a
/// list of ids.
#[derive(Debug)]
pub enum Response {
    ItemStory(ItemStoryResponseData),
    ItemComment(ItemCommentResponseData),
    ItemAsk(ItemAskResponseData),
    User(UserResponse),
    List(Vec<i64>),
}

/// The mathematical content of a story response.
pub struct StoryView {
    pub id: i64,
    pub category: Category,
    pub by: i64,
    pub time: i64,
    pub kids: Seq<i64>,
    pub url: Seq<char>,
    pub score: i32,
    pub title: Seq<char>,
    pub descendants: i32,
}

/// The mathematical content of a comment response.
pub struct CommentView {
    pub id: i64,
    pub category: Category,
    pub by: i64,
    pub time: i64,
    pub parent: i64,
    pub kids: Seq<i64>,
    pub text: Seq<char>,
}

/// The mathematical content of an ask response.
pub struct AskView {
    pub id: i64,
    pub category: Category,
    pub by: i64,
    pub time: i64,
    pub text: Seq<char>,
    pub kids: Seq<i64>,
    pub score: i32,
    pub title: Seq<char>,
    pub descendants: i32,
}

/// The mathematical content of a user response.
pub struct UserView {
    pub id: i64,
    pub name: Seq<char>,
    pub created: i64,
    pub about: Seq<char>,
    pub submitted: Seq<i64>,
}

/// The mathematical content of a response body.
pub enum ResponseView {
    ItemStory(StoryView),
    ItemComment(CommentView),
    ItemAsk(AskView),
    User(UserView),
    List(Seq<i64>),
}

impl View for ItemStoryResponseData {
    type V = StoryView;

    open spec fn view(&self) -> StoryView {
        StoryView {
            id: self.id,
            category: self.category,
            by: self.by,
            time: self.time,
            kids: self.kids@,
            url: self.url@,
            score: self.score,
            title: self.title@,
            descendants: self.descendants,
        }
    }
}

impl View for ItemCommentResponseData {
    type V = CommentView;

    open spec fn view(&self) -> CommentView {
        CommentView {
            id: self.id,
            category: self.category,
            by: self.by,
            time: self.time,
            parent: self.parent,
            kids: self.kids@,
            text: self.text@,
        }
    }
}

impl View for ItemAskResponseData {
    type V = AskView;

    open spec fn view(&self) -> AskView {
        AskView {
            id: self.id,
            category: self.category,
            by: self.by,
            time: self.time,
            text: self.text@,
            kids: self.kids@,
            score: self.score,
            title: self.title@,
            descendants: self.descendants,
        }
    }
}

impl View for UserResponse {
    type V = UserView;

    open spec fn view(&self) -> UserView {
        UserView {
            id: self.id,
            name: self.name@,
            created: self.created,
            about: self.about@,
            submitted: self.submitted@,
        }
    }
}

impl View for Response {
    type V = ResponseView;

    open spec fn view(&self) -> ResponseView {
        match self {
            Response::ItemStory(d) => ResponseView::ItemStory(d@),
            Response::ItemComment(d) => ResponseView::ItemComment(d@),
            Response::ItemAsk(d) => ResponseView::ItemAsk(d@),
            Response::User(d) => ResponseView::User(d@),
            Response::List(l) => ResponseView::List(l@),
        }
    }
}

/// What projecting a stored item yields: the shape chosen by its category,
/// each field carrying the row's value for it.
pub open spec fn project_item_spec(m: item::ModelView) -> ResponseView {
    match m.category {
        Category::Story => ResponseView::ItemStory(
            StoryView {
                id: m.id,
                category: m.category,
                by: m.by,
                time: m.time,
                kids: m.kids,
                url: m.url,
                score: m.score,
                title: m.title,
                descendants: m.descendants,
            },
        ),
        Category::Ask => ResponseView::ItemAsk(
            AskView {
                id: m.id,
                category: m.category,
                by: m.by,
                time: m.time,
                text: m.text,
                kids: m.kids,
                score: m.score,
                title: m.title,
                descendants: m.descendants,
            },
        ),
        Category::Comment => ResponseView::ItemComment(
            CommentView {
                id: m.id,
                category: m.category,
                by: m.by,
                time: m.time,
                parent: m.parent,
                kids: m.kids,
                text: m.text,
            },
        ),
    }
}

/// What projecting a stored user yields: its one shape, field for field.
pub open spec fn project_user_spec(u: user::ModelView) -> ResponseView {
    ResponseView::User(
        UserView {
            id: u.id,
            name: u.name,
            created: u.created,
            about: u.about,
            submitted: u.submitted,
        },
    )
}

/// Projects a stored item into the response shape of its category.
pub fn project_item(value: item::Model) -> (r: Response)
    ensures
        r@ == project_item_spec(value@),
{
    match value.category {
        Category::Story => Response::ItemStory(
            ItemStoryResponseData {
                id: value.id,
                category: value.category,
                by: value.by,
                time: value.time,
                kids: value.kids,
                url: value.url,
                score: value.score,
                title: value.title,
                descendants: value.descendants,
            },
        ),
        Category::Ask => Response::ItemAsk(
            ItemAskResponseData {
                id: value.id,
                category: value.category,
                by: value.by,
                time: value.time,
                text: value.text,
                kids: value.kids,
                score: value.score,
                title: value.title,
                descendants: value.descendants,
            },
        ),
        Category::Comment => Response::ItemComment(
            ItemCommentResponseData {
                id: value.id,
                category: value.category,
                by: value.by,
                time: value.time,
                parent: value.parent,
                kids: value.kids,
                text: value.text,
            },
        ),
    }
}

/// Projects a stored user into its response shape.
pub fn project_user(value: user::Model) -> (r: Response)
    ensures
        r@ == project_user_spec(value@),
{
    Response::User(
        UserResponse {
            id: value.id,
            name: value.name,
            created: value.created,
            about: value.about,
            submitted: value.submitted,
        },
    )
}

/// Wraps a list of ids as a response.
pub fn project_ids(value: Vec<i64>) -> (r: Response)
    ensures
        r@ == ResponseView::List(value@),
{
    Response::List(value)
}

/// The projection keeps exactly the fields of the category's shape: a
/// story's response drops `text` and `parent`; an ask's drops `url` and
/// `parent`; a comment's drops `url`, `score`, `title` and `descendants`.
/// Every kept field carries the row's value for it.
pub proof fn lemma_projection_shape(m: item::ModelView)
    ensures
        m.category is Story ==> (project_item_spec(m) matches ResponseView::ItemStory(d) && d.id
            == m.id && d.category == m.category && d.by == m.by && d.time == m.time && d.kids
            == m.kids && d.url == m.url && d.score == m.score && d.title == m.title
            && d.descendants == m.descendants),
        m.category is Ask ==> (project_item_spec(m) matches ResponseView::ItemAsk(d) && d.id
            == m.id && d.category == m.category && d.by == m.by && d.time == m.time && d.text
            == m.text && d.kids == m.kids && d.score == m.score && d.title == m.title
            && d.descendants == m.descendants),
        m.category is Comment ==> (project_item_spec(m) matches ResponseView::ItemComment(d)
            && d.id == m.id && d.category == m.category && d.by == m.by && d.time == m.time
            && d.parent == m.parent && d.kids == m.kids && d.text == m.text),
{
}

/// A request for a user by id.
#[derive(Debug)]
pub struct GetUserRequest {
    pub id: usize,
}

} // verus!
