//! The stored item row: one polymorphic shape tagged by category, with
//! zero-value defaults in the columns its category does not use.

use vstd::prelude::*;
use crate::category::Category;

verus! {

/// A stored item row. `time` is the creation timestamp in seconds; `id` and
/// `time` are assigned by the store, so a row built before insertion holds
/// zero in both.
#[derive(Debug)]
pub struct Model {
    pub id: i64,
    pub deleted: bool,
    pub category: Category,
    pub by: i64,
    pub time: i64,
    pub text: String,
    pub dead: bool,
    pub parent: i64,
    pub kids: Vec<i64>,
    pub url: String,
    pub score: i32,
    pub title: String,
    pub descendants: i32,
}

/// The mathematical content of a stored item row.
pub struct ModelView {
    pub id: i64,
    pub deleted: bool,
    pub category: Category,
    pub by: i64,
    pub time: i64,
    pub text: Seq<char>,
    pub dead: bool,
    pub parent: i64,
    pub kids: Seq<i64>,
    pub url: Seq<char>,
    pub score: i32,
    pub title: Seq<char>,
    pub descendants: i32,
}

impl View for Model {
    type V = ModelView;

    open spec fn view(&self) -> ModelView {
        ModelView {
            id: self.id,
            deleted: self.deleted,
            category: self.category,
            by: self.by,
            time: self.time,
            text: self.text@,
            dead: self.dead,
            parent: self.parent,
            kids: self.kids@,
            url: self.url@,
            score: self.score,
            title: self.title@,
            descendants: self.descendants,
        }
    }
}

} // verus!
