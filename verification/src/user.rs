//! The stored user row.

use vstd::prelude::*;

verus! {

/// A stored user row. `created` is the creation timestamp in seconds; `id`
/// and `created` are assigned by the store, so a row built before insertion
/// holds zero in both.
#[derive(Debug)]
pub struct Model {
    pub id: i64,
    pub name: String,
    pub created: i64,
    pub about: String,
    pub submitted: Vec<i64>,
}

/// The mathematical content of a stored user row.
pub struct ModelView {
    pub id: i64,
    pub name: Seq<char>,
    pub created: i64,
    pub about: Seq<char>,
    pub submitted: Seq<i64>,
}

impl View for Model {
    type V = ModelView;

    open spec fn view(&self) -> ModelView {
        ModelView {
            id: self.id,
            name: self.name@,
            created: self.created,
            about: self.about@,
            submitted: self.submitted@,
        }
    }
}

} // verus!
