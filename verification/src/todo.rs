//! The stored todo row.

use vstd::prelude::*;

verus! {

/// A stored todo row. Timestamps are in seconds; `id`, `created_at` and
/// `updated_at` are assigned by the store, so a row built before insertion
/// holds zero in them.
#[derive(Debug)]
pub struct Model {
    pub id: i64,
    pub body: String,
    pub complated: bool,
    pub created_at: i64,
    pub updated_at: i64,
}

} // verus!
