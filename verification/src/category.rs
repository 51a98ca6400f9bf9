//! The closed set of item categories and its string token form.

use vstd::prelude::*;
use crate::text::str_eq;

verus! {

/// The tag that distinguishes the three kinds of forum item.
#[derive(Clone, Copy, Debug, PartialEq, Eq, Structural)]
pub enum Category {
    Ask,
    Comment,
    Story,
}

/// The error returned when a string is not one of the three category tokens.
#[derive(Clone, Copy, Debug, PartialEq, Eq, Structural)]
pub struct InvalidCategoryError;

/// The lowercase token that names a category on the wire.
pub open spec fn token_view(c: Category) -> Seq<char> {
    match c {
        Category::Ask => "ask"@,
        Category::Comment => "comment"@,
        Category::Story => "story"@,
    }
}

/// What parsing a candidate token yields: the matching variant for exactly
/// the three tokens, an error for everything else. No case folding, no
/// trimming.
pub open spec fn parse_category_spec(s: Seq<char>) -> Result<Category, InvalidCategoryError> {
    if s == "ask"@ {
        Ok(Category::Ask)
    } else if s == "comment"@ {
        Ok(Category::Comment)
    } else if s == "story"@ {
        Ok(Category::Story)
    } else {
        Err(InvalidCategoryError)
    }
}

/// Parses a category token by exact match.
pub fn parse_category(s: &str) -> (r: Result<Category, InvalidCategoryError>)
    ensures
        r == parse_category_spec(s@),
{
    if str_eq(s, "ask") {
        Ok(Category::Ask)
    } else if str_eq(s, "comment") {
        Ok(Category::Comment)
    } else if str_eq(s, "story") {
        Ok(Category::Story)
    } else {
        Err(InvalidCategoryError)
    }
}

/// The token under which a category is serialized.
pub fn category_token(c: Category) -> (r: &'static str)
    ensures
        r@ == token_view(c),
{
    match c {
        Category::Ask => "ask",
        Category::Comment => "comment",
        Category::Story => "story",
    }
}

/// Parsing a category's own token gives that category back: the token form
/// round-trips through `parse_category`.
pub proof fn lemma_category_token_round_trip(c: Category)
    ensures
        parse_category_spec(token_view(c)) == Ok::<Category, InvalidCategoryError>(c),
{
    reveal_strlit("ask");
    reveal_strlit("comment");
    reveal_strlit("story");
    assert("ask"@.len() == 3);
    assert("comment"@.len() == 7);
    assert("story"@.len() == 5);
}

/// Parsing a token and serializing the result gives the token back: the
/// category serializes to exactly the string it was parsed from.
pub proof fn lemma_parse_then_token(s: Seq<char>, c: Category)
    requires
        parse_category_spec(s) == Ok::<Category, InvalidCategoryError>(c),
    ensures
        token_view(c) == s,
{
}

} // verus!
