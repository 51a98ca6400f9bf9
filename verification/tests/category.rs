use olivier::category::{category_token, parse_category, Category, InvalidCategoryError};

#[test]
fn parses_the_three_tokens() {
    assert_eq!(parse_category("ask"), Ok(Category::Ask));
    assert_eq!(parse_category("comment"), Ok(Category::Comment));
    assert_eq!(parse_category("story"), Ok(Category::Story));
}

#[test]
fn tokens_round_trip() {
    for c in [Category::Ask, Category::Comment, Category::Story] {
        assert_eq!(parse_category(category_token(c)), Ok(c));
    }
    assert_eq!(category_token(Category::Ask), "ask");
    assert_eq!(category_token(Category::Comment), "comment");
    assert_eq!(category_token(Category::Story), "story");
}

#[test]
fn rejects_everything_else() {
    for s in ["", "Ask", "STORY", " story", "story ", "asks", "comm", "storyy", "stories"] {
        assert_eq!(parse_category(s), Err(InvalidCategoryError));
    }
}
