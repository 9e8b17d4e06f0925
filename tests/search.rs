use eclipse_api::endpoints::boxart::{match_query, query_from_params, Params};
use eclipse_api::errors::ApiError;

#[test]
fn query_words_are_joined_with_and() {
    assert_eq!(match_query("Super Mario  Bros."), "super AND mario AND bros");
    assert_eq!(match_query("  zelda\t"), "zelda");
    assert_eq!(match_query(""), "");
    assert_eq!(match_query("   "), "");
}

#[test]
fn query_keeps_unicode_letters_and_drops_punctuation() {
    assert_eq!(match_query("POKÉMON: Red/Blue"), "pokémon AND redblue");
    assert_eq!(match_query("a !! b"), "a AND  AND b");
}

#[test]
fn missing_query_param_is_an_error() {
    let r = query_from_params(&Params { q: None, system: None });
    assert_eq!(r, Err(ApiError::MissingQuery("missing query param")));
    let ok = query_from_params(&Params { q: Some("Tetris DX".to_string()), system: Some("gbc".to_string()) });
    assert_eq!(ok, Ok("tetris AND dx".to_string()));
}

#[test]
fn unicode_white_space_separates_words() {
    assert_eq!(match_query("a\u{a0}b\u{3000}c\u{2028}d\u{85}e"), "a AND b AND c AND d AND e");
    assert_eq!(match_query("a\u{200b}b"), "ab");
}
