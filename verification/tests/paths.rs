//! Path tokenising.

use safe_ffi::helper::tokenise_path;
use safe_ffi::implementation::path_tokeniser;

#[test]
fn parse_path() {
    let expected = vec!["abc".to_string(), "d".to_string(), "ef".to_string()];

    let tokenised_0 = path_tokeniser("/abc/d/ef");
    let tokenised_1 = path_tokeniser("/abc/d/ef/");
    let tokenised_2 = path_tokeniser("///abc///d/ef////");

    assert_eq!(tokenised_0, expected);
    assert_eq!(tokenised_1, expected);
    assert_eq!(tokenised_2, expected);
}

#[test]
fn tokenise_keeps_empty_tokens_on_request() {
    let kept = tokenise_path("/a//b", true);
    assert_eq!(
        kept,
        vec![
            "".to_string(),
            "a".to_string(),
            "".to_string(),
            "b".to_string()
        ]
    );
    let dropped = tokenise_path("/a//b", false);
    assert_eq!(dropped, vec!["a".to_string(), "b".to_string()]);
}

#[test]
fn tokenise_empty_path() {
    assert_eq!(tokenise_path("", true), vec!["".to_string()]);
    assert_eq!(tokenise_path("", false), Vec::<String>::new());
    assert_eq!(tokenise_path("///", false), Vec::<String>::new());
}
