use bloody_falcon::text::build_url;
use bloody_falcon::text::eq_ignore_ascii_case;

#[test]
fn build_url_substitutes_identifier() {
    let url = build_url("https://github.com/{username}", "alice");
    assert_eq!(url, "https://github.com/alice");
}

#[test]
fn build_url_substitutes_in_the_middle() {
    let url = build_url("https://www.reddit.com/user/{username}/posts", "bob");
    assert_eq!(url, "https://www.reddit.com/user/bob/posts");
}

#[test]
fn build_url_without_placeholder_is_unchanged() {
    let url = build_url("https://example.org/profile", "alice");
    assert_eq!(url, "https://example.org/profile");
}

#[test]
fn build_url_substitutes_first_occurrence_only() {
    let url = build_url("x{username}y{username}", "a");
    assert_eq!(url, "xay{username}");
}

#[test]
fn build_url_empty_identifier() {
    let url = build_url("https://github.com/{username}", "");
    assert_eq!(url, "https://github.com/");
}

#[test]
fn case_insensitive_equality_holds_for_ascii_letters() {
    assert!(eq_ignore_ascii_case("GitHub", "github"));
    assert!(eq_ignore_ascii_case("STEAM", "steam"));
    assert!(eq_ignore_ascii_case("", ""));
}

#[test]
fn case_insensitive_equality_rejects_different_strings() {
    assert!(!eq_ignore_ascii_case("abc", "abd"));
    assert!(!eq_ignore_ascii_case("abc", "ab"));
    assert!(!eq_ignore_ascii_case("reddit", "redditt"));
}
