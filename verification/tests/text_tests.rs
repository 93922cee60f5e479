use yuck_premium::text::join_strings;
use yuck_premium::text::sanitize;

#[test]
fn sanitize_removes_exactly_the_forbidden_characters() {
    assert_eq!(sanitize("a/b<c>d\"e f(g)h"), "abcdefgh");
    assert_eq!(sanitize("/<>\"() "), "");
    assert_eq!(sanitize("Good Name (Live)"), "GoodNameLive");
}

#[test]
fn sanitize_keeps_everything_else() {
    assert_eq!(sanitize("plain-title_1.2!"), "plain-title_1.2!");
    assert_eq!(sanitize(""), "");
    assert_eq!(sanitize("ümläut—ok"), "ümläut—ok");
}

#[test]
fn sanitize_is_idempotent() {
    for s in ["a/b<c>d\"e f(g)h", "already clean?", "", "((( )))", "Song (feat. X)"] {
        let once = sanitize(s);
        let twice = sanitize(&once);
        assert_eq!(once, twice);
    }
}

#[test]
fn join_with_separator() {
    let parts: Vec<String> = vec!["a".to_string(), "b".to_string(), "c".to_string()];
    assert_eq!(join_strings(&parts, ", "), "a, b, c");
}

#[test]
fn join_single_and_empty() {
    let one: Vec<String> = vec!["solo".to_string()];
    assert_eq!(join_strings(&one, ", "), "solo");
    let none: Vec<String> = Vec::new();
    assert_eq!(join_strings(&none, ", "), "");
}
