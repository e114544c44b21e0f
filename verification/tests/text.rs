use hyperexecute::text::{decimal_text, escape_single_quotes, join2, join_words};

#[test]
fn decimal_text_matches_display() {
    for i in [0i64, 7, -1, 10, 12345, -9870, i64::MAX, i64::MIN] {
        assert_eq!(decimal_text(i), i.to_string());
    }
}

#[test]
fn single_quotes_are_escaped() {
    assert_eq!(escape_single_quotes("it's"), "it'\\''s");
    assert_eq!(escape_single_quotes("''"), "'\\'''\\''");
    assert_eq!(escape_single_quotes("plain"), "plain");
    assert_eq!(escape_single_quotes(""), "");
    assert_eq!(escape_single_quotes("é'ü"), "é'\\''ü");
}

#[test]
fn words_are_joined() {
    let words = vec!["python".to_string(), "main.py".to_string()];
    assert_eq!(join_words(&words, " "), "python main.py");
    assert_eq!(join_words(&vec![], " "), "");
    assert_eq!(join_words(&vec!["one".to_string()], ", "), "one");
    assert_eq!(join2("ab", "cd"), "abcd");
}
