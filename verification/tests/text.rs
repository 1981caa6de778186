use aw_watcher_network::text::{chars_of, contains, equals, lowercase_chars, starts_with};

#[test]
fn text_predicates() {
    let s = chars_of("Hello, World");
    assert_eq!(s.len(), 12);
    assert_eq!(lowercase_chars("Hello, WORLD é"), "hello, world é".chars().collect::<Vec<_>>());
    assert!(starts_with(&s, "Hell"));
    assert!(starts_with(&s, ""));
    assert!(!starts_with(&s, "hell"));
    assert!(contains(&s, "o, W"));
    assert!(contains(&s, "World"));
    assert!(!contains(&s, "World!"));
    assert!(contains(&s, ""));
    assert!(equals(&s, "Hello, World"));
    assert!(!equals(&s, "Hello"));
    let empty = chars_of("");
    assert!(contains(&empty, ""));
    assert!(!contains(&empty, "a"));
}
