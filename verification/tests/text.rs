use huectl::text::{clone_texts, equal};

#[test]
fn equal_compares_characters() {
    assert!(equal("", ""));
    assert!(equal("select", "select"));
    assert!(!equal("select", "selecT"));
    assert!(!equal("select", "selec"));
    assert!(!equal("selec", "select"));
    assert!(!equal("", "a"));
    assert!(equal("é", "é"));
    assert!(!equal("é", "e"));
    assert!(!equal("é", "e\u{301}"));
}

#[test]
fn clone_texts_copies_every_string() {
    let list = vec!["1".to_string(), "".to_string(), "zwei".to_string()];
    assert_eq!(clone_texts(&list), list);
    assert_eq!(clone_texts(&Vec::new()), Vec::<String>::new());
}
