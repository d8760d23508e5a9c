use site_pulse::targets::{select_urls, urls_from_text};

#[test]
fn blank_lines_are_dropped_and_lines_trimmed() {
    let text = "  https://a.test  \n\n\t\nhttps://b.test\r\n   \nc.test";
    assert_eq!(
        urls_from_text(text),
        vec!["https://a.test".to_string(), "https://b.test".to_string(), "c.test".to_string()]
    );
}

#[test]
fn empty_text_lists_no_target() {
    assert!(urls_from_text("").is_empty());
    assert!(urls_from_text("\n  \n").is_empty());
}

#[test]
fn select_keeps_non_empty_in_order() {
    let lines = vec!["b".to_string(), String::new(), "a".to_string(), String::new()];
    assert_eq!(select_urls(&lines), vec!["b".to_string(), "a".to_string()]);
}
