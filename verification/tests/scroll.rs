use titanium_web_extension::scroll::{has_scroll_range, scrolled_top, UNKNOWN_SCROLL_PERCENTAGE};
use titanium_web_extension::text::str_eq;

#[test]
fn scrolling_adds_pixels() {
    assert_eq!(scrolled_top(100, 40), 140);
    assert_eq!(scrolled_top(100, -40), 60);
    assert_eq!(scrolled_top(0, -10), -10);
    assert_eq!(scrolled_top(scrolled_top(100, 30), 20), scrolled_top(100, 50));
    assert_eq!(scrolled_top(scrolled_top(100, 30), -30), 100);
}

#[test]
fn scroll_range_needs_content_taller_than_window() {
    assert!(has_scroll_range(1000, 600));
    assert!(!has_scroll_range(600, 600));
    assert!(!has_scroll_range(500, 600));
    assert_eq!(UNKNOWN_SCROLL_PERCENTAGE, -1);
}

#[test]
fn str_eq_compares_characters() {
    assert!(str_eq("hover", "hover"));
    assert!(!str_eq("hover", "hove"));
    assert!(!str_eq("hover", "hovEr"));
    assert!(str_eq("", ""));
    assert!(str_eq("é-1", "é-1"));
}
