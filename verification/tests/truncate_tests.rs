use brew_tui::text::truncate_string;

#[test]
fn truncate_tests_test_placeholder() {
    assert!(true);
}

#[test]
fn short_text_is_kept() {
    assert_eq!(truncate_string("hello", 50), "hello");
    assert_eq!(truncate_string("", 50), "");
}

#[test]
fn text_of_exactly_the_limit_is_kept() {
    let s = "a".repeat(50);
    assert_eq!(truncate_string(&s, 50), s);
}

#[test]
fn long_ascii_text_is_cut_with_an_ellipsis() {
    let s = "a".repeat(60);
    let r = truncate_string(&s, 50);
    assert_eq!(r, format!("{}…", "a".repeat(49)));
}

#[test]
fn cut_never_splits_a_multibyte_character() {
    // Each "é" takes two bytes; the cut point 8 lies after the fourth one.
    let s = "ééééé";
    let r = truncate_string(s, 10);
    assert_eq!(r, s.to_string());
    let r = truncate_string(s, 9);
    assert_eq!(r, "éééé…");
}

#[test]
fn emoji_and_cjk_are_cut_on_boundaries() {
    let s = "🔥🔥🔥";
    assert_eq!(truncate_string(s, 6), "🔥…");
    let s = "你好世界";
    assert_eq!(truncate_string(s, 7), "你好…");
}

#[test]
fn tiny_limits_give_nothing() {
    assert_eq!(truncate_string("hello", 0), "");
    assert_eq!(truncate_string("hello", 1), "");
    assert_eq!(truncate_string("🔥x", 3), "");
}
