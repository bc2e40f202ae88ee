use brew_tui::text::{highlight_lowered, highlight_match, trim, Highlight};

#[test]
fn trim_agrees_with_std_on_every_character() {
    let mut c: u32 = 0;
    while c <= 0x10FFFF {
        if let Some(ch) = char::from_u32(c) {
            let s = format!("{ch}x{ch}");
            assert_eq!(trim(&s), s.trim(), "U+{c:04X}");
        }
        c += 1;
    }
}

#[test]
fn trim_removes_unicode_spaces() {
    assert_eq!(trim("\u{3000}\t wget \u{85}\u{2029}"), "wget");
    assert_eq!(trim("\u{200B}a"), "\u{200B}a");
    assert_eq!(trim(" \n "), "");
}

fn parts(h: Highlight) -> (String, String, String) {
    match h {
        Highlight::Parts { before, matched, after } => (before, matched, after),
        Highlight::Plain => panic!("expected parts"),
    }
}

#[test]
fn highlight_on_a_given_lowercase_form() {
    assert_eq!(
        parts(highlight_lowered("GitHub", "github", "hub")),
        ("Git".to_string(), "Hub".to_string(), String::new())
    );
    assert_eq!(
        parts(highlight_lowered("Wget", "wget", "w")),
        (String::new(), "W".to_string(), "get".to_string())
    );
    // a lowercase form longer than the text: the match cannot be cut out
    assert!(matches!(highlight_lowered("İa", "i\u{307}a", "a"), Highlight::Plain));
    assert!(matches!(highlight_lowered("abc", "abc", ""), Highlight::Plain));
    assert!(matches!(highlight_lowered("abc", "abc", "x"), Highlight::Plain));
}

#[test]
fn highlight_parts_rebuild_the_text() {
    for (text, filter) in [("Node.js", "js"), ("Café au lait", "au"), ("ÆON", "æo")] {
        let (b, m, a) = parts(highlight_match(text, filter));
        assert_eq!(format!("{b}{m}{a}"), text);
    }
}
