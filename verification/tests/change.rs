use writing_feedback::change::{has_changed, is_blank};

#[test]
fn a_text_is_no_change_from_itself() {
    for text in ["", "a", " a ", "Hello world", "line one\nline two\n", "\t\u{a0}x\u{3000}"] {
        assert!(!has_changed(text, text), "{:?}", text);
    }
}

#[test]
fn whitespace_around_a_text_is_ignored() {
    assert!(!has_changed(" a ", "a"));
    assert!(!has_changed("a", " a "));
    assert!(!has_changed("Hello\n", "Hello"));
    assert!(!has_changed("\t\r\n Hello", "Hello \n\n"));
}

#[test]
fn unicode_whitespace_around_a_text_is_ignored() {
    assert!(!has_changed("\u{a0}a\u{3000}", "a"));
    assert!(!has_changed("\u{2028}\u{85}a", "a\u{2003}"));
}

#[test]
fn different_texts_are_a_change() {
    assert!(has_changed("a", "b"));
    assert!(has_changed("", "a"));
    assert!(has_changed("Hello", "Hello world"));
}

#[test]
fn whitespace_inside_a_text_counts() {
    assert!(has_changed("a b", "ab"));
    assert!(has_changed("a b", "a  b"));
    assert!(has_changed("a\nb", "a b"));
}

#[test]
fn blank_texts_are_no_change_from_each_other() {
    assert!(!has_changed("", "   "));
    assert!(!has_changed("\n\n", "\t"));
}

#[test]
fn a_text_is_blank_when_it_holds_only_whitespace() {
    assert!(is_blank(""));
    assert!(is_blank(" \t\r\n"));
    assert!(is_blank("\u{a0}"));
    assert!(!is_blank("x"));
    assert!(!is_blank("  x  "));
}

fn has_white_space_property(c: char) -> bool {
    matches!(
        c as u32,
        0x0009..=0x000D
            | 0x0020
            | 0x0085
            | 0x00A0
            | 0x1680
            | 0x2000..=0x200A
            | 0x2028
            | 0x2029
            | 0x202F
            | 0x205F
            | 0x3000
    )
}

#[test]
fn whitespace_is_what_has_the_white_space_property() {
    let mut text = String::new();
    for code in 0..=0x10FFFFu32 {
        if let Some(c) = char::from_u32(code) {
            text.clear();
            text.push(c);
            assert_eq!(is_blank(&text), has_white_space_property(c), "U+{:04X}", code);
        }
    }
}

#[test]
fn each_whitespace_character_is_trimmed_at_both_ends() {
    for code in [
        0x09u32, 0x0A, 0x0B, 0x0C, 0x0D, 0x20, 0x85, 0xA0, 0x1680, 0x2000, 0x2005, 0x200A, 0x2028,
        0x2029, 0x202F, 0x205F, 0x3000,
    ] {
        let c = char::from_u32(code).unwrap();
        assert!(!has_changed(&format!("{}a{}{}", c, c, c), "a"), "U+{:04X}", code);
        assert!(has_changed(&format!("a{}b", c), "ab"), "U+{:04X}", code);
    }
}

#[test]
fn characters_next_to_whitespace_are_not_trimmed() {
    for code in [0x08u32, 0x0E, 0x1F, 0x21, 0x84, 0x86, 0x9F, 0xA1, 0x180E, 0x1FFF, 0x200B, 0x2027,
        0x202A, 0x2060, 0x2FFF, 0x3001, 0xFEFF]
    {
        let c = char::from_u32(code).unwrap();
        assert!(has_changed(&format!("{}a", c), "a"), "U+{:04X}", code);
        assert!(has_changed(&format!("a{}", c), "a"), "U+{:04X}", code);
    }
}
