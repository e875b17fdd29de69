use epub_builder::common::{escape_quote, indent};
use epub_builder::ident::{is_id_char, to_id};
use epub_builder::text::{
    decimal_text, join_texts, replace_each, same_text, split_lines, split_parts,
};

#[test]
fn indent_at_level_zero_puts_one_blank() {
    assert_eq!(indent("a\nb", 0), " a\n b");
}

#[test]
fn indent_leaves_empty_lines_empty() {
    assert_eq!(indent("a\n\nb", 2), "    a\n\n    b");
    assert_eq!(indent("", 2), "");
}

#[test]
fn indent_drops_the_last_line_feed_and_carriage_returns() {
    assert_eq!(indent("a\r\nb\n", 1), "  a\n  b");
    assert_eq!(indent("a\n\n", 1), "  a\n");
}

#[test]
fn lines_as_std_gives_them() {
    for s in ["", "a", "a\n", "a\nb", "\n", "\n\n", "a\r\nb", "a\rb\n", "a\r", "\r\n", "x\n\r\n\ny\r"] {
        let expected: Vec<String> = s.lines().map(|l| l.to_string()).collect();
        assert_eq!(split_lines(s), expected, "for {:?}", s);
    }
}

#[test]
fn join_puts_the_separator_between() {
    assert_eq!(join_texts(&vec![], ", "), "");
    assert_eq!(join_texts(&vec!["a".to_string()], ", "), "a");
    assert_eq!(join_texts(&vec!["a".to_string(), "".to_string(), "c".to_string()], ", "), "a, , c");
}

#[test]
fn replace_each_replaces_every_occurrence() {
    assert_eq!(replace_each("a\\b\\c", '\\', "/"), "a/b/c");
    assert_eq!(replace_each("\"\"", '"', "&quot;"), "&quot;&quot;");
    assert_eq!(replace_each("abc", 'x', "y"), "abc");
}

#[test]
fn same_text_compares_characters() {
    assert!(same_text("abc", "abc"));
    assert!(same_text("", ""));
    assert!(!same_text("abc", "abd"));
}

#[test]
fn decimal_of_numbers() {
    assert_eq!(decimal_text(0), "0");
    assert_eq!(decimal_text(7), "7");
    assert_eq!(decimal_text(10), "10");
    assert_eq!(decimal_text(4096), "4096");
    assert_eq!(decimal_text(usize::MAX), usize::MAX.to_string());
}

#[test]
fn escape_quote_keeps_other_entities() {
    assert_eq!(escape_quote("a &amp; \"b\""), "a &amp; &quot;b&quot;");
    assert_eq!(escape_quote(""), "");
}

#[test]
fn identifier_of_a_path() {
    assert_eq!(to_id("café/im g.png"), "café_im_g.png");
    assert_eq!(to_id("café/im g.png"), to_id("café/im g.png"));
    assert_eq!(to_id("a-b_c.D9"), "a-b_c.D9");
    assert_eq!(to_id(""), "");
}

#[test]
fn identifiers_may_collide() {
    assert_eq!(to_id("a b"), to_id("a/b"));
}

#[test]
fn identifier_characters() {
    for c in ['a', 'Z', '_', '-', '.', '5', '\u{B7}', '\u{C0}', '\u{D6}', '\u{2FF}', '\u{37D}', '\u{200C}', '\u{203F}', '\u{3001}', '\u{FFFD}', '\u{10000}', '\u{EFFFF}'] {
        assert!(is_id_char(c), "{:?}", c);
    }
    for c in [' ', '/', ':', '#', '"', '\u{D7}', '\u{F7}', '\u{37E}', '\u{2000}', '\u{2190}', '\u{3000}', '\u{FFFE}', '\u{F0000}'] {
        assert!(!is_id_char(c), "{:?}", c);
    }
}

#[test]
fn parts_between_separators() {
    for s in ["", "a", "a/b", "/a", "a/", "//", "a//b/"] {
        let expected: Vec<String> = s.split('/').map(|p| p.to_string()).collect();
        assert_eq!(split_parts(s, '/'), expected, "for {:?}", s);
    }
}
