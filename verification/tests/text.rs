use sloppy::text::{clean_post, is_white_space_char, remove_quotes, trim};

#[test]
fn trims_unicode_white_space() {
    assert_eq!(trim("  hello \n"), "hello");
    assert_eq!(trim("\u{3000}\u{a0}x y\u{2029}"), "x y");
    assert_eq!(trim("   "), "");
    assert_eq!(trim(""), "");
    for s in ["  a b  ", "\t\n\r x", "x\u{85}", "\u{200b}x", "no"] {
        assert_eq!(trim(s), s.trim());
    }
}

#[test]
fn white_space_matches_std() {
    for c in ['\t', '\n', '\u{b}', '\u{c}', '\r', ' ', '\u{85}', '\u{a0}', '\u{1680}', '\u{2000}', '\u{200a}', '\u{2028}', '\u{2029}', '\u{202f}', '\u{205f}', '\u{3000}', 'a', '\u{200b}', '\u{feff}', '\u{180e}'] {
        assert_eq!(is_white_space_char(c), c.is_whitespace(), "char {:?}", c);
    }
}

#[test]
fn removes_one_pair_of_quotes() {
    assert_eq!(remove_quotes("\"Hello\""), "Hello");
    assert_eq!(remove_quotes("'Hello'"), "Hello");
    assert_eq!(remove_quotes("\"\"Hi\"\""), "\"Hi\"");
    assert_eq!(remove_quotes("\"\""), "");
    assert_eq!(remove_quotes("\"Hello'"), "\"Hello'");
    assert_eq!(remove_quotes("Hello"), "Hello");
    assert_eq!(remove_quotes(""), "");
    assert_eq!(remove_quotes("\"é\""), "é");
}

#[test]
fn cleans_a_model_answer() {
    assert_eq!(clean_post("  \"Donate sats!\"\n"), "Donate sats!");
    assert_eq!(clean_post("  Donate sats! "), "Donate sats!");
    assert_eq!(clean_post("'  spaced  '"), "  spaced  ");
}
