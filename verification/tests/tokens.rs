use shellfront::tokens::{is_blank, is_space_char, tokenize};

#[test]
fn splits_on_single_spaces() {
    let toks = tokenize("mkdir foo");
    assert_eq!(toks.len(), 2);
    assert_eq!(toks[0], "mkdir");
    assert_eq!(toks[1], "foo");
}

#[test]
fn splits_on_runs_of_whitespace() {
    let toks = tokenize("  rm \t\t foo \n bar  ");
    assert_eq!(toks, vec!["rm", "foo", "bar"]);
}

#[test]
fn empty_line_has_no_tokens() {
    assert_eq!(tokenize("").len(), 0);
}

#[test]
fn blank_line_has_no_tokens() {
    assert_eq!(tokenize(" \t \n ").len(), 0);
}

#[test]
fn single_token_line() {
    assert_eq!(tokenize("ls"), vec!["ls"]);
}

#[test]
fn unicode_whitespace_separates() {
    let toks = tokenize("a\u{a0}b\u{3000}c");
    assert_eq!(toks, vec!["a", "b", "c"]);
}

#[test]
fn blank_detection() {
    assert!(is_blank(""));
    assert!(is_blank("   \t "));
    assert!(is_blank("\u{2028}\u{205f}"));
    assert!(!is_blank(" x "));
}

#[test]
fn space_classification() {
    assert!(is_space_char(' '));
    assert!(is_space_char('\t'));
    assert!(is_space_char('\n'));
    assert!(is_space_char('\u{2006}'));
    assert!(!is_space_char('a'));
    assert!(!is_space_char('-'));
}
