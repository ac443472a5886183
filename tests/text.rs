use zellij_welcome::text::{contains_exec, first_token_exec, starts_with_dashed, strip_ansi_codes};

#[test]
fn strip_removes_color_codes() {
    let line = "\u{1b}[32;1malpha-1\u{1b}[m [Created \u{1b}[35;1m2h\u{1b}[m ago]";
    assert_eq!(strip_ansi_codes(line), "alpha-1 [Created 2h ago]");
}

#[test]
fn strip_keeps_plain_text() {
    assert_eq!(strip_ansi_codes("plain text"), "plain text");
    assert_eq!(strip_ansi_codes(""), "");
}

#[test]
fn strip_drops_unterminated_escape() {
    assert_eq!(strip_ansi_codes("ab\u{1b}[31cd"), "ab");
}

#[test]
fn first_token_skips_leading_space() {
    assert_eq!(first_token_exec("  \tname rest"), "name");
    assert_eq!(first_token_exec("   "), "");
    assert_eq!(first_token_exec("solo"), "solo");
}

#[test]
fn contains_finds_marker() {
    assert!(contains_exec("x (EXITED - attach)", "EXITED"));
    assert!(!contains_exec("x (exited)", "EXITED"));
    assert!(contains_exec("abc", ""));
}

#[test]
fn dashed_prefix_needs_the_dash() {
    assert!(starts_with_dashed("alpha-1", "alpha"));
    assert!(!starts_with_dashed("alpha", "alpha"));
    assert!(!starts_with_dashed("alphabet", "alpha"));
    assert!(!starts_with_dashed("alp", "alpha"));
}
