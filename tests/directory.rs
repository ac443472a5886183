use zellij_welcome::catalog::{default_catalog, scheme_of};
use zellij_welcome::directory::{cleanup_targets, is_conforming, parse_listing, parse_session_line, LiveSession};

fn live(name: &str, exited: bool) -> LiveSession {
    LiveSession { raw_name: name.to_string(), is_exited: exited }
}

#[test]
fn parse_reads_names_and_exited_marker() {
    let text = "\u{1b}[32;1malpha-x\u{1b}[m [Created 1h ago]\n\n   \nbeta-y [Created 2h ago] (\u{1b}[31;1mEXITED\u{1b}[m - attach to resurrect)\nrogue";
    let s = parse_listing(text);
    assert_eq!(s.len(), 3);
    assert_eq!(s[0].raw_name, "alpha-x");
    assert!(!s[0].is_exited);
    assert_eq!(s[1].raw_name, "beta-y");
    assert!(s[1].is_exited);
    assert_eq!(s[2].raw_name, "rogue");
    assert!(!s[2].is_exited);
}

#[test]
fn parse_empty_listing() {
    assert!(parse_listing("").is_empty());
    assert!(parse_listing("\n\n").is_empty());
}

#[test]
fn parse_blank_line_is_none() {
    assert!(parse_session_line("  \u{1b}[0m ").is_none());
}

#[test]
fn cleanup_targets_only_live_rogue_sessions() {
    let sessions = vec![live("alpha-x", false), live("rogue", false), live("beta-y", true)];
    let scheme = vec!["alpha".to_string(), "beta".to_string()];
    assert_eq!(cleanup_targets(&sessions, &scheme), vec!["rogue".to_string()]);
}

#[test]
fn cleanup_never_targets_exited() {
    let sessions = vec![live("stray", true), live("alpha", false), live("beta-1", false)];
    let scheme = vec!["alpha".to_string(), "beta".to_string()];
    assert_eq!(cleanup_targets(&sessions, &scheme), vec!["alpha".to_string()]);
}

#[test]
fn cleanup_from_listing_text() {
    let text = "alpha-x [Created 1m ago]\nrogue [Created 5m ago]\nbeta-y [Created 9m ago] (EXITED - attach to resurrect)\n";
    let scheme = vec!["alpha".to_string(), "beta".to_string()];
    assert_eq!(cleanup_targets(&parse_listing(text), &scheme), vec!["rogue".to_string()]);
}

#[test]
fn scheme_of_default_catalog() {
    let scheme = scheme_of(&default_catalog());
    assert_eq!(scheme.len(), 10);
    assert!(is_conforming("easyasset-20240101-000000", &scheme));
    assert!(!is_conforming("easyasset", &scheme));
    assert!(!is_conforming("random", &scheme));
}
