use zellij_welcome::catalog::{default_catalog, Session};
use zellij_welcome::picker::{event_of_key, App, Event, Key, Outcome};
use zellij_welcome::ranker::{identity_order, order_by_score, rank};

fn names(app: &App) -> Vec<String> {
    app.filtered_indices.iter().map(|&i| app.sessions[i].name.clone()).collect()
}

fn small() -> Vec<Session> {
    vec![Session::new("alpha", "first"), Session::new("beta", "second"), Session::new("gamma", "third")]
}

fn is_subsequence(pat: &str, s: &str) -> bool {
    let mut it = s.chars();
    pat.chars().all(|p| it.any(|c| c.eq_ignore_ascii_case(&p)))
}

#[test]
fn new_lists_whole_catalog_in_order() {
    let app = App::new(default_catalog(), false);
    assert_eq!(app.filtered_indices, (0..10).collect::<Vec<usize>>());
    assert_eq!(app.selected, 0);
    assert_eq!(app.get_selected_session(), "energyboard");
}

#[test]
fn session_new_keeps_fields() {
    let s = Session::new("alpha", "the first");
    assert_eq!(s.name, "alpha");
    assert_eq!(s.description, "the first");
}

#[test]
fn empty_query_is_identity_order() {
    let cat = default_catalog();
    assert_eq!(rank(&cat, ""), (0..cat.len()).collect::<Vec<usize>>());
    assert_eq!(identity_order(3), vec![0, 1, 2]);
}

#[test]
fn ranked_entries_all_match() {
    let cat = default_catalog();
    for q in ["e", "ez", "ss", "zz", "lx", "new"] {
        for &i in rank(&cat, q).iter() {
            assert!(is_subsequence(q, &cat[i].name), "{} does not match {}", cat[i].name, q);
        }
    }
    assert!(rank(&cat, "zzz").is_empty());
}

#[test]
fn query_ez_over_default_catalog() {
    let cat = default_catalog();
    let r = rank(&cat, "ez");
    for &i in r.iter() {
        assert!(is_subsequence("ez", &cat[i].name));
    }
    let expected: Vec<usize> = (0..cat.len()).filter(|&i| is_subsequence("ez", &cat[i].name)).collect();
    let mut got = r.clone();
    got.sort();
    assert_eq!(got, expected);
}

#[test]
fn query_ea_puts_prefix_match_first() {
    let cat = default_catalog();
    let r = rank(&cat, "ea");
    assert_eq!(r[0], 2);
    assert!(r.contains(&0));
    assert!(r.contains(&6));
    assert_eq!(r.len(), 3);
}

#[test]
fn order_by_score_is_stable_descending() {
    let scores = vec![Some(3), None, Some(5), Some(3), Some(-1), Some(5)];
    assert_eq!(order_by_score(&scores), vec![2, 5, 0, 3, 4]);
    assert!(order_by_score(&vec![None, None]).is_empty());
}

#[test]
fn q_on_empty_query_cancels() {
    let mut app = App::new(small(), true);
    assert!(matches!(app.handle_key(Key::Char('q')), Outcome::Cancelled));
}

#[test]
fn q_on_nonempty_query_appends() {
    let mut app = App::new(small(), true);
    assert!(matches!(app.handle_key(Key::Char('a')), Outcome::Browsing));
    assert!(matches!(app.handle_key(Key::Char('q')), Outcome::Browsing));
    assert_eq!(app.search_query, "aq");
}

#[test]
fn next_cycles_back() {
    let mut app = App::new(default_catalog(), false);
    app.next();
    app.next();
    let start = app.selected;
    for _ in 0..app.filtered_indices.len() {
        app.next();
    }
    assert_eq!(app.selected, start);
    assert_eq!(start, 2);
}

#[test]
fn previous_wraps_to_last() {
    let mut app = App::new(small(), false);
    app.previous();
    assert_eq!(app.selected, 2);
    assert_eq!(app.get_selected_session(), "gamma");
    app.previous();
    assert_eq!(app.selected, 1);
}

#[test]
fn navigation_on_empty_candidates_is_noop() {
    let mut app = App::new(small(), false);
    app.update_search("zzz".to_string());
    assert!(app.filtered_indices.is_empty());
    app.next();
    app.previous();
    assert_eq!(app.selected, 0);
    assert_eq!(app.get_selected_session(), "");
    assert!(matches!(app.handle_key(Key::Enter), Outcome::Browsing));
}

#[test]
fn backspace_on_empty_query_is_noop() {
    let mut app = App::new(small(), false);
    app.next();
    assert!(matches!(app.handle_key(Key::Backspace), Outcome::Browsing));
    assert_eq!(app.search_query, "");
    assert_eq!(app.selected, 1);
    assert_eq!(app.filtered_indices, vec![0, 1, 2]);
}

#[test]
fn backspace_removes_one_char_and_refilters() {
    let mut app = App::new(small(), false);
    app.handle_key(Key::Char('g'));
    app.handle_key(Key::Char('m'));
    assert_eq!(names(&app), vec!["gamma".to_string()]);
    app.handle_key(Key::Backspace);
    assert_eq!(app.search_query, "g");
    assert_eq!(names(&app), vec!["gamma".to_string()]);
    app.handle_key(Key::Backspace);
    assert_eq!(app.search_query, "");
    assert_eq!(app.filtered_indices, vec![0, 1, 2]);
}

#[test]
fn esc_clears_then_cancels() {
    let mut app = App::new(small(), false);
    app.handle_key(Key::Char('b'));
    assert!(matches!(app.handle_key(Key::Esc), Outcome::Browsing));
    assert_eq!(app.search_query, "");
    assert_eq!(app.filtered_indices, vec![0, 1, 2]);
    assert!(matches!(app.handle_key(Key::Esc), Outcome::Cancelled));
}

#[test]
fn navigation_keys_are_never_text() {
    let mut app = App::new(small(), false);
    app.handle_key(Key::Char('a'));
    let q = app.search_query.clone();
    app.handle_key(Key::Char('j'));
    app.handle_key(Key::Char('k'));
    app.handle_key(Key::Down);
    assert_eq!(app.search_query, q);
    assert!(matches!(event_of_key(Key::Char('j'), false), Event::MoveNext));
    assert!(matches!(event_of_key(Key::Char('k'), true), Event::MovePrevious));
    assert!(matches!(event_of_key(Key::Char('x'), true), Event::AppendChar('x')));
    assert!(matches!(event_of_key(Key::Other, true), Event::Ignore));
}

#[test]
fn enter_commits_selected_name() {
    let mut app = App::new(small(), false);
    app.handle_key(Key::Down);
    match app.handle_key(Key::Enter) {
        Outcome::Committed(n) => assert_eq!(n, "beta"),
        _ => panic!("expected a commit"),
    }
}

#[test]
fn typing_resets_cursor() {
    let mut app = App::new(small(), false);
    app.next();
    app.handle_key(Key::Char('a'));
    assert_eq!(app.selected, 0);
    assert_eq!(app.search_query, "a");
}
