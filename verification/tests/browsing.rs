use ghostbrowse::browse::{BrowseState, Key, Mode};
use ghostbrowse::record::SearchResult;

fn result(title: &str, url: &str) -> SearchResult {
    SearchResult {
        title: title.to_string(),
        url: url.to_string(),
        display_url: String::new(),
        description: String::new(),
    }
}

fn three() -> Vec<SearchResult> {
    vec![
        result("a", "https://a"),
        result("b", "https://b"),
        result("c", "https://c"),
    ]
}

#[test]
fn new_session_defaults() {
    let s = BrowseState::new(three(), "q".to_string());
    assert_eq!(s.cursor, Some(0));
    assert_eq!(s.mode, Mode::Normal);
    assert!(!s.should_quit);
    assert_eq!(s.query, "q");
    let e = BrowseState::new(Vec::new(), "q".to_string());
    assert_eq!(e.cursor, None);
}

#[test]
fn advance_wraps_to_start() {
    let mut s = BrowseState::new(three(), "q".to_string());
    s.next();
    s.next();
    assert_eq!(s.cursor, Some(2));
    s.next();
    assert_eq!(s.cursor, Some(0));
}

#[test]
fn retreat_wraps_to_end() {
    let mut s = BrowseState::new(three(), "q".to_string());
    s.previous();
    assert_eq!(s.cursor, Some(2));
    s.previous();
    assert_eq!(s.cursor, Some(1));
}

#[test]
fn navigation_on_empty_list_is_a_noop() {
    let mut s = BrowseState::new(Vec::new(), "q".to_string());
    s.next();
    assert_eq!(s.cursor, None);
    s.previous();
    assert_eq!(s.cursor, None);
}

#[test]
fn normal_mode_quit_and_insert_keys() {
    let mut s = BrowseState::new(three(), "q".to_string());
    let act = s.handle_key(Key::Char('i'));
    assert!(act.is_none());
    assert_eq!(s.mode, Mode::Insert);
    let mut t = BrowseState::new(three(), "q".to_string());
    t.handle_key(Key::Char('q'));
    assert!(t.should_quit);
    assert_eq!(t.mode, Mode::Normal);
}

#[test]
fn normal_mode_ignores_other_keys() {
    let mut s = BrowseState::new(three(), "q".to_string());
    for key in [Key::Char('x'), Key::Enter, Key::Down, Key::Esc, Key::Other] {
        let act = s.handle_key(key);
        assert!(act.is_none());
        assert_eq!(s.mode, Mode::Normal);
        assert_eq!(s.cursor, Some(0));
        assert!(!s.should_quit);
    }
}

#[test]
fn insert_mode_navigation_keys() {
    let mut s = BrowseState::new(three(), "q".to_string());
    s.handle_key(Key::Char('i'));
    s.handle_key(Key::Char('j'));
    assert_eq!(s.cursor, Some(1));
    s.handle_key(Key::Down);
    assert_eq!(s.cursor, Some(2));
    s.handle_key(Key::Char('l'));
    assert_eq!(s.cursor, Some(0));
    s.handle_key(Key::Char('k'));
    assert_eq!(s.cursor, Some(2));
    s.handle_key(Key::Up);
    assert_eq!(s.cursor, Some(1));
    s.handle_key(Key::Char('h'));
    assert_eq!(s.cursor, Some(0));
    s.handle_key(Key::Right);
    assert_eq!(s.cursor, Some(1));
    s.handle_key(Key::Left);
    assert_eq!(s.cursor, Some(0));
}

#[test]
fn insert_mode_escape_returns_to_normal() {
    let mut s = BrowseState::new(three(), "q".to_string());
    s.handle_key(Key::Char('i'));
    let act = s.handle_key(Key::Esc);
    assert!(act.is_none());
    assert_eq!(s.mode, Mode::Normal);
}

#[test]
fn insert_mode_ignores_other_keys() {
    let mut s = BrowseState::new(three(), "q".to_string());
    s.handle_key(Key::Char('i'));
    for key in [Key::Char('z'), Key::Char('q'), Key::Other] {
        let act = s.handle_key(key);
        assert!(act.is_none());
        assert_eq!(s.mode, Mode::Insert);
        assert_eq!(s.cursor, Some(0));
        assert!(!s.should_quit);
    }
}

#[test]
fn activate_emits_open_request() {
    let mut s = BrowseState::new(three(), "q".to_string());
    s.handle_key(Key::Char('i'));
    s.handle_key(Key::Char('j'));
    let act = s.handle_key(Key::Enter);
    assert_eq!(act.unwrap(), "https://b");
    assert_eq!(s.cursor, Some(1));
    assert_eq!(s.mode, Mode::Insert);
    assert!(!s.should_quit);
}

#[test]
fn activate_with_empty_url_emits_nothing() {
    let mut s = BrowseState::new(vec![result("t", "")], "q".to_string());
    s.handle_key(Key::Char('i'));
    assert!(s.handle_key(Key::Enter).is_none());
}

#[test]
fn activate_on_empty_list_emits_nothing() {
    let mut s = BrowseState::new(Vec::new(), "q".to_string());
    s.handle_key(Key::Char('i'));
    assert!(s.handle_key(Key::Enter).is_none());
    assert!(s.open_selected().is_none());
}
