use issue_tracker::app_state::AppState;
use issue_tracker::config::Config;
use issue_tracker::controls::{Action, FetchRequest, Key};
use issue_tracker::errors::Errors;
use issue_tracker::input_mode::InputMode;
use issue_tracker::issue::Issue;
use issue_tracker::menu_items::MenuItems;
use issue_tracker::repository::Repository;
use issue_tracker::screen::Screen;

fn issue(number: usize, title: &str) -> Issue {
    Issue {
        html_url: format!("https://github.com/octocat/Hello-World/issues/{}", number),
        number,
        title: title.to_string(),
        body: format!("# Issue {}", number),
    }
}

fn repo(full_name: &str) -> Repository {
    Repository {
        name: full_name.split('/').nth(1).unwrap_or("").to_string(),
        full_name: full_name.to_string(),
        open_issues_count: 2,
    }
}

fn state() -> AppState {
    let config = Config { github_access_token: "t".to_string(), user_name: "octocat".to_string() };
    AppState::new(config, vec![repo("octocat/one"), repo("octocat/two")])
}

fn type_text(app: &mut AppState, text: &str) {
    for c in text.chars() {
        assert!(matches!(app.handle_key(Key::Char(c)), Action::Continue));
    }
}

fn expect_fetch(action: Action) -> FetchRequest {
    match action {
        Action::FetchIssues(req) => req,
        _ => panic!("expected a fetch"),
    }
}

#[test]
fn new_state_is_idle() {
    let app = state();
    assert_eq!(app.screen, Screen::Issues);
    assert_eq!(app.input_mode, InputMode::Normal);
    assert_eq!(app.current_menu, MenuItems::Issues);
    assert!(!app.popup.show_popup);
    assert!(app.selected_repo.is_none());
    assert!(app.issues.items().is_empty());
    assert_eq!(app.repositories.selected(), Some(0));
}

#[test]
fn change_focus_twice_restores_screen() {
    let mut app = state();
    app.change_focus();
    assert_eq!(app.screen, Screen::Repositories);
    app.change_focus();
    assert_eq!(app.screen, Screen::Issues);
    app.show_error("boom".to_string());
    app.change_focus();
    assert_eq!(app.screen, Screen::Error);
}

#[test]
fn tab_key_switches_focus() {
    let mut app = state();
    assert!(matches!(app.handle_key(Key::Tab), Action::Continue));
    assert_eq!(app.screen, Screen::Repositories);
    app.handle_key(Key::Tab);
    assert_eq!(app.screen, Screen::Issues);
}

#[test]
fn arrows_move_the_focused_list() {
    let mut app = state();
    app.handle_key(Key::Tab);
    app.handle_key(Key::Down);
    assert_eq!(app.repositories.selected(), Some(1));
    app.handle_key(Key::Char('j'));
    assert_eq!(app.repositories.selected(), Some(1));
    app.handle_key(Key::Char('k'));
    assert_eq!(app.repositories.selected(), Some(0));
    app.handle_key(Key::Up);
    assert_eq!(app.repositories.selected(), Some(0));
    app.handle_key(Key::Tab);
    app.handle_key(Key::Down);
    assert_eq!(app.issues.selected(), None);
    assert_eq!(app.repositories.selected(), Some(0));
}

#[test]
fn confirming_uncached_repository_asks_for_fetch() {
    let mut app = state();
    app.handle_key(Key::Tab);
    app.handle_key(Key::Down);
    let req = expect_fetch(app.handle_key(Key::Enter));
    assert_eq!(req.repository.full_name, "octocat/two");
    assert!(!req.from_search);
    assert_eq!(app.selected_repo.as_ref().unwrap().full_name, "octocat/two");
    app.complete_fetch(req, Ok(vec![issue(1, "a"), issue(2, "b")]));
    assert_eq!(app.issues.items().len(), 2);
    assert_eq!(app.issues.selected(), Some(0));
    assert_eq!(app.issue_cache.lookup(&"octocat/two".to_string()).unwrap().len(), 2);
    assert_eq!(app.repositories.items().len(), 2);
}

#[test]
fn confirming_cached_repository_uses_cache() {
    let mut app = state();
    app.cache_issues("octocat/one".to_string(), vec![issue(5, "five")]);
    app.handle_key(Key::Tab);
    let action = app.handle_key(Key::Enter);
    assert!(matches!(action, Action::Continue));
    assert_eq!(app.issues.items().len(), 1);
    assert_eq!(app.issues.selected_value().unwrap().number, 5);
    assert_eq!(app.selected_repo.as_ref().unwrap().full_name, "octocat/one");
    // again: still no fetch
    assert!(matches!(app.handle_key(Key::Enter), Action::Continue));
    assert_eq!(app.issues.items()[0].title, "five");
}

#[test]
fn fetched_repository_is_served_from_cache_next_time() {
    let mut app = state();
    app.handle_key(Key::Tab);
    let req = expect_fetch(app.handle_key(Key::Enter));
    app.complete_fetch(req, Ok(vec![issue(9, "nine")]));
    app.handle_key(Key::Down);
    let other = expect_fetch(app.handle_key(Key::Enter));
    app.complete_fetch(other, Ok(vec![]));
    assert!(app.issues.items().is_empty());
    app.handle_key(Key::Up);
    assert!(matches!(app.handle_key(Key::Enter), Action::Continue));
    assert_eq!(app.issues.items()[0].number, 9);
}

#[test]
fn confirming_issue_opens_its_url() {
    let mut app = state();
    app.show_issues(vec![issue(1, "a"), issue(2, "b")]);
    app.handle_key(Key::Down);
    match app.handle_key(Key::Enter) {
        Action::OpenUrl(url) => assert_eq!(url, "https://github.com/octocat/Hello-World/issues/2"),
        _ => panic!("expected a url"),
    }
}

#[test]
fn confirming_on_empty_issue_list_does_nothing() {
    let mut app = state();
    assert!(matches!(app.handle_key(Key::Enter), Action::Continue));
    assert_eq!(app.screen, Screen::Issues);
}

#[test]
fn search_for_uncached_repository_fetches_and_prepends() {
    let mut app = state();
    assert!(matches!(app.handle_key(Key::Char('S')), Action::Continue));
    assert_eq!(app.input_mode, InputMode::Editing);
    assert!(app.popup.show_popup);
    assert_eq!(app.popup.title, "Search Issue - {user}/{repo}");
    type_text(&mut app, "octocat/Hello-World");
    assert_eq!(app.search_string, "octocat/Hello-World");
    let req = expect_fetch(app.handle_key(Key::Enter));
    assert!(req.from_search);
    assert_eq!(req.repository.full_name, "octocat/Hello-World");
    assert_eq!(req.repository.name, "Hello-World");
    assert_eq!(req.repository.open_issues_count, 0);
    app.complete_fetch(req, Ok(vec![issue(1347, "Found a bug")]));
    assert_eq!(app.issues.items().len(), 1);
    assert_eq!(app.issues.items()[0].number, 1347);
    assert_eq!(app.repositories.items().len(), 3);
    assert_eq!(app.repositories.items()[0].full_name, "octocat/Hello-World");
    assert_eq!(app.selected_repo.as_ref().unwrap().full_name, "octocat/Hello-World");
    assert_eq!(app.input_mode, InputMode::Normal);
    assert!(!app.popup.show_popup);
    assert_eq!(app.search_string, "");
}

#[test]
fn search_for_cached_repository_uses_cache() {
    let mut app = state();
    app.cache_issues("octocat/Hello-World".to_string(), vec![issue(3, "c")]);
    app.handle_key(Key::Char('S'));
    type_text(&mut app, "octocat/Hello-World");
    assert!(matches!(app.handle_key(Key::Enter), Action::Continue));
    assert_eq!(app.issues.items()[0].number, 3);
    assert_eq!(app.repositories.items().len(), 2);
    assert_eq!(app.input_mode, InputMode::Normal);
    assert!(!app.popup.show_popup);
    assert_eq!(app.search_string, "");
}

#[test]
fn search_box_editing_keys() {
    let mut app = state();
    app.handle_key(Key::Char('S'));
    type_text(&mut app, "qab");
    app.handle_key(Key::Backspace);
    assert_eq!(app.search_string, "qa");
    app.handle_key(Key::Tab);
    assert_eq!(app.search_string, "qa");
    app.handle_key(Key::Backspace);
    app.handle_key(Key::Backspace);
    app.handle_key(Key::Backspace);
    assert_eq!(app.search_string, "");
    app.handle_key(Key::Esc);
    assert_eq!(app.input_mode, InputMode::Normal);
    assert!(!app.popup.show_popup);
}

#[test]
fn opening_search_clears_previous_text() {
    let mut app = state();
    app.handle_key(Key::Char('S'));
    type_text(&mut app, "abc");
    app.handle_key(Key::Esc);
    app.handle_key(Key::Char('S'));
    assert_eq!(app.search_string, "");
}

#[test]
fn failed_fetch_shows_error_until_dismissed() {
    let mut app = state();
    app.handle_key(Key::Char('S'));
    type_text(&mut app, "no/such");
    let req = expect_fetch(app.handle_key(Key::Enter));
    app.complete_fetch(req, Err(Errors::FetchRequestError));
    assert_eq!(app.screen, Screen::Error);
    assert_eq!(app.input_mode, InputMode::Normal);
    assert!(app.popup.show_popup);
    assert_eq!(app.popup.title, "Error");
    assert_eq!(app.popup.message, "Failed to fetch requested content.");
    assert_eq!(app.search_string, "");
    assert!(app.issue_cache.lookup(&"no/such".to_string()).is_none());
    app.handle_key(Key::Down);
    app.handle_key(Key::Tab);
    assert_eq!(app.screen, Screen::Error);
    assert_eq!(app.input_mode, InputMode::Normal);
    app.handle_key(Key::Enter);
    assert_eq!(app.screen, Screen::Issues);
    assert!(!app.popup.show_popup);
    assert_eq!(app.popup.message, "");
}

#[test]
fn search_from_error_screen_leaves_it() {
    let mut app = state();
    app.show_error("x".to_string());
    app.handle_key(Key::Char('S'));
    assert_eq!(app.screen, Screen::Issues);
    assert_eq!(app.input_mode, InputMode::Editing);
    assert_eq!(app.popup.message, "");
}

#[test]
fn quit_key_ends_session_on_every_screen() {
    let mut app = state();
    assert!(matches!(app.handle_key(Key::Char('q')), Action::Quit));
    app.handle_key(Key::Tab);
    assert!(matches!(app.handle_key(Key::Char('q')), Action::Quit));
    assert_eq!(app.screen, Screen::Repositories);
    app.show_error("x".to_string());
    assert!(matches!(app.handle_key(Key::Char('q')), Action::Quit));
    assert_eq!(app.screen, Screen::Error);
    assert!(app.popup.show_popup);
}

#[test]
fn quit_key_is_text_in_search_box() {
    let mut app = state();
    app.handle_key(Key::Char('S'));
    assert!(matches!(app.handle_key(Key::Char('q')), Action::Continue));
    assert_eq!(app.search_string, "q");
}

#[test]
fn menu_key_selects_issues_menu() {
    let mut app = state();
    assert!(matches!(app.handle_key(Key::Char('I')), Action::Continue));
    assert_eq!(app.current_menu, MenuItems::Issues);
    assert!(matches!(app.handle_key(Key::Other), Action::Continue));
}
