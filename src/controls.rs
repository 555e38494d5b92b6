use vstd::prelude::*;

use crate::app_state::{
    error_closed, error_shown, focus_toggled, search_closed, search_opened, AppState,
};
use crate::errors::Errors;
use crate::input_mode::InputMode;
use crate::issue::{clone_issues, Issue};
use crate::menu_items::MenuItems;
use crate::repository::{after_first_slash, Repository};
use crate::screen::Screen;
use crate::stateful_list::{cursor_after_next, cursor_after_previous, initial_cursor};
use crate::text::{pop_char, push_char, trim_of};

verus! {

/// A key the user pressed.
#[derive(PartialEq, Eq, Structural, Clone, Copy, Debug)]
pub enum Key {
    Char(char),
    Tab,
    Up,
    Down,
    Enter,
    Backspace,
    Esc,
    Other,
}

/// Issues to fetch for `repository`; `from_search` tells whether the
/// repository was named in the search box.
pub struct FetchRequest {
    pub repository: Repository,
    pub from_search: bool,
}

/// What the event loop has to do after a key.
pub enum Action {
    /// Draw and read the next key.
    Continue,
    /// Leave the loop; the session ends normally.
    Quit,
    /// Open the address in a browser.
    OpenUrl(String),
    /// Fetch issues, then hand the outcome to `AppState::complete_fetch`.
    FetchIssues(FetchRequest),
}

/// `r` is the repository that a search for `search` names.
pub open spec fn search_target(r: Repository, search: Seq<char>) -> bool {
    &&& r.full_name@ == trim_of(search)
    &&& r.name@ == after_first_slash(search)
    &&& r.open_issues_count == 0
}

/// `t` is `s` with the cursor of the focused list moved one step, forward
/// or back; nothing moves on the error screen.
pub open spec fn cursor_moved(s: AppState, forward: bool, t: AppState) -> bool {
    match s.screen {
        Screen::Issues => {
            &&& t == (AppState { issues: t.issues, ..s })
            &&& t.issues.items_view() == s.issues.items_view()
            &&& t.issues.cursor_view() == if forward {
                cursor_after_next(s.issues.cursor_view(), s.issues.items_view().len())
            } else {
                cursor_after_previous(s.issues.cursor_view(), s.issues.items_view().len())
            }
        },
        Screen::Repositories => {
            &&& t == (AppState { repositories: t.repositories, ..s })
            &&& t.repositories.items_view() == s.repositories.items_view()
            &&& t.repositories.cursor_view() == if forward {
                cursor_after_next(s.repositories.cursor_view(), s.repositories.items_view().len())
            } else {
                cursor_after_previous(
                    s.repositories.cursor_view(),
                    s.repositories.items_view().len(),
                )
            }
        },
        Screen::Error => t == s,
    }
}

/// `t` lists the issues cached for `full_name`, the cursor on the first.
pub open spec fn lists_cached(s: AppState, full_name: Seq<char>, t: AppState) -> bool {
    &&& t.issues.items_view() == s.issue_cache@[full_name]
    &&& t.issues.cursor_view() == initial_cursor(s.issue_cache@[full_name].len())
}

/// Confirming repository `r` from the list: it becomes the selected one; its
/// cached issues are listed, or, when none are cached, a fetch is asked for.
pub open spec fn repository_confirmed(s: AppState, r: Repository, t: AppState, a: Action) -> bool {
    if s.issue_cache@.contains_key(r.full_name@) {
        &&& t == (AppState { issues: t.issues, selected_repo: Some(r), ..s })
        &&& lists_cached(s, r.full_name@, t)
        &&& a == Action::Continue
    } else {
        &&& t == (AppState { selected_repo: Some(r), ..s })
        &&& a == Action::FetchIssues(FetchRequest { repository: r, from_search: false })
    }
}

/// The confirm key in normal mode: open the issue under the cursor, take the
/// repository under the cursor, or dismiss the error report.
pub open spec fn confirmed(s: AppState, t: AppState, a: Action) -> bool {
    match s.screen {
        Screen::Issues => {
            &&& t == s
            &&& a == match s.issues.current_view() {
                Some(i) => Action::OpenUrl(i.html_url),
                None => Action::Continue,
            }
        },
        Screen::Repositories => match s.repositories.current_view() {
            Some(r) => repository_confirmed(s, r, t, a),
            None => t == s && a == Action::Continue,
        },
        Screen::Error => error_closed(s, t) && a == Action::Continue,
    }
}

/// The confirm key in the search box: the issues of the repository named by
/// the search text are listed from the cache and the box closes with its
/// text cleared, or, when none are cached, a fetch is asked for.
pub open spec fn search_submitted(s: AppState, t: AppState, a: Action) -> bool {
    let full_name = trim_of(s.search_string@);
    if s.issue_cache@.contains_key(full_name) {
        &&& search_closed(
            AppState { issues: t.issues, search_string: t.search_string, ..s },
            t,
        )
        &&& lists_cached(s, full_name, t)
        &&& t.search_string@ == Seq::<char>::empty()
        &&& a == Action::Continue
    } else {
        &&& t == s
        &&& match a {
            Action::FetchIssues(req) => req.from_search && search_target(
                req.repository,
                s.search_string@,
            ),
            _ => false,
        }
    }
}

/// What a key does in normal mode.
pub open spec fn normal_key_step(s: AppState, key: Key, t: AppState, a: Action) -> bool {
    match key {
        Key::Char('I') => t == (AppState { current_menu: MenuItems::Issues, ..s }) && a
            == Action::Continue,
        Key::Tab => t == (AppState { screen: focus_toggled(s.screen), ..s }) && a
            == Action::Continue,
        Key::Up | Key::Char('k') => cursor_moved(s, false, t) && a == Action::Continue,
        Key::Down | Key::Char('j') => cursor_moved(s, true, t) && a == Action::Continue,
        Key::Enter => confirmed(s, t, a),
        Key::Char('S') => search_opened(s, t) && a == Action::Continue,
        Key::Char('q') => t == s && a == Action::Quit,
        _ => t == s && a == Action::Continue,
    }
}

/// What a key does while the search box is open.
pub open spec fn editing_key_step(s: AppState, key: Key, t: AppState, a: Action) -> bool {
    match key {
        Key::Enter => search_submitted(s, t, a),
        Key::Char(c) => {
            &&& t == (AppState { search_string: t.search_string, ..s })
            &&& t.search_string@ == s.search_string@.push(c)
            &&& a == Action::Continue
        },
        Key::Backspace => {
            &&& t == (AppState { search_string: t.search_string, ..s })
            &&& t.search_string@ == if s.search_string@.len() == 0 {
                s.search_string@
            } else {
                s.search_string@.drop_last()
            }
            &&& a == Action::Continue
        },
        Key::Esc => search_closed(s, t) && a == Action::Continue,
        _ => t == s && a == Action::Continue,
    }
}

/// Pressing `key` in state `s` leads to state `t` and asks for action `a`.
pub open spec fn key_step(s: AppState, key: Key, t: AppState, a: Action) -> bool {
    match s.input_mode {
        InputMode::Normal => normal_key_step(s, key, t, a),
        InputMode::Editing => editing_key_step(s, key, t, a),
    }
}

/// Handing the outcome of fetch `req` to state `s` leads to state `t`.
///
/// Fetched issues are listed and cached; a repository named in the search
/// box also goes in front of the repository list and becomes the selected
/// one, and the box closes. A failure opens the error report. Either way a
/// search's text is cleared.
pub open spec fn fetch_step(
    s: AppState,
    req: FetchRequest,
    outcome: Result<Vec<Issue>, Errors>,
    t: AppState,
) -> bool {
    let r = req.repository;
    match outcome {
        Ok(issues) => {
            &&& t.issues.items_view() == issues@
            &&& t.issues.cursor_view() == initial_cursor(issues@.len())
            &&& t.issue_cache@ == s.issue_cache@.insert(r.full_name@, issues@)
            &&& if req.from_search {
                &&& search_closed(
                    AppState {
                        issues: t.issues,
                        issue_cache: t.issue_cache,
                        repositories: t.repositories,
                        selected_repo: Some(r),
                        search_string: t.search_string,
                        ..s
                    },
                    t,
                )
                &&& t.repositories.items_view() == seq![r] + s.repositories.items_view()
                &&& t.repositories.cursor_view() == match s.repositories.cursor_view() {
                    Some(i) => Some(i),
                    None => Some(0nat),
                }
                &&& t.search_string@ == Seq::<char>::empty()
            } else {
                t == (AppState { issues: t.issues, issue_cache: t.issue_cache, ..s })
            }
        },
        Err(e) => {
            &&& error_shown(AppState { search_string: t.search_string, ..s }, e.message(), t)
            &&& if req.from_search {
                t.search_string@ == Seq::<char>::empty()
            } else {
                t.search_string == s.search_string
            }
        },
    }
}

impl AppState {
    /// The issues cached for `full_name`, copied, if any.
    fn cached_issues(&self, full_name: &String) -> (r: Option<Vec<Issue>>)
        requires
            self.wf(),
        ensures
            r is None <==> !self.issue_cache@.contains_key(full_name@),
            r matches Some(v) ==> v@ == self.issue_cache@[full_name@],
    {
        match self.issue_cache.lookup(full_name) {
            Some(v) => Some(clone_issues(v)),
            None => None,
        }
    }

    /// Takes `repository` from the list: selects it and lists its issues from
    /// the cache, or asks for a fetch.
    fn open_repository(&mut self, repository: Repository) -> (a: Action)
        requires
            old(self).wf(),
        ensures
            final(self).wf(),
            repository_confirmed(*old(self), repository, *final(self), a),
    {
        self.select_repo(repository.clone());
        match self.cached_issues(&repository.full_name) {
            Some(issues) => {
                self.show_issues(issues);
                Action::Continue
            },
            None => Action::FetchIssues(FetchRequest { repository, from_search: false }),
        }
    }

    /// The confirm key in normal mode.
    fn confirm(&mut self) -> (a: Action)
        requires
            old(self).wf(),
            old(self).input_mode == InputMode::Normal,
        ensures
            final(self).wf(),
            confirmed(*old(self), *final(self), a),
    {
        match self.screen {
            Screen::Issues => match self.issues.selected_value() {
                Some(issue) => Action::OpenUrl(issue.html_url.clone()),
                None => Action::Continue,
            },
            Screen::Repositories => match self.repositories.selected_value() {
                Some(repository) => {
                    let repository = repository.clone();
                    self.open_repository(repository)
                },
                None => Action::Continue,
            },
            Screen::Error => {
                self.close_error();
                Action::Continue
            },
        }
    }

    /// The confirm key in the search box.
    fn submit_search(&mut self) -> (a: Action)
        requires
            old(self).wf(),
            old(self).is_searching(),
        ensures
            final(self).wf(),
            search_submitted(*old(self), *final(self), a),
    {
        let repository = Repository::from_search(self.search_string.as_str());
        match self.cached_issues(&repository.full_name) {
            Some(issues) => {
                self.show_issues(issues);
                self.search_string = String::new();
                self.hide_search();
                Action::Continue
            },
            None => Action::FetchIssues(FetchRequest { repository, from_search: true }),
        }
    }

    /// Reacts to `key` in normal mode.
    fn handle_normal_key(&mut self, key: Key) -> (a: Action)
        requires
            old(self).wf(),
            old(self).input_mode == InputMode::Normal,
        ensures
            final(self).wf(),
            normal_key_step(*old(self), key, *final(self), a),
    {
        match key {
            Key::Char('I') => {
                self.current_menu = MenuItems::Issues;
                Action::Continue
            },
            Key::Tab => {
                self.change_focus();
                Action::Continue
            },
            Key::Up | Key::Char('k') => {
                match self.screen {
                    Screen::Issues => self.issues.previous(),
                    Screen::Repositories => self.repositories.previous(),
                    Screen::Error => {},
                }
                Action::Continue
            },
            Key::Down | Key::Char('j') => {
                match self.screen {
                    Screen::Issues => self.issues.next(),
                    Screen::Repositories => self.repositories.next(),
                    Screen::Error => {},
                }
                Action::Continue
            },
            Key::Enter => self.confirm(),
            Key::Char('S') => {
                self.show_search();
                Action::Continue
            },
            Key::Char('q') => Action::Quit,
            _ => Action::Continue,
        }
    }

    /// Reacts to `key` while the search box is open.
    fn handle_editing_key(&mut self, key: Key) -> (a: Action)
        requires
            old(self).wf(),
            old(self).input_mode == InputMode::Editing,
        ensures
            final(self).wf(),
            editing_key_step(*old(self), key, *final(self), a),
    {
        match key {
            Key::Enter => self.submit_search(),
            Key::Char(c) => {
                push_char(&mut self.search_string, c);
                Action::Continue
            },
            Key::Backspace => {
                pop_char(&mut self.search_string);
                Action::Continue
            },
            Key::Esc => {
                self.hide_search();
                Action::Continue
            },
            _ => Action::Continue,
        }
    }

    /// Reacts to one key: updates the state and says what the event loop has
    /// to do next.
    pub fn handle_key(&mut self, key: Key) -> (a: Action)
        requires
            old(self).wf(),
        ensures
            final(self).wf(),
            key_step(*old(self), key, *final(self), a),
    {
        match self.input_mode {
            InputMode::Normal => self.handle_normal_key(key),
            InputMode::Editing => self.handle_editing_key(key),
        }
    }

    /// Takes in the outcome of fetch `req`, which a key asked for in this
    /// state.
    pub fn complete_fetch(&mut self, req: FetchRequest, outcome: Result<Vec<Issue>, Errors>)
        requires
            old(self).wf(),
            req.from_search ==> old(self).is_searching(),
            old(self).repositories.items_view().len() < usize::MAX,
        ensures
            final(self).wf(),
            fetch_step(*old(self), req, outcome, *final(self)),
    {
        let FetchRequest { repository, from_search } = req;
        match outcome {
            Ok(issues) => {
                self.show_issues(clone_issues(&issues));
                self.cache_issues(repository.full_name.clone(), issues);
                if from_search {
                    self.selected_repo = Some(repository.clone());
                    self.repositories.prepend(repository);
                    self.search_string = String::new();
                    self.hide_search();
                }
            },
            Err(e) => {
                if from_search {
                    self.search_string = String::new();
                }
                self.show_error(e.to_string());
            },
        }
    }
}

} // verus!
