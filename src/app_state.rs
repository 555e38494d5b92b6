use vstd::prelude::*;

use crate::config::Config;
use crate::input_mode::InputMode;
use crate::issue::Issue;
use crate::issue_cache::IssueCache;
use crate::menu_items::MenuItems;
use crate::popup::Popup;
use crate::repository::Repository;
use crate::screen::Screen;
use crate::stateful_list::{initial_cursor, StatefulList};

verus! {

/// Everything the interface shows and the keys act on.
pub struct AppState {
    /// Settings for talking to the issue service.
    pub config: Config,
    /// The highlighted menu entry.
    pub current_menu: MenuItems,
    /// The issues of the selected repository.
    pub issues: StatefulList<Issue>,
    /// Issues fetched so far, by repository full name.
    pub issue_cache: IssueCache,
    /// The repositories to choose from.
    pub repositories: StatefulList<Repository>,
    /// The repository whose issues are listed.
    pub selected_repo: Option<Repository>,
    /// The panel that has the keyboard.
    pub screen: Screen,
    /// Whether keys go to the search box.
    pub input_mode: InputMode,
    /// The search box or the error report, when one is open.
    pub popup: Popup,
    /// The text typed into the search box.
    pub search_string: String,
}

/// The screen after a focus switch: the two panels swap, the error screen stays.
pub open spec fn focus_toggled(s: Screen) -> Screen {
    match s {
        Screen::Issues => Screen::Repositories,
        Screen::Repositories => Screen::Issues,
        Screen::Error => Screen::Error,
    }
}

/// `t` is `s` with the search box opened: editing mode, an empty search
/// text, and the issues panel focused in place of the error screen.
pub open spec fn search_opened(s: AppState, t: AppState) -> bool {
    &&& t == (AppState {
        screen: if s.screen == Screen::Error {
            Screen::Issues
        } else {
            s.screen
        },
        input_mode: InputMode::Editing,
        popup: t.popup,
        search_string: t.search_string,
        ..s
    })
    &&& t.popup.show_popup
    &&& t.popup.title@ == "Search Issue - {user}/{repo}"@
    &&& t.popup.message@ == Seq::<char>::empty()
    &&& t.search_string@ == Seq::<char>::empty()
}

/// `t` is `s` with the search box closed and normal mode back.
pub open spec fn search_closed(s: AppState, t: AppState) -> bool {
    &&& t == (AppState { input_mode: InputMode::Normal, popup: t.popup, ..s })
    &&& !t.popup.show_popup
    &&& t.popup.title@ == Seq::<char>::empty()
    &&& t.popup.message@ == Seq::<char>::empty()
}

/// `t` is `s` with the error report open on `message`: the error screen, in
/// normal mode.
pub open spec fn error_shown(s: AppState, message: Seq<char>, t: AppState) -> bool {
    &&& t == (AppState {
        screen: Screen::Error,
        input_mode: InputMode::Normal,
        popup: t.popup,
        ..s
    })
    &&& t.popup.show_popup
    &&& t.popup.title@ == "Error"@
    &&& t.popup.message@ == message
}

/// `t` is `s` with the error report dismissed: the issues panel focused and
/// the message gone.
pub open spec fn error_closed(s: AppState, t: AppState) -> bool {
    &&& t == (AppState { screen: Screen::Issues, popup: t.popup, ..s })
    &&& !t.popup.show_popup
    &&& t.popup.title@ == Seq::<char>::empty()
    &&& t.popup.message@ == Seq::<char>::empty()
}

impl AppState {
    /// The lists and the cache are well formed; the search box is open exactly
    /// in editing mode, the error report exactly on the error screen, and
    /// never both; whenever neither is open the popup is hidden.
    pub open spec fn wf(&self) -> bool {
        &&& self.issues.wf()
        &&& self.repositories.wf()
        &&& self.issue_cache.wf()
        &&& (self.input_mode == InputMode::Editing ==> self.screen != Screen::Error)
        &&& (self.popup.show_popup <==> (self.input_mode == InputMode::Editing || self.screen
            == Screen::Error))
    }

    /// The search box is open.
    pub open spec fn is_searching(&self) -> bool {
        self.input_mode == InputMode::Editing
    }

    /// The error report is open.
    pub open spec fn is_showing_error(&self) -> bool {
        self.screen == Screen::Error
    }

    /// Starts a session over `repositories`: no issues listed, nothing cached,
    /// nothing selected, the issues panel focused and no popup.
    pub fn new(config: Config, repositories: Vec<Repository>) -> (r: Self)
        ensures
            r.wf(),
            r.config == config,
            r.current_menu == MenuItems::Issues,
            r.issues.items_view() == Seq::<Issue>::empty(),
            r.issues.cursor_view() is None,
            r.issue_cache@ == Map::<Seq<char>, Seq<Issue>>::empty(),
            r.repositories.items_view() == repositories@,
            r.repositories.cursor_view() == initial_cursor(repositories@.len()),
            r.selected_repo is None,
            r.screen == Screen::Issues,
            r.input_mode == InputMode::Normal,
            !r.popup.show_popup,
            r.popup.title@ == Seq::<char>::empty(),
            r.popup.message@ == Seq::<char>::empty(),
            r.search_string@ == Seq::<char>::empty(),
    {
        AppState {
            config,
            current_menu: MenuItems::Issues,
            issues: StatefulList::with_items(Vec::new()),
            issue_cache: IssueCache::new(),
            repositories: StatefulList::with_items(repositories),
            selected_repo: None,
            screen: Screen::Issues,
            input_mode: InputMode::Normal,
            popup: Popup::default(),
            search_string: String::new(),
        }
    }

    /// Swaps the focus between the issues and the repositories panel; does
    /// nothing on the error screen.
    pub fn change_focus(&mut self)
        requires
            old(self).wf(),
        ensures
            final(self).wf(),
            *final(self) == (AppState { screen: focus_toggled(old(self).screen), ..*old(self) }),
    {
        match self.screen {
            Screen::Issues => self.screen = Screen::Repositories,
            Screen::Repositories => self.screen = Screen::Issues,
            Screen::Error => {},
        }
    }

    /// Caches `issues` under `repository_name`.
    pub fn cache_issues(&mut self, repository_name: String, issues: Vec<Issue>)
        requires
            old(self).wf(),
        ensures
            final(self).wf(),
            *final(self) == (AppState { issue_cache: final(self).issue_cache, ..*old(self) }),
            final(self).issue_cache@ == old(self).issue_cache@.insert(repository_name@, issues@),
    {
        self.issue_cache.insert(repository_name, issues);
    }

    /// Makes `repository` the selected one.
    pub fn select_repo(&mut self, repository: Repository)
        ensures
            *final(self) == (AppState { selected_repo: Some(repository), ..*old(self) }),
    {
        self.selected_repo = Some(repository)
    }

    /// Lists `issues`, the cursor on the first one.
    pub fn show_issues(&mut self, issues: Vec<Issue>)
        requires
            old(self).wf(),
        ensures
            final(self).wf(),
            *final(self) == (AppState { issues: final(self).issues, ..*old(self) }),
            final(self).issues.items_view() == issues@,
            final(self).issues.cursor_view() == initial_cursor(issues@.len()),
    {
        self.issues = StatefulList::with_items(issues);
    }
}

// Popup related functions
impl AppState {
    /// Opens the search box on an empty search text.
    pub fn show_search(&mut self)
        requires
            old(self).wf(),
        ensures
            final(self).wf(),
            search_opened(*old(self), *final(self)),
    {
        self.popup.show_popup(String::from_str("Search Issue - {user}/{repo}"), String::new());
        self.input_mode = InputMode::Editing;
        self.search_string = String::new();
        if self.screen == Screen::Error {
            self.screen = Screen::Issues;
        }
    }

    /// Closes the search box.
    pub fn hide_search(&mut self)
        requires
            old(self).wf(),
            old(self).is_searching(),
        ensures
            final(self).wf(),
            search_closed(*old(self), *final(self)),
    {
        self.popup.close_popup();
        self.input_mode = InputMode::Normal;
    }

    /// Opens the error report on `error_message`.
    pub fn show_error(&mut self, error_message: String)
        requires
            old(self).wf(),
        ensures
            final(self).wf(),
            error_shown(*old(self), error_message@, *final(self)),
    {
        self.popup.show_popup(String::from_str("Error"), error_message);
        self.screen = Screen::Error;
        self.input_mode = InputMode::Normal;
    }

    /// Dismisses the error report.
    pub fn close_error(&mut self)
        requires
            old(self).wf(),
            old(self).is_showing_error(),
        ensures
            final(self).wf(),
            error_closed(*old(self), *final(self)),
    {
        self.popup.close_popup();
        self.screen = Screen::Issues;
    }
}

} // verus!
