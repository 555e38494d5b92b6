use vstd::prelude::*;

use crate::app_state::{focus_toggled, AppState};
use crate::controls::{fetch_step, key_step, search_target, Action, FetchRequest, Key};
use crate::errors::Errors;
use crate::input_mode::InputMode;
use crate::issue::Issue;
use crate::screen::Screen;
use crate::stateful_list::{cursor_after_next, cursor_after_previous, initial_cursor};
use crate::text::trim_of;

verus! {

/// A cursor over `n` items that is absent exactly when `n` is zero and
/// otherwise below `n`.
pub open spec fn cursor_in_range(c: Option<nat>, n: nat) -> bool {
    match c {
        None => n == 0,
        Some(i) => i < n,
    }
}

/// Moving a cursor forward or back over any number of items, none included,
/// keeps it in range.
pub proof fn lemma_cursor_stays_in_range(c: Option<nat>, n: nat)
    requires
        cursor_in_range(c, n),
    ensures
        cursor_in_range(cursor_after_next(c, n), n),
        cursor_in_range(cursor_after_previous(c, n), n),
{
}

/// Switching the focus twice gives back the state one started from, and on
/// the error screen a switch changes nothing.
pub proof fn lemma_change_focus_twice(s: AppState, t: AppState, u: AppState)
    requires
        t == (AppState { screen: focus_toggled(s.screen), ..s }),
        u == (AppState { screen: focus_toggled(t.screen), ..t }),
    ensures
        u == s,
        s.screen == Screen::Error ==> t == s,
{
}

/// No key changes the issue cache.
pub proof fn lemma_key_keeps_cache(s: AppState, key: Key, t: AppState, a: Action)
    requires
        key_step(s, key, t, a),
    ensures
        t.issue_cache == s.issue_cache,
{
}

/// A key asks for a fetch only for a repository whose issues are not cached.
pub proof fn lemma_fetch_only_on_miss(s: AppState, key: Key, t: AppState, req: FetchRequest)
    requires
        key_step(s, key, t, Action::FetchIssues(req)),
    ensures
        !s.issue_cache@.contains_key(req.repository.full_name@),
{
}

/// A fetch leaves the cached issues of every other repository as they were.
pub proof fn lemma_fetch_keeps_other_entries(
    s: AppState,
    req: FetchRequest,
    outcome: Result<Vec<Issue>, Errors>,
    t: AppState,
    full_name: Seq<char>,
)
    requires
        fetch_step(s, req, outcome, t),
        full_name != req.repository.full_name@,
        s.issue_cache@.contains_key(full_name),
    ensures
        t.issue_cache@.contains_key(full_name),
        t.issue_cache@[full_name] == s.issue_cache@[full_name],
{
}

/// One pass of the event loop: `key` leads from `s` to `m` and asks for
/// `a`; when that is a fetch, its `outcome` leads on to `t`, else `t` is `m`.
pub open spec fn loop_pass(
    s: AppState,
    key: Key,
    m: AppState,
    a: Action,
    outcome: Result<Vec<Issue>, Errors>,
    t: AppState,
) -> bool {
    &&& key_step(s, key, m, a)
    &&& match a {
        Action::FetchIssues(req) => fetch_step(m, req, outcome, t),
        _ => t == m,
    }
}

/// A run of the event loop over `keys`: pass `i` leads from `states[i]`
/// through `mids[i]`, asking for `actions[i]`, to `states[i + 1]`.
pub open spec fn session(
    states: Seq<AppState>,
    keys: Seq<Key>,
    mids: Seq<AppState>,
    actions: Seq<Action>,
    outcomes: Seq<Result<Vec<Issue>, Errors>>,
) -> bool {
    &&& states.len() == keys.len() + 1
    &&& mids.len() == keys.len()
    &&& actions.len() == keys.len()
    &&& outcomes.len() == keys.len()
    &&& forall|i: int|
        0 <= i < keys.len() ==> #[trigger] loop_pass(
            states[i],
            keys[i],
            mids[i],
            actions[i],
            outcomes[i],
            states[i + 1],
        )
}

/// Issues cached for `full_name` stay cached, unchanged, through a pass of
/// the event loop, and the pass asks for no fetch of them.
pub proof fn lemma_cached_entry_survives_pass(
    s: AppState,
    key: Key,
    m: AppState,
    a: Action,
    outcome: Result<Vec<Issue>, Errors>,
    t: AppState,
    full_name: Seq<char>,
)
    requires
        loop_pass(s, key, m, a, outcome, t),
        s.issue_cache@.contains_key(full_name),
    ensures
        t.issue_cache@.contains_key(full_name),
        t.issue_cache@[full_name] == s.issue_cache@[full_name],
        a matches Action::FetchIssues(req) ==> req.repository.full_name@ != full_name,
{
    lemma_key_keeps_cache(s, key, m, a);
    if let Action::FetchIssues(req) = a {
        lemma_fetch_only_on_miss(s, key, m, req);
        lemma_fetch_keeps_other_entries(m, req, outcome, t, full_name);
    }
}

/// Once issues are cached for `full_name`, every later state of the session
/// holds exactly those issues for it, and no pass asks to fetch them again.
pub proof fn lemma_cached_entry_survives_session(
    states: Seq<AppState>,
    keys: Seq<Key>,
    mids: Seq<AppState>,
    actions: Seq<Action>,
    outcomes: Seq<Result<Vec<Issue>, Errors>>,
    full_name: Seq<char>,
)
    requires
        session(states, keys, mids, actions, outcomes),
        states[0].issue_cache@.contains_key(full_name),
    ensures
        forall|j: int|
            0 <= j < states.len() ==> #[trigger] states[j].issue_cache@.contains_key(full_name)
                && states[j].issue_cache@[full_name] == states[0].issue_cache@[full_name],
        forall|i: int|
            0 <= i < actions.len() ==> (#[trigger] actions[i] matches Action::FetchIssues(req)
                ==> req.repository.full_name@ != full_name),
    decreases keys.len(),
{
    if keys.len() > 0 {
        let n = keys.len() - 1;
        let states0 = states.drop_last();
        let keys0 = keys.drop_last();
        let mids0 = mids.drop_last();
        let actions0 = actions.drop_last();
        let outcomes0 = outcomes.drop_last();
        assert forall|i: int| 0 <= i < keys0.len() implies #[trigger] loop_pass(
            states0[i],
            keys0[i],
            mids0[i],
            actions0[i],
            outcomes0[i],
            states0[i + 1],
        ) by {
            assert(loop_pass(states[i], keys[i], mids[i], actions[i], outcomes[i], states[i + 1]));
        }
        lemma_cached_entry_survives_session(states0, keys0, mids0, actions0, outcomes0, full_name);
        assert(states0[n].issue_cache@.contains_key(full_name));
        assert(loop_pass(states[n], keys[n], mids[n], actions[n], outcomes[n], states[n + 1]));
        lemma_cached_entry_survives_pass(
            states[n],
            keys[n],
            mids[n],
            actions[n],
            outcomes[n],
            states[n + 1],
            full_name,
        );
        assert forall|j: int| 0 <= j < states.len() implies #[trigger] states[j].issue_cache@.contains_key(
            full_name,
        ) && states[j].issue_cache@[full_name] == states[0].issue_cache@[full_name] by {
            if j < states0.len() {
                assert(states0[j] == states[j]);
            }
        }
        assert forall|i: int| 0 <= i < actions.len() implies (#[trigger] actions[i] matches Action::FetchIssues(req)
            ==> req.repository.full_name@ != full_name) by {
            if i < n {
                assert(actions0[i] == actions[i]);
            }
        }
    }
}

/// Once the issues of a repository have been fetched, confirming that
/// repository in the list again shows exactly those issues and asks for no
/// fetch.
pub proof fn lemma_fetched_issues_served_from_cache(
    s: AppState,
    req: FetchRequest,
    issues: Vec<Issue>,
    t: AppState,
    u: AppState,
    a: Action,
)
    requires
        fetch_step(s, req, Ok(issues), t),
        t.input_mode == InputMode::Normal,
        t.screen == Screen::Repositories,
        t.repositories.current_view() is Some,
        t.repositories.current_view()->0.full_name@ == req.repository.full_name@,
        key_step(t, Key::Enter, u, a),
    ensures
        a == Action::Continue,
        u.issues.items_view() == issues@,
        u.issue_cache == t.issue_cache,
{
}

/// Confirming a repository whose issues are cached lists them and asks for
/// no fetch.
pub proof fn lemma_cached_repository_not_fetched(s: AppState, t: AppState, a: Action)
    requires
        s.input_mode == InputMode::Normal,
        s.screen == Screen::Repositories,
        s.repositories.current_view() is Some,
        s.issue_cache@.contains_key(s.repositories.current_view()->0.full_name@),
        key_step(s, Key::Enter, t, a),
    ensures
        a == Action::Continue,
        t.issues.items_view() == s.issue_cache@[s.repositories.current_view()->0.full_name@],
        t.selected_repo == Some(s.repositories.current_view()->0),
{
}

/// While the error report is open the input mode is normal. The confirm key
/// dismisses it, focusing the issues panel and clearing the message; any key
/// but that one and the search key leaves it open on the error screen.
pub proof fn lemma_error_report(s: AppState, key: Key, t: AppState, a: Action)
    requires
        s.wf(),
        s.is_showing_error(),
        key_step(s, key, t, a),
    ensures
        s.input_mode == InputMode::Normal,
        s.popup.show_popup,
        key == Key::Enter ==> {
            &&& t.screen == Screen::Issues
            &&& !t.popup.show_popup
            &&& t.popup.message@ == Seq::<char>::empty()
        },
        key != Key::Enter && key != Key::Char('S') ==> {
            &&& t.screen == Screen::Error
            &&& t.input_mode == InputMode::Normal
            &&& t.popup == s.popup
        },
{
}

/// A failed fetch opens the error report, in normal mode, on the error's
/// message.
pub proof fn lemma_failed_fetch_shows_error(
    s: AppState,
    req: FetchRequest,
    e: Errors,
    t: AppState,
)
    requires
        fetch_step(s, req, Err(e), t),
    ensures
        t.screen == Screen::Error,
        t.input_mode == InputMode::Normal,
        t.popup.show_popup,
        t.popup.message@ == e.message(),
{
}

/// The quit key in normal mode ends the session and changes nothing, on
/// every screen.
pub proof fn lemma_quit(s: AppState, t: AppState, a: Action)
    requires
        s.input_mode == InputMode::Normal,
        key_step(s, Key::Char('q'), t, a),
    ensures
        a == Action::Quit,
        t == s,
{
}

/// `keys` are those of a search for `text`: the search key, the characters
/// of `text` one by one, then the confirm key.
pub open spec fn search_keys(keys: Seq<Key>, text: Seq<char>) -> bool {
    &&& keys.len() == text.len() + 2
    &&& keys[0] == Key::Char('S')
    &&& forall|j: int| 0 <= j < text.len() ==> #[trigger] keys[j + 1] == Key::Char(text[j])
    &&& keys[text.len() as int + 1] == Key::Enter
}

/// After the search key and the first `j` characters of `text`, the search
/// box holds those characters, nothing else has changed since the box
/// opened, and no pass asked for anything.
proof fn lemma_search_typed(
    states: Seq<AppState>,
    keys: Seq<Key>,
    mids: Seq<AppState>,
    actions: Seq<Action>,
    outcomes: Seq<Result<Vec<Issue>, Errors>>,
    text: Seq<char>,
    j: int,
)
    requires
        session(states, keys, mids, actions, outcomes),
        states[0].input_mode == InputMode::Normal,
        search_keys(keys, text),
        0 <= j <= text.len(),
    ensures
        states[1 + j] == (AppState { search_string: states[1 + j].search_string, ..states[1] }),
        states[1 + j].search_string@ == text.take(j),
        states[1].input_mode == InputMode::Editing,
        forall|i: int| 0 <= i < 1 + j ==> #[trigger] actions[i] == Action::Continue,
    decreases j,
{
    let z: int = 0;
    assert(loop_pass(states[z], keys[z], mids[z], actions[z], outcomes[z], states[z + 1]));
    if j == 0 {
        assert(text.take(0) =~= Seq::<char>::empty());
    } else {
        lemma_search_typed(states, keys, mids, actions, outcomes, text, j - 1);
        let i = j;
        assert(keys[(j - 1) + 1] == Key::Char(text[j - 1]));
        assert(loop_pass(states[i], keys[i], mids[i], actions[i], outcomes[i], states[i + 1]));
        assert(text.take(j - 1).push(text[j - 1]) =~= text.take(j));
    }
}

/// A search for a repository whose issues are not cached: the search key,
/// the characters of `text`, and the confirm key ask for exactly one fetch,
/// on the last key, for the repository `text` names. When that fetch brings
/// `v`, the issues panel lists `v` from its first item, `v` is cached under
/// the trimmed text, the repository goes in front of the list and becomes
/// the selected one, and the search box closes with its text cleared.
pub proof fn lemma_search_fetches_once(
    states: Seq<AppState>,
    keys: Seq<Key>,
    mids: Seq<AppState>,
    actions: Seq<Action>,
    outcomes: Seq<Result<Vec<Issue>, Errors>>,
    text: Seq<char>,
    v: Vec<Issue>,
)
    requires
        session(states, keys, mids, actions, outcomes),
        states[0].input_mode == InputMode::Normal,
        search_keys(keys, text),
        !states[0].issue_cache@.contains_key(trim_of(text)),
        outcomes.last() == Ok::<Vec<Issue>, Errors>(v),
    ensures
        forall|i: int| 0 <= i < actions.len() - 1 ==> #[trigger] actions[i] == Action::Continue,
        match actions.last() {
            Action::FetchIssues(req) => {
                let r = req.repository;
                let t = states.last();
                &&& req.from_search
                &&& search_target(r, text)
                &&& t.issues.items_view() == v@
                &&& t.issues.cursor_view() == initial_cursor(v@.len())
                &&& t.issue_cache@ == states[0].issue_cache@.insert(trim_of(text), v@)
                &&& t.repositories.items_view() == seq![r] + states[0].repositories.items_view()
                &&& t.selected_repo == Some(r)
                &&& !t.popup.show_popup
                &&& t.input_mode == InputMode::Normal
                &&& t.search_string@ == Seq::<char>::empty()
            },
            _ => false,
        },
{
    let n = text.len() as int;
    lemma_search_typed(states, keys, mids, actions, outcomes, text, n);
    assert(text.take(n) =~= text);
    let k = n + 1;
    assert(loop_pass(states[k], keys[k], mids[k], actions[k], outcomes[k], states[k + 1]));
    let z: int = 0;
    assert(loop_pass(states[z], keys[z], mids[z], actions[z], outcomes[z], states[z + 1]));
}

} // verus!
