//! Keys outside the modes of the history tab.

use crate::tui::keys::{control_alone, shift_alone, Action, Key, Modifiers};
use crate::tui::modals::{on_selected, MENU_ITEM_VIEW};
use crate::tui::networks::{cycle_filter, filter_cycled};
use crate::tui::state::{greater, less, lesser, max_scroll, says, tab_count, UiState};
use crate::tui::view::{screen, screen_of, Screen};
use vstd::prelude::*;

verus! {

/// How many rows of the history a page moves.
pub const PAGE_ROWS: usize = 20;

/// How many lines of the log a page moves.
pub const PAGE_LINES: usize = 10;

/// The tab `tab` shown. The history tab begins with its first row selected.
pub open spec fn with_tab(s: UiState, tab: int) -> UiState {
    UiState {
        tab: tab as usize,
        history_selected: if tab == 1 {
            0
        } else {
            s.history_selected
        },
        history_scroll_offset: if tab == 1 {
            0
        } else {
            s.history_scroll_offset
        },
        ..s
    }
}

/// The tab after this one; after the last one, the first.
pub open spec fn tab_after(s: UiState) -> int {
    (s.tab + 1) % tab_count(s.traceroute_enabled) as int
}

/// The tab before this one; before the first one, the last.
pub open spec fn tab_before(s: UiState) -> int {
    if s.tab == 0 {
        tab_count(s.traceroute_enabled) - 1
    } else {
        s.tab - 1
    }
}

/// The help tab: the last one.
pub open spec fn help_tab(s: UiState) -> int {
    tab_count(s.traceroute_enabled) - 1
}

/// How many tabs there are.
fn count_tabs(state: &UiState) -> (r: usize)
    ensures
        r == tab_count(state.traceroute_enabled),
{
    if state.traceroute_enabled {
        5
    } else {
        4
    }
}

/// Shows a tab.
fn show_tab(state: &mut UiState, tab: usize)
    ensures
        *final(state) == with_tab(*old(state), tab as int),
{
    state.tab = tab;
    if tab == 1 {
        state.history_selected = 0;
        state.history_scroll_offset = 0;
    }
}

/// Shows the tab after this one.
pub fn next_tab(state: &mut UiState)
    requires
        old(state).tab < usize::MAX,
    ensures
        *final(state) == with_tab(*old(state), tab_after(*old(state))),
{
    let count = count_tabs(state);
    let tab = (state.tab + 1) % count;
    show_tab(state, tab);
}

/// Shows the tab before this one.
pub fn previous_tab(state: &mut UiState)
    requires
        old(state).tab < usize::MAX,
    ensures
        *final(state) == with_tab(*old(state), tab_before(*old(state))),
{
    let count = count_tabs(state);
    let tab = if state.tab == 0 {
        count - 1
    } else {
        state.tab - 1
    };
    show_tab(state, tab);
}

/// Shows the help tab.
fn show_help(state: &mut UiState)
    ensures
        *final(state) == (UiState { tab: help_tab(*old(state)) as usize, ..*old(state) }),
{
    state.tab = count_tabs(state) - 1;
}

/// What pausing does: with a run under way, it is paused, or goes on.
pub open spec fn pause_toggled(s: UiState, t: UiState, running: bool, action: Action) -> bool {
    if running {
        t == (UiState { paused: !s.paused, ..s }) && action == Action::Pause(!s.paused)
    } else {
        t == s && action == Action::Nothing
    }
}

/// Pauses the run under way, or lets it go on.
fn toggle_pause(state: &mut UiState, running: bool) -> (action: Action)
    ensures
        pause_toggled(*old(state), *final(state), running, action),
{
    if running {
        state.paused = !state.paused;
        Action::Pause(state.paused)
    } else {
        Action::Nothing
    }
}

/// What `r` does: on the history tab the history is asked for again, as much of it as was
/// loaded; elsewhere a new run is asked for.
pub open spec fn rerun_asked(s: UiState, t: UiState, running: bool, action: Action) -> bool {
    if s.tab == 1 {
        t == s && action == Action::Reload(
            greater(s.initial_history_load_size as int, s.history_loaded_count as int),
        )
    } else {
        says(s, t, "Restarting\u{2026}"@) && action == (Action::Restart { cancel: running })
    }
}

/// Refreshes the history, or runs the test again.
fn ask_rerun(state: &mut UiState, running: bool) -> (action: Action)
    ensures
        rerun_asked(*old(state), *final(state), running, action),
{
    if state.tab == 1 {
        let size = if state.initial_history_load_size > state.history_loaded_count {
            state.initial_history_load_size
        } else {
            state.history_loaded_count
        };
        Action::Reload(size)
    } else {
        state.info = "Restarting\u{2026}".to_string();
        Action::Restart { cancel: running }
    }
}

/// What `s` does: on the dashboard the last result is saved, if there is one.
pub open spec fn save_asked(s: UiState, t: UiState, action: Action) -> bool {
    if s.tab == 0 && s.last_result is Some {
        t == s && action == Action::SaveLast
    } else if s.tab == 0 {
        says(s, t, "No completed run to save yet."@) && action == Action::Nothing
    } else {
        t == s && action == Action::Nothing
    }
}

/// Saves the last result.
fn ask_save(state: &mut UiState) -> (action: Action)
    ensures
        save_asked(*old(state), *final(state), action),
{
    if state.tab == 0 {
        if state.last_result.is_some() {
            return Action::SaveLast;
        }
        state.info = "No completed run to save yet.".to_string();
    }
    Action::Nothing
}

/// What `a` does: results are saved by themselves, or no longer.
pub open spec fn auto_save_toggled(s: UiState, t: UiState) -> bool {
    says(
        UiState { auto_save: !s.auto_save, ..s },
        t,
        if s.auto_save {
            "Auto-save disabled"@
        } else {
            "Auto-save enabled"@
        },
    )
}

/// Turns the automatic saving on or off.
fn toggle_auto_save(state: &mut UiState)
    ensures
        auto_save_toggled(*old(state), *final(state)),
{
    state.auto_save = !state.auto_save;
    state.info = if state.auto_save {
        "Auto-save enabled".to_string()
    } else {
        "Auto-save disabled".to_string()
    };
}

/// Whether Space opens the action menu: on the history tab with a run in it and in none of
/// the tab's modes.
pub open spec fn menu_may_open(s: UiState) -> bool {
    &&& s.tab == 1
    &&& s.history@.len() > 0
    &&& !s.history_filter_editing
    &&& !s.history_detail_view
    &&& !s.history_export_modal_open
    &&& !s.history_comment_modal_open
}

/// What Space does.
pub open spec fn menu_opened(s: UiState) -> UiState {
    if menu_may_open(s) {
        UiState { history_menu_open: true, history_menu_selected: MENU_ITEM_VIEW, ..s }
    } else {
        s
    }
}

/// Opens the action menu.
fn open_menu(state: &mut UiState)
    ensures
        *final(state) == menu_opened(*old(state)),
{
    if state.tab == 1 && state.history.len() > 0 && !state.history_filter_editing
        && !state.history_detail_view && !state.history_export_modal_open
        && !state.history_comment_modal_open {
        state.history_menu_open = true;
        state.history_menu_selected = MENU_ITEM_VIEW;
    }
}

/// What moving up does: on the history tab the selection moves towards the most recent
/// run, on the dashboard the log is scrolled back.
pub open spec fn moved_up(s: UiState, rows: int, lines: int) -> UiState {
    if s.tab == 1 && s.history@.len() > 0 {
        UiState { history_selected: less(s.history_selected as int, rows), ..s }
    } else if s.tab == 0 {
        UiState {
            dashboard_log_scroll: lesser(
                s.dashboard_log_scroll + lines,
                max_scroll(s.text_log@),
            ),
            ..s
        }
    } else {
        s
    }
}

/// Moves up by so many rows of the history or lines of the log.
fn move_up(state: &mut UiState, rows: usize, lines: usize)
    ensures
        *final(state) == moved_up(*old(state), rows as int, lines as int),
{
    if state.tab == 1 && state.history.len() > 0 {
        state.history_selected = if state.history_selected > rows {
            state.history_selected - rows
        } else {
            0
        };
    } else if state.tab == 0 {
        let count = state.text_log.len();
        let top: usize = if count > 0 {
            count - 1
        } else {
            0
        };
        let back = state.dashboard_log_scroll.saturating_add(lines);
        state.dashboard_log_scroll = if back < top {
            back
        } else {
            top
        };
    }
}

/// What is asked for when run `selected` is reached: more runs, when it is one of the last
/// ten that were loaded.
pub open spec fn more_wanted(s: UiState, selected: int) -> Action {
    if selected >= less(s.history_loaded_count as int, 10) && s.history_loaded_count
        == s.history@.len() {
        Action::LoadMore(greater(s.history@.len() as int, 20))
    } else {
        Action::Nothing
    }
}

/// Asks for more runs when the selection is near the end of those loaded.
fn want_more(state: &UiState) -> (action: Action)
    ensures
        action == more_wanted(*state, state.history_selected as int),
{
    let loaded = state.history_loaded_count;
    let threshold: usize = if loaded > 10 {
        loaded - 10
    } else {
        0
    };
    let count = state.history.len();
    if state.history_selected >= threshold && loaded == count {
        Action::LoadMore(
            if count > 20 {
                count
            } else {
                20
            },
        )
    } else {
        Action::Nothing
    }
}

/// The log scrolled towards its newest line.
pub open spec fn log_forward(s: UiState, lines: int) -> UiState {
    UiState { dashboard_log_scroll: less(s.dashboard_log_scroll as int, lines), ..s }
}

/// Scrolls the log towards its newest line.
fn scroll_forward(state: &mut UiState, lines: usize)
    ensures
        *final(state) == log_forward(*old(state), lines as int),
{
    state.dashboard_log_scroll = if state.dashboard_log_scroll > lines {
        state.dashboard_log_scroll - lines
    } else {
        0
    };
}

/// What moving down one row does: on the dashboard the log is scrolled forward, on the
/// history tab the next older run is selected, if there is one.
pub open spec fn moved_down(s: UiState, t: UiState, action: Action) -> bool {
    if s.tab == 0 {
        t == log_forward(s, 1) && action == Action::Nothing
    } else if s.tab == 1 && s.history_selected + 1 < s.history@.len() {
        let to = (s.history_selected + 1) as usize;
        t == (UiState { history_selected: to, ..s }) && action == more_wanted(s, to as int)
    } else {
        t == s && action == Action::Nothing
    }
}

/// Moves down one row.
fn move_down(state: &mut UiState) -> (action: Action)
    ensures
        moved_down(*old(state), *final(state), action),
{
    if state.tab == 0 {
        scroll_forward(state, 1);
        Action::Nothing
    } else if state.tab == 1 && state.history_selected < state.history.len()
        && state.history_selected < state.history.len() - 1 {
        state.history_selected = state.history_selected + 1;
        want_more(state)
    } else {
        Action::Nothing
    }
}

/// What moving down a page does: on the dashboard the log is scrolled forward, on the
/// history tab the selection moves that far, at most to the oldest run.
pub open spec fn paged_down(s: UiState, t: UiState, action: Action) -> bool {
    if s.tab == 0 {
        t == log_forward(s, PAGE_LINES as int) && action == Action::Nothing
    } else if s.tab == 1 && s.history@.len() > 0 {
        let to = lesser(s.history_selected + PAGE_ROWS, s.history@.len() - 1);
        t == (UiState { history_selected: to, ..s }) && action == more_wanted(s, to as int)
    } else {
        t == s && action == Action::Nothing
    }
}

/// Moves down a page.
fn page_down(state: &mut UiState) -> (action: Action)
    ensures
        paged_down(*old(state), *final(state), action),
{
    if state.tab == 0 {
        scroll_forward(state, PAGE_LINES);
        Action::Nothing
    } else if state.tab == 1 && state.history.len() > 0 {
        let last = state.history.len() - 1;
        let to = state.history_selected.saturating_add(PAGE_ROWS);
        state.history_selected = if to < last {
            to
        } else {
            last
        };
        want_more(state)
    } else {
        Action::Nothing
    }
}

/// What Esc does: on the history tab a filter is cleared, and the first row selected.
pub open spec fn filter_cleared(s: UiState, t: UiState) -> bool {
    if s.tab == 1 && s.history_filter@.len() > 0 {
        &&& t.history_filter@ == Seq::<char>::empty()
        &&& t == (UiState {
            history_filter: t.history_filter,
            history_selected: 0,
            history_scroll_offset: 0,
            ..s
        })
    } else {
        t == s
    }
}

/// Clears the filter of the history tab.
fn clear_filter(state: &mut UiState)
    ensures
        filter_cleared(*old(state), *final(state)),
{
    if state.tab == 1 && !state.history_filter.as_str().is_empty() {
        state.history_filter = String::new();
        state.history_selected = 0;
        state.history_scroll_offset = 0;
    }
}

/// What Left and Right do: on the charts tab, the filter goes on to the next network, or back
/// to the previous one.
pub open spec fn charts_cycled(s: UiState, t: UiState, forwards: bool) -> bool {
    if screen_of(s) == Screen::Charts {
        filter_cycled(s, t, forwards)
    } else {
        t == s
    }
}

/// Cycles through the networks of the charts.
fn cycle_charts(state: &mut UiState, forwards: bool)
    ensures
        charts_cycled(*old(state), *final(state), forwards),
{
    if screen(state) == Screen::Charts {
        cycle_filter(state, forwards);
    }
}

/// The request to open the detail view: on the history tab, for the selected run.
pub open spec fn detail_request(s: UiState) -> Action {
    if s.tab == 1 {
        on_selected(s, Action::OpenDetail(s.history_selected))
    } else {
        Action::Nothing
    }
}

/// Asks for the detail view of the selected run.
fn ask_detail(state: &UiState) -> (action: Action)
    ensures
        action == detail_request(*state),
{
    if state.tab == 1 && state.history_selected < state.history.len() {
        Action::OpenDetail(state.history_selected)
    } else {
        Action::Nothing
    }
}

/// What a key does that only changes the state.
pub open spec fn quiet_key_done(s: UiState, t: UiState, key: Key, modifiers: Modifiers) -> bool {
    match key {
        Key::Char('H') => t == (UiState { hide_network_info: !s.hide_network_info, ..s }),
        Key::Char('a') => auto_save_toggled(s, t),
        Key::BackTab => if modifiers == shift_alone() {
            t == with_tab(s, tab_before(s))
        } else {
            t == s
        },
        Key::Tab => t == with_tab(s, tab_after(s)),
        Key::Char('?') => t == (UiState { tab: help_tab(s) as usize, ..s }),
        Key::Char(' ') => t == menu_opened(s),
        Key::Up | Key::Char('k') => t == moved_up(s, 1, 1),
        Key::PageUp => t == moved_up(s, PAGE_ROWS as int, PAGE_LINES as int),
        Key::Char('/') => t == (UiState {
            history_filter_editing: if s.tab == 1 {
                true
            } else {
                s.history_filter_editing
            },
            ..s
        }),
        Key::Esc => filter_cleared(s, t),
        Key::Left | Key::Char('h') => charts_cycled(s, t, false),
        Key::Right | Key::Char('l') => charts_cycled(s, t, true),
        _ => t == s,
    }
}

/// A key that only changes the state.
fn handle_quiet_key(state: &mut UiState, key: Key, modifiers: Modifiers)
    requires
        old(state).tab < usize::MAX,
    ensures
        quiet_key_done(*old(state), *final(state), key, modifiers),
{
    match key {
        Key::Char('H') => {
            state.hide_network_info = !state.hide_network_info;
        },
        Key::Char('a') => {
            toggle_auto_save(state);
        },
        Key::BackTab => {
            if modifiers == Modifiers::only_shift() {
                previous_tab(state);
            }
        },
        Key::Tab => {
            next_tab(state);
        },
        Key::Char('?') => {
            show_help(state);
        },
        Key::Char(' ') => {
            open_menu(state);
        },
        Key::Up | Key::Char('k') => {
            move_up(state, 1, 1);
        },
        Key::PageUp => {
            move_up(state, PAGE_ROWS, PAGE_LINES);
        },
        Key::Char('/') => {
            if state.tab == 1 {
                state.history_filter_editing = true;
            }
        },
        Key::Esc => {
            clear_filter(state);
        },
        Key::Left | Key::Char('h') => {
            cycle_charts(state, false);
        },
        Key::Right | Key::Char('l') => {
            cycle_charts(state, true);
        },
        _ => {},
    }
}

/// What a key does outside the modes of the history tab.
pub open spec fn main_key_done(
    s: UiState,
    t: UiState,
    key: Key,
    modifiers: Modifiers,
    running: bool,
    action: Action,
) -> bool {
    if key == Key::Char('q') || (key == Key::Char('c') && modifiers == control_alone()) {
        t == s && action == (Action::Quit { cancel: running })
    } else {
        match key {
            Key::Char('p') => pause_toggled(s, t, running, action),
            Key::Char('r') => rerun_asked(s, t, running, action),
            Key::Char('s') => save_asked(s, t, action),
            Key::Enter => t == s && action == detail_request(s),
            Key::Down | Key::Char('j') => moved_down(s, t, action),
            Key::PageDown => paged_down(s, t, action),
            _ => quiet_key_done(s, t, key, modifiers) && action == Action::Nothing,
        }
    }
}

/// A key outside the modes of the history tab. `running` tells whether a run is under way.
pub fn handle_main_key(
    state: &mut UiState,
    key: Key,
    modifiers: Modifiers,
    running: bool,
) -> (action: Action)
    requires
        old(state).tab < usize::MAX,
    ensures
        main_key_done(*old(state), *final(state), key, modifiers, running, action),
{
    if key == Key::Char('q') || (key == Key::Char('c') && modifiers == Modifiers::only_control()) {
        return Action::Quit { cancel: running };
    }
    match key {
        Key::Char('p') => toggle_pause(state, running),
        Key::Char('r') => ask_rerun(state, running),
        Key::Char('s') => ask_save(state),
        Key::Enter => ask_detail(state),
        Key::Down | Key::Char('j') => move_down(state),
        Key::PageDown => page_down(state),
        _ => {
            handle_quiet_key(state, key, modifiers);
            Action::Nothing
        },
    }
}

} // verus!
