//! What holds of the keys outside the modes of the history tab.

use crate::model::text_of;
use crate::text::strings;
use crate::tui::input::handle_key;
use crate::tui::keys::{control_alone, shift_alone, Action, Key, Modifiers};
use crate::tui::networks::{ascending, lemma_place};
use crate::tui::state::UiState;
use vstd::prelude::*;

verus! {

/// Whether no mode of the history tab takes the keys.
pub open spec fn free(s: UiState) -> bool {
    s.tab != 1 || {
        &&& !s.history_filter_editing
        &&& !s.history_comment_modal_open
        &&& !s.history_export_modal_open
        &&& !s.history_menu_open
        &&& !s.history_detail_view
    }
}

/// Outside the modes, `q` with any modifier and `c` with Control alone leave the interface and
/// cancel a run exactly where one is under way. They change nothing.
#[verifier::spinoff_prover]
pub proof fn quitting_cancels_what_is_under_way(
    state: &mut UiState,
    key: Key,
    m: Modifiers,
    running: bool,
    action: Action,
)
    requires
        free(*old(state)),
        key == Key::Char('q') || (key == Key::Char('c') && m == control_alone()),
        call_ensures(handle_key, (state, key, m, running), action),
    ensures
        action == (Action::Quit { cancel: running }),
        *final(state) == *old(state),
{
}

/// No other key leaves the interface, and no key does in a mode.
#[verifier::spinoff_prover]
pub proof fn nothing_else_quits(
    state: &mut UiState,
    key: Key,
    m: Modifiers,
    running: bool,
    action: Action,
)
    requires
        call_ensures(handle_key, (state, key, m, running), action),
    ensures
        action is Quit ==> free(*old(state)) && (key == Key::Char('q') || (key == Key::Char('c')
            && m == control_alone())),
        action is Pause ==> free(*old(state)) && key == Key::Char('p') && running,
        action is Restart ==> free(*old(state)) && key == Key::Char('r') && old(state).tab != 1,
        action is SaveLast ==> free(*old(state)) && key == Key::Char('s') && old(state).tab == 0,
        action is Reload ==> free(*old(state)) && key == Key::Char('r') && old(state).tab == 1,
        action is Delete ==> old(state).tab == 1 && old(state).history_menu_open && key
            == Key::Enter,
        action is SaveComment ==> old(state).tab == 1 && old(state).history_comment_modal_open
            && key == Key::Enter,
{
}

/// `p` pauses a run, or lets it go on, and tells the engine which; without a run it does
/// nothing.
#[verifier::spinoff_prover]
pub proof fn pausing_is_told_to_the_engine(
    state: &mut UiState,
    m: Modifiers,
    running: bool,
    action: Action,
)
    requires
        free(*old(state)),
        call_ensures(handle_key, (state, Key::Char('p'), m, running), action),
    ensures
        running ==> final(state).paused != old(state).paused && action == Action::Pause(
            final(state).paused,
        ),
        !running ==> final(state).paused == old(state).paused && action is Nothing,
        *final(state) == (UiState { paused: final(state).paused, ..*old(state) }),
{
}

/// `r` loads the history again on its tab, as many runs as are loaded or as were at first,
/// whichever is more; elsewhere it begins another run and cancels the one under way.
#[verifier::spinoff_prover]
pub proof fn r_loads_again_or_runs_again(
    state: &mut UiState,
    m: Modifiers,
    running: bool,
    action: Action,
)
    requires
        free(*old(state)),
        call_ensures(handle_key, (state, Key::Char('r'), m, running), action),
    ensures
        old(state).tab == 1 ==> {
            &&& *final(state) == *old(state)
            &&& action matches Action::Reload(n) && n >= old(state).history_loaded_count && n
                >= old(state).initial_history_load_size && (n == old(state).history_loaded_count
                || n == old(state).initial_history_load_size)
        },
        old(state).tab != 1 ==> {
            &&& action == (Action::Restart { cancel: running })
            &&& final(state).info@ == "Restarting\u{2026}"@
        },
        *final(state) == (UiState { info: final(state).info, ..*old(state) }),
{
}

/// `s` saves the last result on the dashboard where there is one, and tells where there is
/// none; elsewhere it does nothing.
#[verifier::spinoff_prover]
pub proof fn s_saves_a_result(state: &mut UiState, m: Modifiers, running: bool, action: Action)
    requires
        free(*old(state)),
        call_ensures(handle_key, (state, Key::Char('s'), m, running), action),
    ensures
        action is SaveLast <==> old(state).tab == 0 && old(state).last_result is Some,
        !(action is SaveLast) ==> action is Nothing,
        old(state).tab == 0 && old(state).last_result is None ==> final(state).info@
            == "No completed run to save yet."@,
        old(state).tab != 0 || old(state).last_result is Some ==> *final(state) == *old(state),
        *final(state) == (UiState { info: final(state).info, ..*old(state) }),
{
}

/// `a` turns saving by itself on or off and tells which; `H` hides the network or shows it.
/// Neither asks for anything, and nothing else changes.
#[verifier::spinoff_prover]
pub proof fn switches_are_turned(state: &mut UiState, m: Modifiers, running: bool, action: Action)
    requires
        free(*old(state)),
    ensures
        call_ensures(handle_key, (state, Key::Char('a'), m, running), action) ==> {
            &&& final(state).auto_save == !old(state).auto_save
            &&& final(state).info@ == (if final(state).auto_save {
                "Auto-save enabled"@
            } else {
                "Auto-save disabled"@
            })
            &&& action is Nothing
            &&& *final(state) == (UiState {
                auto_save: final(state).auto_save,
                info: final(state).info,
                ..*old(state)
            })
        },
        call_ensures(handle_key, (state, Key::Char('H'), m, running), action) ==> {
            &&& action is Nothing
            &&& *final(state) == (UiState {
                hide_network_info: !old(state).hide_network_info,
                ..*old(state)
            })
        },
{
}

/// Tab leads to the next tab and from the last to the first, and with Shift alone the other
/// way round; `?` leads to the last. There are four tabs, and five with the traceroute. A
/// history tab that is come to by Tab has its first row selected; nothing else changes.
#[verifier::spinoff_prover]
pub proof fn tabs_are_gone_through(
    state: &mut UiState,
    key: Key,
    m: Modifiers,
    running: bool,
    action: Action,
)
    requires
        old(state).wf(),
        free(*old(state)),
        key == Key::Tab || key == Key::BackTab || key == Key::Char('?'),
        call_ensures(handle_key, (state, key, m, running), action),
    ensures
        action is Nothing,
        ({
            let last: int = if old(state).traceroute_enabled {
                4
            } else {
                3
            };
            &&& key == Key::Tab ==> final(state).tab == (if old(state).tab < last {
                old(state).tab + 1
            } else {
                0
            })
            &&& key == Key::BackTab && m == shift_alone() ==> final(state).tab == (if old(state).tab
                > 0 {
                old(state).tab - 1
            } else {
                last
            })
            &&& key == Key::BackTab && m != shift_alone() ==> *final(state) == *old(state)
            &&& key == Key::Char('?') ==> final(state).tab == last
        }),
        final(state).tab == 1 && final(state).tab != old(state).tab ==> final(
            state
        ).history_selected == 0 && final(state).history_scroll_offset == 0,
        final(state).tab != 1 ==> final(state).history_selected == old(state).history_selected
            && final(state).history_scroll_offset == old(state).history_scroll_offset,
        *final(state) == (UiState {
            tab: final(state).tab,
            history_selected: final(state).history_selected,
            history_scroll_offset: final(state).history_scroll_offset,
            ..*old(state)
        }),
{
}

/// On the history tab, Up and Down move the selection by one row and the page keys by 20 rows,
/// up to the first run and down to the last. Nothing else changes.
#[verifier::spinoff_prover]
pub proof fn selection_moves_among_the_runs(
    state: &mut UiState,
    key: Key,
    m: Modifiers,
    running: bool,
    action: Action,
)
    requires
        free(*old(state)),
        old(state).tab == 1,
        old(state).history_selected < old(state).history@.len(),
        old(state).history@.len() + 20 <= usize::MAX,
        call_ensures(handle_key, (state, key, m, running), action),
    ensures
        ({
            let at = old(state).history_selected as int;
            let to = final(state).history_selected as int;
            let last = old(state).history@.len() - 1;
            &&& key == Key::Up || key == Key::Char('k') ==> to == (if at > 0 {
                at - 1
            } else {
                0
            }) && action is Nothing
            &&& key == Key::PageUp ==> to == (if at > 20 {
                at - 20
            } else {
                0
            }) && action is Nothing
            &&& key == Key::Down || key == Key::Char('j') ==> to == (if at < last {
                at + 1
            } else {
                last
            })
            &&& key == Key::PageDown ==> to == (if at + 20 < last {
                at + 20
            } else {
                last
            })
            &&& key == Key::Up || key == Key::Down || key == Key::PageUp || key == Key::PageDown
                || key == Key::Char('j') || key == Key::Char('k') ==> *final(state) == (UiState {
                history_selected: final(state).history_selected,
                ..*old(state)
            })
        }),
{
}

/// Moving down asks for more runs exactly where the selection comes within ten of the last one
/// that is loaded and all that is loaded is shown; it asks for as many as there are, but for
/// at least 20.
#[verifier::spinoff_prover]
pub proof fn more_runs_are_asked_for_near_the_end(
    state: &mut UiState,
    key: Key,
    m: Modifiers,
    running: bool,
    action: Action,
)
    requires
        free(*old(state)),
        old(state).tab == 1,
        old(state).history@.len() > 0,
        old(state).history.len() == old(state).history@.len(),
        key == Key::PageDown || ((key == Key::Down || key == Key::Char('j')) && old(
            state
        ).history_selected + 1 < old(state).history@.len()),
        call_ensures(handle_key, (state, key, m, running), action),
    ensures
        action is LoadMore <==> final(state).history_selected + 10 >= old(
            state
        ).history_loaded_count && old(state).history_loaded_count == old(state).history@.len(),
        action matches Action::LoadMore(n) ==> n >= 20 && n >= old(state).history@.len() && (n == 20
            || n == old(state).history@.len()),
        !(action is LoadMore) ==> action is Nothing,
{
}

/// On the dashboard, Up and Down scroll the log back and forth by a line and the page keys by
/// ten lines, back to its first line and forth to its newest. Nothing else changes.
#[verifier::spinoff_prover]
pub proof fn log_scrolls_within_its_lines(
    state: &mut UiState,
    key: Key,
    m: Modifiers,
    running: bool,
    action: Action,
)
    requires
        old(state).tab == 0,
        old(state).text_log@.len() + 10 <= usize::MAX,
        old(state).dashboard_log_scroll <= old(state).text_log@.len(),
        key == Key::Up || key == Key::Down || key == Key::PageUp || key == Key::PageDown || key
            == Key::Char('j') || key == Key::Char('k'),
        call_ensures(handle_key, (state, key, m, running), action),
    ensures
        action is Nothing,
        ({
            let at = old(state).dashboard_log_scroll as int;
            let to = final(state).dashboard_log_scroll as int;
            let most: int = if old(state).text_log@.len() > 0 {
                old(state).text_log@.len() - 1
            } else {
                0
            };
            let by: int = if key == Key::PageUp || key == Key::PageDown {
                10
            } else {
                1
            };
            if key == Key::Up || key == Key::PageUp || key == Key::Char('k') {
                to == (if at + by < most {
                    at + by
                } else {
                    most
                })
            } else {
                to == (if by < at {
                    at - by
                } else {
                    0
                })
            }
        }),
        *final(state) == (UiState {
            dashboard_log_scroll: final(state).dashboard_log_scroll,
            ..*old(state)
        }),
{
}

/// On the history tab, Space opens the menu at its first item where there is a run; elsewhere
/// it does nothing.
#[verifier::spinoff_prover]
pub proof fn space_opens_the_menu(state: &mut UiState, m: Modifiers, running: bool, action: Action)
    requires
        free(*old(state)),
        call_ensures(handle_key, (state, Key::Char(' '), m, running), action),
    ensures
        action is Nothing,
        old(state).tab == 1 && old(state).history@.len() > 0 ==> *final(state) == (UiState {
            history_menu_open: true,
            history_menu_selected: 0,
            ..*old(state)
        }),
        old(state).tab != 1 || old(state).history@.len() == 0 ==> *final(state) == *old(state),
{
}

/// On the history tab, `/` begins to edit the filter; elsewhere it does nothing.
#[verifier::spinoff_prover]
pub proof fn slash_edits_the_filter(
    state: &mut UiState,
    m: Modifiers,
    running: bool,
    action: Action,
)
    requires
        free(*old(state)),
        call_ensures(handle_key, (state, Key::Char('/'), m, running), action),
    ensures
        action is Nothing,
        old(state).tab == 1 ==> *final(state) == (UiState {
            history_filter_editing: true,
            ..*old(state)
        }),
        old(state).tab != 1 ==> *final(state) == *old(state),
{
}

/// On the history tab, Esc clears a filter and selects the first row; elsewhere, and without a
/// filter, it does nothing.
#[verifier::spinoff_prover]
pub proof fn escape_clears_the_filter(
    state: &mut UiState,
    m: Modifiers,
    running: bool,
    action: Action,
)
    requires
        free(*old(state)),
        call_ensures(handle_key, (state, Key::Esc, m, running), action),
    ensures
        action is Nothing,
        old(state).tab == 1 && old(state).history_filter@.len() > 0 ==> final(
            state
        ).history_filter@.len() == 0 && *final(state) == (UiState {
            history_filter: final(state).history_filter,
            history_selected: 0,
            history_scroll_offset: 0,
            ..*old(state)
        }),
        old(state).tab != 1 || old(state).history_filter@.len() == 0 ==> *final(state) == *old(
            state
        ),
{
}

/// On the history tab, Enter asks for the selected run, if there is one; elsewhere for
/// nothing. It changes nothing.
#[verifier::spinoff_prover]
pub proof fn enter_asks_for_the_selected_run(
    state: &mut UiState,
    m: Modifiers,
    running: bool,
    action: Action,
)
    requires
        free(*old(state)),
        call_ensures(handle_key, (state, Key::Enter, m, running), action),
    ensures
        *final(state) == *old(state),
        old(state).tab == 1 && old(state).history_selected < old(state).history@.len() ==> action
            == Action::OpenDetail(old(state).history_selected),
        old(state).tab != 1 || old(state).history_selected >= old(state).history@.len() ==> (action
            is Nothing),
{
}

/// On the charts tab, Right leads from all networks to the first, from each to the next and
/// from the last to all, and Left the other way; so do `l` and `h`. On any other tab they do
/// nothing.
#[verifier::spinoff_prover]
pub proof fn charts_are_gone_through(
    state: &mut UiState,
    key: Key,
    m: Modifiers,
    running: bool,
    action: Action,
    i: int,
)
    requires
        free(*old(state)),
        key == Key::Left || key == Key::Right || key == Key::Char('h') || key == Key::Char('l'),
        ascending(strings(old(state).charts_available_networks@)),
        call_ensures(handle_key, (state, key, m, running), action),
    ensures
        action is Nothing,
        ({
            let names = strings(old(state).charts_available_networks@);
            let n = names.len();
            let charts = old(state).tab == (if old(state).traceroute_enabled {
                3int
            } else {
                2
            });
            let forwards = key == Key::Right || key == Key::Char('l');
            let filter = text_of(old(state).charts_network_filter);
            let then = text_of(final(state).charts_network_filter);
            &&& !charts || n == 0 ==> *final(state) == *old(state)
            &&& charts && n > 0 && filter is None ==> then == Some(
                if forwards {
                    names[0]
                } else {
                    names[n - 1]
                },
            )
            &&& charts && 0 <= i < n && filter == Some(names[i]) && forwards ==> then == (if i + 1
                < n {
                Some(names[i + 1])
            } else {
                None
            })
            &&& charts && 0 <= i < n && filter == Some(names[i]) && !forwards ==> then == (if i
                > 0 {
                Some(names[i - 1])
            } else {
                None
            })
        }),
        *final(state) == (UiState {
            charts_network_filter: final(state).charts_network_filter,
            ..*old(state)
        }),
{
    let names = strings(old(state).charts_available_networks@);
    if 0 <= i < names.len() {
        lemma_place(names, i);
    }
}

/// A key without a meaning does nothing.
#[verifier::spinoff_prover]
pub proof fn other_keys_do_nothing(
    state: &mut UiState,
    key: Key,
    m: Modifiers,
    running: bool,
    action: Action,
)
    requires
        free(*old(state)),
        match key {
            Key::Backspace | Key::Delete | Key::Home | Key::End | Key::Other => true,
            Key::Char(c) => c != 'q' && c != 'c' && c != 'p' && c != 'r' && c != 's' && c != 'a'
                && c != 'H' && c != '?' && c != ' ' && c != 'j' && c != 'k' && c != '/' && c != 'h'
                && c != 'l',
            _ => false,
        },
        call_ensures(handle_key, (state, key, m, running), action),
    ensures
        action is Nothing,
        *final(state) == *old(state),
{
}

} // verus!
