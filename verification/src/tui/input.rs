//! Where a key goes.

use crate::tui::detail::{detail_key_done, handle_history_detail_key};
use crate::tui::keys::{Action, Key, Modifiers};
use crate::tui::main_keys::{charts_cycled, handle_main_key, main_key_done, quiet_key_done};
use crate::tui::modals::{
    comment_edited, export_modal_left, filter_edited, handle_filter_key,
    handle_history_comment_modal_key, handle_history_export_modal_key, handle_history_menu_key,
    menu_used,
};
use crate::tui::networks::cycling_keeps_the_filter_valid;
use crate::tui::state::UiState;
use crate::tui::view::{screen_of, Screen};
use vstd::prelude::*;

verus! {

/// What a key press does. The modes of the history tab take the key, in this order: the
/// filter input, the comment editor, the export result, the action menu, the detail view.
pub open spec fn key_done(
    s: UiState,
    t: UiState,
    key: Key,
    modifiers: Modifiers,
    running: bool,
    action: Action,
) -> bool {
    if s.tab == 1 && s.history_filter_editing {
        filter_edited(s, t, key) && action == Action::Nothing
    } else if s.tab == 1 && s.history_comment_modal_open {
        comment_edited(s, t, key, modifiers, action)
    } else if s.tab == 1 && s.history_export_modal_open {
        export_modal_left(s, t, key, action)
    } else if s.tab == 1 && s.history_menu_open {
        menu_used(s, t, key, action)
    } else if s.tab == 1 && s.history_detail_view {
        detail_key_done(s, t, key) && action == Action::Nothing
    } else {
        main_key_done(s, t, key, modifiers, running, action)
    }
}

/// Takes a key press. `running` tells whether a run is under way. What is left to do outside
/// is returned.
pub fn handle_key(
    state: &mut UiState,
    key: Key,
    modifiers: Modifiers,
    running: bool,
) -> (action: Action)
    requires
        old(state).operable(),
    ensures
        key_done(*old(state), *final(state), key, modifiers, running, action),
        old(state).wf() ==> final(state).wf(),
{
    let ghost s = *state;
    let on_history = state.tab == 1;
    let action = if on_history && state.history_filter_editing {
        handle_filter_key(state, key);
        Action::Nothing
    } else if on_history && state.history_comment_modal_open {
        handle_history_comment_modal_key(state, key, modifiers)
    } else if on_history && state.history_export_modal_open {
        handle_history_export_modal_key(state, key)
    } else if on_history && state.history_menu_open {
        handle_history_menu_key(state, key)
    } else if on_history && state.history_detail_view {
        handle_history_detail_key(state, key);
        Action::Nothing
    } else {
        handle_main_key(state, key, modifiers, running)
    };
    proof {
        if s.wf() {
            keys_keep_the_state_valid(s, *state, key, modifiers, running, action);
        }
    }
    action
}

/// The history menu and the comment editor keep the state valid.
proof fn lemma_menu_keeps_valid(s: UiState, t: UiState, key: Key, action: Action)
    requires
        s.wf(),
        menu_used(s, t, key, action),
    ensures
        t.wf(),
{
    let closed = UiState { history_menu_open: false, ..s };
    assert(closed.wf());
}

/// The detail view keeps the state valid.
proof fn lemma_detail_keeps_valid(s: UiState, t: UiState, key: Key)
    requires
        s.wf(),
        detail_key_done(s, t, key),
    ensures
        t.wf(),
{
}

/// Cycling through the networks of the charts keeps the state valid.
proof fn lemma_cycling_keeps_valid(s: UiState, t: UiState, forwards: bool)
    requires
        s.wf(),
        charts_cycled(s, t, forwards),
    ensures
        t.wf(),
{
    if screen_of(s) == Screen::Charts {
        cycling_keeps_the_filter_valid(s, t, forwards);
    }
}

/// Keys that only change the state keep it valid.
#[verifier::spinoff_prover]
#[verifier::rlimit(40)]
proof fn lemma_quiet_keeps_valid(s: UiState, t: UiState, key: Key, modifiers: Modifiers)
    requires
        s.wf(),
        quiet_key_done(s, t, key, modifiers),
    ensures
        t.wf(),
{
    match key {
        Key::Left | Key::Char('h') => {
            lemma_cycling_keeps_valid(s, t, false);
        },
        Key::Right | Key::Char('l') => {
            lemma_cycling_keeps_valid(s, t, true);
        },
        _ => {},
    }
}

/// Keys outside the modes keep the state valid.
proof fn lemma_main_keeps_valid(
    s: UiState,
    t: UiState,
    key: Key,
    modifiers: Modifiers,
    running: bool,
    action: Action,
)
    requires
        s.wf(),
        main_key_done(s, t, key, modifiers, running, action),
    ensures
        t.wf(),
{
    match key {
        Key::Char('q') | Key::Char('p') | Key::Char('r') | Key::Char('s') => {},
        Key::Enter | Key::Down | Key::Char('j') | Key::PageDown => {},
        _ => {
            if t != s {
                lemma_quiet_keeps_valid(s, t, key, modifiers);
            }
        },
    }
}

/// No key press breaks what every state keeps: the tab and the menu item exist, the
/// selection is valid, the charts' filter is one of the networks, the log is not scrolled
/// past its first line, and nothing outgrows its bound.
pub proof fn keys_keep_the_state_valid(
    s: UiState,
    t: UiState,
    key: Key,
    modifiers: Modifiers,
    running: bool,
    action: Action,
)
    requires
        s.wf(),
        key_done(s, t, key, modifiers, running, action),
    ensures
        t.wf(),
{
    if s.tab == 1 && s.history_filter_editing {
    } else if s.tab == 1 && s.history_comment_modal_open {
    } else if s.tab == 1 && s.history_export_modal_open {
    } else if s.tab == 1 && s.history_menu_open {
        lemma_menu_keeps_valid(s, t, key, action);
    } else if s.tab == 1 && s.history_detail_view {
        lemma_detail_keeps_valid(s, t, key);
    } else {
        lemma_main_keeps_valid(s, t, key, modifiers, running, action);
    }
}

} // verus!
