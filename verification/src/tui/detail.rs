//! The detail view of the history tab: a run as JSON text, with a search.

use crate::model::text_of;
use crate::text::{lines, lines_of};
use crate::tui::editor::{
    blank_editor, column_beside, cursor_after_motion, cursor_after_search, editor_cursor,
    editor_lines, editor_pattern, editor_selecting, is_new_editor, line_entered, line_left,
    move_cursor, new_editor, next_match, only_cursor_moved, outcome_text, pageable, paged, pattern_error,
    pattern_outcome, previous_match, same_setting, scroll_page, search_back, search_forward,
    set_pattern, Editor, Motion, Page,
};
use crate::tui::keys::Key;
use crate::tui::state::UiState;
use vstd::prelude::*;

verus! {

/// The search of the detail view reset: no pattern, no input, no error.
pub open spec fn search_reset(t: UiState) -> bool {
    &&& t.history_detail_search@ == Seq::<char>::empty()
    &&& !t.history_detail_search_editing
    &&& t.history_detail_search_error is None
}

/// What opening the detail view does: it shows the lines of the text from their beginning,
/// without a search. Without a selected run nothing happens.
pub open spec fn detail_opened(s: UiState, t: UiState, json: Seq<char>) -> bool {
    if s.history_selected < s.history@.len() {
        &&& is_new_editor(t.history_detail_textarea, lines_of(json))
        &&& search_reset(t)
        &&& t == (UiState {
            history_detail_view: true,
            history_detail_textarea: t.history_detail_textarea,
            history_detail_search: t.history_detail_search,
            history_detail_search_editing: false,
            history_detail_search_error: None,
            ..s
        })
    } else {
        t == s
    }
}

/// Opens the detail view on the selected run, whose JSON text is given.
pub fn open_history_detail(state: &mut UiState, json: &str)
    ensures
        detail_opened(*old(state), *final(state), json@),
{
    if state.history_selected >= state.history.len() {
        return;
    }
    state.history_detail_textarea = new_editor(lines(json));
    state.history_detail_search = String::new();
    state.history_detail_search_editing = false;
    state.history_detail_search_error = None;
    state.history_detail_view = true;
}

/// What closing the detail view does.
pub open spec fn detail_closed(s: UiState, t: UiState) -> bool {
    &&& is_new_editor(t.history_detail_textarea, Seq::empty())
    &&& search_reset(t)
    &&& t == (UiState {
        history_detail_view: false,
        history_detail_textarea: t.history_detail_textarea,
        history_detail_search: t.history_detail_search,
        history_detail_search_editing: false,
        history_detail_search_error: None,
        ..s
    })
}

/// Closes the detail view.
pub fn close_history_detail(state: &mut UiState)
    ensures
        detail_closed(*old(state), *final(state)),
{
    state.history_detail_view = false;
    state.history_detail_textarea = blank_editor();
    state.history_detail_search = String::new();
    state.history_detail_search_editing = false;
    state.history_detail_search_error = None;
}

/// The cursor at the next match of the editor's pattern, if it has one and there is one.
pub open spec fn searched_forward(before: Editor, after: Editor) -> bool {
    &&& only_cursor_moved(before, after)
    &&& match editor_pattern(before) {
        None => editor_cursor(after) == editor_cursor(before),
        Some(p) => cursor_after_search(
            next_match(p, editor_lines(before), editor_cursor(before)),
            before,
            after,
        ),
    }
}

/// The cursor at the previous match of the editor's pattern, if it has one and there is
/// one.
pub open spec fn searched_back(before: Editor, after: Editor) -> bool {
    &&& only_cursor_moved(before, after)
    &&& match editor_pattern(before) {
        None => editor_cursor(after) == editor_cursor(before),
        Some(p) => cursor_after_search(
            previous_match(p, editor_lines(before), editor_cursor(before)),
            before,
            after,
        ),
    }
}

/// What follows when the editor was asked to search for the pattern: an accepted pattern
/// clears the error, and its next match is looked for unless it is empty; the text of an
/// error is kept to be shown.
pub open spec fn search_noted(s: UiState, t: UiState, outcome: Result<(), Seq<char>>) -> bool {
    match outcome {
        Ok(()) => {
            &&& if s.history_detail_search@.len() > 0 {
                searched_forward(s.history_detail_textarea, t.history_detail_textarea)
            } else {
                t.history_detail_textarea == s.history_detail_textarea
            }
            &&& t == (UiState {
                history_detail_search_error: None,
                history_detail_textarea: t.history_detail_textarea,
                ..s
            })
        },
        Err(e) => {
            &&& text_of(t.history_detail_search_error) == Some(e)
            &&& t == (UiState { history_detail_search_error: t.history_detail_search_error, ..s })
        },
    }
}

/// Notes what asking the editor to search for the pattern came to.
pub fn note_search(state: &mut UiState, outcome: Result<(), String>)
    ensures
        search_noted(*old(state), *final(state), outcome_text(outcome)),
{
    match outcome {
        Ok(()) => {
            state.history_detail_search_error = None;
            if !state.history_detail_search.as_str().is_empty() {
                let _ = search_forward(&mut state.history_detail_textarea);
            }
        },
        Err(e) => {
            state.history_detail_search_error = Some(e);
        },
    }
}

/// What applying the search pattern does to the editor: an accepted pattern is searched for
/// from now on, and the cursor moves to its next match, if there is one; the empty pattern
/// ends the search, and a pattern that is refused changes nothing.
pub open spec fn pattern_applied(before: Editor, after: Editor, query: Seq<char>) -> bool {
    let lines = editor_lines(before);
    let cursor = editor_cursor(before);
    let accepted = pattern_outcome(before, query, pattern_error(query)) is Ok;
    &&& editor_lines(after) == lines
    &&& same_setting(before, after)
    &&& editor_selecting(after) == editor_selecting(before)
    &&& editor_pattern(after) == (if !accepted {
        editor_pattern(before)
    } else if query.len() == 0 {
        None
    } else {
        Some(query)
    })
    &&& if accepted && query.len() > 0 {
        cursor_after_search(next_match(query, lines, cursor), before, after)
    } else {
        editor_cursor(after) == cursor
    }
}

/// What applying the search pattern does: the editor is asked to search for it, and the text
/// of an error is kept to be shown.
pub open spec fn search_applied(s: UiState, t: UiState) -> bool {
    let before = s.history_detail_textarea;
    let query = s.history_detail_search@;
    let outcome = pattern_outcome(before, query, pattern_error(query));
    &&& pattern_applied(before, t.history_detail_textarea, query)
    &&& text_of(t.history_detail_search_error) == (match outcome {
        Ok(()) => None,
        Err(e) => Some(e),
    })
    &&& t == (UiState {
        history_detail_search_error: t.history_detail_search_error,
        history_detail_textarea: t.history_detail_textarea,
        ..s
    })
}

/// Applies the search pattern.
pub fn apply_detail_search_pattern(state: &mut UiState)
    ensures
        search_applied(*old(state), *final(state)),
{
    let pattern = state.history_detail_search.clone();
    let outcome = set_pattern(&mut state.history_detail_textarea, pattern.as_str());
    note_search(state, outcome);
}

/// What clearing the search does: no pattern is searched for, and there is no error. The
/// text and the cursor stay.
pub open spec fn search_cleared(s: UiState, t: UiState) -> bool {
    let before = s.history_detail_textarea;
    let after = t.history_detail_textarea;
    &&& t.history_detail_search@ == Seq::<char>::empty()
    &&& editor_lines(after) == editor_lines(before)
    &&& editor_cursor(after) == editor_cursor(before)
    &&& same_setting(before, after)
    &&& editor_selecting(after) == editor_selecting(before)
    &&& editor_pattern(after) is None
    &&& t == (UiState {
        history_detail_search: t.history_detail_search,
        history_detail_search_error: None,
        history_detail_textarea: after,
        ..s
    })
}

/// Clears the search.
fn clear_search(state: &mut UiState)
    ensures
        search_cleared(*old(state), *final(state)),
{
    state.history_detail_search = String::new();
    state.history_detail_search_error = None;
    let _ = set_pattern(&mut state.history_detail_textarea, "");
    proof {
        reveal_strlit("");
    }
}

/// What a key does to the input of the search pattern: Esc clears the search and leaves,
/// Enter leaves and applies the pattern, Backspace and characters edit the pattern and
/// apply it.
pub open spec fn search_edited(s: UiState, t: UiState, key: Key) -> bool {
    match key {
        Key::Esc => search_cleared(UiState { history_detail_search_editing: false, ..s }, t),
        Key::Enter => search_applied(UiState { history_detail_search_editing: false, ..s }, t),
        Key::Backspace => {
            let text = s.history_detail_search@;
            &&& t.history_detail_search@ == (if text.len() > 0 {
                text.drop_last()
            } else {
                text
            })
            &&& search_applied(UiState { history_detail_search: t.history_detail_search, ..s }, t)
        },
        Key::Char(c) => {
            &&& t.history_detail_search@ == s.history_detail_search@.push(c)
            &&& search_applied(UiState { history_detail_search: t.history_detail_search, ..s }, t)
        },
        _ => t == s,
    }
}

/// The cursor of the detail view moved, and nothing else.
pub open spec fn detail_moved(s: UiState, t: UiState, motion: Motion) -> bool {
    let before = s.history_detail_textarea;
    let col = editor_cursor(before).1;
    &&& only_cursor_moved(before, t.history_detail_textarea)
    &&& cursor_after_motion(
        motion,
        before,
        t.history_detail_textarea,
        column_beside(line_left(before), col, line_entered(motion, before)),
    )
    &&& t == (UiState { history_detail_textarea: t.history_detail_textarea, ..s })
}

/// The detail view scrolled by a page, and nothing else.
pub open spec fn detail_paged(s: UiState, t: UiState, page: Page) -> bool {
    let before = s.history_detail_textarea;
    let after = t.history_detail_textarea;
    &&& paged(page, before, after)
    &&& editor_selecting(after) == editor_selecting(before)
    &&& t == (UiState { history_detail_textarea: after, ..s })
}

/// Scrolls the detail view by a page.
fn page_detail(state: &mut UiState, page: Page)
    requires
        pageable(old(state).history_detail_textarea),
    ensures
        detail_paged(*old(state), *final(state), page),
{
    scroll_page(&mut state.history_detail_textarea, page);
}

/// What a key does to the detail view outside the search input: Esc clears an active search
/// and else closes the view, as `q` does; `/` begins to enter a pattern; `n` and `N` go to
/// the next and to the previous match; the other keys move the cursor, and by pages what is
/// shown.
pub open spec fn detail_used(s: UiState, t: UiState, key: Key) -> bool {
    match key {
        Key::Esc => if s.history_detail_search@.len() > 0 {
            search_cleared(s, t)
        } else {
            detail_closed(s, t)
        },
        Key::Char('q') => detail_closed(s, t),
        Key::Char('/') => t == (UiState {
            history_detail_search_editing: true,
            history_detail_search_error: None,
            ..s
        }),
        Key::Char('n') => match_sought(s, t, true),
        Key::Char('N') => match_sought(s, t, false),
        Key::Up | Key::Char('k') => detail_moved(s, t, Motion::Up),
        Key::Down | Key::Char('j') => detail_moved(s, t, Motion::Down),
        Key::PageUp => detail_paged(s, t, Page::Up),
        Key::PageDown => detail_paged(s, t, Page::Down),
        Key::Home => detail_moved(s, t, Motion::Top),
        Key::End => detail_moved(s, t, Motion::Bottom),
        _ => t == s,
    }
}

/// What a key does to the detail view.
pub open spec fn detail_key_done(s: UiState, t: UiState, key: Key) -> bool {
    if s.history_detail_search_editing {
        search_edited(s, t, key)
    } else {
        detail_used(s, t, key)
    }
}

/// A key in the input of the search pattern.
fn handle_search_key(state: &mut UiState, key: Key)
    ensures
        search_edited(*old(state), *final(state), key),
{
    match key {
        Key::Esc => {
            state.history_detail_search_editing = false;
            clear_search(state);
        },
        Key::Enter => {
            state.history_detail_search_editing = false;
            apply_detail_search_pattern(state);
        },
        Key::Backspace => {
            let _ = state.history_detail_search.pop();
            let ghost mid = *state;
            apply_detail_search_pattern(state);
            assert(mid == (UiState {
                history_detail_search: state.history_detail_search,
                ..*old(state)
            }));
        },
        Key::Char(c) => {
            state.history_detail_search.push(c);
            let ghost mid = *state;
            apply_detail_search_pattern(state);
            assert(mid == (UiState {
                history_detail_search: state.history_detail_search,
                ..*old(state)
            }));
        },
        _ => {},
    }
}

/// Moves the cursor of the detail view.
fn move_detail(state: &mut UiState, motion: Motion)
    ensures
        detail_moved(*old(state), *final(state), motion),
{
    move_cursor(&mut state.history_detail_textarea, motion);
}

/// The cursor of the detail view at the next match, or at the previous one; without an
/// active search nothing happens.
pub open spec fn match_sought(s: UiState, t: UiState, forwards: bool) -> bool {
    if s.history_detail_search@.len() == 0 {
        t == s
    } else {
        &&& if forwards {
            searched_forward(s.history_detail_textarea, t.history_detail_textarea)
        } else {
            searched_back(s.history_detail_textarea, t.history_detail_textarea)
        }
        &&& t == (UiState { history_detail_textarea: t.history_detail_textarea, ..s })
    }
}

/// Goes to the next match, or to the previous one.
fn seek_match(state: &mut UiState, forwards: bool)
    ensures
        match_sought(*old(state), *final(state), forwards),
{
    if state.history_detail_search.as_str().is_empty() {
        return;
    }
    if forwards {
        let _ = search_forward(&mut state.history_detail_textarea);
    } else {
        let _ = search_back(&mut state.history_detail_textarea);
    }
}

/// Clears an active search, and else closes the view.
fn leave_detail(state: &mut UiState)
    ensures
        if old(state).history_detail_search@.len() > 0 {
            search_cleared(*old(state), *final(state))
        } else {
            detail_closed(*old(state), *final(state))
        },
{
    if state.history_detail_search.as_str().is_empty() {
        close_history_detail(state);
    } else {
        clear_search(state);
    }
}

/// A key in the detail view outside the search input.
fn handle_view_key(state: &mut UiState, key: Key)
    requires
        pageable(old(state).history_detail_textarea),
    ensures
        detail_used(*old(state), *final(state), key),
{
    match key {
        Key::Esc => {
            leave_detail(state);
        },
        Key::Char('q') => {
            close_history_detail(state);
        },
        Key::Char('/') => {
            state.history_detail_search_editing = true;
            state.history_detail_search_error = None;
        },
        Key::Char('n') => {
            seek_match(state, true);
        },
        Key::Char('N') => {
            seek_match(state, false);
        },
        Key::Up | Key::Char('k') => {
            move_detail(state, Motion::Up);
        },
        Key::Down | Key::Char('j') => {
            move_detail(state, Motion::Down);
        },
        Key::PageUp => {
            page_detail(state, Page::Up);
        },
        Key::PageDown => {
            page_detail(state, Page::Down);
        },
        Key::Home => {
            move_detail(state, Motion::Top);
        },
        Key::End => {
            move_detail(state, Motion::Bottom);
        },
        _ => {},
    }
}

/// A key in the detail view.
pub fn handle_history_detail_key(state: &mut UiState, key: Key)
    requires
        pageable(old(state).history_detail_textarea),
    ensures
        detail_key_done(*old(state), *final(state), key),
{
    if state.history_detail_search_editing {
        handle_search_key(state, key);
    } else {
        handle_view_key(state, key);
    }
}

} // verus!
