//! Keys in the modes of the history tab: the filter input, the comment editor, the export
//! result, the action menu and the detail view.

use crate::model::{text_of, RunRecord};
use crate::text::{chars_of, join, joined, lines, lines_of, string_of, strings, trim, trimmed};
use crate::tui::editor::{
    blank_editor, editor_cursor, editor_lines, editor_pattern, editor_plain, editor_selecting, feed,
    is_new_editor, key_fed, move_cursor, new_editor, pageable, text_of_editor, Motion,
};
use crate::tui::keys::{Action, Key, Modifiers};
use crate::tui::state::{UiState, MENU_ITEM_COUNT};
use vstd::prelude::*;

verus! {

/// The menu item that opens the detail view.
pub const MENU_ITEM_VIEW: usize = 0;

/// The menu item that edits the comment.
pub const MENU_ITEM_EDIT_COMMENT: usize = 1;

/// The menu item that exports as JSON.
pub const MENU_ITEM_EXPORT_JSON: usize = 2;

/// The menu item that exports as CSV.
pub const MENU_ITEM_EXPORT_CSV: usize = 3;

/// The menu item that deletes the run.
pub const MENU_ITEM_DELETE: usize = 4;

/// The filter text after a key.
pub open spec fn filter_text(text: Seq<char>, key: Key) -> Seq<char> {
    match key {
        Key::Esc => Seq::empty(),
        Key::Backspace => if text.len() > 0 {
            text.drop_last()
        } else {
            text
        },
        Key::Char(c) => text.push(c),
        _ => text,
    }
}

/// The filter input left: the first row is selected.
pub open spec fn filter_left(s: UiState) -> UiState {
    UiState {
        history_filter_editing: false,
        history_selected: 0,
        history_scroll_offset: 0,
        ..s
    }
}

/// What a key does to the filter input: Esc clears the filter, Enter keeps it, and both
/// leave the input and select the first row; Backspace and characters edit it.
pub open spec fn filter_edited(s: UiState, t: UiState, key: Key) -> bool {
    let written = UiState { history_filter: t.history_filter, ..s };
    &&& t.history_filter@ == filter_text(s.history_filter@, key)
    &&& t == (if key == Key::Esc || key == Key::Enter {
        filter_left(written)
    } else {
        written
    })
}

/// Leaves the filter input.
fn leave_filter(state: &mut UiState)
    ensures
        *final(state) == filter_left(*old(state)),
{
    state.history_filter_editing = false;
    state.history_selected = 0;
    state.history_scroll_offset = 0;
}

/// A key in the filter input.
pub fn handle_filter_key(state: &mut UiState, key: Key)
    ensures
        filter_edited(*old(state), *final(state), key),
{
    match key {
        Key::Esc => {
            state.history_filter = String::new();
            leave_filter(state);
        },
        Key::Enter => {
            leave_filter(state);
        },
        Key::Backspace => {
            let _ = state.history_filter.pop();
        },
        Key::Char(c) => {
            state.history_filter.push(c);
        },
        _ => {},
    }
}

/// The comment that the lines of the editor make: joined by spaces and trimmed; none where
/// nothing is left.
pub open spec fn comment_of(lines: Seq<Seq<char>>) -> Option<Seq<char>> {
    let text = trimmed(joined(lines, " "@));
    if text.len() == 0 {
        None
    } else {
        Some(text)
    }
}

/// The comment that the lines of the editor make.
pub fn comment_from(lines: &[String]) -> (r: Option<String>)
    ensures
        text_of(r) == comment_of(strings(lines@)),
{
    let text = join(lines, " ");
    let all = chars_of(text.as_str());
    let inner = trim(all.as_slice());
    if inner.len() == 0 {
        None
    } else {
        Some(string_of(inner.as_slice()))
    }
}

/// A history in which only the comment of run `i` is another.
pub open spec fn only_comment_changed(
    before: Seq<RunRecord>,
    after: Seq<RunRecord>,
    i: int,
) -> bool {
    &&& after.len() == before.len()
    &&& forall|j: int|
        0 <= j < before.len() && j != i ==> #[trigger] after[j] == before[j]
    &&& after[i] == (RunRecord { comments: after[i].comments, ..before[i] })
}

/// The comment editor closed, and nothing else.
pub open spec fn comment_closed(s: UiState, t: UiState) -> bool {
    &&& is_new_editor(t.history_comment_modal_textarea, Seq::empty())
    &&& t == (UiState {
        history_comment_modal_open: false,
        history_comment_modal_textarea: t.history_comment_modal_textarea,
        ..s
    })
}

/// What a key does that goes to the comment editor; the key for going back by a tab goes to
/// it as a tab.
pub open spec fn comment_fed(s: UiState, t: UiState, key: Key, modifiers: Modifiers) -> bool {
    &&& key_fed(
        s.history_comment_modal_textarea,
        t.history_comment_modal_textarea,
        if key == Key::BackTab {
            Key::Tab
        } else {
            key
        },
        modifiers.control,
        modifiers.alt,
        modifiers.shift || key == Key::BackTab,
    )
    &&& t == (UiState {
        history_comment_modal_textarea: t.history_comment_modal_textarea,
        ..s
    })
}

/// Feeds a key to the comment editor.
fn feed_comment(state: &mut UiState, key: Key, modifiers: Modifiers)
    requires
        pageable(old(state).history_comment_modal_textarea),
        key != Key::Enter,
    ensures
        comment_fed(*old(state), *final(state), key, modifiers),
{
    let back = key == Key::BackTab;
    feed(
        &mut state.history_comment_modal_textarea,
        if back {
            Key::Tab
        } else {
            key
        },
        modifiers.control,
        modifiers.alt,
        modifiers.shift || back,
    );
}

/// What a key does to the comment editor: Esc closes it; Enter gives the selected run the
/// comment that was written, asks for it to be saved, and closes the editor; any other key
/// is for the editor itself.
pub open spec fn comment_edited(
    s: UiState,
    t: UiState,
    key: Key,
    modifiers: Modifiers,
    action: Action,
) -> bool {
    match key {
        Key::Esc => action == Action::Nothing && comment_closed(s, t),
        Key::Enter => if s.history_selected < s.history@.len() {
            let i = s.history_selected as int;
            &&& action == Action::SaveComment(s.history_selected)
            &&& only_comment_changed(s.history@, t.history@, i)
            &&& text_of(t.history@[i].comments) == comment_of(
                editor_lines(s.history_comment_modal_textarea),
            )
            &&& comment_closed(UiState { history: t.history, ..s }, t)
        } else {
            action == Action::Nothing && comment_closed(s, t)
        },
        _ => action == Action::Nothing && comment_fed(s, t, key, modifiers),
    }
}

/// Closes the comment editor.
fn close_comment(state: &mut UiState)
    ensures
        comment_closed(*old(state), *final(state)),
{
    state.history_comment_modal_open = false;
    state.history_comment_modal_textarea = blank_editor();
}

/// Gives run `i` the comment that was written.
fn store_comment(state: &mut UiState, i: usize)
    requires
        i < old(state).history@.len(),
    ensures
        only_comment_changed(old(state).history@, final(state).history@, i as int),
        text_of(final(state).history@[i as int].comments) == comment_of(
            editor_lines(old(state).history_comment_modal_textarea),
        ),
        *final(state) == (UiState { history: final(state).history, ..*old(state) }),
{
    let written = text_of_editor(&state.history_comment_modal_textarea);
    let comment = comment_from(written.as_slice());
    state.history[i].comments = comment;
}

/// A key in the comment editor.
pub fn handle_history_comment_modal_key(
    state: &mut UiState,
    key: Key,
    modifiers: Modifiers,
) -> (action: Action)
    requires
        pageable(old(state).history_comment_modal_textarea),
    ensures
        comment_edited(*old(state), *final(state), key, modifiers, action),
{
    match key {
        Key::Esc => {
            close_comment(state);
            Action::Nothing
        },
        Key::Enter => {
            let i = state.history_selected;
            let there = i < state.history.len();
            if there {
                store_comment(state, i);
            }
            close_comment(state);
            if there {
                Action::SaveComment(i)
            } else {
                Action::Nothing
            }
        },
        _ => {
            feed_comment(state, key, modifiers);
            Action::Nothing
        },
    }
}

/// What a key does to the export result: Esc and Enter close it; `c` asks for the path to
/// be copied.
pub open spec fn export_modal_left(s: UiState, t: UiState, key: Key, action: Action) -> bool {
    match key {
        Key::Esc | Key::Enter => action == Action::Nothing && t == (UiState {
            history_export_modal_open: false,
            ..s
        }),
        Key::Char('c') => t == s && match s.history_export_modal_path {
            Some(path) => action matches Action::CopyPath(p) && p@ == path@,
            None => action == Action::Nothing,
        },
        _ => action == Action::Nothing && t == s,
    }
}

/// A key in the export result.
pub fn handle_history_export_modal_key(state: &mut UiState, key: Key) -> (action: Action)
    ensures
        export_modal_left(*old(state), *final(state), key, action),
{
    match key {
        Key::Esc | Key::Enter => {
            state.history_export_modal_open = false;
            Action::Nothing
        },
        Key::Char('c') => match &state.history_export_modal_path {
            Some(path) => Action::CopyPath(path.clone()),
            None => Action::Nothing,
        },
        _ => Action::Nothing,
    }
}

/// The lines that the comment editor opens with: those of the comment, or one empty line.
pub open spec fn comment_lines(comments: Option<Seq<char>>) -> Seq<Seq<char>> {
    match comments {
        Some(text) => if text.len() == 0 {
            seq![Seq::<char>::empty()]
        } else {
            lines_of(text)
        },
        None => seq![Seq::<char>::empty()],
    }
}

/// What opening the comment editor does: it shows the comment of the selected run, with the
/// cursor at the end of the first line. Without a selected run nothing happens.
pub open spec fn comment_opened(s: UiState, t: UiState) -> bool {
    if s.history_selected < s.history@.len() {
        let lines = comment_lines(text_of(s.history@[s.history_selected as int].comments));
        let area = t.history_comment_modal_textarea;
        &&& editor_lines(area) == lines
        &&& editor_cursor(area) == (0nat, lines[0].len())
        &&& editor_pattern(area) is None
        &&& editor_plain(area)
        &&& !editor_selecting(area)
        &&& pageable(area)
        &&& t == (UiState {
            history_comment_modal_open: true,
            history_comment_modal_textarea: area,
            ..s
        })
    } else {
        t == s
    }
}

/// A text that is not empty has a line.
proof fn lemma_some_line(s: Seq<char>)
    requires
        s.len() > 0,
    ensures
        lines_of(s).len() > 0,
{
    crate::text::lemma_split_nonempty(s, '\n');
    let parts = crate::text::split_at_each(s, '\n');
    crate::text::lemma_split_nonempty(s.drop_last(), '\n');
    if parts.last().len() == 0 && parts.len() == 1 {
        assert(s.last() != '\n');
        assert(parts.last().len() > 0);
    }
}

/// Opens the comment editor on the selected run.
pub fn open_comment_modal(state: &mut UiState)
    ensures
        comment_opened(*old(state), *final(state)),
{
    let i = state.history_selected;
    if i >= state.history.len() {
        return;
    }
    let mut shown: Vec<String> = Vec::new();
    match &state.history[i].comments {
        Some(text) => {
            if text.as_str().is_empty() {
                shown.push(String::new());
                assert(strings(shown@) =~= seq![Seq::<char>::empty()]);
            } else {
                shown = lines(text.as_str());
                proof {
                    lemma_some_line(text@);
                }
            }
        },
        None => {
            shown.push(String::new());
            assert(strings(shown@) =~= seq![Seq::<char>::empty()]);
        },
    }
    let mut area = new_editor(shown);
    move_cursor(&mut area, Motion::End);
    state.history_comment_modal_textarea = area;
    state.history_comment_modal_open = true;
}

/// The request that names the selected run, where there is one.
pub open spec fn on_selected(s: UiState, request: Action) -> Action {
    if s.history_selected < s.history@.len() {
        request
    } else {
        Action::Nothing
    }
}

/// What the selected item of the action menu does, once the menu is closed.
pub open spec fn item_chosen(s: UiState, t: UiState, item: usize, action: Action) -> bool {
    let i = s.history_selected;
    if item == MENU_ITEM_VIEW {
        t == s && action == on_selected(s, Action::OpenDetail(i))
    } else if item == MENU_ITEM_EDIT_COMMENT {
        comment_opened(s, t) && action == Action::Nothing
    } else if item == MENU_ITEM_EXPORT_JSON {
        t == s && action == on_selected(s, Action::ExportJson(i))
    } else if item == MENU_ITEM_EXPORT_CSV {
        t == s && action == on_selected(s, Action::ExportCsv(i))
    } else if item == MENU_ITEM_DELETE {
        t == s && action == on_selected(s, Action::Delete(i))
    } else {
        t == s && action == Action::Nothing
    }
}

/// What a key does to the action menu: Esc and Space close it, Up and Down move around it,
/// and Enter closes it and does what the item says.
pub open spec fn menu_used(s: UiState, t: UiState, key: Key, action: Action) -> bool {
    let at = s.history_menu_selected as int;
    let n = MENU_ITEM_COUNT as int;
    let closed = UiState { history_menu_open: false, ..s };
    match key {
        Key::Esc | Key::Char(' ') => action == Action::Nothing && t == closed,
        Key::Up | Key::Char('k') => action == Action::Nothing && t == (UiState {
            history_menu_selected: ((at + n - 1) % n) as usize,
            ..s
        }),
        Key::Down | Key::Char('j') => action == Action::Nothing && t == (UiState {
            history_menu_selected: ((at + 1) % n) as usize,
            ..s
        }),
        Key::Enter => item_chosen(closed, t, s.history_menu_selected, action),
        _ => action == Action::Nothing && t == s,
    }
}

/// Does what an item of the action menu says.
fn choose_item(state: &mut UiState, item: usize) -> (action: Action)
    ensures
        item_chosen(*old(state), *final(state), item, action),
{
    if item == MENU_ITEM_EDIT_COMMENT {
        open_comment_modal(state);
        return Action::Nothing;
    }
    let i = state.history_selected;
    if i >= state.history.len() {
        Action::Nothing
    } else if item == MENU_ITEM_VIEW {
        Action::OpenDetail(i)
    } else if item == MENU_ITEM_EXPORT_JSON {
        Action::ExportJson(i)
    } else if item == MENU_ITEM_EXPORT_CSV {
        Action::ExportCsv(i)
    } else if item == MENU_ITEM_DELETE {
        Action::Delete(i)
    } else {
        Action::Nothing
    }
}

/// A key in the action menu.
pub fn handle_history_menu_key(state: &mut UiState, key: Key) -> (action: Action)
    requires
        old(state).history_menu_selected <= usize::MAX - MENU_ITEM_COUNT,
    ensures
        menu_used(*old(state), *final(state), key, action),
{
    let n = MENU_ITEM_COUNT;
    match key {
        Key::Esc | Key::Char(' ') => {
            state.history_menu_open = false;
            Action::Nothing
        },
        Key::Up | Key::Char('k') => {
            state.history_menu_selected = (state.history_menu_selected + n - 1) % n;
            Action::Nothing
        },
        Key::Down | Key::Char('j') => {
            state.history_menu_selected = (state.history_menu_selected + 1) % n;
            Action::Nothing
        },
        Key::Enter => {
            let item = state.history_menu_selected;
            state.history_menu_open = false;
            choose_item(state, item)
        },
        _ => Action::Nothing,
    }
}

} // verus!
