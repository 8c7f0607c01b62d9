//! What holds of the keys in the modes of the history tab.

use crate::text::{joined, lines_of, trimmed};
use crate::tui::detail::open_history_detail;
use crate::tui::editor::{
    editor_cursor, editor_lines, editor_pattern, editor_plain, editor_rows, editor_selecting,
    editor_top, key_fed, narrow, next_match, pattern_error, previous_match,
};
use crate::tui::input::handle_key;
use crate::tui::keys::{Action, Key, Modifiers};
use crate::tui::state::UiState;
use vstd::prelude::*;

verus! {

/// Whether the filter input takes the keys.
pub open spec fn in_filter(s: UiState) -> bool {
    s.tab == 1 && s.history_filter_editing
}

/// Whether the comment editor takes the keys.
pub open spec fn in_comment(s: UiState) -> bool {
    s.tab == 1 && !s.history_filter_editing && s.history_comment_modal_open
}

/// Whether the result of an export takes the keys.
pub open spec fn in_export(s: UiState) -> bool {
    &&& s.tab == 1
    &&& !s.history_filter_editing
    &&& !s.history_comment_modal_open
    &&& s.history_export_modal_open
}

/// Whether the menu takes the keys.
pub open spec fn in_menu(s: UiState) -> bool {
    &&& s.tab == 1
    &&& !s.history_filter_editing
    &&& !s.history_comment_modal_open
    &&& !s.history_export_modal_open
    &&& s.history_menu_open
}

/// Whether the detail view takes the keys.
pub open spec fn in_detail(s: UiState) -> bool {
    &&& s.tab == 1
    &&& !s.history_filter_editing
    &&& !s.history_comment_modal_open
    &&& !s.history_export_modal_open
    &&& !s.history_menu_open
    &&& s.history_detail_view
}

/// The filter takes every character at its end and loses its last one to Backspace. Enter
/// keeps it and leaves the input, Esc empties it and leaves the input; both select the first
/// row. Any other key does nothing, and nothing else ever changes.
#[verifier::spinoff_prover]
pub proof fn filter_is_what_is_typed(
    state: &mut UiState,
    key: Key,
    m: Modifiers,
    running: bool,
    action: Action,
)
    requires
        in_filter(*old(state)),
        call_ensures(handle_key, (state, key, m, running), action),
    ensures
        action is Nothing,
        key matches Key::Char(c) ==> final(state).history_filter@ == old(state).history_filter@
            + seq![c],
        key == Key::Backspace && old(state).history_filter@.len() > 0 ==> final(
            state
        ).history_filter@ == old(state).history_filter@.take(
            old(state).history_filter@.len() - 1,
        ),
        key == Key::Backspace && old(state).history_filter@.len() == 0 ==> final(
            state
        ).history_filter@.len() == 0,
        key == Key::Esc ==> final(state).history_filter@.len() == 0,
        !(key is Char) && key != Key::Backspace && key != Key::Esc ==> final(
            state
        ).history_filter@ == old(state).history_filter@,
        final(state).history_filter_editing <==> key != Key::Esc && key != Key::Enter,
        key == Key::Esc || key == Key::Enter ==> final(state).history_selected == 0 && final(
            state
        ).history_scroll_offset == 0,
        key != Key::Esc && key != Key::Enter ==> final(state).history_selected == old(
            state
        ).history_selected && final(state).history_scroll_offset == old(
            state
        ).history_scroll_offset,
        *final(state) == (UiState {
            history_filter: final(state).history_filter,
            history_filter_editing: final(state).history_filter_editing,
            history_selected: final(state).history_selected,
            history_scroll_offset: final(state).history_scroll_offset,
            ..*old(state)
        }),
{
    let text = old(state).history_filter@;
    if key is Char {
        assert(text.push(key->Char_0) =~= text + seq![key->Char_0]);
    }
    if text.len() > 0 {
        assert(text.drop_last() =~= text.take(text.len() - 1));
    }
}

/// Enter in the comment editor gives the selected run what was written, its lines joined by
/// spaces and without white space around it, or no comment where that leaves nothing. It
/// asks for that run to be saved and closes the editor. No other run and nothing else of
/// the run changes.
#[verifier::spinoff_prover]
pub proof fn comment_goes_to_the_selected_run(
    state: &mut UiState,
    m: Modifiers,
    running: bool,
    action: Action,
)
    requires
        in_comment(*old(state)),
        old(state).history_selected < old(state).history@.len(),
        call_ensures(handle_key, (state, Key::Enter, m, running), action),
    ensures
        action == Action::SaveComment(old(state).history_selected),
        !final(state).history_comment_modal_open,
        final(state).history@.len() == old(state).history@.len(),
        forall|j: int|
            0 <= j < old(state).history@.len() && j != old(state).history_selected ==> #[trigger]
                final(state).history@[j] == old(state).history@[j],
        ({
            let i = old(state).history_selected as int;
            let was = old(state).history@[i];
            let is_now = final(state).history@[i];
            let text = trimmed(
                joined(editor_lines(old(state).history_comment_modal_textarea), " "@),
            );
            &&& is_now.meas_id == was.meas_id
            &&& is_now.network_name == was.network_name
            &&& is_now.server == was.server
            &&& is_now.rest == was.rest
            &&& text.len() == 0 ==> is_now.comments is None
            &&& text.len() > 0 ==> is_now.comments is Some && is_now.comments->0@ == text
        }),
        *final(state) == (UiState {
            history: final(state).history,
            history_comment_modal_open: false,
            history_comment_modal_textarea: final(state).history_comment_modal_textarea,
            ..*old(state)
        }),
{
}

/// A key that is written or takes a character out does so at the cursor of the comment editor:
/// where nothing is selected and neither Control nor Alt is held down, a character is put in
/// before the cursor, which goes on behind it, and Backspace takes out the character before
/// the cursor, which goes back to its place.
#[verifier::spinoff_prover]
pub proof fn comment_is_edited_at_the_cursor(
    state: &mut UiState,
    key: Key,
    m: Modifiers,
    running: bool,
    action: Action,
)
    requires
        in_comment(*old(state)),
        !m.control && !m.alt,
        !editor_selecting(old(state).history_comment_modal_textarea),
        call_ensures(handle_key, (state, key, m, running), action),
    ensures
        ({
            let was = old(state).history_comment_modal_textarea;
            let area = final(state).history_comment_modal_textarea;
            let (row, col) = editor_cursor(was);
            let line = editor_lines(was)[row as int];
            let typed = (key is Char) && key != Key::Char('\n') && key != Key::Char('\r');
            &&& typed ==> editor_cursor(area) == (row, col + 1)
            &&& typed ==> editor_lines(area) == editor_lines(was).update(
                row as int,
                line.take(col as int) + seq![key->Char_0] + line.skip(col as int),
            )
            &&& key == Key::Backspace && 0 < col ==> editor_cursor(area) == (row, (col - 1) as nat)
            &&& key == Key::Backspace && 0 < col && col <= line.len() ==> editor_lines(area)
                == editor_lines(was).update(
                row as int,
                line.take(col - 1) + line.skip(col as int),
            )
        }),
{
    let was = old(state).history_comment_modal_textarea;
    let (row, col) = editor_cursor(was);
    let line = editor_lines(was)[row as int];
    if 0 < col && col <= line.len() {
        assert(line.remove(col - 1) =~= line.take(col - 1) + line.skip(col as int));
    }
}

/// The arrows lead the cursor of the comment editor where they point: Left and Right, in a
/// line of printable ASCII, to the character before and after, and on to the line above and
/// below at its ends; Up and Down to the line above and below. Home leads to the beginning
/// of the line and End to its end. The text stays.
#[verifier::spinoff_prover]
pub proof fn arrows_lead_where_they_point(
    state: &mut UiState,
    key: Key,
    m: Modifiers,
    running: bool,
    action: Action,
)
    requires
        in_comment(*old(state)),
        !m.control && !m.alt,
        editor_plain(old(state).history_comment_modal_textarea),
        narrow(
            editor_lines(old(state).history_comment_modal_textarea)[editor_cursor(
                old(state).history_comment_modal_textarea,
            ).0 as int],
        ),
        key == Key::Left || key == Key::Right || key == Key::Up || key == Key::Down || key
            == Key::Home || key == Key::End,
        call_ensures(handle_key, (state, key, m, running), action),
    ensures
        ({
            let was = old(state).history_comment_modal_textarea;
            let area = final(state).history_comment_modal_textarea;
            let (row, col) = editor_cursor(was);
            let (to, at) = editor_cursor(area);
            let len = editor_lines(was)[row as int].len();
            let count = editor_lines(was).len();
            &&& key == Key::Left && 0 < col ==> to == row && at == col - 1
            &&& key == Key::Left && col == 0 && row == 0 ==> to == 0 && at == 0
            &&& key == Key::Right && col < len ==> to == row && at == col + 1
            &&& key == Key::Right && len <= col && row + 1 < count ==> to == row + 1 && at == 0
            &&& key == Key::Right && len <= col && count <= row + 1 ==> to == row && at == col
            &&& key == Key::Up && 0 < row ==> to == row - 1
            &&& key == Key::Up && row == 0 ==> to == row && at == col
            &&& key == Key::Down && row + 1 < count ==> to == row + 1
            &&& key == Key::Down && count <= row + 1 ==> to == row && at == col
            &&& key == Key::Home ==> to == row && at == 0
            &&& key == Key::End ==> to == row && at == len
            &&& editor_lines(area) == editor_lines(was)
        }),
{
}

/// Every key but Enter and Esc is handed on to the comment editor as it is, with Control, Alt
/// and Shift as they are held down; the key for going back by a tab is a tab with Shift.
#[verifier::spinoff_prover]
pub proof fn keys_are_handed_on_to_the_comment(
    state: &mut UiState,
    key: Key,
    m: Modifiers,
    running: bool,
    action: Action,
)
    requires
        in_comment(*old(state)),
        key != Key::Enter && key != Key::Esc,
        call_ensures(handle_key, (state, key, m, running), action),
    ensures
        key != Key::BackTab ==> key_fed(
            old(state).history_comment_modal_textarea,
            final(state).history_comment_modal_textarea,
            key,
            m.control,
            m.alt,
            m.shift,
        ),
        key == Key::BackTab ==> key_fed(
            old(state).history_comment_modal_textarea,
            final(state).history_comment_modal_textarea,
            Key::Tab,
            m.control,
            m.alt,
            true,
        ),
{
}

/// Esc closes the comment editor and keeps every comment; any other key but Enter is for the
/// editor, and leaves the history and all else alone.
#[verifier::spinoff_prover]
pub proof fn comments_change_by_enter_alone(
    state: &mut UiState,
    key: Key,
    m: Modifiers,
    running: bool,
    action: Action,
)
    requires
        in_comment(*old(state)),
        key != Key::Enter,
        call_ensures(handle_key, (state, key, m, running), action),
    ensures
        action is Nothing,
        final(state).history_comment_modal_open <==> key != Key::Esc,
        *final(state) == (UiState {
            history_comment_modal_open: final(state).history_comment_modal_open,
            history_comment_modal_textarea: final(state).history_comment_modal_textarea,
            ..*old(state)
        }),
{
}

/// The result of an export is left by Esc and by Enter; `c` asks for its path to be copied,
/// where it has one, and any other key does nothing. Nothing else changes.
#[verifier::spinoff_prover]
pub proof fn export_result_is_copied_or_left(
    state: &mut UiState,
    key: Key,
    m: Modifiers,
    running: bool,
    action: Action,
)
    requires
        in_export(*old(state)),
        call_ensures(handle_key, (state, key, m, running), action),
    ensures
        action is CopyPath <==> key == Key::Char('c') && old(state).history_export_modal_path
            is Some,
        action matches Action::CopyPath(p) ==> p@ == old(state).history_export_modal_path->0@,
        !(action is CopyPath) ==> (action is Nothing),
        *final(state) == (UiState {
            history_export_modal_open: key != Key::Esc && key != Key::Enter,
            ..*old(state)
        }),
{
}

/// In the menu, Down leads to the next of the five items and from the last to the first, and
/// Up the other way; Esc and Space close it. Nothing else changes.
#[verifier::spinoff_prover]
pub proof fn menu_goes_round(
    state: &mut UiState,
    key: Key,
    m: Modifiers,
    running: bool,
    action: Action,
)
    requires
        in_menu(*old(state)),
        old(state).history_menu_selected < 5,
        key != Key::Enter,
        call_ensures(handle_key, (state, key, m, running), action),
    ensures
        action is Nothing,
        final(state).history_menu_open <==> key != Key::Esc && key != Key::Char(' '),
        ({
            let at = old(state).history_menu_selected as int;
            let to = final(state).history_menu_selected as int;
            let up = key == Key::Up || key == Key::Char('k');
            let down = key == Key::Down || key == Key::Char('j');
            &&& down && at < 4 ==> to == at + 1
            &&& down && at == 4 ==> to == 0
            &&& up && 0 < at ==> to == at - 1
            &&& up && at == 0 ==> to == 4
            &&& !up && !down ==> to == at
        }),
        *final(state) == (UiState {
            history_menu_open: final(state).history_menu_open,
            history_menu_selected: final(state).history_menu_selected,
            ..*old(state)
        }),
{
}

/// Enter closes the menu and asks for what the item says, for the selected run: the first for
/// its detail view, the third and the fourth for its export as JSON and as CSV, the fifth for
/// its deletion. Without a selected run it asks for nothing.
#[verifier::spinoff_prover]
pub proof fn menu_asks_for_what_its_item_says(
    state: &mut UiState,
    m: Modifiers,
    running: bool,
    action: Action,
)
    requires
        in_menu(*old(state)),
        call_ensures(handle_key, (state, Key::Enter, m, running), action),
    ensures
        ({
            let item = old(state).history_menu_selected;
            let i = old(state).history_selected;
            let there = i < old(state).history@.len();
            &&& there && item == 0 ==> action == Action::OpenDetail(i)
            &&& there && item == 2 ==> action == Action::ExportJson(i)
            &&& there && item == 3 ==> action == Action::ExportCsv(i)
            &&& there && item == 4 ==> action == Action::Delete(i)
            &&& !there || item == 1 || item > 4 ==> action is Nothing
            &&& item != 1 || !there ==> *final(state) == (UiState {
                history_menu_open: false,
                ..*old(state)
            })
        }),
{
}

/// The second item opens the comment editor on the comment of the selected run, line by line,
/// with the cursor at the end of the first line; a run without a comment gives one empty
/// line. Nothing else changes.
#[verifier::spinoff_prover]
pub proof fn comment_editor_opens_on_the_comment(
    state: &mut UiState,
    m: Modifiers,
    running: bool,
    action: Action,
)
    requires
        in_menu(*old(state)),
        old(state).history_menu_selected == 1,
        old(state).history_selected < old(state).history@.len(),
        call_ensures(handle_key, (state, Key::Enter, m, running), action),
    ensures
        final(state).history_comment_modal_open,
        ({
            let comments = old(state).history@[old(state).history_selected as int].comments;
            let area = final(state).history_comment_modal_textarea;
            &&& comments is Some && comments->0@.len() > 0 ==> editor_lines(area) == lines_of(
                comments->0@,
            )
            &&& comments is None || comments->0@.len() == 0 ==> editor_lines(area)
                =~= seq![Seq::<char>::empty()]
            &&& editor_cursor(area) == (0nat, editor_lines(area)[0].len())
            &&& !editor_selecting(area)
        }),
        *final(state) == (UiState {
            history_menu_open: false,
            history_comment_modal_open: true,
            history_comment_modal_textarea: final(state).history_comment_modal_textarea,
            ..*old(state)
        }),
{
}

/// The detail view opens on the lines of the text it is given, at its beginning and without a
/// search, where a run is selected; else nothing happens. It closes with its text and its
/// search forgotten.
#[verifier::spinoff_prover]
pub proof fn detail_view_opens_on_its_text(state: &mut UiState, json: &str)
    requires
        old(state).history_selected < old(state).history@.len(),
        call_ensures(open_history_detail, (state, json), ()),
    ensures
        final(state).history_detail_view,
        lines_of(json@).len() > 0 ==> editor_lines(final(state).history_detail_textarea)
            == lines_of(json@),
        editor_cursor(final(state).history_detail_textarea) == (0nat, 0nat),
        editor_pattern(final(state).history_detail_textarea) is None,
        final(state).history_detail_search@.len() == 0,
        !final(state).history_detail_search_editing,
        final(state).history_detail_search_error is None,
        *final(state) == (UiState {
            history_detail_view: true,
            history_detail_textarea: final(state).history_detail_textarea,
            history_detail_search: final(state).history_detail_search,
            history_detail_search_editing: false,
            history_detail_search_error: None,
            ..*old(state)
        }),
{
}

/// Esc leaves the detail view where no search is active and else clears the search; `q` leaves
/// it in any case. Left, it shows the list again and keeps nothing of the search.
#[verifier::spinoff_prover]
pub proof fn detail_view_is_left(
    state: &mut UiState,
    key: Key,
    m: Modifiers,
    running: bool,
    action: Action,
)
    requires
        in_detail(*old(state)),
        !old(state).history_detail_search_editing,
        key == Key::Esc || key == Key::Char('q'),
        call_ensures(handle_key, (state, key, m, running), action),
    ensures
        action is Nothing,
        final(state).history_detail_view <==> key == Key::Esc && old(
            state
        ).history_detail_search@.len() > 0,
        final(state).history_detail_search@.len() == 0,
        !final(state).history_detail_search_editing,
        final(state).history_detail_search_error is None,
        editor_pattern(final(state).history_detail_textarea) is None,
        final(state).history_detail_view ==> editor_lines(final(state).history_detail_textarea)
            == editor_lines(old(state).history_detail_textarea),
        *final(state) == (UiState {
            history_detail_view: final(state).history_detail_view,
            history_detail_textarea: final(state).history_detail_textarea,
            history_detail_search: final(state).history_detail_search,
            history_detail_search_editing: final(state).history_detail_search_editing,
            history_detail_search_error: final(state).history_detail_search_error,
            ..*old(state)
        }),
{
}

/// In the detail view, `/` begins to enter a pattern and forgets an error; a key without a
/// meaning does nothing.
#[verifier::spinoff_prover]
pub proof fn slash_begins_a_search(
    state: &mut UiState,
    key: Key,
    m: Modifiers,
    running: bool,
    action: Action,
)
    requires
        in_detail(*old(state)),
        !old(state).history_detail_search_editing,
        match key {
            Key::Char(c) => c != 'q' && c != 'n' && c != 'N' && c != 'j' && c != 'k',
            Key::Enter | Key::Tab | Key::BackTab | Key::Backspace | Key::Delete => true,
            Key::Left | Key::Right | Key::Other => true,
            _ => false,
        },
        call_ensures(handle_key, (state, key, m, running), action),
    ensures
        action is Nothing,
        key == Key::Char('/') ==> *final(state) == (UiState {
            history_detail_search_editing: true,
            history_detail_search_error: None,
            ..*old(state)
        }),
        key != Key::Char('/') ==> *final(state) == *old(state),
{
}

/// While a pattern is entered, every character goes to its end and Backspace takes its last
/// one; Enter keeps it and Esc empties it, and both end the entering. Any other key does
/// nothing.
#[verifier::spinoff_prover]
pub proof fn pattern_is_what_is_typed(
    state: &mut UiState,
    key: Key,
    m: Modifiers,
    running: bool,
    action: Action,
)
    requires
        in_detail(*old(state)),
        old(state).history_detail_search_editing,
        call_ensures(handle_key, (state, key, m, running), action),
    ensures
        action is Nothing,
        key matches Key::Char(c) ==> final(state).history_detail_search@ == old(
            state
        ).history_detail_search@ + seq![c],
        key == Key::Backspace && old(state).history_detail_search@.len() > 0 ==> final(
            state
        ).history_detail_search@ == old(state).history_detail_search@.take(
            old(state).history_detail_search@.len() - 1,
        ),
        key == Key::Esc ==> final(state).history_detail_search@.len() == 0,
        !(key is Char) && key != Key::Backspace && key != Key::Esc ==> final(
            state
        ).history_detail_search@ == old(state).history_detail_search@,
        final(state).history_detail_search_editing <==> key != Key::Esc && key != Key::Enter,
        final(state).history_detail_view,
        editor_lines(final(state).history_detail_textarea) == editor_lines(
            old(state).history_detail_textarea,
        ),
        *final(state) == (UiState {
            history_detail_textarea: final(state).history_detail_textarea,
            history_detail_search: final(state).history_detail_search,
            history_detail_search_editing: final(state).history_detail_search_editing,
            history_detail_search_error: final(state).history_detail_search_error,
            ..*old(state)
        }),
{
    let text = old(state).history_detail_search@;
    if key is Char {
        assert(text.push(key->Char_0) =~= text + seq![key->Char_0]);
    }
    if text.len() > 0 {
        assert(text.drop_last() =~= text.take(text.len() - 1));
    }
}

/// A pattern that was changed is searched for at once: where it is accepted there is no error
/// and the cursor is at its next match, if there is one; where it is refused its error is
/// shown, and the pattern and the cursor stay. An empty one is searched for nowhere.
#[verifier::spinoff_prover]
pub proof fn typed_pattern_is_searched_for(
    state: &mut UiState,
    key: Key,
    m: Modifiers,
    running: bool,
    action: Action,
)
    requires
        in_detail(*old(state)),
        old(state).history_detail_search_editing,
        (key is Char) || key == Key::Backspace || key == Key::Enter,
        call_ensures(handle_key, (state, key, m, running), action),
    ensures
        ({
            let query = final(state).history_detail_search@;
            let was = old(state).history_detail_textarea;
            let area = final(state).history_detail_textarea;
            let refused = query.len() > 0 && editor_pattern(was) != Some(query) && pattern_error(
                query,
            ) is Some;
            &&& refused ==> {
                &&& final(state).history_detail_search_error is Some
                &&& final(state).history_detail_search_error->0@ == pattern_error(query)->0
                &&& editor_pattern(area) == editor_pattern(was)
                &&& editor_cursor(area) == editor_cursor(was)
            }
            &&& !refused ==> final(state).history_detail_search_error is None
            &&& !refused && query.len() > 0 ==> {
                let found = next_match(query, editor_lines(was), editor_cursor(was));
                &&& editor_pattern(area) == Some(query)
                &&& found is Some ==> editor_cursor(area) == found->0
                &&& found is None ==> editor_cursor(area) == editor_cursor(was)
            }
            &&& query.len() == 0 ==> {
                &&& editor_pattern(area) is None
                &&& editor_cursor(area) == editor_cursor(was)
            }
        }),
{
}

/// `n` leads to the next match of the pattern and `N` to the previous one, where a search is
/// active and there is a match; else the cursor stays. The text and all else stay.
#[verifier::spinoff_prover]
pub proof fn matches_are_gone_through(
    state: &mut UiState,
    key: Key,
    m: Modifiers,
    running: bool,
    action: Action,
)
    requires
        in_detail(*old(state)),
        !old(state).history_detail_search_editing,
        key == Key::Char('n') || key == Key::Char('N'),
        call_ensures(handle_key, (state, key, m, running), action),
    ensures
        action is Nothing,
        ({
            let was = old(state).history_detail_textarea;
            let area = final(state).history_detail_textarea;
            let p = editor_pattern(was);
            let found = if old(state).history_detail_search@.len() == 0 || p is None {
                None
            } else if key == Key::Char('n') {
                next_match(p->0, editor_lines(was), editor_cursor(was))
            } else {
                previous_match(p->0, editor_lines(was), editor_cursor(was))
            };
            &&& found is Some ==> editor_cursor(area) == found->0
            &&& found is None ==> editor_cursor(area) == editor_cursor(was)
            &&& editor_lines(area) == editor_lines(was)
            &&& editor_pattern(area) == editor_pattern(was)
        }),
        *final(state) == (UiState {
            history_detail_textarea: final(state).history_detail_textarea,
            ..*old(state)
        }),
{
}

/// In the detail view, Up and Down lead to the line above and below, as far as there is one;
/// `k` and `j` do too. Home leads to the first line and End to the last. The text, the rows
/// shown and all else stay.
#[verifier::spinoff_prover]
pub proof fn detail_cursor_goes_by_lines(
    state: &mut UiState,
    key: Key,
    m: Modifiers,
    running: bool,
    action: Action,
)
    requires
        in_detail(*old(state)),
        !old(state).history_detail_search_editing,
        editor_plain(old(state).history_detail_textarea),
        editor_lines(old(state).history_detail_textarea).len() > 0,
        key == Key::Up || key == Key::Down || key == Key::Char('k') || key == Key::Char('j') || key
            == Key::Home || key == Key::End,
        call_ensures(handle_key, (state, key, m, running), action),
    ensures
        action is Nothing,
        ({
            let was = old(state).history_detail_textarea;
            let area = final(state).history_detail_textarea;
            let row = editor_cursor(was).0 as int;
            let to = editor_cursor(area).0 as int;
            let last = editor_lines(was).len() - 1;
            let up = key == Key::Up || key == Key::Char('k');
            let down = key == Key::Down || key == Key::Char('j');
            &&& up && 0 < row ==> to == row - 1
            &&& up && row == 0 ==> to == 0
            &&& down && row < last ==> to == row + 1
            &&& down && last <= row ==> to == row
            &&& key == Key::Home ==> to == 0
            &&& key == Key::End ==> to == last
            &&& editor_lines(area) == editor_lines(was)
            &&& editor_pattern(area) == editor_pattern(was)
            &&& editor_top(area) == editor_top(was)
        }),
        *final(state) == (UiState {
            history_detail_textarea: final(state).history_detail_textarea,
            ..*old(state)
        }),
{
}

/// In the detail view, the page keys show as many rows further up or down as are shown, up to
/// the first row.
#[verifier::spinoff_prover]
pub proof fn detail_view_goes_by_pages(
    state: &mut UiState,
    key: Key,
    m: Modifiers,
    running: bool,
    action: Action,
)
    requires
        in_detail(*old(state)),
        !old(state).history_detail_search_editing,
        key == Key::PageUp || key == Key::PageDown,
        editor_rows(old(state).history_detail_textarea) < 0x8000,
        editor_top(old(state).history_detail_textarea) + editor_rows(
            old(state).history_detail_textarea,
        ) <= 0xffff,
        call_ensures(handle_key, (state, key, m, running), action),
    ensures
        action is Nothing,
        ({
            let was = old(state).history_detail_textarea;
            let area = final(state).history_detail_textarea;
            let top = editor_top(was) as int;
            let rows = editor_rows(was) as int;
            &&& key == Key::PageDown ==> editor_top(area) == top + rows
            &&& key == Key::PageUp && rows <= top ==> editor_top(area) == top - rows
            &&& key == Key::PageUp && top < rows ==> editor_top(area) == 0
            &&& editor_lines(area) == editor_lines(was)
        }),
        *final(state) == (UiState {
            history_detail_textarea: final(state).history_detail_textarea,
            ..*old(state)
        }),
{
}

} // verus!
