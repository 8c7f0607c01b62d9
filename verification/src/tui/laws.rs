//! What holds of the terminal interface as a whole.

use crate::binary64::{ratio_of_all_and_nothing, LEAST};
use crate::model::{text_of, Real, RunRecord};
use crate::text::{joined, lines_of, split_at_each, strings, trimmed};
use crate::text_laws::{lemma_trimmed_is_piece, lemma_trimmed_twice};
use crate::tui::detail::{detail_key_done, detail_opened};
use crate::tui::editor::{
    editor_cursor, editor_lines, editor_plain, editor_rows, editor_selecting, editor_top, in_text,
    line_broken, narrow, place_after, place_before, text_put, text_taken,
};
use crate::tui::history::{history_extended, known, run_deleted, unknown};
use crate::tui::input::key_done;
use crate::tui::keys::{no_modifiers, Action, Key, Modifiers};
use crate::tui::main_keys::{log_forward, moved_up, quiet_key_done, tab_after, tab_before, with_tab};
use crate::tui::modals::{comment_edited, comment_lines, comment_of, filter_edited, menu_used};
use crate::tui::networks::{next_filter, previous_filter};
use crate::tui::state::{loss_of, max_scroll, tab_count, UiState};
use crate::tui::view::{screen_of, Screen};
use vstd::prelude::*;

verus! {

/// Going to the next tab and then to the previous one leads back, and so does the other
/// order.
pub proof fn tabs_cycle_both_ways(s: UiState)
    requires
        s.tab < tab_count(s.traceroute_enabled),
    ensures
        tab_before(with_tab(s, tab_after(s))) == s.tab,
        tab_after(with_tab(s, tab_before(s))) == s.tab,
{
}

/// The state after the next tab was asked for `n` times.
pub open spec fn tabs_later(s: UiState, n: nat) -> UiState
    decreases n,
{
    if n == 0 {
        s
    } else {
        let before = tabs_later(s, (n - 1) as nat);
        with_tab(before, tab_after(before))
    }
}

/// Asking for the next tab visits every tab in turn: from the first one, the `n`-th request
/// shows tab `n`, and after the last tab the first one is shown again.
pub proof fn tabs_are_visited_in_turn(s: UiState, n: nat)
    requires
        s.tab == 0,
        n <= tab_count(s.traceroute_enabled),
    ensures
        tabs_later(s, n).traceroute_enabled == s.traceroute_enabled,
        tabs_later(s, n).tab == n % tab_count(s.traceroute_enabled) as nat,
    decreases n,
{
    if n > 0 {
        tabs_are_visited_in_turn(s, (n - 1) as nat);
    }
}

/// Going down in the action menu and up again changes nothing, and neither does the other
/// order.
pub proof fn menu_moves_undo_each_other(s: UiState, m: UiState, t: UiState, a: Action, b: Action)
    requires
        s.wf(),
        (menu_used(s, m, Key::Down, a) && menu_used(m, t, Key::Up, b)) || (menu_used(
            s,
            m,
            Key::Up,
            a,
        ) && menu_used(m, t, Key::Down, b)),
    ensures
        t == s,
{
}

/// A character typed into the filter and taken back leaves the filter as it was.
pub proof fn backspace_undoes_typing(s: UiState, m: UiState, t: UiState, c: char)
    requires
        filter_edited(s, m, Key::Char(c)),
        filter_edited(m, t, Key::Backspace),
    ensures
        t.history_filter@ == s.history_filter@,
        t == (UiState { history_filter: t.history_filter, ..s }),
{
    assert(s.history_filter@.push(c).drop_last() =~= s.history_filter@);
}

/// Hiding the network info and showing it again changes nothing.
pub proof fn hiding_twice_changes_nothing(
    s: UiState,
    m: UiState,
    t: UiState,
    a: Modifiers,
    b: Modifiers,
)
    requires
        quiet_key_done(s, m, Key::Char('H'), a),
        quiet_key_done(m, t, Key::Char('H'), b),
    ensures
        t == s,
{
}

/// Left and Right go on to the next network and back to the previous one on the charts tab,
/// wherever that stands, and do nothing on any other tab.
pub proof fn charts_keys_belong_to_the_charts(s: UiState, t: UiState, key: Key, m: Modifiers)
    requires
        s.charts_available_networks@.len() > 0,
        key == Key::Left || key == Key::Right || key == Key::Char('h') || key == Key::Char('l'),
        quiet_key_done(s, t, key, m),
    ensures
        screen_of(s) != Screen::Charts ==> t == s,
        screen_of(s) == Screen::Charts ==> text_of(t.charts_network_filter) == (if key == Key::Right
            || key == Key::Char('l') {
            next_filter(strings(s.charts_available_networks@), text_of(s.charts_network_filter))
        } else {
            previous_filter(
                strings(s.charts_available_networks@),
                text_of(s.charts_network_filter),
            )
        }),
{
}

/// Scrolling the log back and forward by the same number of lines changes nothing, as long
/// as there is room to scroll.
pub proof fn scrolling_forward_undoes_scrolling_back(s: UiState, lines: nat)
    requires
        s.tab == 0,
        s.dashboard_log_scroll + lines <= max_scroll(s.text_log@),
        s.text_log@.len() <= usize::MAX,
    ensures
        log_forward(moved_up(s, 0, lines as int), lines as int) == s,
{
}

/// The interface is left only by a key outside the modes of the history tab: in none of
/// them does a key quit, whatever it is.
pub proof fn modes_never_quit(
    s: UiState,
    t: UiState,
    key: Key,
    modifiers: Modifiers,
    running: bool,
    action: Action,
)
    requires
        key_done(s, t, key, modifiers, running, action),
        s.tab == 1,
        s.history_filter_editing || s.history_comment_modal_open || s.history_export_modal_open
            || s.history_menu_open || s.history_detail_view,
    ensures
        action !is Quit,
{
}

/// Deleting a run other than the oldest selects the run that came after it.
pub proof fn deletion_selects_the_next_run(s: UiState, t: UiState)
    requires
        s.history_selected + 1 < s.history@.len(),
        run_deleted(s, t, Ok(())),
    ensures
        t.history_selected == s.history_selected,
        t.history@[t.history_selected as int] == s.history@[s.history_selected + 1],
{
}

/// Every run of a list is in a history that was extended by those it did not know.
proof fn lemma_known_after(history: Seq<RunRecord>, more: Seq<RunRecord>, i: int)
    requires
        0 <= i < more.len(),
    ensures
        known(history + unknown(history, more), more[i].meas_id@),
    decreases more.len(),
{
    let before = unknown(history, more.drop_last());
    let all = history + unknown(history, more);
    if i == more.len() - 1 {
        if known(history, more[i].meas_id@) {
            let j = choose|j: int|
                0 <= j < history.len() && #[trigger] history[j].meas_id@ == more[i].meas_id@;
            assert(all[j].meas_id@ == more[i].meas_id@);
        } else {
            assert(all[all.len() - 1] == more[i]);
            assert(all[all.len() - 1].meas_id@ == more[i].meas_id@);
        }
    } else {
        lemma_known_after(history, more.drop_last(), i);
        let shorter = history + before;
        let j = choose|j: int|
            0 <= j < shorter.len() && #[trigger] shorter[j].meas_id@ == more[i].meas_id@;
        assert(all[j] == shorter[j]);
        assert(all[j].meas_id@ == more[i].meas_id@);
    }
}

/// Of a list whose runs are all known none is unknown.
proof fn lemma_none_unknown(history: Seq<RunRecord>, more: Seq<RunRecord>)
    requires
        forall|i: int| 0 <= i < more.len() ==> known(history, (#[trigger] more[i]).meas_id@),
    ensures
        unknown(history, more).len() == 0,
    decreases more.len(),
{
    if more.len() > 0 {
        let shorter = more.drop_last();
        assert forall|i: int| 0 <= i < shorter.len() implies known(
            history,
            (#[trigger] shorter[i]).meas_id@,
        ) by {
            assert(shorter[i] == more[i]);
        }
        lemma_none_unknown(history, shorter);
        assert(more.last() == more[more.len() - 1]);
    }
}

/// Loading the same runs a second time changes nothing, and the runs that were there stay in
/// front.
pub proof fn loading_again_adds_nothing(
    s: UiState,
    m: UiState,
    t: UiState,
    more: Vec<RunRecord>,
    again: Vec<RunRecord>,
)
    requires
        again@ == more@,
        history_extended(s, m, Ok(more)),
        history_extended(m, t, Ok(again)),
    ensures
        t == m,
        s.history@.is_prefix_of(m.history@),
{
    let history = s.history@ + unknown(s.history@, more@);
    if unknown(s.history@, more@).len() == 0 {
        assert(history =~= s.history@);
    }
    assert(m.history@ == history);
    assert forall|i: int| 0 <= i < again@.len() implies known(
        history,
        (#[trigger] again@[i]).meas_id@,
    ) by {
        lemma_known_after(s.history@, more@, i);
    }
    lemma_none_unknown(history, again@);
}

/// Where no probe was lost the loss is zero, and where all were lost it is one.
pub proof fn loss_of_none_and_all(sent: u64)
    requires
        sent > 0,
    ensures
        loss_of(sent, sent) == Real::zeroed(),
        loss_of(sent, 0).bits == 1023 * LEAST,
{
    ratio_of_all_and_nothing(sent as nat);
}

/// A text without line feeds is one part.
proof fn lemma_unsplit(s: Seq<char>)
    requires
        forall|i: int| 0 <= i < s.len() ==> s[i] != '\n',
    ensures
        split_at_each(s, '\n') == seq![s],
    decreases s.len(),
{
    if s.len() > 0 {
        lemma_unsplit(s.drop_last());
        let before = split_at_each(s.drop_last(), '\n');
        assert(before =~= seq![s.drop_last()]);
        assert(s.drop_last().push(s.last()) =~= s);
        assert(split_at_each(s, '\n') =~= seq![s]);
    } else {
        assert(s =~= Seq::<char>::empty());
    }
}

/// No line feed stands in what lines without line feeds make when joined.
proof fn lemma_joined_without_feed(lines: Seq<Seq<char>>)
    requires
        forall|i: int, j: int|
            0 <= i < lines.len() && 0 <= j < lines[i].len() ==> #[trigger] lines[i][j] != '\n',
    ensures
        forall|j: int| 0 <= j < joined(lines, " "@).len() ==> joined(lines, " "@)[j] != '\n',
    decreases lines.len(),
{
    reveal_strlit(" ");
    if lines.len() > 1 {
        let front = lines.drop_last();
        assert forall|i: int, j: int|
            0 <= i < front.len() && 0 <= j < front[i].len() implies #[trigger] front[i][j]
            != '\n' by {
            assert(front[i] == lines[i]);
        }
        lemma_joined_without_feed(front);
        let head = joined(front, " "@);
        let all = joined(lines, " "@);
        assert forall|j: int| 0 <= j < all.len() implies all[j] != '\n' by {
            if j < head.len() {
                assert(all[j] == head[j]);
            } else if j > head.len() {
                assert(all[j] == lines[lines.len() - 1][j - head.len() - 1]);
            }
        }
    } else if lines.len() == 1 {
        let all = joined(lines, " "@);
        assert forall|j: int| 0 <= j < all.len() implies all[j] != '\n' by {
            assert(all[j] == lines[0][j]);
        }
    }
}

/// A comment that was saved and is opened again in the editor is saved again as it is. The
/// editor's lines hold no line feed.
pub proof fn saved_comment_is_kept(lines: Seq<Seq<char>>)
    requires
        forall|i: int, j: int|
            0 <= i < lines.len() && 0 <= j < lines[i].len() ==> #[trigger] lines[i][j] != '\n',
    ensures
        comment_of(lines) is Some ==> comment_of(comment_lines(comment_of(lines)))
            == comment_of(lines),
{
    let text = trimmed(joined(lines, " "@));
    lemma_joined_without_feed(lines);
    lemma_trimmed_is_piece(joined(lines, " "@), '\n');
    lemma_trimmed_twice(joined(lines, " "@));
    if text.len() > 0 {
        lemma_unsplit(text);
        assert(lines_of(text) =~= seq![text]);
        assert(comment_lines(Some(text)) == seq![text]);
        assert(joined(seq![text], " "@) == text);
    }
}

/// Whether the cursor of the detail view is a place in its text.
pub open spec fn detail_cursor_valid(s: UiState) -> bool {
    let area = s.history_detail_textarea;
    &&& editor_plain(area)
    &&& in_text(editor_lines(area), editor_cursor(area))
}

/// Whatever is pressed in the detail view, its cursor stays in its text.
pub proof fn detail_cursor_stays_in_the_text(s: UiState, t: UiState, key: Key)
    requires
        detail_cursor_valid(s),
        detail_key_done(s, t, key),
    ensures
        detail_cursor_valid(t),
{
}

/// The detail view opens with its cursor in its text.
pub proof fn detail_opens_at_its_beginning(s: UiState, t: UiState, json: Seq<char>)
    requires
        s.history_selected < s.history@.len(),
        detail_opened(s, t, json),
    ensures
        detail_cursor_valid(t),
        editor_cursor(t.history_detail_textarea) == (0nat, 0nat),
{
}

/// In the detail view, going down a line and up again leads back to the line, as long as
/// there is a line below.
pub proof fn up_undoes_down(s: UiState, m: UiState, t: UiState)
    requires
        detail_cursor_valid(s),
        !s.history_detail_search_editing,
        editor_cursor(s.history_detail_textarea).0 + 1 < editor_lines(
            s.history_detail_textarea,
        ).len(),
        detail_key_done(s, m, Key::Down),
        detail_key_done(m, t, Key::Up),
    ensures
        editor_cursor(t.history_detail_textarea).0 == editor_cursor(s.history_detail_textarea).0,
        editor_lines(t.history_detail_textarea) == editor_lines(s.history_detail_textarea),
{
}

/// Whether the cursor of the comment editor is a place in its text.
pub open spec fn comment_cursor_valid(s: UiState) -> bool {
    let area = s.history_comment_modal_textarea;
    in_text(editor_lines(area), editor_cursor(area))
}

/// Whatever is pressed in the comment editor, its cursor stays in its text.
pub proof fn comment_cursor_stays_in_the_text(
    s: UiState,
    t: UiState,
    key: Key,
    modifiers: Modifiers,
    action: Action,
)
    requires
        comment_cursor_valid(s),
        comment_edited(s, t, key, modifiers, action),
    ensures
        comment_cursor_valid(t),
{
}

/// A character typed into a comment and taken back leaves the comment and the cursor as they
/// were; so does a line feed.
pub proof fn backspace_undoes_typing_a_comment(
    s: UiState,
    m: UiState,
    t: UiState,
    c: char,
    a: Action,
    b: Action,
)
    requires
        comment_cursor_valid(s),
        !editor_selecting(s.history_comment_modal_textarea),
        comment_edited(s, m, Key::Char(c), no_modifiers(), a),
        comment_edited(m, t, Key::Backspace, no_modifiers(), b),
    ensures
        editor_lines(t.history_comment_modal_textarea) == editor_lines(
            s.history_comment_modal_textarea,
        ),
        editor_cursor(t.history_comment_modal_textarea) == editor_cursor(
            s.history_comment_modal_textarea,
        ),
{
    let lines = editor_lines(s.history_comment_modal_textarea);
    let cursor = editor_cursor(s.history_comment_modal_textarea);
    let line = lines[cursor.0 as int];
    assert(line.take(cursor.1 as int) + line.skip(cursor.1 as int) =~= line);
    if c == '\n' || c == '\r' {
        assert(place_before(line_broken(lines, cursor), (cursor.0 + 1, 0nat)) == Some(cursor));
        assert(text_taken(line_broken(lines, cursor), cursor) =~= lines);
    } else {
        let longer = text_put(lines, cursor, seq![c]);
        assert(longer[cursor.0 as int].remove(cursor.1 as int) =~= line);
        assert(text_taken(longer, cursor) =~= lines);
    }
}

/// Whether every line of the comment editor is of printable ASCII, shown as it is.
pub open spec fn comment_plain(s: UiState) -> bool {
    let area = s.history_comment_modal_textarea;
    &&& editor_plain(area)
    &&& forall|i: int|
        0 <= i < editor_lines(area).len() ==> #[trigger] narrow(editor_lines(area)[i])
}

/// In a comment, going on by one character and back again leads to the same place, as long as
/// there is a place to go on to.
pub proof fn left_undoes_right(s: UiState, m: UiState, t: UiState, a: Action, b: Action)
    requires
        comment_cursor_valid(s),
        comment_plain(s),
        place_after(
            editor_lines(s.history_comment_modal_textarea),
            editor_cursor(s.history_comment_modal_textarea),
        ) is Some,
        comment_edited(s, m, Key::Right, no_modifiers(), a),
        comment_edited(m, t, Key::Left, no_modifiers(), b),
    ensures
        editor_lines(t.history_comment_modal_textarea) == editor_lines(
            s.history_comment_modal_textarea,
        ),
        editor_cursor(t.history_comment_modal_textarea) == editor_cursor(
            s.history_comment_modal_textarea,
        ),
{
}

/// In a comment, going back by one character and taking out the one after is the same as
/// taking out the one before.
pub proof fn delete_after_left_is_backspace(
    s: UiState,
    m: UiState,
    t: UiState,
    u: UiState,
    a: Action,
    b: Action,
    c: Action,
)
    requires
        comment_cursor_valid(s),
        comment_plain(s),
        !editor_selecting(s.history_comment_modal_textarea),
        editor_cursor(s.history_comment_modal_textarea) != (0nat, 0nat),
        comment_edited(s, m, Key::Left, no_modifiers(), a),
        comment_edited(m, t, Key::Delete, no_modifiers(), b),
        comment_edited(s, u, Key::Backspace, no_modifiers(), c),
    ensures
        editor_lines(t.history_comment_modal_textarea) == editor_lines(
            u.history_comment_modal_textarea,
        ),
        editor_cursor(t.history_comment_modal_textarea) == editor_cursor(
            u.history_comment_modal_textarea,
        ),
{
}

/// In the detail view, a page down and a page up show the same rows again, as long as a page
/// has fewer than 32768 rows and rows can be counted in 16 bits.
pub proof fn page_up_undoes_page_down(s: UiState, m: UiState, t: UiState)
    requires
        !s.history_detail_search_editing,
        editor_rows(s.history_detail_textarea) < 0x8000,
        editor_top(s.history_detail_textarea) + editor_rows(s.history_detail_textarea) <= 0xffff,
        detail_key_done(s, m, Key::PageDown),
        detail_key_done(m, t, Key::PageUp),
    ensures
        editor_top(t.history_detail_textarea) == editor_top(s.history_detail_textarea),
        editor_lines(t.history_detail_textarea) == editor_lines(s.history_detail_textarea),
{
}

/// In the detail view, a page down leads from the rows that are shown to the first row below
/// them, as long as the text goes on that far and rows can be counted in 16 bits.
pub proof fn page_down_leads_down(s: UiState, t: UiState)
    requires
        detail_cursor_valid(s),
        !s.history_detail_search_editing,
        editor_rows(s.history_detail_textarea) < 0x8000,
        editor_top(s.history_detail_textarea) + editor_rows(s.history_detail_textarea) <= 0xffff,
        editor_cursor(s.history_detail_textarea).0 < editor_top(s.history_detail_textarea)
            + editor_rows(s.history_detail_textarea),
        editor_top(s.history_detail_textarea) + editor_rows(s.history_detail_textarea)
            < editor_lines(s.history_detail_textarea).len(),
        detail_key_done(s, t, Key::PageDown),
    ensures
        editor_cursor(t.history_detail_textarea).0 == editor_top(s.history_detail_textarea)
            + editor_rows(s.history_detail_textarea),
{
}

} // verus!
