//! A text area of the terminal interface.

use crate::text::strings;
use crate::tui::keys::Key;
use ratatui_textarea::{CursorMove, Input, Scrolling, TextArea};
use vstd::prelude::*;

verus! {

/// A `TextArea`: lines of text, a cursor among them and a search pattern.
#[verifier::external_body]
pub struct Editor {
    /// The widget, for drawing it.
    pub area: TextArea<'static>,
}

/// The lines that an editor holds.
pub uninterp spec fn editor_lines(editor: Editor) -> Seq<Seq<char>>;

/// The row and the column of an editor's cursor, in characters, from 0.
pub uninterp spec fn editor_cursor(editor: Editor) -> (nat, nat);

/// The pattern that an editor searches for.
pub uninterp spec fn editor_pattern(editor: Editor) -> Option<Seq<char>>;

/// Whether an editor shows text and takes tabs as a new one does: each line on one row, its
/// characters as they are, tabs up to every fourth column and written as spaces.
pub uninterp spec fn editor_plain(editor: Editor) -> bool;

/// Whether text is selected in an editor.
pub uninterp spec fn editor_selecting(editor: Editor) -> bool;

/// On how many rows an editor was last drawn, which happens outside this library; 0 before
/// that.
pub uninterp spec fn editor_rows(editor: Editor) -> nat;

/// The first row of the text that an editor shows: 0 at first, and set anew when it is drawn.
pub uninterp spec fn editor_top(editor: Editor) -> nat;

/// The text of the error with which `Regex::new` refuses a pattern; none where it accepts
/// the pattern.
pub uninterp spec fn pattern_error(pattern: Seq<char>) -> Option<Seq<char>>;

/// The column at which `TextArea::move_cursor` enters the line `to` when it moves by one row
/// from column `col` of the line `from`: the one shown below or above it.
pub uninterp spec fn column_beside(from: Seq<char>, col: nat, to: Seq<char>) -> nat;

/// Where `TextArea::search_forward` finds the next match of a pattern in the lines, from a
/// cursor and without the match at the cursor itself.
pub uninterp spec fn next_match(
    pattern: Seq<char>,
    lines: Seq<Seq<char>>,
    cursor: (nat, nat),
) -> Option<(nat, nat)>;

/// Where `TextArea::search_back` finds the previous match of a pattern in the lines, from a
/// cursor and without the match at the cursor itself.
pub uninterp spec fn previous_match(
    pattern: Seq<char>,
    lines: Seq<Seq<char>>,
    cursor: (nat, nat),
) -> Option<(nat, nat)>;

/// Two editors that differ at most in where the cursor is.
pub open spec fn only_cursor_moved(before: Editor, after: Editor) -> bool {
    &&& editor_lines(after) == editor_lines(before)
    &&& editor_pattern(after) == editor_pattern(before)
    &&& same_setting(before, after)
    &&& editor_selecting(after) == editor_selecting(before)
}

/// Two editors that show text in the same way, on as many rows.
pub open spec fn same_form(before: Editor, after: Editor) -> bool {
    &&& editor_plain(after) == editor_plain(before)
    &&& editor_rows(after) == editor_rows(before)
}

/// Two editors that show text in the same way, on as many rows and from the same row on.
pub open spec fn same_setting(before: Editor, after: Editor) -> bool {
    &&& same_form(before, after)
    &&& editor_top(after) == editor_top(before)
}

/// Whether an editor can be scrolled by a page: the number of its rows is not the one that
/// has no negative in 16 bits.
pub open spec fn pageable(editor: Editor) -> bool {
    editor_rows(editor) != 0x8000
}

/// Whether a row and a column are a place in the lines: before a character, or at the end of
/// a line.
pub open spec fn in_text(lines: Seq<Seq<char>>, cursor: (nat, nat)) -> bool {
    cursor.0 < lines.len() && cursor.1 <= lines[cursor.0 as int].len()
}

/// An editor as `TextArea::new` makes it of the given lines.
pub open spec fn is_new_editor(editor: Editor, lines: Seq<Seq<char>>) -> bool {
    &&& editor_lines(editor) == (if lines.len() == 0 {
        seq![Seq::<char>::empty()]
    } else {
        lines
    })
    &&& editor_cursor(editor) == (0nat, 0nat)
    &&& editor_pattern(editor) is None
    &&& editor_plain(editor)
    &&& !editor_selecting(editor)
    &&& editor_rows(editor) == 0
    &&& editor_top(editor) == 0
}

/// `TextArea::new`: an editor that holds the given lines, or one empty line where none is
/// given, with the cursor at the beginning, no search pattern, nothing selected, no soft
/// wrapping, no mask and tabs of up to 4 spaces, not drawn yet and to be shown from its first
/// row on.
#[verifier::external_body]
pub(crate) fn new_editor(lines: Vec<String>) -> (editor: Editor)
    ensures
        is_new_editor(editor, strings(lines@)),
{
    Editor { area: TextArea::new(lines) }
}

/// `TextArea::lines`: the lines that the editor holds.
#[verifier::external_body]
pub(crate) fn text_of_editor(editor: &Editor) -> (r: Vec<String>)
    ensures
        strings(r@) == editor_lines(*editor),
{
    editor.area.lines().to_vec()
}

/// What comes of asking an editor to search for `query`: the empty pattern, and the one that
/// is set already, are accepted; any other one is unless it has an error.
pub open spec fn pattern_outcome(
    editor: Editor,
    query: Seq<char>,
    error: Option<Seq<char>>,
) -> Result<(), Seq<char>> {
    if query.len() == 0 || editor_pattern(editor) == Some(query) {
        Ok(())
    } else {
        match error {
            Some(e) => Err(e),
            None => Ok(()),
        }
    }
}

/// An outcome with the contents of its error.
pub open spec fn outcome_text(r: Result<(), String>) -> Result<(), Seq<char>> {
    match r {
        Ok(()) => Ok(()),
        Err(e) => Err(e@),
    }
}

/// `TextArea::set_search_pattern`: searches for `query` from now on, or for nothing where
/// it is empty. A pattern that `Regex::new` refuses is refused with the error's text and
/// changes nothing; an empty one, and the one that is set already, are never refused. Lines
/// and cursor stay. Which patterns are refused, and how, is left to the grammar of regular
/// expressions.
#[verifier::external_body]
pub(crate) fn set_pattern(editor: &mut Editor, query: &str) -> (r: Result<(), String>)
    ensures
        outcome_text(r) == pattern_outcome(*old(editor), query@, pattern_error(query@)),
        editor_lines(*final(editor)) == editor_lines(*old(editor)),
        editor_cursor(*final(editor)) == editor_cursor(*old(editor)),
        editor_plain(*final(editor)) == editor_plain(*old(editor)),
        editor_rows(*final(editor)) == editor_rows(*old(editor)),
        editor_top(*final(editor)) == editor_top(*old(editor)),
        editor_selecting(*final(editor)) == editor_selecting(*old(editor)),
        r is Ok ==> editor_pattern(*final(editor)) == (if query@.len() == 0 {
            None
        } else {
            Some(query@)
        }),
        r is Err ==> editor_pattern(*final(editor)) == editor_pattern(*old(editor)),
{
    editor.area.set_search_pattern(query).map_err(|e| e.to_string())
}

/// Where a search leaves the cursor: at the match, if there is one, which is a place in the
/// text.
pub open spec fn cursor_after_search(
    found: Option<(nat, nat)>,
    before: Editor,
    after: Editor,
) -> bool {
    &&& editor_cursor(after) == (match found {
        Some(cursor) => cursor,
        None => editor_cursor(before),
    })
    &&& found is Some ==> in_text(editor_lines(after), editor_cursor(after))
}

/// `TextArea::search_forward`, ignoring a match at the cursor: moves the cursor to the next
/// match of the pattern, wrapping around, and tells whether there is one. Without a pattern
/// there is none. A match is a place in the text.
#[verifier::external_body]
pub(crate) fn search_forward(editor: &mut Editor) -> (found: bool)
    ensures
        only_cursor_moved(*old(editor), *final(editor)),
        match editor_pattern(*old(editor)) {
            None => !found && editor_cursor(*final(editor)) == editor_cursor(*old(editor)),
            Some(p) => {
                let at = next_match(p, editor_lines(*old(editor)), editor_cursor(*old(editor)));
                found == (at is Some) && cursor_after_search(at, *old(editor), *final(editor))
            },
        },
{
    editor.area.search_forward(false)
}

/// `TextArea::search_back`, ignoring a match at the cursor: moves the cursor to the previous
/// match of the pattern, wrapping around, and tells whether there is one. Without a pattern
/// there is none. A match is a place in the text.
#[verifier::external_body]
pub(crate) fn search_back(editor: &mut Editor) -> (found: bool)
    ensures
        only_cursor_moved(*old(editor), *final(editor)),
        match editor_pattern(*old(editor)) {
            None => !found && editor_cursor(*final(editor)) == editor_cursor(*old(editor)),
            Some(p) => {
                let at = previous_match(
                    p,
                    editor_lines(*old(editor)),
                    editor_cursor(*old(editor)),
                );
                found == (at is Some) && cursor_after_search(at, *old(editor), *final(editor))
            },
        },
{
    editor.area.search_back(false)
}

/// A way to move the cursor.
#[derive(Debug, Clone, Copy, PartialEq, Eq, Structural)]
pub enum Motion {
    /// One row up.
    Up,
    /// One row down.
    Down,
    /// To the first line.
    Top,
    /// To the last line.
    Bottom,
    /// To the end of the line.
    End,
}

/// The column nearest to `col` in a line.
pub open spec fn column_in(line: Seq<char>, col: nat) -> nat {
    if col < line.len() {
        col
    } else {
        line.len()
    }
}

/// Whether every character is shown one column wide, for all that is said here: the
/// printable ones of ASCII are.
pub open spec fn narrow(line: Seq<char>) -> bool {
    forall|i: int| 0 <= i < line.len() ==> ' ' <= #[trigger] line[i] <= '~'
}

/// The line that an editor's cursor is in.
pub open spec fn line_left(editor: Editor) -> Seq<char> {
    editor_lines(editor)[editor_cursor(editor).0 as int]
}

/// The line that a motion by one row leads to.
pub open spec fn line_entered(motion: Motion, editor: Editor) -> Seq<char> {
    let row = editor_cursor(editor).0 as int;
    editor_lines(editor)[if motion == Motion::Up {
        row - 1
    } else {
        row + 1
    }]
}

/// Whether a column is beside column `col` of the line `from` in the line `to`, as far as it
/// can be told from the text alone: it is not past the end of the line, and where all
/// characters are one column wide it is the nearest one.
pub open spec fn beside(from: Seq<char>, col: nat, to: Seq<char>, column: nat) -> bool {
    &&& column <= to.len()
    &&& narrow(from) && narrow(to) ==> column == column_in(to, col)
}

/// Where a motion leaves the cursor. To the top, to the bottom and to the end of the line
/// it is the exact place. Up and down it is `column` in the line above or below, or the same
/// place where there is no such line; this is said of a plain editor only.
pub open spec fn cursor_after_motion(
    motion: Motion,
    before: Editor,
    after: Editor,
    column: nat,
) -> bool {
    let lines = editor_lines(before);
    let (row, col) = editor_cursor(before);
    let now = editor_cursor(after);
    let entered = beside(line_left(before), col, line_entered(motion, before), column);
    match motion {
        Motion::Top => now == (0nat, column_in(lines[0], col)),
        Motion::Bottom => now == ((lines.len() - 1) as nat, column_in(lines.last(), col)),
        Motion::End => now == (row, lines[row as int].len()),
        Motion::Up => editor_plain(before) ==> if row > 0 {
            now == ((row - 1) as nat, column) && entered
        } else {
            now == (row, col)
        },
        Motion::Down => editor_plain(before) ==> if row + 1 < lines.len() {
            now == (row + 1, column) && entered
        } else {
            now == (row, col)
        },
    }
}

/// `TextArea::move_cursor` with the motion of that name: moves the cursor and nothing else.
/// The column beside another one goes by how wide characters are shown; it is not past the
/// end of the line, and between lines of printable ASCII it is the same column, or the end
/// of the shorter line.
#[verifier::external_body]
pub(crate) fn move_cursor(editor: &mut Editor, motion: Motion)
    ensures
        only_cursor_moved(*old(editor), *final(editor)),
        cursor_after_motion(
            motion,
            *old(editor),
            *final(editor),
            column_beside(
                line_left(*old(editor)),
                editor_cursor(*old(editor)).1,
                line_entered(motion, *old(editor)),
            ),
        ),
{
    editor.area.move_cursor(match motion {
        Motion::Up => CursorMove::Up,
        Motion::Down => CursorMove::Down,
        Motion::Top => CursorMove::Top,
        Motion::Bottom => CursorMove::Bottom,
        Motion::End => CursorMove::End,
    })
}

/// A direction to scroll by a page in.
#[derive(Debug, Clone, Copy, PartialEq, Eq, Structural)]
pub enum Page {
    Up,
    Down,
}

/// The first row that is shown after a page: as many rows further up or down as are shown, as
/// far as rows can be counted in 16 bits.
pub open spec fn top_after(page: Page, top: nat, rows: nat) -> int {
    match page {
        Page::Up => if top < rows {
            0
        } else {
            top - rows
        },
        Page::Down => if top + rows > 0xffff {
            0xffff
        } else {
            (top + rows) as int
        },
    }
}

/// The row nearest to `row` among the `rows` that are shown from `top` on. At least the one
/// at the top is; the last of all that can be counted in 16 bits is not, unless it is at the
/// top.
pub open spec fn row_shown(row: nat, top: int, rows: nat) -> int {
    let end = if top + rows > 0xffff {
        0xffff
    } else {
        top + rows
    };
    if row <= top {
        top
    } else if row < end {
        row as int
    } else if top < end {
        end - 1
    } else {
        top
    }
}

/// An editor scrolled by a page: it shows the rows above or below those that it showed, and
/// the cursor is in the row nearest to where it was among these, or in the last line where
/// the text ends above them. The row is told for a plain editor, and both for fewer than
/// 32768 rows: more are not a page to the widget. The column is one of the line.
pub open spec fn paged(page: Page, before: Editor, after: Editor) -> bool {
    let lines = editor_lines(before);
    let rows = editor_rows(before);
    let top = top_after(page, editor_top(before), rows);
    let row = row_shown(editor_cursor(before).0, top, rows);
    &&& editor_lines(after) == lines
    &&& editor_pattern(after) == editor_pattern(before)
    &&& same_form(before, after)
    &&& in_text(lines, editor_cursor(after))
    &&& rows < 0x8000 ==> editor_top(after) == top
    &&& rows < 0x8000 && editor_plain(before) ==> editor_cursor(after).0 == (if row
        < lines.len() {
        row
    } else {
        lines.len() - 1
    })
}

/// `TextArea::scroll` by a page, which is as many rows as were drawn last: shows the rows
/// above or below, and moves the cursor as far as is needed to keep it on them and in the
/// text. The column that it comes to depends on the width that was drawn and is not told.
/// The number of rows is negated in 16 bits, which fails for 32768 rows only.
#[verifier::external_body]
pub(crate) fn scroll_page(editor: &mut Editor, page: Page)
    requires
        pageable(*old(editor)),
    ensures
        paged(page, *old(editor), *final(editor)),
        editor_selecting(*final(editor)) == editor_selecting(*old(editor)),
{
    editor.area.scroll(match page {
        Page::Up => Scrolling::PageUp,
        Page::Down => Scrolling::PageDown,
    })
}

/// What a key means to an editor.
pub enum Meaning {
    /// To move the cursor.
    Move(Motion),
    /// To move the cursor back by one character.
    Back,
    /// To move the cursor on by one character.
    Forward,
    /// To move the cursor to the beginning of the line.
    Head,
    /// To scroll by a page.
    Scroll(Page),
    /// To write a character.
    Write(char),
    /// To end the line at the cursor.
    Break,
    /// To write spaces up to the next tab stop.
    Indent,
    /// To take out the character before the cursor, or the end of the line above.
    TakeBefore,
    /// To take out the character after the cursor, or the end of the line.
    TakeAfter,
    /// To move by words or paragraphs.
    Stride,
    /// To delete by words or lines, to cut, copy or paste, or to undo or redo.
    Other,
    /// Nothing.
    Nothing,
}

/// What a character means with Control held down.
pub open spec fn control_meaning(c: char) -> Meaning {
    match c {
        'm' => Meaning::Break,
        'h' => Meaning::TakeBefore,
        'd' => Meaning::TakeAfter,
        'n' => Meaning::Move(Motion::Down),
        'p' => Meaning::Move(Motion::Up),
        'f' => Meaning::Forward,
        'b' => Meaning::Back,
        'a' => Meaning::Head,
        'e' => Meaning::Move(Motion::End),
        'v' => Meaning::Scroll(Page::Down),
        'k' | 'j' | 'w' | 'u' | 'r' | 'y' | 'x' | 'c' => Meaning::Other,
        _ => Meaning::Nothing,
    }
}

/// What a character means with Alt held down.
pub open spec fn alt_meaning(c: char) -> Meaning {
    match c {
        '<' => Meaning::Move(Motion::Top),
        '>' => Meaning::Move(Motion::Bottom),
        'v' => Meaning::Scroll(Page::Up),
        'f' | 'b' | 'n' | 'p' | '[' | ']' => Meaning::Stride,
        'h' | 'd' => Meaning::Other,
        _ => Meaning::Nothing,
    }
}

/// What a key means to an editor, alone or with Control and Alt held down.
pub open spec fn meaning(key: Key, ctrl: bool, alt: bool) -> Meaning {
    match key {
        Key::Home => Meaning::Head,
        Key::End => Meaning::Move(Motion::End),
        Key::PageUp => Meaning::Scroll(Page::Up),
        Key::PageDown => Meaning::Scroll(Page::Down),
        _ => if !ctrl && !alt {
            match key {
                Key::Char(c) => if c == '\n' || c == '\r' {
                    Meaning::Break
                } else {
                    Meaning::Write(c)
                },
                Key::Tab => Meaning::Indent,
                Key::Backspace => Meaning::TakeBefore,
                Key::Delete => Meaning::TakeAfter,
                Key::Up => Meaning::Move(Motion::Up),
                Key::Down => Meaning::Move(Motion::Down),
                Key::Left => Meaning::Back,
                Key::Right => Meaning::Forward,
                _ => Meaning::Nothing,
            }
        } else if ctrl && alt {
            match key {
                Key::Left | Key::Char('b') => Meaning::Head,
                Key::Right | Key::Char('f') => Meaning::Move(Motion::End),
                Key::Up | Key::Char('p') => Meaning::Move(Motion::Top),
                Key::Down | Key::Char('n') => Meaning::Move(Motion::Bottom),
                _ => Meaning::Nothing,
            }
        } else {
            match key {
                Key::Char(c) => if ctrl {
                    control_meaning(c)
                } else {
                    alt_meaning(c)
                },
                Key::Up | Key::Down | Key::Left | Key::Right => if ctrl {
                    Meaning::Stride
                } else {
                    Meaning::Nothing
                },
                Key::Backspace | Key::Delete => if alt {
                    Meaning::Other
                } else {
                    Meaning::Nothing
                },
                _ => Meaning::Nothing,
            }
        },
    }
}

/// The cursor moved on to `cursor`, selecting on the way or giving up what is selected; or
/// nothing changed where there is no way to go.
pub open spec fn gone_to(
    cursor: Option<(nat, nat)>,
    before: Editor,
    after: Editor,
    shift: bool,
) -> bool {
    match cursor {
        Some(at) => editor_cursor(after) == at && editor_selecting(after) == shift,
        None => {
            &&& editor_cursor(after) == editor_cursor(before)
            &&& editor_selecting(after) == editor_selecting(before)
        },
    }
}

/// Whether a motion leads to the row beside.
pub open spec fn by_row(motion: Motion) -> bool {
    motion == Motion::Up || motion == Motion::Down
}

/// Whether there is a way to go in the direction of a motion.
pub open spec fn can_move(motion: Motion, editor: Editor) -> bool {
    match motion {
        Motion::Up => editor_cursor(editor).0 > 0,
        Motion::Down => editor_cursor(editor).0 + 1 < editor_lines(editor).len(),
        _ => true,
    }
}

/// The place one character before a cursor, if there is one.
pub open spec fn place_before(lines: Seq<Seq<char>>, cursor: (nat, nat)) -> Option<(nat, nat)> {
    let (row, col) = cursor;
    if col > 0 {
        Some((row, (col - 1) as nat))
    } else if row > 0 {
        Some(((row - 1) as nat, lines[row - 1].len()))
    } else {
        None
    }
}

/// The place one character after a cursor, if there is one.
pub open spec fn place_after(lines: Seq<Seq<char>>, cursor: (nat, nat)) -> Option<(nat, nat)> {
    let (row, col) = cursor;
    if col < lines[row as int].len() {
        Some((row, col + 1))
    } else if row + 1 < lines.len() {
        Some((row + 1, 0nat))
    } else {
        None
    }
}

/// Lines with the piece of text put in at a place.
pub open spec fn text_put(
    lines: Seq<Seq<char>>,
    cursor: (nat, nat),
    piece: Seq<char>,
) -> Seq<Seq<char>> {
    let line = lines[cursor.0 as int];
    lines.update(
        cursor.0 as int,
        line.take(cursor.1 as int) + piece + line.skip(cursor.1 as int),
    )
}

/// Lines of which the one at a place ends there and goes on in another.
pub open spec fn line_broken(lines: Seq<Seq<char>>, cursor: (nat, nat)) -> Seq<Seq<char>> {
    let line = lines[cursor.0 as int];
    lines.update(cursor.0 as int, line.take(cursor.1 as int)).insert(
        (cursor.0 + 1) as int,
        line.skip(cursor.1 as int),
    )
}

/// Lines without what is between a place and the next: a character, or the end of a line.
pub open spec fn text_taken(lines: Seq<Seq<char>>, cursor: (nat, nat)) -> Seq<Seq<char>> {
    let (row, col) = cursor;
    let line = lines[row as int];
    if col < line.len() {
        lines.update(row as int, line.remove(col as int))
    } else {
        lines.update(row as int, line + lines[(row + 1) as int]).remove((row + 1) as int)
    }
}

/// Lines and cursor after an edit, which leaves nothing selected.
pub open spec fn edited(after: Editor, lines: Seq<Seq<char>>, cursor: (nat, nat)) -> bool {
    &&& editor_lines(after) == lines
    &&& editor_cursor(after) == cursor
    &&& !editor_selecting(after)
}

/// As many spaces as lead from a column to the next tab stop.
pub open spec fn indent(col: nat) -> Seq<char> {
    Seq::new((4 - col % 4) as nat, |i: int| ' ')
}

/// An editor in which nothing is changed.
pub open spec fn untouched(before: Editor, after: Editor) -> bool {
    &&& editor_lines(after) == editor_lines(before)
    &&& editor_cursor(after) == editor_cursor(before)
    &&& editor_selecting(after) == editor_selecting(before)
}

/// Whether what a key means leaves the text alone.
pub open spec fn moving(does: Meaning) -> bool {
    match does {
        Meaning::Move(_) | Meaning::Back | Meaning::Forward | Meaning::Head => true,
        Meaning::Scroll(_) | Meaning::Stride | Meaning::Nothing => true,
        _ => false,
    }
}

/// What a key with the given meaning does to an editor: the search pattern and how text is
/// shown stay, and the cursor is in the text. By rows and pages the cursor moves as
/// `move_cursor` and `scroll_page` move it. By characters it moves through a line of
/// printable ASCII to the next place and on to the line beside it; with Shift the way is
/// selected. An edit is told where nothing is selected before: a character, or spaces up to
/// the tab stop, is written at the cursor; the line ends there; or what is before or after
/// the cursor is taken out, be it a character or the end of a line.
pub open spec fn key_done_in(before: Editor, after: Editor, does: Meaning, shift: bool) -> bool {
    let lines = editor_lines(before);
    let cursor = editor_cursor(before);
    let (row, col) = cursor;
    let line = line_left(before);
    let previous = place_before(lines, cursor);
    let next = place_after(lines, cursor);
    let plain = editor_plain(before) && narrow(line);
    let free = !editor_selecting(before);
    match does {
        Meaning::Move(motion) => {
            &&& cursor_after_motion(
                motion,
                before,
                after,
                column_beside(line, col, line_entered(motion, before)),
            )
            &&& (by_row(motion) ==> editor_plain(before)) ==> editor_selecting(after) == (
            if can_move(motion, before) {
                shift
            } else {
                editor_selecting(before)
            })
        },
        Meaning::Back => plain && (col == 0 && row > 0 ==> narrow(lines[row - 1])) ==> gone_to(
            previous,
            before,
            after,
            shift,
        ),
        Meaning::Forward => plain ==> gone_to(next, before, after, shift),
        Meaning::Head => gone_to(Some((row, 0nat)), before, after, shift),
        Meaning::Scroll(page) => paged(page, before, after) && editor_selecting(after) == shift,
        Meaning::Write(c) => free ==> edited(
            after,
            text_put(lines, cursor, seq![c]),
            (row, col + 1),
        ),
        Meaning::Break => free ==> edited(after, line_broken(lines, cursor), (row + 1, 0nat)),
        Meaning::Indent => free && plain ==> edited(
            after,
            text_put(lines, cursor, indent(col)),
            (row, col + indent(col).len()),
        ),
        Meaning::TakeBefore => free ==> match previous {
            Some(at) => edited(after, text_taken(lines, at), at),
            None => untouched(before, after),
        },
        Meaning::TakeAfter => free && plain ==> match next {
            Some(_) => edited(after, text_taken(lines, cursor), cursor),
            None => untouched(before, after),
        },
        Meaning::Nothing => untouched(before, after),
        Meaning::Stride | Meaning::Other => true,
    }
}

/// What a key does that is fed to an editor, by what it means; the search pattern and how
/// text is shown stay, and the cursor is in the text. Which rows are shown, only scrolling
/// changes.
pub open spec fn key_fed(
    before: Editor,
    after: Editor,
    key: Key,
    ctrl: bool,
    alt: bool,
    shift: bool,
) -> bool {
    let does = meaning(key, ctrl, alt);
    &&& editor_pattern(after) == editor_pattern(before)
    &&& same_form(before, after)
    &&& !(does is Scroll) ==> editor_top(after) == editor_top(before)
    &&& in_text(editor_lines(after), editor_cursor(after))
    &&& moving(does) ==> editor_lines(after) == editor_lines(before)
    &&& key_done_in(before, after, does, shift)
}

/// `TextArea::input` with a key and the modifiers held down, by the key bindings that it
/// documents: keeps the search pattern and how text is shown, and the cursor in the text, and
/// does what the key means. What keys do that move by words or paragraphs, delete more than
/// a character, cut, copy, paste, undo or redo, and what an edit does to a selection, rests
/// on what the widget remembers and is not told, nor is how far a key moves by characters of
/// another width. Keys that the widget gives no meaning to are handed on as one that has
/// none.
#[verifier::external_body]
pub(crate) fn feed(editor: &mut Editor, key: Key, ctrl: bool, alt: bool, shift: bool)
    requires
        pageable(*old(editor)),
        key != Key::Enter,
        key != Key::BackTab,
    ensures
        key_fed(*old(editor), *final(editor), key, ctrl, alt, shift),
{
    editor.area.input(Input { ctrl, alt, shift, key: match key {
        Key::Char(c) => ratatui_textarea::Key::Char(c),
        Key::Backspace => ratatui_textarea::Key::Backspace,
        Key::Delete => ratatui_textarea::Key::Delete,
        Key::Tab => ratatui_textarea::Key::Tab,
        Key::Up => ratatui_textarea::Key::Up,
        Key::Down => ratatui_textarea::Key::Down,
        Key::Left => ratatui_textarea::Key::Left,
        Key::Right => ratatui_textarea::Key::Right,
        Key::PageUp => ratatui_textarea::Key::PageUp,
        Key::PageDown => ratatui_textarea::Key::PageDown,
        Key::Home => ratatui_textarea::Key::Home,
        Key::End => ratatui_textarea::Key::End,
        _ => ratatui_textarea::Key::Null,
    } });
}

/// An editor with one empty line, as `TextArea::default` makes it.
pub fn blank_editor() -> (editor: Editor)
    ensures
        is_new_editor(editor, Seq::empty()),
{
    let mut lines: Vec<String> = Vec::new();
    lines.push(String::new());
    let editor = new_editor(lines);
    assert(strings(lines@) =~= seq![Seq::<char>::empty()]);
    editor
}

} // verus!
