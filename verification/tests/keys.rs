use speedcli::model::RunRecord;
use speedcli::tui::detail::open_history_detail;
use speedcli::tui::history::{deleted, exported, ExportFormat};
use speedcli::tui::input::handle_key;
use speedcli::tui::keys::{Action, Key, Modifiers};
use speedcli::tui::modals::{
    MENU_ITEM_DELETE, MENU_ITEM_EDIT_COMMENT, MENU_ITEM_EXPORT_CSV, MENU_ITEM_EXPORT_JSON,
    MENU_ITEM_VIEW,
};
use speedcli::tui::networks::update_available_networks;
use speedcli::tui::UiState;

fn record(id: &str, comments: Option<&str>) -> RunRecord {
    RunRecord {
        meas_id: id.to_string(),
        network_name: None,
        comments: comments.map(String::from),
        server: None,
        rest: "{}".to_string(),
    }
}

fn history(n: usize) -> UiState {
    let mut s = UiState::default();
    s.tab = 1;
    s.history = (0..n).map(|i| record(&i.to_string(), None)).collect();
    s.history_loaded_count = n;
    s
}

fn press(s: &mut UiState, key: Key) -> Action {
    handle_key(s, key, Modifiers::plain(), false)
}

fn quiet(s: &mut UiState, key: Key) {
    assert!(matches!(press(s, key), Action::Nothing));
}

fn type_text(s: &mut UiState, text: &str) {
    for c in text.chars() {
        quiet(s, Key::Char(c));
    }
}

#[test]
fn tabs_cycle_forwards_and_backwards() {
    let mut s = UiState::default();
    let mut seen = Vec::new();
    for _ in 0..4 {
        quiet(&mut s, Key::Tab);
        seen.push(s.tab);
    }
    assert_eq!(seen, [1, 2, 3, 0]);
    s.traceroute_enabled = true;
    handle_key(&mut s, Key::BackTab, Modifiers::only_shift(), false);
    assert_eq!(s.tab, 4);
    quiet(&mut s, Key::Tab);
    assert_eq!(s.tab, 0);
    handle_key(&mut s, Key::BackTab, Modifiers::plain(), false);
    assert_eq!(s.tab, 0);
    for tab in 0..5 {
        s.tab = tab;
        quiet(&mut s, Key::Tab);
        handle_key(&mut s, Key::BackTab, Modifiers::only_shift(), false);
        assert_eq!(s.tab, tab);
    }
}

#[test]
fn the_history_tab_begins_with_its_first_row() {
    let mut s = history(5);
    s.tab = 0;
    s.history_selected = 3;
    s.history_scroll_offset = 2;
    quiet(&mut s, Key::Tab);
    assert_eq!((s.tab, s.history_selected, s.history_scroll_offset), (1, 0, 0));
    s.tab = 2;
    s.history_selected = 3;
    handle_key(&mut s, Key::BackTab, Modifiers::only_shift(), false);
    assert_eq!((s.tab, s.history_selected), (1, 0));
}

#[test]
fn quitting_cancels_a_run() {
    let mut s = UiState::default();
    assert!(matches!(press(&mut s, Key::Char('q')), Action::Quit { cancel: false }));
    assert!(matches!(
        handle_key(&mut s, Key::Char('q'), Modifiers { alt: true, ..Modifiers::only_shift() }, true),
        Action::Quit { cancel: true }
    ));
    assert!(matches!(
        handle_key(&mut s, Key::Char('c'), Modifiers::only_control(), true),
        Action::Quit { cancel: true }
    ));
    quiet(&mut s, Key::Char('c'));
}

#[test]
fn pausing_needs_a_run() {
    let mut s = UiState::default();
    quiet(&mut s, Key::Char('p'));
    assert!(!s.paused);
    assert!(matches!(handle_key(&mut s, Key::Char('p'), Modifiers::plain(), true), Action::Pause(true)));
    assert!(s.paused);
    assert!(matches!(handle_key(&mut s, Key::Char('p'), Modifiers::plain(), true), Action::Pause(false)));
    assert!(!s.paused);
}

#[test]
fn hiding_is_undone_by_hiding_again() {
    let mut s = UiState::default();
    quiet(&mut s, Key::Char('H'));
    assert!(s.hide_network_info);
    quiet(&mut s, Key::Char('H'));
    assert!(!s.hide_network_info);
}

#[test]
fn r_refreshes_the_history_or_runs_again() {
    let mut s = history(100);
    assert!(matches!(press(&mut s, Key::Char('r')), Action::Reload(100)));
    s.history_loaded_count = 5;
    assert!(matches!(press(&mut s, Key::Char('r')), Action::Reload(66)));
    s.tab = 2;
    assert!(matches!(
        handle_key(&mut s, Key::Char('r'), Modifiers::plain(), true),
        Action::Restart { cancel: true }
    ));
    assert_eq!(s.info, "Restarting\u{2026}");
}

#[test]
fn s_saves_on_the_dashboard() {
    let mut s = UiState::default();
    quiet(&mut s, Key::Char('s'));
    assert_eq!(s.info, "No completed run to save yet.");
    s.last_result = Some(record("1", None));
    assert!(matches!(press(&mut s, Key::Char('s')), Action::SaveLast));
    s.tab = 2;
    quiet(&mut s, Key::Char('s'));
}

#[test]
fn a_turns_saving_on_and_off() {
    let mut s = UiState::default();
    quiet(&mut s, Key::Char('a'));
    assert!(!s.auto_save);
    assert_eq!(s.info, "Auto-save disabled");
    quiet(&mut s, Key::Char('a'));
    assert!(s.auto_save);
    assert_eq!(s.info, "Auto-save enabled");
}

#[test]
fn help_is_the_last_tab() {
    let mut s = UiState::default();
    quiet(&mut s, Key::Char('?'));
    assert_eq!(s.tab, 3);
    s.traceroute_enabled = true;
    quiet(&mut s, Key::Char('?'));
    assert_eq!(s.tab, 4);
}

#[test]
fn the_selection_moves_by_rows_and_pages() {
    let mut s = history(100);
    quiet(&mut s, Key::Up);
    assert_eq!(s.history_selected, 0);
    quiet(&mut s, Key::Down);
    quiet(&mut s, Key::Char('j'));
    assert_eq!(s.history_selected, 2);
    quiet(&mut s, Key::Char('k'));
    assert_eq!(s.history_selected, 1);
    quiet(&mut s, Key::PageDown);
    assert_eq!(s.history_selected, 21);
    quiet(&mut s, Key::PageUp);
    quiet(&mut s, Key::PageUp);
    assert_eq!(s.history_selected, 0);
}

#[test]
fn more_runs_are_loaded_near_the_end() {
    let mut s = history(30);
    s.history_selected = 18;
    quiet(&mut s, Key::Down);
    assert!(matches!(press(&mut s, Key::Down), Action::LoadMore(30)));
    assert_eq!(s.history_selected, 20);
    assert!(matches!(press(&mut s, Key::PageDown), Action::LoadMore(30)));
    assert_eq!(s.history_selected, 29);
    quiet(&mut s, Key::Down);
    assert!(matches!(press(&mut s, Key::PageDown), Action::LoadMore(30)));
    s.history_loaded_count = 31;
    quiet(&mut s, Key::PageDown);
    let mut s = history(3);
    assert!(matches!(press(&mut s, Key::Down), Action::LoadMore(20)));
    let mut s = history(0);
    quiet(&mut s, Key::Down);
    quiet(&mut s, Key::PageDown);
}

#[test]
fn the_log_scrolls_within_its_lines() {
    let mut s = UiState::default();
    quiet(&mut s, Key::Up);
    assert_eq!(s.dashboard_log_scroll, 0);
    s.text_log = (0..15).map(|i| i.to_string()).collect();
    quiet(&mut s, Key::Up);
    assert_eq!(s.dashboard_log_scroll, 1);
    quiet(&mut s, Key::PageUp);
    assert_eq!(s.dashboard_log_scroll, 11);
    quiet(&mut s, Key::PageUp);
    assert_eq!(s.dashboard_log_scroll, 14);
    quiet(&mut s, Key::PageDown);
    assert_eq!(s.dashboard_log_scroll, 4);
    quiet(&mut s, Key::Down);
    assert_eq!(s.dashboard_log_scroll, 3);
    quiet(&mut s, Key::PageDown);
    assert_eq!(s.dashboard_log_scroll, 0);
}

#[test]
fn the_filter_input_takes_every_key() {
    let mut s = history(5);
    s.history_selected = 2;
    quiet(&mut s, Key::Char('/'));
    assert!(s.history_filter_editing);
    type_text(&mut s, "q?rx");
    quiet(&mut s, Key::Backspace);
    assert_eq!(s.history_filter, "q?r");
    quiet(&mut s, Key::Tab);
    assert_eq!(s.tab, 1);
    quiet(&mut s, Key::Enter);
    assert!(!s.history_filter_editing);
    assert_eq!((s.history_filter.as_str(), s.history_selected), ("q?r", 0));
    s.history_selected = 2;
    quiet(&mut s, Key::Esc);
    assert_eq!((s.history_filter.as_str(), s.history_selected), ("", 0));
    quiet(&mut s, Key::Char('/'));
    type_text(&mut s, "ab");
    quiet(&mut s, Key::Esc);
    assert!(!s.history_filter_editing);
    assert_eq!(s.history_filter, "");
}

#[test]
fn the_filter_opens_on_the_history_tab_only() {
    let mut s = UiState::default();
    quiet(&mut s, Key::Char('/'));
    assert!(!s.history_filter_editing);
}

#[test]
fn the_menu_does_what_its_item_says() {
    let mut s = history(3);
    s.history_selected = 1;
    quiet(&mut s, Key::Char(' '));
    assert!(s.history_menu_open);
    assert_eq!(s.history_menu_selected, MENU_ITEM_VIEW);
    assert!(matches!(press(&mut s, Key::Enter), Action::OpenDetail(1)));
    assert!(!s.history_menu_open);
    for (item, check) in [
        (MENU_ITEM_EXPORT_JSON, 0),
        (MENU_ITEM_EXPORT_CSV, 1),
        (MENU_ITEM_DELETE, 2),
        (MENU_ITEM_EDIT_COMMENT, 3),
    ] {
        s.history_menu_open = true;
        s.history_menu_selected = item;
        let action = press(&mut s, Key::Enter);
        match check {
            0 => assert!(matches!(action, Action::ExportJson(1))),
            1 => assert!(matches!(action, Action::ExportCsv(1))),
            2 => assert!(matches!(action, Action::Delete(1))),
            _ => assert!(matches!(action, Action::Nothing) && s.history_comment_modal_open),
        }
        assert!(!s.history_menu_open);
    }
}

#[test]
fn the_menu_goes_round() {
    let mut s = history(1);
    quiet(&mut s, Key::Char(' '));
    quiet(&mut s, Key::Up);
    assert_eq!(s.history_menu_selected, 4);
    quiet(&mut s, Key::Char('j'));
    assert_eq!(s.history_menu_selected, 0);
    quiet(&mut s, Key::Down);
    quiet(&mut s, Key::Char('k'));
    assert_eq!(s.history_menu_selected, 0);
    quiet(&mut s, Key::Char(' '));
    assert!(!s.history_menu_open);
    quiet(&mut s, Key::Char(' '));
    quiet(&mut s, Key::Esc);
    assert!(!s.history_menu_open);
    let mut s = history(0);
    quiet(&mut s, Key::Char(' '));
    assert!(!s.history_menu_open);
}

fn edit_comment(s: &mut UiState) {
    s.history_menu_open = true;
    s.history_menu_selected = MENU_ITEM_EDIT_COMMENT;
    quiet(s, Key::Enter);
    assert!(s.history_comment_modal_open);
}

#[test]
fn a_comment_is_edited_and_saved() {
    let mut s = history(2);
    s.history[1].comments = Some("old".to_string());
    s.history_selected = 1;
    edit_comment(&mut s);
    let area = &s.history_comment_modal_textarea.area;
    assert_eq!(area.lines(), ["old"]);
    assert_eq!((area.cursor().0, area.cursor().1), (0, 3));
    type_text(&mut s, " and newq");
    quiet(&mut s, Key::Backspace);
    assert_eq!(s.history_comment_modal_textarea.area.lines(), ["old and new"]);
    assert!(matches!(press(&mut s, Key::Enter), Action::SaveComment(1)));
    assert_eq!(s.history[1].comments.as_deref(), Some("old and new"));
    assert_eq!(s.history[0].comments, None);
    assert!(!s.history_comment_modal_open);
    assert_eq!(s.history_comment_modal_textarea.area.lines(), [""]);
    edit_comment(&mut s);
    assert!(matches!(press(&mut s, Key::Enter), Action::SaveComment(1)));
    assert_eq!(s.history[1].comments.as_deref(), Some("old and new"));
}

#[test]
fn a_comment_of_several_lines_becomes_one() {
    let mut s = history(1);
    s.history[0].comments = Some("one\r\ntwo\n\nthree".to_string());
    edit_comment(&mut s);
    let area = &s.history_comment_modal_textarea.area;
    assert_eq!(area.lines(), ["one", "two", "", "three"]);
    assert_eq!((area.cursor().0, area.cursor().1), (0, 3));
    assert!(matches!(press(&mut s, Key::Enter), Action::SaveComment(0)));
    assert_eq!(s.history[0].comments.as_deref(), Some("one two  three"));
}

#[test]
fn an_empty_comment_is_none() {
    let mut s = history(1);
    s.history[0].comments = Some(String::new());
    edit_comment(&mut s);
    assert_eq!(s.history_comment_modal_textarea.area.lines(), [""]);
    s.history_comment_modal_textarea.area.insert_str("   ");
    assert!(matches!(press(&mut s, Key::Enter), Action::SaveComment(0)));
    assert_eq!(s.history[0].comments, None);
}

#[test]
fn leaving_the_comment_editor_keeps_the_comment() {
    let mut s = history(1);
    s.history[0].comments = Some("old".to_string());
    edit_comment(&mut s);
    s.history_comment_modal_textarea.area.insert_str("x");
    quiet(&mut s, Key::Esc);
    assert!(!s.history_comment_modal_open);
    assert_eq!(s.history[0].comments.as_deref(), Some("old"));
}

#[test]
fn the_export_result_is_copied_and_closed() {
    let mut s = history(1);
    exported(&mut s, ExportFormat::Json, Ok("/tmp/run.json".to_string()));
    assert!(matches!(press(&mut s, Key::Char('c')), Action::CopyPath(p) if p == "/tmp/run.json"));
    quiet(&mut s, Key::Char('q'));
    assert!(s.history_export_modal_open);
    quiet(&mut s, Key::Enter);
    assert!(!s.history_export_modal_open);
    s.history_export_modal_open = true;
    s.history_export_modal_path = None;
    quiet(&mut s, Key::Char('c'));
    quiet(&mut s, Key::Esc);
    assert!(!s.history_export_modal_open);
}

fn detail() -> UiState {
    let mut s = history(2);
    assert!(matches!(press(&mut s, Key::Enter), Action::OpenDetail(0)));
    open_history_detail(&mut s, "{\n  \"alpha\": 1,\n  \"beta\": 2,\n  \"alphabet\": 3\n}");
    assert!(s.history_detail_view);
    s
}

fn cursor(s: &UiState) -> (usize, usize) {
    let at = s.history_detail_textarea.area.cursor();
    (at.0, at.1)
}

#[test]
fn the_detail_view_shows_the_lines_of_the_run() {
    let s = detail();
    assert_eq!(
        s.history_detail_textarea.area.lines(),
        ["{", "  \"alpha\": 1,", "  \"beta\": 2,", "  \"alphabet\": 3", "}"]
    );
    assert_eq!(cursor(&s), (0, 0));
    let mut s = history(1);
    open_history_detail(&mut s, "");
    assert_eq!(s.history_detail_textarea.area.lines(), [""]);
    let mut s = history(0);
    open_history_detail(&mut s, "x");
    assert!(!s.history_detail_view);
}

#[test]
fn the_detail_view_moves_its_cursor() {
    let mut s = detail();
    quiet(&mut s, Key::Down);
    quiet(&mut s, Key::Char('j'));
    assert_eq!(cursor(&s).0, 2);
    quiet(&mut s, Key::Char('k'));
    assert_eq!(cursor(&s).0, 1);
    quiet(&mut s, Key::End);
    assert_eq!(cursor(&s).0, 4);
    quiet(&mut s, Key::Down);
    assert_eq!(cursor(&s).0, 4);
    quiet(&mut s, Key::Home);
    assert_eq!(cursor(&s).0, 0);
    quiet(&mut s, Key::Up);
    assert_eq!(cursor(&s).0, 0);
}

#[test]
fn the_detail_view_moves_by_pages() {
    let mut s = detail();
    let json: Vec<String> = (0..40).map(|i| i.to_string()).collect();
    open_history_detail(&mut s, &json.join("\n"));
    let area = ratatui::layout::Rect::new(0, 0, 20, 10);
    let mut screen = ratatui::buffer::Buffer::empty(area);
    let draw = |s: &UiState, screen: &mut ratatui::buffer::Buffer| {
        ratatui::widgets::Widget::render(&s.history_detail_textarea.area, area, screen);
    };
    draw(&s, &mut screen);
    quiet(&mut s, Key::PageDown);
    assert_eq!(cursor(&s), (10, 0));
    draw(&s, &mut screen);
    quiet(&mut s, Key::PageDown);
    assert_eq!(cursor(&s), (20, 0));
    draw(&s, &mut screen);
    quiet(&mut s, Key::PageUp);
    assert_eq!(cursor(&s), (19, 0));
    for _ in 0..9 {
        draw(&s, &mut screen);
        quiet(&mut s, Key::PageDown);
    }
    assert_eq!(cursor(&s), (39, 0));
    assert_eq!(s.history_detail_textarea.area.lines().len(), 40);
}

#[test]
fn keys_edit_the_comment() {
    let mut s = history(1);
    s.history[0].comments = Some("one two".to_string());
    edit_comment(&mut s);
    let at = |s: &UiState| {
        let c = s.history_comment_modal_textarea.area.cursor();
        (c.0, c.1)
    };
    quiet(&mut s, Key::Home);
    assert_eq!(at(&s), (0, 0));
    quiet(&mut s, Key::Backspace);
    quiet(&mut s, Key::Delete);
    type_text(&mut s, "O");
    assert_eq!(s.history_comment_modal_textarea.area.lines(), ["One two"]);
    assert_eq!(at(&s), (0, 1));
    quiet(&mut s, Key::Right);
    quiet(&mut s, Key::Left);
    assert_eq!(at(&s), (0, 1));
    handle_key(&mut s, Key::End, Modifiers::only_shift(), false);
    assert_eq!(at(&s), (0, 7));
    assert!(s.history_comment_modal_textarea.area.is_selecting());
    type_text(&mut s, "k");
    assert_eq!(s.history_comment_modal_textarea.area.lines(), ["Ok"]);
    handle_key(&mut s, Key::Char('u'), Modifiers::only_control(), false);
    handle_key(&mut s, Key::Char('u'), Modifiers::only_control(), false);
    assert_eq!(s.history_comment_modal_textarea.area.lines(), ["One two"]);
    quiet(&mut s, Key::Other);
    quiet(&mut s, Key::PageUp);
    quiet(&mut s, Key::Home);
    quiet(&mut s, Key::BackTab);
    quiet(&mut s, Key::Tab);
    assert_eq!(s.history_comment_modal_textarea.area.lines(), ["        One two"]);
    assert!(matches!(press(&mut s, Key::Enter), Action::SaveComment(0)));
    assert_eq!(s.history[0].comments.as_deref(), Some("One two"));
}

fn commented(text: &str) -> UiState {
    let mut s = history(1);
    s.history[0].comments = Some(text.to_string());
    edit_comment(&mut s);
    s
}

fn comment_lines(s: &UiState) -> Vec<String> {
    s.history_comment_modal_textarea.area.lines().to_vec()
}

fn comment_cursor(s: &UiState) -> (usize, usize) {
    let at = s.history_comment_modal_textarea.area.cursor();
    (at.0, at.1)
}

fn chord(s: &mut UiState, key: Key, control: bool, alt: bool) {
    let modifiers = Modifiers { control, alt, ..Modifiers::plain() };
    assert!(matches!(handle_key(s, key, modifiers, false), Action::Nothing));
}

#[test]
fn arrows_go_from_line_to_line() {
    let mut s = commented("ab\nc");
    assert_eq!(comment_cursor(&s), (0, 2));
    quiet(&mut s, Key::Right);
    assert_eq!(comment_cursor(&s), (1, 0));
    quiet(&mut s, Key::Right);
    assert_eq!(comment_cursor(&s), (1, 1));
    quiet(&mut s, Key::Right);
    assert_eq!(comment_cursor(&s), (1, 1));
    quiet(&mut s, Key::Up);
    assert_eq!(comment_cursor(&s), (0, 1));
    quiet(&mut s, Key::Up);
    assert_eq!(comment_cursor(&s), (0, 1));
    quiet(&mut s, Key::Right);
    quiet(&mut s, Key::Down);
    assert_eq!(comment_cursor(&s), (1, 1));
    quiet(&mut s, Key::Down);
    assert_eq!(comment_cursor(&s), (1, 1));
    quiet(&mut s, Key::Left);
    quiet(&mut s, Key::Left);
    assert_eq!(comment_cursor(&s), (0, 2));
    quiet(&mut s, Key::Home);
    quiet(&mut s, Key::Left);
    assert_eq!(comment_cursor(&s), (0, 0));
    assert_eq!(comment_lines(&s), ["ab", "c"]);
}

#[test]
fn shift_selects_only_where_the_cursor_moves() {
    let mut s = commented("ab");
    handle_key(&mut s, Key::Right, Modifiers::only_shift(), false);
    assert!(!s.history_comment_modal_textarea.area.is_selecting());
    handle_key(&mut s, Key::Left, Modifiers::only_shift(), false);
    assert!(s.history_comment_modal_textarea.area.is_selecting());
    handle_key(&mut s, Key::Down, Modifiers::plain(), false);
    assert!(s.history_comment_modal_textarea.area.is_selecting());
    quiet(&mut s, Key::Left);
    assert!(!s.history_comment_modal_textarea.area.is_selecting());
    assert_eq!(comment_cursor(&s), (0, 0));
}

#[test]
fn lines_are_joined_and_broken() {
    let mut s = commented("ab\nc\nd");
    quiet(&mut s, Key::Delete);
    assert_eq!((comment_lines(&s), comment_cursor(&s)), (vec!["abc".into(), "d".into()], (0, 2)));
    quiet(&mut s, Key::Delete);
    assert_eq!((comment_lines(&s), comment_cursor(&s)), (vec!["ab".into(), "d".into()], (0, 2)));
    quiet(&mut s, Key::Right);
    quiet(&mut s, Key::Backspace);
    assert_eq!((comment_lines(&s), comment_cursor(&s)), (vec!["abd".to_string()], (0, 2)));
    quiet(&mut s, Key::Char('\n'));
    assert_eq!((comment_lines(&s), comment_cursor(&s)), (vec!["ab".into(), "d".into()], (1, 0)));
    quiet(&mut s, Key::Backspace);
    assert_eq!((comment_lines(&s), comment_cursor(&s)), (vec!["abd".to_string()], (0, 2)));
    quiet(&mut s, Key::End);
    quiet(&mut s, Key::Delete);
    assert_eq!((comment_lines(&s), comment_cursor(&s)), (vec!["abd".to_string()], (0, 3)));
    quiet(&mut s, Key::Home);
    quiet(&mut s, Key::Backspace);
    assert_eq!((comment_lines(&s), comment_cursor(&s)), (vec!["abd".to_string()], (0, 0)));
    quiet(&mut s, Key::Right);
    quiet(&mut s, Key::Left);
    quiet(&mut s, Key::Delete);
    assert_eq!((comment_lines(&s), comment_cursor(&s)), (vec!["bd".to_string()], (0, 0)));
}

#[test]
fn tabs_lead_to_every_fourth_column() {
    let mut s = commented("a");
    quiet(&mut s, Key::Tab);
    assert_eq!((comment_lines(&s), comment_cursor(&s)), (vec!["a   ".to_string()], (0, 4)));
    quiet(&mut s, Key::Tab);
    assert_eq!((comment_lines(&s), comment_cursor(&s)), (vec!["a       ".to_string()], (0, 8)));
    quiet(&mut s, Key::Home);
    quiet(&mut s, Key::Right);
    quiet(&mut s, Key::Right);
    handle_key(&mut s, Key::BackTab, Modifiers::only_shift(), false);
    assert_eq!((comment_lines(&s), comment_cursor(&s)), (vec!["a         ".to_string()], (0, 4)));
}

#[test]
fn chords_move_and_edit_as_keys_do() {
    let mut s = commented("one\ntwo");
    chord(&mut s, Key::Char('a'), true, false);
    assert_eq!(comment_cursor(&s), (0, 0));
    chord(&mut s, Key::Char('f'), true, false);
    chord(&mut s, Key::Char('f'), true, false);
    chord(&mut s, Key::Char('b'), true, false);
    assert_eq!(comment_cursor(&s), (0, 1));
    chord(&mut s, Key::Char('n'), true, false);
    assert_eq!(comment_cursor(&s), (1, 1));
    chord(&mut s, Key::Char('p'), true, false);
    assert_eq!(comment_cursor(&s), (0, 1));
    chord(&mut s, Key::Char('e'), true, false);
    assert_eq!(comment_cursor(&s), (0, 3));
    chord(&mut s, Key::Char('>'), false, true);
    assert_eq!(comment_cursor(&s), (1, 3));
    chord(&mut s, Key::Char('<'), false, true);
    assert_eq!(comment_cursor(&s), (0, 3));
    chord(&mut s, Key::Down, true, true);
    assert_eq!(comment_cursor(&s), (1, 3));
    chord(&mut s, Key::Left, true, true);
    assert_eq!(comment_cursor(&s), (1, 0));
    chord(&mut s, Key::Char('f'), true, true);
    assert_eq!(comment_cursor(&s), (1, 3));
    chord(&mut s, Key::Char('p'), true, true);
    assert_eq!(comment_cursor(&s), (0, 3));
    chord(&mut s, Key::Char('h'), true, false);
    assert_eq!(comment_lines(&s), ["on", "two"]);
    chord(&mut s, Key::Char('d'), true, false);
    assert_eq!(comment_lines(&s), ["ontwo"]);
    chord(&mut s, Key::Char('m'), true, false);
    assert_eq!(comment_lines(&s), ["on", "two"]);
    assert_eq!(comment_cursor(&s), (1, 0));
}

#[test]
fn chords_without_a_meaning_do_nothing() {
    let mut s = commented("one\ntwo");
    quiet(&mut s, Key::Left);
    for c in ['z', 'A', '<', '\n', 'l', 'q', 's', 'g', 'o', 'i', 't', '['] {
        chord(&mut s, Key::Char(c), true, false);
    }
    for c in ['z', 'a', 'e', 'm', 'k', 'j', 'w', 'u', 'y', 'x', 'c', '\n'] {
        chord(&mut s, Key::Char(c), false, true);
    }
    for c in ['a', 'h', 'd', 'v', 'm', '<', '>'] {
        chord(&mut s, Key::Char(c), true, true);
    }
    for key in [Key::Tab, Key::Backspace, Key::Delete] {
        chord(&mut s, key, true, true);
        chord(&mut s, key, true, false);
    }
    for key in [Key::Tab, Key::Up, Key::Down, Key::Left, Key::Right] {
        chord(&mut s, key, false, true);
    }
    quiet(&mut s, Key::Other);
    assert_eq!((comment_lines(&s), comment_cursor(&s)), (vec!["one".into(), "two".into()], (0, 2)));
    assert!(!s.history_comment_modal_textarea.area.is_selecting());
}

#[test]
fn pages_lead_from_the_rows_that_are_shown() {
    let text: Vec<String> = (0..40).map(|i| i.to_string()).collect();
    let mut s = commented(&text.join("\n"));
    let area = ratatui::layout::Rect::new(0, 0, 20, 10);
    let mut screen = ratatui::buffer::Buffer::empty(area);
    let shown = |s: &UiState| s.history_comment_modal_textarea.area.scroll_offset().0;
    ratatui::widgets::Widget::render(&s.history_comment_modal_textarea.area, area, &mut screen);
    assert_eq!((shown(&s), comment_cursor(&s).0), (0, 0));
    quiet(&mut s, Key::PageDown);
    assert_eq!((shown(&s), comment_cursor(&s).0), (10, 10));
    chord(&mut s, Key::Char('v'), true, false);
    assert_eq!((shown(&s), comment_cursor(&s).0), (20, 20));
    quiet(&mut s, Key::PageUp);
    assert_eq!((shown(&s), comment_cursor(&s).0), (10, 19));
    chord(&mut s, Key::Char('v'), false, true);
    assert_eq!((shown(&s), comment_cursor(&s).0), (0, 9));
    quiet(&mut s, Key::PageUp);
    assert_eq!((shown(&s), comment_cursor(&s).0), (0, 9));
    for _ in 0..5 {
        quiet(&mut s, Key::PageDown);
    }
    assert_eq!((shown(&s), comment_cursor(&s).0), (50, 39));
    quiet(&mut s, Key::Up);
    assert_eq!((shown(&s), comment_cursor(&s).0), (50, 38));
    handle_key(&mut s, Key::PageUp, Modifiers::only_shift(), false);
    assert_eq!((shown(&s), comment_cursor(&s).0), (40, 39));
    assert!(s.history_comment_modal_textarea.area.is_selecting());
    assert_eq!(comment_lines(&s), text);
}

#[test]
fn a_view_that_was_not_drawn_has_no_page() {
    let mut s = detail();
    quiet(&mut s, Key::Down);
    quiet(&mut s, Key::PageDown);
    assert_eq!(cursor(&s).0, 0);
    quiet(&mut s, Key::Down);
    quiet(&mut s, Key::PageUp);
    assert_eq!(cursor(&s).0, 0);
}

#[test]
fn moving_by_rows_keeps_the_column() {
    let mut s = detail();
    s.history_detail_textarea.area.move_cursor(ratatui_textarea::CursorMove::Jump(1, 5));
    quiet(&mut s, Key::Down);
    assert_eq!(cursor(&s), (2, 5));
    quiet(&mut s, Key::Up);
    assert_eq!(cursor(&s), (1, 5));
    quiet(&mut s, Key::Up);
    assert_eq!(cursor(&s), (0, 1));
    s.history_detail_textarea.area.move_cursor(ratatui_textarea::CursorMove::Jump(3, 9));
    quiet(&mut s, Key::End);
    assert_eq!(cursor(&s), (4, 1));
    quiet(&mut s, Key::Home);
    assert_eq!(cursor(&s), (0, 1));
}

#[test]
fn the_detail_view_searches_while_the_pattern_is_typed() {
    let mut s = detail();
    quiet(&mut s, Key::Char('/'));
    assert!(s.history_detail_search_editing);
    type_text(&mut s, "alph");
    assert_eq!(s.history_detail_search, "alph");
    quiet(&mut s, Key::Enter);
    assert!(!s.history_detail_search_editing);
    let first = cursor(&s);
    assert!(first == (1, 3) || first == (3, 3));
    quiet(&mut s, Key::Char('n'));
    let second = cursor(&s);
    assert_eq!(second, if first.0 == 1 { (3, 3) } else { (1, 3) });
    quiet(&mut s, Key::Char('N'));
    assert_eq!(cursor(&s), first);
    quiet(&mut s, Key::Esc);
    assert!(s.history_detail_view);
    assert_eq!(s.history_detail_search, "");
    assert!(s.history_detail_textarea.area.search_pattern().is_none());
    quiet(&mut s, Key::Char('n'));
    assert_eq!(cursor(&s), first);
    quiet(&mut s, Key::Esc);
    assert!(!s.history_detail_view);
}

#[test]
fn an_invalid_pattern_shows_its_error() {
    let mut s = detail();
    quiet(&mut s, Key::Char('/'));
    type_text(&mut s, "a(");
    assert!(s.history_detail_search_error.is_some());
    let pattern = s.history_detail_textarea.area.search_pattern().map(|p| p.as_str().to_string());
    assert_eq!(pattern.as_deref(), Some("a"));
    quiet(&mut s, Key::Backspace);
    assert_eq!(s.history_detail_search_error, None);
    quiet(&mut s, Key::Backspace);
    assert!(s.history_detail_textarea.area.search_pattern().is_none());
    type_text(&mut s, "(");
    assert!(s.history_detail_search_error.is_some());
    quiet(&mut s, Key::Esc);
    assert_eq!(s.history_detail_search_error, None);
    assert!(!s.history_detail_search_editing);
    assert!(s.history_detail_view);
}

#[test]
fn q_closes_the_detail_view() {
    let mut s = detail();
    quiet(&mut s, Key::Char('/'));
    type_text(&mut s, "q");
    assert_eq!(s.history_detail_search, "q");
    quiet(&mut s, Key::Enter);
    quiet(&mut s, Key::Char('q'));
    assert!(!s.history_detail_view);
    assert_eq!(s.history_detail_search, "");
    assert_eq!(s.history_detail_textarea.area.lines(), [""]);
}

#[test]
fn modes_take_the_key_in_their_order() {
    let mut s = detail();
    s.history_menu_open = true;
    s.history_export_modal_open = true;
    s.history_comment_modal_open = true;
    s.history_filter_editing = true;
    for key in [Key::Esc, Key::Esc, Key::Esc, Key::Esc, Key::Esc] {
        quiet(&mut s, key);
    }
    assert!(!s.history_filter_editing && !s.history_comment_modal_open);
    assert!(!s.history_export_modal_open && !s.history_menu_open && !s.history_detail_view);
    assert!(matches!(press(&mut s, Key::Char('q')), Action::Quit { .. }));
}

#[test]
fn modes_belong_to_the_history_tab() {
    let mut s = history(1);
    s.history_filter_editing = true;
    s.tab = 0;
    assert!(matches!(press(&mut s, Key::Char('q')), Action::Quit { cancel: false }));
    assert_eq!(s.history_filter, "");
}

#[test]
fn the_charts_cycle_through_the_networks() {
    let mut s = history(4);
    for (i, name) in ["b", "a", "b", "c"].iter().enumerate() {
        s.history[i].network_name = Some(name.to_string());
    }
    update_available_networks(&mut s);
    assert_eq!(s.charts_available_networks, ["a", "b", "c"]);
    s.tab = 2;
    let mut seen = Vec::new();
    for _ in 0..4 {
        quiet(&mut s, Key::Right);
        seen.push(s.charts_network_filter.clone());
    }
    let some = |n: &str| Some(n.to_string());
    assert_eq!(seen, [some("a"), some("b"), some("c"), None]);
    let mut back = Vec::new();
    for _ in 0..4 {
        quiet(&mut s, Key::Char('h'));
        back.push(s.charts_network_filter.clone());
    }
    assert_eq!(back, [some("c"), some("b"), some("a"), None]);
    quiet(&mut s, Key::Char('l'));
    quiet(&mut s, Key::Left);
    assert_eq!(s.charts_network_filter, None);
    s.charts_network_filter = some("gone");
    update_available_networks(&mut s);
    assert_eq!(s.charts_network_filter, None);
    s.tab = 0;
    quiet(&mut s, Key::Right);
    assert_eq!(s.charts_network_filter, None);
}

#[test]
fn the_charts_keep_their_keys_when_the_traceroute_has_a_tab() {
    let mut s = history(2);
    s.traceroute_enabled = true;
    for (i, name) in ["b", "a"].iter().enumerate() {
        s.history[i].network_name = Some(name.to_string());
    }
    update_available_networks(&mut s);
    for key in [Key::Right, Key::Char('l'), Key::Left, Key::Char('h')] {
        s.tab = 2;
        quiet(&mut s, key);
        assert_eq!(s.charts_network_filter, None);
    }
    s.tab = 3;
    quiet(&mut s, Key::Right);
    assert_eq!(s.charts_network_filter.as_deref(), Some("a"));
    quiet(&mut s, Key::Char('l'));
    assert_eq!(s.charts_network_filter.as_deref(), Some("b"));
    quiet(&mut s, Key::Char('h'));
    quiet(&mut s, Key::Left);
    assert_eq!(s.charts_network_filter, None);
    quiet(&mut s, Key::Left);
    assert_eq!(s.charts_network_filter.as_deref(), Some("b"));
}

#[test]
fn deleting_keeps_the_selection_inside() {
    let mut s = history(3);
    s.history_selected = 1;
    deleted(&mut s, Ok(()));
    assert_eq!(s.info, "Deleted");
    assert_eq!(s.history[s.history_selected].meas_id, "2");
    deleted(&mut s, Ok(()));
    assert_eq!(s.history[s.history_selected].meas_id, "0");
    deleted(&mut s, Err("denied".to_string()));
    assert_eq!(s.info, "Delete failed: denied");
    assert_eq!(s.history.len(), 1);
    s.history_scroll_offset = 7;
    deleted(&mut s, Ok(()));
    assert_eq!((s.history.len(), s.history_selected, s.history_scroll_offset), (0, 0, 0));
    s.info = String::new();
    deleted(&mut s, Ok(()));
    assert_eq!(s.info, "");
}
