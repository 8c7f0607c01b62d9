use speedcli::model::RunRecord;
use speedcli::tui::history::{
    comment_saved, exported, extend_history, path_copied, refreshed, ExportFormat,
};
use speedcli::tui::UiState;

fn runs(ids: &[u32]) -> Vec<RunRecord> {
    ids.iter()
        .map(|id| RunRecord {
            meas_id: id.to_string(),
            network_name: Some(format!("net{}", id % 2)),
            comments: None,
            server: None,
            rest: String::new(),
        })
        .collect()
}

fn ids(s: &UiState) -> Vec<String> {
    s.history.iter().map(|r| r.meas_id.clone()).collect()
}

fn loaded(list: &[u32]) -> UiState {
    let mut s = UiState::default();
    s.tab = 1;
    refreshed(&mut s, Ok(runs(list)));
    s
}

#[test]
fn a_refresh_tells_the_difference() {
    let mut s = loaded(&[1, 2, 3]);
    assert_eq!(s.info, "Refreshed: 3 new run(s)");
    assert_eq!(s.history_loaded_count, 3);
    assert_eq!(s.charts_available_networks, ["net0", "net1"]);
    refreshed(&mut s, Ok(runs(&[1, 2, 4])));
    assert_eq!(s.info, "Refreshed");
    refreshed(&mut s, Ok(runs(&[2])));
    assert_eq!(s.info, "Refreshed: 2 run(s) removed");
    assert_eq!(s.charts_available_networks, ["net0"]);
    refreshed(&mut s, Err("no disk".to_string()));
    assert_eq!(s.info, "Refresh failed: no disk");
    assert_eq!(ids(&s), ["2"]);
}

#[test]
fn a_refresh_keeps_the_selection_inside() {
    let all: Vec<u32> = (0..50).collect();
    let mut s = loaded(&all);
    s.history_selected = 49;
    s.history_scroll_offset = 45;
    refreshed(&mut s, Ok(runs(&all[..30])));
    assert_eq!((s.history_selected, s.history_scroll_offset), (29, 10));
    refreshed(&mut s, Ok(runs(&all[..5])));
    assert_eq!((s.history_selected, s.history_scroll_offset), (4, 0));
    refreshed(&mut s, Ok(runs(&[])));
    assert_eq!((s.history_selected, s.history_scroll_offset), (0, 0));
}

#[test]
fn loading_more_appends_the_runs_that_are_new() {
    let mut s = loaded(&[1, 2]);
    extend_history(&mut s, Ok(runs(&[3, 2, 4, 1])));
    assert_eq!(ids(&s), ["1", "2", "3", "4"]);
    assert_eq!(s.history_loaded_count, 4);
    extend_history(&mut s, Ok(runs(&[3, 2, 4, 1])));
    assert_eq!(ids(&s), ["1", "2", "3", "4"]);
    extend_history(&mut s, Err("no disk".to_string()));
    assert_eq!(ids(&s), ["1", "2", "3", "4"]);
}

#[test]
fn an_export_shows_its_path() {
    let mut s = loaded(&[1]);
    s.history_export_modal_copied = true;
    exported(&mut s, ExportFormat::Csv, Ok("/tmp/a.csv".to_string()));
    assert!(s.history_export_modal_open);
    assert!(!s.history_export_modal_copied);
    assert_eq!(s.history_export_modal_path.as_deref(), Some("/tmp/a.csv"));
}

#[test]
fn a_failed_export_is_told() {
    let mut s = loaded(&[1]);
    exported(&mut s, ExportFormat::Json, Err("full".to_string()));
    assert_eq!(s.info, "JSON export failed: full");
    exported(&mut s, ExportFormat::Csv, Err("full".to_string()));
    assert_eq!(s.info, "CSV export failed: full");
    assert!(!s.history_export_modal_open);
    let mut s = UiState::default();
    exported(&mut s, ExportFormat::Json, Ok("x".to_string()));
    assert!(!s.history_export_modal_open);
}

#[test]
fn saving_a_comment_is_told() {
    let mut s = loaded(&[1]);
    comment_saved(&mut s, Ok(()));
    assert_eq!(s.info, "Comment saved");
    comment_saved(&mut s, Err("full".to_string()));
    assert_eq!(s.info, "Save comment failed: full");
}

#[test]
fn copying_a_path_is_noted() {
    let mut s = loaded(&[1]);
    path_copied(&mut s, Err("none".to_string()));
    assert_eq!(s.info, "Clipboard copy failed: none");
    assert!(!s.history_export_modal_copied);
    path_copied(&mut s, Ok(()));
    assert!(s.history_export_modal_copied);
}
