//! The history tab: what follows when runs were loaded, exported, saved or deleted.

use crate::model::RunRecord;
use crate::text::{decimal, push_decimal};
use crate::tui::networks::{networks_updated, update_available_networks};
use crate::tui::state::{less, says, UiState};
use vstd::prelude::*;

verus! {

/// A state whose selection and scroll offset lie inside the history: a selection past the
/// end becomes the last run, an offset past the end 20 rows from it.
pub open spec fn fitted(s: UiState) -> UiState {
    let n = s.history@.len();
    UiState {
        history_selected: if n == 0 {
            0
        } else if s.history_selected >= n {
            (n - 1) as usize
        } else {
            s.history_selected
        },
        history_scroll_offset: if n == 0 {
            0
        } else if s.history_scroll_offset >= n {
            less(n as int, 20)
        } else {
            s.history_scroll_offset
        },
        ..s
    }
}

/// Brings selection and scroll offset inside the history.
fn fit(state: &mut UiState)
    ensures
        *final(state) == fitted(*old(state)),
{
    let n = state.history.len();
    if n == 0 {
        state.history_selected = 0;
        state.history_scroll_offset = 0;
        return;
    }
    if state.history_selected >= n {
        state.history_selected = n - 1;
    }
    if state.history_scroll_offset >= n {
        state.history_scroll_offset = if n > 20 {
            n - 20
        } else {
            0
        };
    }
}

/// Sets the info line to two texts in a row.
pub fn tell(state: &mut UiState, text: &str, detail: &str)
    ensures
        says(*old(state), *final(state), text@ + detail@),
{
    let mut info = text.to_string();
    info.append(detail);
    state.info = info;
}

/// A history with other runs: they are what is loaded, and the networks of the charts are
/// theirs.
pub open spec fn history_replaced(s: UiState, t: UiState, runs: Vec<RunRecord>) -> bool {
    networks_updated(
        UiState { history: runs, history_loaded_count: runs@.len() as usize, ..s },
        t,
    )
}

/// Replaces the runs of the history.
pub fn replace_history(state: &mut UiState, runs: Vec<RunRecord>)
    ensures
        history_replaced(*old(state), *final(state), runs),
        final(state).chart_filter_valid(),
{
    state.history_loaded_count = runs.len();
    state.history = runs;
    update_available_networks(state);
}

/// What a refresh tells: how many runs more or fewer there are.
pub open spec fn refresh_text(before: nat, after: nat) -> Seq<char> {
    if after > before {
        "Refreshed: "@ + decimal((after - before) as nat) + " new run(s)"@
    } else if after < before {
        "Refreshed: "@ + decimal((before - after) as nat) + " run(s) removed"@
    } else {
        "Refreshed"@
    }
}

/// What a refresh tells.
fn refresh_info(before: usize, after: usize) -> (r: String)
    ensures
        r@ == refresh_text(before as nat, after as nat),
{
    if after == before {
        return "Refreshed".to_string();
    }
    let mut r = "Refreshed: ".to_string();
    if after > before {
        push_decimal(&mut r, (after - before) as u128);
        r.append(" new run(s)");
    } else {
        push_decimal(&mut r, (before - after) as u128);
        r.append(" run(s) removed");
    }
    r
}

/// What a refresh of the history does: the loaded runs take the place of the old ones, the
/// selection and the offset are brought inside, and the difference is told. Where loading
/// failed, only that is told.
pub open spec fn history_refreshed(
    s: UiState,
    t: UiState,
    outcome: Result<Vec<RunRecord>, String>,
) -> bool {
    match outcome {
        Ok(runs) => {
            let replaced = UiState {
                history: runs,
                history_loaded_count: runs@.len() as usize,
                charts_available_networks: t.charts_available_networks,
                charts_network_filter: t.charts_network_filter,
                ..s
            };
            &&& history_replaced(s, replaced, runs)
            &&& says(fitted(replaced), t, refresh_text(s.history@.len(), runs@.len()))
        },
        Err(e) => says(s, t, "Refresh failed: "@ + e@),
    }
}

/// Takes what loading the history again came to.
pub fn refreshed(state: &mut UiState, outcome: Result<Vec<RunRecord>, String>)
    ensures
        history_refreshed(*old(state), *final(state), outcome),
        old(state).wf() ==> final(state).wf(),
{
    match outcome {
        Ok(runs) => {
            let before = state.history.len();
            let after = runs.len();
            replace_history(state, runs);
            fit(state);
            state.info = refresh_info(before, after);
        },
        Err(e) => {
            tell(state, "Refresh failed: ", e.as_str());
        },
    }
}

/// Whether a run with that identity is in the history.
pub open spec fn known(history: Seq<RunRecord>, id: Seq<char>) -> bool {
    exists|i: int| 0 <= i < history.len() && #[trigger] history[i].meas_id@ == id
}

/// The runs of `more` whose identity is not in the history, in their order.
pub open spec fn unknown(history: Seq<RunRecord>, more: Seq<RunRecord>) -> Seq<RunRecord>
    decreases more.len(),
{
    if more.len() == 0 {
        Seq::empty()
    } else {
        let before = unknown(history, more.drop_last());
        if known(history, more.last().meas_id@) {
            before
        } else {
            before.push(more.last())
        }
    }
}

/// Whether a run with that identity is in the history.
fn is_known(history: &[RunRecord], id: &String) -> (r: bool)
    ensures
        r == known(history@, id@),
{
    for i in 0..history.len()
        invariant
            forall|j: int| 0 <= j < i ==> #[trigger] history@[j].meas_id@ != id@,
    {
        if history[i].meas_id == *id {
            assert(history@[i as int].meas_id@ == id@);
            return true;
        }
    }
    false
}

/// The runs of `more` whose identity is not in the history.
fn pick_unknown(history: &[RunRecord], more: Vec<RunRecord>) -> (r: Vec<RunRecord>)
    ensures
        r@ == unknown(history@, more@),
{
    let mut r: Vec<RunRecord> = Vec::new();
    let ghost all = more@;
    for run in it: more
        invariant
            it.seq() == all,
            r@ == unknown(history@, all.take(it.index() as int)),
    {
        proof {
            let k = it.index() as int;
            assert(all.take(k + 1).drop_last() =~= all.take(k));
            assert(all.take(k + 1).last() == all[k]);
        }
        if !is_known(history, &run.meas_id) {
            r.push(run);
        }
    }
    assert(all.take(all.len() as int) =~= all);
    r
}

/// What loading more runs does: those not yet there are appended, and the networks of the
/// charts follow. Where there are none, or loading failed, nothing happens.
pub open spec fn history_extended(
    s: UiState,
    t: UiState,
    outcome: Result<Vec<RunRecord>, String>,
) -> bool {
    match outcome {
        Ok(more) => {
            let new = unknown(s.history@, more@);
            if new.len() == 0 {
                t == s
            } else {
                &&& t.history@ == s.history@ + new
                &&& history_replaced(s, t, t.history)
            }
        },
        Err(_) => t == s,
    }
}

/// Takes what loading more of the history came to.
pub fn extend_history(state: &mut UiState, outcome: Result<Vec<RunRecord>, String>)
    ensures
        history_extended(*old(state), *final(state), outcome),
        old(state).wf() ==> final(state).wf(),
{
    match outcome {
        Ok(more) => {
            let mut new = pick_unknown(state.history.as_slice(), more);
            if new.len() > 0 {
                state.history.append(&mut new);
                state.history_loaded_count = state.history.len();
                update_available_networks(state);
            }
        },
        Err(_) => {},
    }
}

/// A format to export a run in.
#[derive(Debug, Clone, Copy, PartialEq, Eq, Structural)]
pub enum ExportFormat {
    Json,
    Csv,
}

/// What an export does: the result is shown with the path of the file, which has not been
/// copied yet. Where it failed, only that is told. Without a selected run nothing happens.
pub open spec fn run_exported(
    s: UiState,
    t: UiState,
    format: ExportFormat,
    outcome: Result<String, String>,
) -> bool {
    if s.history_selected < s.history@.len() {
        match outcome {
            Ok(path) => t == (UiState {
                history_export_modal_open: true,
                history_export_modal_path: Some(path),
                history_export_modal_copied: false,
                ..s
            }),
            Err(e) => says(
                s,
                t,
                match format {
                    ExportFormat::Json => "JSON export failed: "@,
                    ExportFormat::Csv => "CSV export failed: "@,
                } + e@,
            ),
        }
    } else {
        t == s
    }
}

/// Shows the result of an export.
fn open_export_modal(state: &mut UiState, path: String)
    ensures
        *final(state) == (UiState {
            history_export_modal_open: true,
            history_export_modal_path: Some(path),
            history_export_modal_copied: false,
            ..*old(state)
        }),
{
    state.history_export_modal_open = true;
    state.history_export_modal_path = Some(path);
    state.history_export_modal_copied = false;
}

/// Takes what exporting the selected run came to: the path of the file, or an error.
pub fn exported(state: &mut UiState, format: ExportFormat, outcome: Result<String, String>)
    ensures
        run_exported(*old(state), *final(state), format, outcome),
        old(state).wf() ==> final(state).wf(),
{
    if state.history_selected >= state.history.len() {
        return;
    }
    match outcome {
        Ok(path) => open_export_modal(state, path),
        Err(e) => match format {
            ExportFormat::Json => tell(state, "JSON export failed: ", e.as_str()),
            ExportFormat::Csv => tell(state, "CSV export failed: ", e.as_str()),
        },
    }
}

/// What a deletion does: the selected run leaves the history, and the selection and the
/// offset are brought inside. Where it failed, only that is told. Without a selected run
/// nothing happens.
pub open spec fn run_deleted(s: UiState, t: UiState, outcome: Result<(), String>) -> bool {
    if s.history_selected < s.history@.len() {
        match outcome {
            Ok(()) => {
                &&& t.history@ == s.history@.remove(s.history_selected as int)
                &&& says(fitted(UiState { history: t.history, ..s }), t, "Deleted"@)
            },
            Err(e) => says(s, t, "Delete failed: "@ + e@),
        }
    } else {
        t == s
    }
}

/// Takes what deleting the selected run from the disk came to.
pub fn deleted(state: &mut UiState, outcome: Result<(), String>)
    ensures
        run_deleted(*old(state), *final(state), outcome),
        old(state).wf() ==> final(state).wf(),
{
    let i = state.history_selected;
    if i >= state.history.len() {
        return;
    }
    match outcome {
        Ok(()) => {
            let _ = state.history.remove(i);
            fit(state);
            state.info = "Deleted".to_string();
        },
        Err(e) => tell(state, "Delete failed: ", e.as_str()),
    }
}

/// Takes what saving a comment came to.
pub fn comment_saved(state: &mut UiState, outcome: Result<(), String>)
    ensures
        says(
            *old(state),
            *final(state),
            match outcome {
                Ok(()) => "Comment saved"@,
                Err(e) => "Save comment failed: "@ + e@,
            },
        ),
        old(state).wf() ==> final(state).wf(),
{
    match outcome {
        Ok(()) => {
            state.info = "Comment saved".to_string();
        },
        Err(e) => tell(state, "Save comment failed: ", e.as_str()),
    }
}

/// Takes what copying the path of an export came to.
pub fn path_copied(state: &mut UiState, outcome: Result<(), String>)
    ensures
        match outcome {
            Ok(()) => *final(state) == (UiState {
                history_export_modal_copied: true,
                ..*old(state)
            }),
            Err(e) => says(*old(state), *final(state), "Clipboard copy failed: "@ + e@),
        },
        old(state).wf() ==> final(state).wf(),
{
    match outcome {
        Ok(()) => {
            state.history_export_modal_copied = true;
        },
        Err(e) => tell(state, "Clipboard copy failed: ", e.as_str()),
    }
}

} // verus!
