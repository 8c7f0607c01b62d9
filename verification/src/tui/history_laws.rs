//! What holds of the history: what becomes of it when runs were loaded, exported or deleted.

use crate::model::RunRecord;
use crate::text::decimal;
use crate::tui::history::{
    comment_saved, deleted, exported, extend_history, path_copied, refreshed, unknown, ExportFormat,
};
use crate::tui::state::UiState;
use vstd::prelude::*;

verus! {

/// A refresh shows exactly the runs that were loaded, in their order, and counts them. The
/// selection stays where it is, or moves to the last run where it would be past the end; so
/// does the first row shown, or else it is the twentieth from the end. How
/// many runs more or fewer there are is told. Only the networks of the charts follow.
#[verifier::spinoff_prover]
pub proof fn refresh_shows_what_was_loaded(state: &mut UiState, runs: Vec<RunRecord>)
    requires
        call_ensures(refreshed, (state, Ok::<Vec<RunRecord>, String>(runs)), ()),
    ensures
        final(state).history == runs,
        final(state).history_loaded_count == runs@.len(),
        runs@.len() == 0 ==> final(state).history_selected == 0,
        old(state).history_selected < runs@.len() ==> final(state).history_selected == old(
            state
        ).history_selected,
        0 < runs@.len() <= old(state).history_selected ==> final(state).history_selected + 1
            == runs@.len(),
        runs@.len() > 0 ==> final(state).history_scroll_offset < runs@.len(),
        old(state).history_scroll_offset < runs@.len() ==> final(state).history_scroll_offset
            == old(state).history_scroll_offset,
        20 < runs@.len() <= old(state).history_scroll_offset ==> final(state).history_scroll_offset
            + 20 == runs@.len(),
        runs@.len() <= old(state).history_scroll_offset && runs@.len() <= 20 ==> final(
            state
        ).history_scroll_offset == 0,
        runs@.len() > old(state).history@.len() ==> final(state).info@ == "Refreshed: "@ + decimal(
            (runs@.len() - old(state).history@.len()) as nat,
        ) + " new run(s)"@,
        runs@.len() < old(state).history@.len() ==> final(state).info@ == "Refreshed: "@ + decimal(
            (old(state).history@.len() - runs@.len()) as nat,
        ) + " run(s) removed"@,
        runs@.len() == old(state).history@.len() ==> final(state).info@ == "Refreshed"@,
        *final(state) == (UiState {
            history: final(state).history,
            history_loaded_count: final(state).history_loaded_count,
            history_selected: final(state).history_selected,
            history_scroll_offset: final(state).history_scroll_offset,
            charts_available_networks: final(state).charts_available_networks,
            charts_network_filter: final(state).charts_network_filter,
            info: final(state).info,
            ..*old(state)
        }),
{
    assert(runs.len() == runs@.len());
}

/// A refresh that fails changes nothing but what is told, and tells the error.
pub proof fn failed_refresh_keeps_the_history(state: &mut UiState, e: String)
    requires
        call_ensures(refreshed, (state, Err::<Vec<RunRecord>, String>(e)), ()),
    ensures
        final(state).info@ == "Refresh failed: "@ + e@,
        *final(state) == (UiState { info: final(state).info, ..*old(state) }),
{
}

/// A history to which the runs of `more` were added that were missing: every run that was
/// there is in its place, after them come runs of `more` whose identity was not there, and
/// every run of `more` is there by its identity.
pub open spec fn completed(
    before: Seq<RunRecord>,
    more: Seq<RunRecord>,
    after: Seq<RunRecord>,
) -> bool {
    &&& after.len() >= before.len()
    &&& forall|i: int| 0 <= i < before.len() ==> #[trigger] after[i] == before[i]
    &&& forall|i: int|
        before.len() <= i < after.len() ==> exists|j: int|
            0 <= j < more.len() && #[trigger] more[j] == #[trigger] after[i]
    &&& forall|i: int, k: int|
        before.len() <= i < after.len() && 0 <= k < before.len() ==> (
        #[trigger] before[k]).meas_id@ != (#[trigger] after[i]).meas_id@
    &&& forall|j: int|
        0 <= j < more.len() ==> exists|i: int|
            0 <= i < after.len() && (#[trigger] after[i]).meas_id@ == (#[trigger] more[j]).meas_id@
}

/// What is not known yet completes a history.
proof fn lemma_completed(before: Seq<RunRecord>, more: Seq<RunRecord>)
    ensures
        completed(before, more, before + unknown(before, more)),
{
    let new = unknown(before, more);
    let after = before + new;
    lemma_unknown(before, more);
    assert forall|i: int| before.len() <= i < after.len() implies exists|j: int|
        0 <= j < more.len() && #[trigger] more[j] == #[trigger] after[i] by {
        let n = new[i - before.len()];
        let j = choose|j: int| 0 <= j < more.len() && #[trigger] more[j] == n;
        assert(more[j] == after[i]);
    }
    assert forall|i: int, k: int|
        before.len() <= i < after.len() && 0 <= k < before.len() implies (
    #[trigger] before[k]).meas_id@ != (#[trigger] after[i]).meas_id@ by {
        assert(after[i] == new[i - before.len()]);
        assert(before[k].meas_id@ != new[i - before.len()].meas_id@);
    }
    assert forall|j: int| 0 <= j < more.len() implies exists|i: int|
        0 <= i < after.len() && (#[trigger] after[i]).meas_id@ == (#[trigger] more[j]).meas_id@ by {
        if exists|k: int| 0 <= k < before.len() && #[trigger] before[k].meas_id@
            == more[j].meas_id@ {
            let k = choose|k: int|
                0 <= k < before.len() && #[trigger] before[k].meas_id@ == more[j].meas_id@;
            assert(after[k].meas_id@ == more[j].meas_id@);
        } else {
            let i = choose|i: int| 0 <= i < new.len() && #[trigger] new[i] == more[j];
            assert(after[before.len() + i] == new[i]);
        }
    }
}

/// Loading more keeps every run that is there in its place and adds, after them, runs of those
/// loaded whose identity was not there. Afterwards every loaded run is there by its
/// identity. The selection stays.
#[verifier::spinoff_prover]
pub proof fn loading_more_adds_what_is_missing(state: &mut UiState, more: Vec<RunRecord>)
    requires
        call_ensures(extend_history, (state, Ok::<Vec<RunRecord>, String>(more)), ()),
    ensures
        completed(old(state).history@, more@, final(state).history@),
        final(state).history_selected == old(state).history_selected,
        final(state).history@.len() > old(state).history@.len() ==> final(
            state
        ).history_loaded_count == final(state).history@.len(),
        *final(state) == (UiState {
            history: final(state).history,
            history_loaded_count: final(state).history_loaded_count,
            charts_available_networks: final(state).charts_available_networks,
            charts_network_filter: final(state).charts_network_filter,
            ..*old(state)
        }),
{
    let before = old(state).history@;
    let new = unknown(before, more@);
    lemma_completed(before, more@);
    if new.len() == 0 {
        assert(before + new =~= before);
    }
    assert(final(state).history.len() == final(state).history@.len());
    assert(final(state).history@ == before + new);
}

/// What is not known yet is among the runs given, has no known identity, and is all of them
/// that have none.
proof fn lemma_unknown(history: Seq<RunRecord>, more: Seq<RunRecord>)
    ensures
        forall|i: int|
            0 <= i < unknown(history, more).len() ==> {
                &&& exists|j: int|
                    0 <= j < more.len() && #[trigger] more[j] == #[trigger] unknown(
                        history,
                        more,
                    )[i]
                &&& forall|k: int|
                    0 <= k < history.len() ==> #[trigger] history[k].meas_id@ != unknown(
                        history,
                        more,
                    )[i].meas_id@
            },
        forall|j: int|
            0 <= j < more.len() && (forall|k: int|
                0 <= k < history.len() ==> #[trigger] history[k].meas_id@ != more[j].meas_id@)
                ==> exists|i: int|
                0 <= i < unknown(history, more).len() && #[trigger] unknown(history, more)[i]
                    == #[trigger] more[j],
    decreases more.len(),
{
    if more.len() > 0 {
        let front = more.drop_last();
        let before = unknown(history, front);
        let now = unknown(history, more);
        lemma_unknown(history, front);
        assert forall|i: int| 0 <= i < now.len() implies {
            &&& exists|j: int| 0 <= j < more.len() && #[trigger] more[j] == #[trigger] now[i]
            &&& forall|k: int|
                0 <= k < history.len() ==> #[trigger] history[k].meas_id@ != now[i].meas_id@
        } by {
            if i < before.len() {
                assert(now[i] == before[i]);
                let j = choose|j: int| 0 <= j < front.len() && #[trigger] front[j] == before[i];
                assert(more[j] == now[i]);
            } else {
                assert(more[more.len() - 1] == now[i]);
            }
        }
        assert forall|j: int|
            0 <= j < more.len() && (forall|k: int|
                0 <= k < history.len() ==> #[trigger] history[k].meas_id@ != more[j].meas_id@)
            implies exists|i: int|
            0 <= i < now.len() && #[trigger] now[i] == #[trigger] more[j] by {
            if j < front.len() {
                assert(front[j] == more[j]);
                let i = choose|i: int| 0 <= i < before.len() && #[trigger] before[i] == front[j];
                assert(now[i] == before[i]);
            } else {
                assert(now[now.len() - 1] == more[j]);
            }
        }
    }
}

/// What was loaded in two parts is added in the same order as if it were loaded at once.
pub proof fn missing_runs_keep_their_order(
    history: Seq<RunRecord>,
    a: Seq<RunRecord>,
    b: Seq<RunRecord>,
)
    ensures
        unknown(history, a + b) == unknown(history, a) + unknown(history, b),
    decreases b.len(),
{
    if b.len() == 0 {
        assert(a + b =~= a);
        assert(unknown(history, a) + unknown(history, b) =~= unknown(history, a));
    } else {
        missing_runs_keep_their_order(history, a, b.drop_last());
        assert((a + b).drop_last() =~= a + b.drop_last());
        assert(unknown(history, a + b) =~= unknown(history, a) + unknown(history, b));
    }
}

/// Loading more that fails changes nothing at all.
pub proof fn failed_loading_changes_nothing(state: &mut UiState, e: String)
    requires
        call_ensures(extend_history, (state, Err::<Vec<RunRecord>, String>(e)), ()),
    ensures
        *final(state) == *old(state),
{
}

/// A deletion takes the selected run out of the history and no other, and keeps the others in
/// their order. The run after it is selected then, or the last one where there is none after
/// it. A failed deletion keeps every run, and tells the error.
#[verifier::spinoff_prover]
pub proof fn deletion_takes_the_selected_run(state: &mut UiState, outcome: Result<(), String>)
    requires
        old(state).history_selected < old(state).history@.len(),
        call_ensures(deleted, (state, outcome), ()),
    ensures
        outcome is Ok ==> {
            let i = old(state).history_selected as int;
            let n = old(state).history@.len();
            &&& final(state).history@.len() == n - 1
            &&& forall|j: int|
                0 <= j < i ==> #[trigger] final(state).history@[j] == old(state).history@[j]
            &&& forall|j: int|
                i <= j < n - 1 ==> #[trigger] final(state).history@[j] == old(state).history@[j + 1]
            &&& i < n - 1 ==> final(state).history_selected == i
            &&& i == n - 1 && n > 1 ==> final(state).history_selected == n - 2
            &&& n == 1 ==> final(state).history_selected == 0
            &&& old(state).history_scroll_offset < n - 1 ==> final(state).history_scroll_offset
                == old(state).history_scroll_offset
            &&& n - 1 <= old(state).history_scroll_offset && 21 < n ==> final(
                state
            ).history_scroll_offset + 21 == n
            &&& n - 1 <= old(state).history_scroll_offset && n <= 21 ==> final(
                state
            ).history_scroll_offset == 0
            &&& final(state).info@ == "Deleted"@
        },
        outcome is Err ==> {
            &&& final(state).history == old(state).history
            &&& final(state).history_selected == old(state).history_selected
            &&& final(state).history_scroll_offset == old(state).history_scroll_offset
            &&& final(state).info@ == "Delete failed: "@ + outcome->Err_0@
        },
        *final(state) == (UiState {
            history: final(state).history,
            history_selected: final(state).history_selected,
            history_scroll_offset: final(state).history_scroll_offset,
            info: final(state).info,
            ..*old(state)
        }),
{
}

/// An export that worked is shown with its path, which has not been copied yet; one that
/// failed is told with its format and its error, and shows nothing.
#[verifier::spinoff_prover]
pub proof fn export_is_shown_with_its_path(
    state: &mut UiState,
    format: ExportFormat,
    outcome: Result<String, String>,
)
    requires
        old(state).history_selected < old(state).history@.len(),
        call_ensures(exported, (state, format, outcome), ()),
    ensures
        outcome is Ok ==> {
            &&& final(state).history_export_modal_open
            &&& final(state).history_export_modal_path == Some(outcome->Ok_0)
            &&& !final(state).history_export_modal_copied
            &&& final(state).info == old(state).info
        },
        outcome is Err ==> {
            &&& final(state).history_export_modal_open == old(state).history_export_modal_open
            &&& final(state).history_export_modal_path == old(state).history_export_modal_path
            &&& final(state).history_export_modal_copied == old(state).history_export_modal_copied
            &&& final(state).info@ == (match format {
                ExportFormat::Json => "JSON export failed: "@,
                ExportFormat::Csv => "CSV export failed: "@,
            }) + outcome->Err_0@
        },
        *final(state) == (UiState {
            history_export_modal_open: final(state).history_export_modal_open,
            history_export_modal_path: final(state).history_export_modal_path,
            history_export_modal_copied: final(state).history_export_modal_copied,
            info: final(state).info,
            ..*old(state)
        }),
{
}

/// Without a selected run, nothing comes of a deletion or of an export.
pub proof fn nothing_is_done_without_a_selected_run(
    state: &mut UiState,
    format: ExportFormat,
    path: Result<String, String>,
    outcome: Result<(), String>,
)
    requires
        old(state).history_selected >= old(state).history@.len(),
    ensures
        call_ensures(exported, (state, format, path), ()) ==> *final(state) == *old(state),
        call_ensures(deleted, (state, outcome), ()) ==> *final(state) == *old(state),
{
}

/// What became of saving a comment is told, and of copying a path shown; an error is told with
/// its text. Nothing else changes.
pub proof fn outcomes_are_told(state: &mut UiState, outcome: Result<(), String>)
    ensures
        call_ensures(comment_saved, (state, outcome), ()) ==> {
            &&& outcome is Ok ==> final(state).info@ == "Comment saved"@
            &&& outcome is Err ==> final(state).info@ == "Save comment failed: "@
                + outcome->Err_0@
            &&& *final(state) == (UiState { info: final(state).info, ..*old(state) })
        },
        call_ensures(path_copied, (state, outcome), ()) ==> {
            &&& outcome is Ok ==> *final(state) == (UiState {
                history_export_modal_copied: true,
                ..*old(state)
            })
            &&& outcome is Err ==> final(state).info@ == "Clipboard copy failed: "@
                + outcome->Err_0@ && *final(state) == (UiState {
                info: final(state).info,
                ..*old(state)
            })
        },
{
}

} // verus!
