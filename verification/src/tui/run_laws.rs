//! What holds of the beginning and the end of a run, and of the start of the interface.

use crate::engine::dist::{dist_text, drawable};
use crate::engine::dscp::weights_of;
use crate::model::RunRecord;
use crate::tui::event_laws::{same_connection, same_interface};
use crate::tui::runs::{
    adopt_connection, begin_run, dscp_label, initial_load_size, keep_result, launch, list_run,
    note_update, reload_size, run_failed, run_join_failed, save_wanted, tell_exports, LaunchOptions,
    Metadata, NetworkInfo,
};
use crate::tui::state::{UiState, MAX_LOG_LINES};
use vstd::prelude::*;

verus! {

/// A run that begins forgets all that the last one measured, charted, diagnosed and logged,
/// and begins unpaused, with the idle phase and the clock's reading. What was selected,
/// opened or edited stays, as do the history, the connection, the addresses seen from
/// outside, and what is told.
#[verifier::spinoff_prover]
pub proof fn another_run_begins_at_nothing(state: &mut UiState, now: u64)
    requires
        call_ensures(begin_run, (state, now), ()),
    ensures
        final(state).run_start == now,
        final(state).phase is IdleLatency,
        !final(state).paused,
        final(state).last_result is None,
        final(state).dl_series@.len() == 0 && final(state).ul_series@.len() == 0,
        final(state).dl_points@.len() == 0 && final(state).ul_points@.len() == 0,
        final(state).dl_mbps.bits == 0 && final(state).ul_mbps.bits == 0,
        final(state).dl_avg_mbps.bits == 0 && final(state).ul_avg_mbps.bits == 0,
        final(state).dl_bytes_total == 0 && final(state).ul_bytes_total == 0,
        final(state).dl_phase_start is None && final(state).ul_phase_start is None,
        final(state).idle_lat_series@.len() == 0,
        final(state).idle_lat_points@.len() == 0,
        final(state).idle_latency_samples@.len() == 0,
        final(state).idle_latency_sent == 0 && final(state).idle_latency_received == 0,
        final(state).loaded_dl_lat_series@.len() == 0,
        final(state).loaded_dl_lat_points@.len() == 0,
        final(state).loaded_dl_latency_samples@.len() == 0,
        final(state).loaded_dl_latency_sent == 0 && final(state).loaded_dl_latency_received == 0,
        final(state).loaded_ul_lat_series@.len() == 0,
        final(state).loaded_ul_lat_points@.len() == 0,
        final(state).loaded_ul_latency_samples@.len() == 0,
        final(state).loaded_ul_latency_sent == 0 && final(state).loaded_ul_latency_received == 0,
        final(state).udp_loss_sent == 0 && final(state).udp_loss_received == 0,
        final(state).udp_loss_total == 0 && final(state).udp_loss_latest_rtt_ms is None,
        final(state).dns_summary is None && final(state).tls_summary is None,
        final(state).ip_comparison is None && final(state).traceroute_summary is None,
        final(state).traceroute_hops@.len() == 0,
        final(state).text_log@.len() == 0 && final(state).dashboard_log_scroll == 0,
        final(state).info == old(state).info,
        final(state).external_ipv4 == old(state).external_ipv4,
        final(state).external_ipv6 == old(state).external_ipv6,
        same_connection(*old(state), *final(state)),
        same_interface(
            (UiState {
                paused: false,
                run_start: now,
                last_result: None,
                ..*old(state)
            }),
            *final(state),
        ),
{
}

/// The result of a run is kept as it is, and the lines of its summary are appended to the log
/// in their order, of which the last ones stay. Nothing else changes.
pub proof fn results_are_kept_with_their_summary(
    state: &mut UiState,
    result: RunRecord,
    summary: Vec<String>,
)
    requires
        call_ensures(keep_result, (state, result, summary), ()),
    ensures
        final(state).last_result == Some(result),
        ({
            let all = old(state).text_log@ + summary@;
            let log = final(state).text_log@;
            &&& summary@.len() == 0 ==> log == old(state).text_log@
            &&& summary@.len() > 0 ==> log.len() == (if all.len() < MAX_LOG_LINES {
                all.len()
            } else {
                MAX_LOG_LINES as nat
            })
            &&& summary@.len() > 0 ==> forall|k: int|
                0 <= k < log.len() ==> #[trigger] log[k] == all[all.len() - log.len() + k]
        }),
        *final(state) == (UiState {
            last_result: final(state).last_result,
            text_log: final(state).text_log,
            ..*old(state)
        }),
{
}

/// What the exports came to is told with the format and the path, or the error, of each; JSON
/// comes before CSV. Where none was asked for, nothing changes.
pub proof fn exports_are_told_in_order(
    state: &mut UiState,
    json: Option<Result<String, String>>,
    csv: Option<Result<String, String>>,
)
    requires
        call_ensures(tell_exports, (state, json, csv), ()),
    ensures
        ({
            let j = match json {
                Some(Ok(path)) => "Exported JSON: "@ + path@,
                Some(Err(e)) => "Export JSON failed: "@ + e@,
                None => Seq::empty(),
            };
            let c = match csv {
                Some(Ok(path)) => "Exported CSV: "@ + path@,
                Some(Err(e)) => "Export CSV failed: "@ + e@,
                None => Seq::empty(),
            };
            &&& json is Some && csv is Some ==> final(state).info@ == j + "; "@ + c
            &&& json is Some && csv is None ==> final(state).info@ == j
            &&& json is None && csv is Some ==> final(state).info@ == c
            &&& json is None && csv is None ==> final(state).info == old(state).info
        }),
        *final(state) == (UiState { info: final(state).info, ..*old(state) }),
{
    reveal_with_fuel(crate::text::joined, 3);
    let messages = crate::tui::runs::export_messages(json, csv);
    if json is Some && csv is Some {
        assert(messages.len() == 2);
        assert(messages.drop_last() =~= seq![messages[0]]);
    } else if json is Some || csv is Some {
        assert(messages.len() == 1);
    }
}

/// After a run, at least one run more is loaded than was before, and at least as many as at
/// first, and no more than the greater of the two.
pub proof fn one_run_more_is_loaded_after_a_run(state: &UiState, r: usize)
    requires
        state.history_loaded_count < usize::MAX,
        call_ensures(reload_size, (state,), r),
    ensures
        r > state.history_loaded_count,
        r >= state.initial_history_load_size,
        r == state.history_loaded_count + 1 || r == state.initial_history_load_size,
{
}

/// At first, at least 20 runs are loaded, and at least three for each row below the two that
/// are taken by the frame, and no more than the greater of the two.
pub proof fn three_screens_are_loaded_at_first(height: Option<u16>, r: usize)
    requires
        call_ensures(initial_load_size, (height,), r),
    ensures
        r >= 20,
        height is Some ==> r + 6 >= 3 * height->0,
        height is Some ==> r == 20 || r + 6 == 3 * height->0,
        height is None ==> r + 6 == 3 * 24,
{
}

/// The history loaded after a run is shown as it is. On the history tab, the first run is
/// selected then, which is the new one; on any other tab the selection stays.
#[verifier::spinoff_prover]
pub proof fn new_run_is_selected_on_its_tab(state: &mut UiState, runs: Vec<RunRecord>)
    requires
        call_ensures(list_run, (state, runs), ()),
    ensures
        final(state).history == runs,
        final(state).history_loaded_count == runs.len(),
        old(state).tab == 1 ==> final(state).history_selected == 0 && final(
            state
        ).history_scroll_offset == 0,
        old(state).tab != 1 ==> final(state).history_selected == old(state).history_selected
            && final(state).history_scroll_offset == old(state).history_scroll_offset,
        *final(state) == (UiState {
            history: final(state).history,
            history_loaded_count: final(state).history_loaded_count,
            history_selected: final(state).history_selected,
            history_scroll_offset: final(state).history_scroll_offset,
            charts_available_networks: final(state).charts_available_networks,
            charts_network_filter: final(state).charts_network_filter,
            ..*old(state)
        }),
{
    assert(runs.len() == runs@.len());
}

/// A run that failed is told with its error, and changes nothing else; so is one that did not
/// come to its end. What the check for updates came to is kept as it is.
pub proof fn failures_and_updates_are_told(
    state: &mut UiState,
    error: &str,
    newer: Option<String>,
)
    ensures
        call_ensures(run_failed, (state, error), ()) ==> final(state).info@ == "Run failed: "@
            + error@ && *final(state) == (UiState { info: final(state).info, ..*old(state) }),
        call_ensures(run_join_failed, (state, error), ()) ==> final(state).info@
            == "Run join failed: "@ + error@ && *final(state) == (UiState {
            info: final(state).info,
            ..*old(state)
        }),
        call_ensures(note_update, (state, newer), ()) ==> *final(state) == (UiState {
            update_status: Some(newer),
            ..*old(state)
        }),
{
}

/// The connection is what the result says of it, field by field; what it does not say stays.
pub proof fn connection_is_what_the_result_says(
    state: &mut UiState,
    meta: Option<Metadata>,
    server: Option<String>,
)
    requires
        call_ensures(adopt_connection, (state, meta, server), ()),
    ensures
        final(state).server == (if server is Some {
            server
        } else {
            old(state).server
        }),
        meta is Some ==> {
            &&& final(state).ip == meta->0.ip
            &&& final(state).colo == meta->0.colo
            &&& final(state).asn == meta->0.asn
            &&& final(state).as_org == meta->0.as_org
        },
        meta is None ==> {
            &&& final(state).ip == old(state).ip
            &&& final(state).colo == old(state).colo
            &&& final(state).asn == old(state).asn
            &&& final(state).as_org == old(state).as_org
        },
        *final(state) == (UiState {
            server: final(state).server,
            ip: final(state).ip,
            colo: final(state).colo,
            asn: final(state).asn,
            as_org: final(state).as_org,
            ..*old(state)
        }),
{
}

/// A result is to be saved exactly where saving by itself is on.
pub proof fn results_are_saved_where_that_is_on(state: &UiState, r: bool)
    requires
        call_ensures(save_wanted, (state,), r),
    ensures
        r <==> state.auto_save,
{
}

/// There is a label exactly where a specifier was given and is accepted; it shows the
/// distribution of what the specifier stands for.
pub proof fn label_shows_the_distribution(dscp: &Option<String>, r: Option<String>)
    requires
        call_ensures(dscp_label, (dscp,), r),
    ensures
        r is Some <==> *dscp is Some && weights_of((*dscp)->0@) is Ok,
        r is Some ==> r->0@ == dist_text(drawable(weights_of((*dscp)->0@)->Ok_0)),
{
}

/// The interface starts on the dashboard, with the options and the network as they are given,
/// each under its own name, with the runs that were loaded, and with nothing measured,
/// opened or told.
#[verifier::spinoff_prover]
pub proof fn interface_starts_as_it_is_told(
    options: LaunchOptions,
    network: NetworkInfo,
    load_size: usize,
    runs: Vec<RunRecord>,
    now: u64,
    t: UiState,
)
    requires
        call_ensures(launch, (options, network, load_size, runs, now), t),
    ensures
        t.auto_save == options.auto_save,
        t.comments == options.comments,
        t.hide_network_info == options.hide_network_info,
        t.certificate_filename == options.certificate_filename,
        t.proxy_url == options.proxy,
        t.traceroute_enabled == options.traceroute,
        t.traceroute_max_hops == options.traceroute_max_hops,
        t.interface_name == network.interface_name,
        t.network_name == network.network_name,
        t.is_wireless == network.is_wireless,
        t.interface_mac == network.interface_mac,
        t.local_ipv4 == network.local_ipv4,
        t.local_ipv6 == network.local_ipv6,
        t.initial_history_load_size == load_size,
        t.history == runs,
        t.history_loaded_count == runs.len(),
        t.dscp_label is Some <==> options.dscp is Some && weights_of(options.dscp->0@) is Ok,
        t.dscp_label is Some ==> t.dscp_label->0@ == dist_text(
            drawable(weights_of(options.dscp->0@)->Ok_0),
        ),
        t.run_start == now,
        t.tab == 0,
        !t.paused,
        t.phase is IdleLatency,
        t.info@.len() == 0,
        t.last_result is None,
        t.history_selected == 0,
        t.dl_series@.len() == 0 && t.ul_series@.len() == 0 && t.text_log@.len() == 0,
        t.dl_points@.len() == 0 && t.ul_points@.len() == 0 && t.idle_lat_points@.len() == 0,
        t.idle_latency_sent == 0 && t.loaded_dl_latency_sent == 0 && t.loaded_ul_latency_sent == 0,
        !t.history_filter_editing && t.history_filter@.len() == 0,
        !t.history_detail_view && !t.history_menu_open,
        !t.history_export_modal_open && !t.history_comment_modal_open,
        t.update_status is None,
{
    assert(runs.len() == runs@.len());
}

} // verus!
