//! What holds of the events of a test run: what each of them shows, and what it leaves alone.

use crate::model::Phase;
use crate::tui::events::{
    apply_event, dl_counted, dl_plotted, dl_sampled, event_applied, event_noted, lines_logged,
    phase_begun, sample_taken, throughput_taken, ul_counted, ul_plotted, ul_sampled, LatencyPoint,
    TestEvent, Throughput,
};
use crate::tui::state::{UiState, MAX_LOG_LINES, MAX_POINTS, MAX_SERIES};
use vstd::prelude::*;

verus! {

/// A list that has grown by `x` at its end and lost at its beginning what is more than `max`.
pub open spec fn grown_by<T>(before: Seq<T>, after: Seq<T>, x: T, max: nat) -> bool {
    &&& after.len() == (if before.len() < max {
        before.len() + 1
    } else {
        max
    })
    &&& after.len() > 0 ==> after.last() == x
    &&& forall|k: int|
        0 <= k < after.len() - 1 ==> #[trigger] after[k] == before[before.len() + 1 - after.len()
            + k]
}

/// Two states with the same reading of the download.
pub open spec fn same_download(s: UiState, t: UiState) -> bool {
    &&& t.dl_series == s.dl_series
    &&& t.dl_points == s.dl_points
    &&& t.dl_mbps == s.dl_mbps
    &&& t.dl_avg_mbps == s.dl_avg_mbps
    &&& t.dl_bytes_total == s.dl_bytes_total
    &&& t.dl_phase_start == s.dl_phase_start
}

/// Two states with the same reading of the upload.
pub open spec fn same_upload(s: UiState, t: UiState) -> bool {
    &&& t.ul_series == s.ul_series
    &&& t.ul_points == s.ul_points
    &&& t.ul_mbps == s.ul_mbps
    &&& t.ul_avg_mbps == s.ul_avg_mbps
    &&& t.ul_bytes_total == s.ul_bytes_total
    &&& t.ul_phase_start == s.ul_phase_start
}

/// Two states with the same latency in the idle phase.
pub open spec fn same_idle_latency(s: UiState, t: UiState) -> bool {
    &&& t.idle_lat_series == s.idle_lat_series
    &&& t.idle_lat_points == s.idle_lat_points
    &&& t.idle_latency_samples == s.idle_latency_samples
    &&& t.idle_latency_sent == s.idle_latency_sent
    &&& t.idle_latency_received == s.idle_latency_received
}

/// Two states with the same latency during the download.
pub open spec fn same_dl_latency(s: UiState, t: UiState) -> bool {
    &&& t.loaded_dl_lat_series == s.loaded_dl_lat_series
    &&& t.loaded_dl_lat_points == s.loaded_dl_lat_points
    &&& t.loaded_dl_latency_samples == s.loaded_dl_latency_samples
    &&& t.loaded_dl_latency_sent == s.loaded_dl_latency_sent
    &&& t.loaded_dl_latency_received == s.loaded_dl_latency_received
}

/// Two states with the same latency during the upload.
pub open spec fn same_ul_latency(s: UiState, t: UiState) -> bool {
    &&& t.loaded_ul_lat_series == s.loaded_ul_lat_series
    &&& t.loaded_ul_lat_points == s.loaded_ul_lat_points
    &&& t.loaded_ul_latency_samples == s.loaded_ul_latency_samples
    &&& t.loaded_ul_latency_sent == s.loaded_ul_latency_sent
    &&& t.loaded_ul_latency_received == s.loaded_ul_latency_received
}

/// Two states with the same latencies.
pub open spec fn same_latencies(s: UiState, t: UiState) -> bool {
    &&& same_idle_latency(s, t)
    &&& same_dl_latency(s, t)
    &&& same_ul_latency(s, t)
}

/// Two states with the same count of lost packets.
pub open spec fn same_loss(s: UiState, t: UiState) -> bool {
    &&& t.udp_loss_sent == s.udp_loss_sent
    &&& t.udp_loss_received == s.udp_loss_received
    &&& t.udp_loss_total == s.udp_loss_total
    &&& t.udp_loss_latest_rtt_ms == s.udp_loss_latest_rtt_ms
}

/// Two states in which the same was measured.
pub open spec fn same_measurements(s: UiState, t: UiState) -> bool {
    &&& same_download(s, t)
    &&& same_upload(s, t)
    &&& same_latencies(s, t)
    &&& same_loss(s, t)
}

/// Two states with the same diagnosis of the network.
pub open spec fn same_diagnosis(s: UiState, t: UiState) -> bool {
    &&& t.dns_summary == s.dns_summary
    &&& t.tls_summary == s.tls_summary
    &&& t.ip_comparison == s.ip_comparison
    &&& t.traceroute_summary == s.traceroute_summary
    &&& t.traceroute_hops == s.traceroute_hops
    &&& t.external_ipv4 == s.external_ipv4
    &&& t.external_ipv6 == s.external_ipv6
}

/// Two states with the same server and the same metadata of the connection.
pub open spec fn same_connection(s: UiState, t: UiState) -> bool {
    &&& t.ip == s.ip
    &&& t.colo == s.colo
    &&& t.asn == s.asn
    &&& t.as_org == s.as_org
    &&& t.server == s.server
}

/// Two states that tell the same phase and the same news.
pub open spec fn same_news(s: UiState, t: UiState) -> bool {
    &&& t.phase == s.phase
    &&& t.info == s.info
}

/// Two states that differ at most in what a test run measures and tells.
pub open spec fn same_interface(s: UiState, t: UiState) -> bool {
    &&& t.tab == s.tab
    &&& t.paused == s.paused
    &&& t.comments == s.comments
    &&& t.run_start == s.run_start
    &&& t.last_result == s.last_result
    &&& t.history == s.history
    &&& t.history_selected == s.history_selected
    &&& t.history_scroll_offset == s.history_scroll_offset
    &&& t.history_loaded_count == s.history_loaded_count
    &&& t.initial_history_load_size == s.initial_history_load_size
    &&& t.history_filter == s.history_filter
    &&& t.history_filter_editing == s.history_filter_editing
    &&& t.charts_network_filter == s.charts_network_filter
    &&& t.charts_available_networks == s.charts_available_networks
    &&& t.history_detail_view == s.history_detail_view
    &&& t.history_detail_textarea == s.history_detail_textarea
    &&& t.history_detail_search == s.history_detail_search
    &&& t.history_detail_search_editing == s.history_detail_search_editing
    &&& t.history_detail_search_error == s.history_detail_search_error
    &&& t.history_menu_open == s.history_menu_open
    &&& t.history_menu_selected == s.history_menu_selected
    &&& t.auto_save == s.auto_save
    &&& t.history_export_modal_open == s.history_export_modal_open
    &&& t.history_export_modal_path == s.history_export_modal_path
    &&& t.history_export_modal_copied == s.history_export_modal_copied
    &&& t.history_comment_modal_open == s.history_comment_modal_open
    &&& t.history_comment_modal_textarea == s.history_comment_modal_textarea
    &&& t.interface_name == s.interface_name
    &&& t.network_name == s.network_name
    &&& t.is_wireless == s.is_wireless
    &&& t.interface_mac == s.interface_mac
    &&& t.local_ipv4 == s.local_ipv4
    &&& t.local_ipv6 == s.local_ipv6
    &&& t.certificate_filename == s.certificate_filename
    &&& t.proxy_url == s.proxy_url
    &&& t.dscp_label == s.dscp_label
    &&& t.traceroute_enabled == s.traceroute_enabled
    &&& t.traceroute_max_hops == s.traceroute_max_hops
    &&& t.update_status == s.update_status
    &&& t.hide_network_info == s.hide_network_info
}

/// A phase that begins leaves the interface alone.
#[verifier::spinoff_prover]
proof fn lemma_phase_leaves_the_interface(s: UiState, t: UiState, phase: Phase, now: u64)
    requires
        phase_begun(s, t, phase, now),
    ensures
        same_interface(s, t),
{
}

/// A probe leaves the interface alone.
#[verifier::spinoff_prover]
proof fn lemma_sample_leaves_the_interface(
    s: UiState,
    t: UiState,
    phase: Phase,
    during: Option<Phase>,
    point: Option<LatencyPoint>,
    ok: bool,
)
    requires
        sample_taken(s, t, phase, during, point, ok),
    ensures
        same_interface(s, t),
        t.phase == s.phase,
{
}

/// A reading of the throughput leaves the interface alone.
#[verifier::spinoff_prover]
proof fn lemma_throughput_leaves_the_interface(
    s: UiState,
    t: UiState,
    phase: Phase,
    bytes_total: u64,
    rate: Throughput,
)
    requires
        throughput_taken(s, t, phase, bytes_total, rate),
    ensures
        same_interface(s, t),
        t.phase == s.phase,
{
}

/// Any other event leaves the interface alone.
#[verifier::spinoff_prover]
proof fn lemma_news_leave_the_interface(s: UiState, t: UiState, ev: TestEvent)
    requires
        event_noted(s, t, ev),
        !(ev is PhaseStarted),
        !(ev is LatencySample),
        !(ev is ThroughputTick),
    ensures
        same_interface(s, t),
        t.phase == s.phase,
{
}

/// An event of the test engine leaves alone what the interface itself has: what is selected,
/// opened and edited, the history, and what is known of the network interface.
pub proof fn events_leave_the_interface_alone(
    state: &mut UiState,
    ev: TestEvent,
    lines: Vec<String>,
)
    requires
        call_ensures(apply_event, (state, ev, lines), ()),
    ensures
        same_interface(*old(state), *final(state)),
        !(ev is PhaseStarted) ==> final(state).phase == old(state).phase,
{
    lemma_event_leaves_the_interface(*old(state), *final(state), ev, lines@);
}

/// An event leaves the interface alone.
#[verifier::spinoff_prover]
proof fn lemma_event_leaves_the_interface(
    s: UiState,
    t: UiState,
    ev: TestEvent,
    lines: Seq<String>,
)
    requires
        event_applied(s, t, ev, lines),
    ensures
        same_interface(s, t),
        !(ev is PhaseStarted) ==> t.phase == s.phase,
{
    let logged = UiState {
        text_log: t.text_log,
        dashboard_log_scroll: t.dashboard_log_scroll,
        ..s
    };
    assert(same_interface(s, logged));
    match ev {
        TestEvent::PhaseStarted { phase, now } => {
            lemma_phase_leaves_the_interface(logged, t, phase, now);
        },
        TestEvent::LatencySample { phase, during, point, ok } => {
            lemma_sample_leaves_the_interface(logged, t, phase, during, point, ok);
        },
        TestEvent::ThroughputTick { phase, bytes_total, rate } => {
            lemma_throughput_leaves_the_interface(logged, t, phase, bytes_total, rate);
        },
        _ => {
            lemma_news_leave_the_interface(logged, t, ev);
        },
    }
}

/// Whatever the event is, its lines are appended to the activity log in their order, of which
/// the last ones stay; without lines the log stays as it is.
pub proof fn events_are_logged_with_their_lines(
    state: &mut UiState,
    ev: TestEvent,
    lines: Vec<String>,
)
    requires
        call_ensures(apply_event, (state, ev, lines), ()),
    ensures
        ({
            let all = old(state).text_log@ + lines@;
            let log = final(state).text_log@;
            &&& lines@.len() == 0 ==> log == old(state).text_log@
            &&& lines@.len() == 0 ==> final(state).dashboard_log_scroll == old(
                state
            ).dashboard_log_scroll
            &&& lines@.len() > 0 ==> log.len() == (if all.len() < MAX_LOG_LINES {
                all.len()
            } else {
                MAX_LOG_LINES as nat
            })
            &&& lines@.len() > 0 ==> forall|k: int|
                0 <= k < log.len() ==> #[trigger] log[k] == all[all.len() - log.len() + k]
        }),
{
}

/// A reading of the download is shown as it is: the rate, the bytes, and in the charts the
/// level and, at its time, the rate to be shown, at the end of those of the download. It
/// leaves alone everything of the upload, the latencies, and all else.
pub proof fn download_readings_belong_to_the_download(
    state: &mut UiState,
    bytes_total: u64,
    rate: Throughput,
    lines: Vec<String>,
)
    requires
        call_ensures(
            apply_event,
            (
                state,
                (TestEvent::ThroughputTick { phase: Phase::Download, bytes_total, rate }),
                lines,
            ),
            (),
        ),
    ensures
        grown_by(
            old(state).dl_series@,
            final(state).dl_series@,
            rate.level,
            MAX_SERIES as nat,
        ),
        grown_by(
            old(state).dl_points@,
            final(state).dl_points@,
            (rate.at, rate.shown),
            MAX_POINTS as nat,
        ),
        final(state).dl_mbps == rate.mbps,
        final(state).dl_bytes_total == bytes_total,
        final(state).dl_avg_mbps == (if old(state).dl_phase_start is Some {
            rate.avg_mbps
        } else {
            old(state).dl_avg_mbps
        }),
        final(state).dl_phase_start == old(state).dl_phase_start,
        same_upload(*old(state), *final(state)),
        same_latencies(*old(state), *final(state)),
        same_loss(*old(state), *final(state)),
        same_diagnosis(*old(state), *final(state)),
        same_connection(*old(state), *final(state)),
        same_news(*old(state), *final(state)),
{
}

/// A reading of the upload is shown as it is: the rate, the bytes, and in the charts the level
/// and, at its time, the rate to be shown, at the end of those of the upload. It leaves alone
/// everything of the download, the latencies, and all else.
pub proof fn upload_readings_belong_to_the_upload(
    state: &mut UiState,
    bytes_total: u64,
    rate: Throughput,
    lines: Vec<String>,
)
    requires
        call_ensures(
            apply_event,
            (state, (TestEvent::ThroughputTick { phase: Phase::Upload, bytes_total, rate }), lines),
            (),
        ),
    ensures
        grown_by(
            old(state).ul_series@,
            final(state).ul_series@,
            rate.level,
            MAX_SERIES as nat,
        ),
        grown_by(
            old(state).ul_points@,
            final(state).ul_points@,
            (rate.at, rate.shown),
            MAX_POINTS as nat,
        ),
        final(state).ul_mbps == rate.mbps,
        final(state).ul_bytes_total == bytes_total,
        final(state).ul_avg_mbps == (if old(state).ul_phase_start is Some {
            rate.avg_mbps
        } else {
            old(state).ul_avg_mbps
        }),
        final(state).ul_phase_start == old(state).ul_phase_start,
        same_download(*old(state), *final(state)),
        same_latencies(*old(state), *final(state)),
        same_loss(*old(state), *final(state)),
        same_diagnosis(*old(state), *final(state)),
        same_connection(*old(state), *final(state)),
        same_news(*old(state), *final(state)),
{
}

/// A reading of the throughput in any other phase changes nothing but the log.
pub proof fn other_readings_are_not_shown(
    state: &mut UiState,
    phase: Phase,
    bytes_total: u64,
    rate: Throughput,
    lines: Vec<String>,
)
    requires
        !(phase is Download),
        !(phase is Upload),
        call_ensures(
            apply_event,
            (state, (TestEvent::ThroughputTick { phase, bytes_total, rate }), lines),
            (),
        ),
    ensures
        same_measurements(*old(state), *final(state)),
        same_diagnosis(*old(state), *final(state)),
        same_connection(*old(state), *final(state)),
        same_news(*old(state), *final(state)),
{
}

/// A state in which all that belongs to the download is in place of what belongs to the
/// upload, and the other way round.
pub open spec fn exchanged(s: UiState) -> UiState {
    UiState {
        dl_series: s.ul_series,
        dl_points: s.ul_points,
        dl_mbps: s.ul_mbps,
        dl_avg_mbps: s.ul_avg_mbps,
        dl_bytes_total: s.ul_bytes_total,
        dl_phase_start: s.ul_phase_start,
        loaded_dl_lat_series: s.loaded_ul_lat_series,
        loaded_dl_lat_points: s.loaded_ul_lat_points,
        loaded_dl_latency_samples: s.loaded_ul_latency_samples,
        loaded_dl_latency_sent: s.loaded_ul_latency_sent,
        loaded_dl_latency_received: s.loaded_ul_latency_received,
        ul_series: s.dl_series,
        ul_points: s.dl_points,
        ul_mbps: s.dl_mbps,
        ul_avg_mbps: s.dl_avg_mbps,
        ul_bytes_total: s.dl_bytes_total,
        ul_phase_start: s.dl_phase_start,
        loaded_ul_lat_series: s.loaded_dl_lat_series,
        loaded_ul_lat_points: s.loaded_dl_lat_points,
        loaded_ul_latency_samples: s.loaded_dl_latency_samples,
        loaded_ul_latency_sent: s.loaded_dl_latency_sent,
        loaded_ul_latency_received: s.loaded_dl_latency_received,
        ..s
    }
}

/// Readings of the two directions are treated alike.
#[verifier::spinoff_prover]
#[verifier::rlimit(40)]
proof fn lemma_readings_alike(
    s: UiState,
    t: UiState,
    bytes_total: u64,
    rate: Throughput,
)
    ensures
        throughput_taken(s, t, Phase::Download, bytes_total, rate) ==> throughput_taken(
            exchanged(s),
            exchanged(t),
            Phase::Upload,
            bytes_total,
            rate,
        ),
        throughput_taken(s, t, Phase::Upload, bytes_total, rate) ==> throughput_taken(
            exchanged(s),
            exchanged(t),
            Phase::Download,
            bytes_total,
            rate,
        ),
{
}

/// Answers of the two directions are shown alike.
#[verifier::spinoff_prover]
proof fn lemma_answers_alike(s: UiState, t: UiState, p: LatencyPoint)
    ensures
        dl_plotted(s, t, p) ==> ul_plotted(exchanged(s), exchanged(t), p),
        ul_plotted(s, t, p) ==> dl_plotted(exchanged(s), exchanged(t), p),
{
}

/// Probes of the two directions are counted alike.
#[verifier::spinoff_prover]
proof fn lemma_counts_alike(s: UiState, ok: bool)
    ensures
        exchanged(dl_counted(s, ok)) == ul_counted(exchanged(s), ok),
        exchanged(ul_counted(s, ok)) == dl_counted(exchanged(s), ok),
{
}

/// Probes of the two directions are treated alike.
#[verifier::spinoff_prover]
proof fn lemma_probes_alike(s: UiState, t: UiState, point: Option<LatencyPoint>, ok: bool)
    ensures
        dl_sampled(s, t, point, ok) ==> ul_sampled(exchanged(s), exchanged(t), point, ok),
        ul_sampled(s, t, point, ok) ==> dl_sampled(exchanged(s), exchanged(t), point, ok),
{
    lemma_counts_alike(s, ok);
    if ok && point is Some {
        lemma_answers_alike(dl_counted(s, ok), t, point->0);
        lemma_answers_alike(ul_counted(s, ok), t, point->0);
    }
}

/// Exchanging twice changes nothing.
proof fn lemma_exchanged_twice(s: UiState)
    ensures
        exchanged(exchanged(s)) == s,
{
}

/// What is logged has nothing to do with the direction.
proof fn lemma_logging_alike(s: UiState, t: UiState, lines: Seq<String>)
    requires
        lines_logged(s, t, lines),
    ensures
        lines_logged(exchanged(s), exchanged(t), lines),
{
}

/// The state between the log and the rest of what an event does.
pub open spec fn after_log(s: UiState, t: UiState) -> UiState {
    UiState { text_log: t.text_log, dashboard_log_scroll: t.dashboard_log_scroll, ..s }
}

/// A reading of the download does to a state what one of the upload does to the state with
/// the two directions exchanged, and the other way round.
pub proof fn readings_of_both_directions_are_alike(
    s: UiState,
    t: UiState,
    lines: Seq<String>,
    bytes_total: u64,
    rate: Throughput,
)
    ensures
        event_applied(
            s,
            t,
            (TestEvent::ThroughputTick { phase: Phase::Download, bytes_total, rate }),
            lines,
        ) <==> event_applied(
            exchanged(s),
            exchanged(t),
            (TestEvent::ThroughputTick { phase: Phase::Upload, bytes_total, rate }),
            lines,
        ),
{
    lemma_exchanged_twice(s);
    lemma_exchanged_twice(t);
    lemma_exchanged_twice(after_log(s, t));
    assert(exchanged(after_log(s, t)) == after_log(exchanged(s), exchanged(t)));
    lemma_readings_alike(after_log(s, t), t, bytes_total, rate);
    lemma_readings_alike(exchanged(after_log(s, t)), exchanged(t), bytes_total, rate);
    if lines_logged(s, after_log(s, t), lines) {
        lemma_logging_alike(s, after_log(s, t), lines);
    }
    if lines_logged(exchanged(s), exchanged(after_log(s, t)), lines) {
        lemma_logging_alike(exchanged(s), exchanged(after_log(s, t)), lines);
    }
}

/// A probe during the download does to a state what one during the upload does to the state
/// with the two directions exchanged, and the other way round.
pub proof fn probes_of_both_directions_are_alike(
    s: UiState,
    t: UiState,
    lines: Seq<String>,
    point: Option<LatencyPoint>,
    ok: bool,
)
    ensures
        event_applied(
            s,
            t,
            (TestEvent::LatencySample {
                phase: Phase::Download,
                during: Some(Phase::Download),
                point,
                ok,
            }),
            lines,
        ) <==> event_applied(
            exchanged(s),
            exchanged(t),
            (TestEvent::LatencySample {
                phase: Phase::Upload,
                during: Some(Phase::Upload),
                point,
                ok,
            }),
            lines,
        ),
{
    lemma_exchanged_twice(s);
    lemma_exchanged_twice(t);
    lemma_exchanged_twice(after_log(s, t));
    assert(exchanged(after_log(s, t)) == after_log(exchanged(s), exchanged(t)));
    lemma_probes_alike(after_log(s, t), t, point, ok);
    lemma_probes_alike(exchanged(after_log(s, t)), exchanged(t), point, ok);
    if lines_logged(s, after_log(s, t), lines) {
        lemma_logging_alike(s, after_log(s, t), lines);
    }
    if lines_logged(exchanged(s), exchanged(after_log(s, t)), lines) {
        lemma_logging_alike(exchanged(s), exchanged(after_log(s, t)), lines);
    }
}

} // verus!
