//! The beginning and the end of a run, and of the interface itself.

use crate::engine::dist::{dist_text, drawable, DscpDist};
use crate::engine::dscp::{parse_dscp_weights, weights_of};
use crate::engine::laws::accepted_weights_make_a_distribution;
use crate::model::{text_of, Phase, Real, RunRecord};
use crate::text::{join, joined, strings};
use crate::tui::history::{history_replaced, replace_history, tell};
use crate::tui::state::{greater, is_fresh, last_n, less, says, UiState, MAX_LOG_LINES};
use vstd::prelude::*;

verus! {

/// How many runs are loaded at first: three times as many as are visible on a terminal of
/// that height, but at least 20. An unknown height counts as 24 rows.
pub open spec fn initial_load(height: Option<u16>) -> usize {
    match height {
        Some(rows) => greater(3 * less(rows as int, 2), 20),
        None => 66,
    }
}

/// How many runs are loaded at first.
pub fn initial_load_size(height: Option<u16>) -> (r: usize)
    ensures
        r == initial_load(height),
{
    match height {
        Some(rows) => {
            let visible: usize = if rows > 2 {
                rows as usize - 2
            } else {
                0
            };
            if visible * 3 > 20 {
                visible * 3
            } else {
                20
            }
        },
        None => 66,
    }
}

/// The label of a `--dscp` specifier: the distribution it stands for, or none where it is
/// not accepted.
pub open spec fn label_of(dscp: Option<Seq<char>>) -> Option<Seq<char>> {
    match dscp {
        Some(spec) => match weights_of(spec) {
            Ok(weights) => Some(dist_text(drawable(weights))),
            Err(_) => None,
        },
        None => None,
    }
}

/// The label of a `--dscp` specifier.
pub fn dscp_label(dscp: &Option<String>) -> (r: Option<String>)
    ensures
        text_of(r) == label_of(text_of(*dscp)),
{
    match dscp {
        Some(spec) => match parse_dscp_weights(spec.as_str()) {
            Ok(weights) => {
                proof {
                    accepted_weights_make_a_distribution(spec@);
                    assert(weights@.len() == weights.len());
                }
                match DscpDist::from_weights(weights.as_slice()) {
                    Some(dist) => Some(dist.describe()),
                    None => None,
                }
            },
            Err(_) => None,
        },
        None => None,
    }
}

/// What the command line says about the interface.
#[derive(Debug)]
pub struct LaunchOptions {
    pub auto_save: bool,
    pub comments: Option<String>,
    pub hide_network_info: bool,
    pub certificate_filename: Option<String>,
    pub proxy: Option<String>,
    pub dscp: Option<String>,
    pub traceroute: bool,
    pub traceroute_max_hops: u8,
}

/// The network interface that is used.
#[derive(Debug)]
pub struct NetworkInfo {
    pub interface_name: Option<String>,
    pub network_name: Option<String>,
    pub is_wireless: Option<bool>,
    pub interface_mac: Option<String>,
    pub local_ipv4: Option<String>,
    pub local_ipv6: Option<String>,
}

/// The state that the interface starts in: what the options, the network and the loaded
/// runs say, and for the rest a fresh state.
pub open spec fn launched(
    fresh: UiState,
    t: UiState,
    options: LaunchOptions,
    network: NetworkInfo,
    load_size: usize,
    runs: Vec<RunRecord>,
    now: u64,
) -> bool {
    &&& text_of(t.dscp_label) == label_of(text_of(options.dscp))
    &&& history_replaced(
        UiState {
            auto_save: options.auto_save,
            comments: options.comments,
            hide_network_info: options.hide_network_info,
            certificate_filename: options.certificate_filename,
            proxy_url: options.proxy,
            dscp_label: t.dscp_label,
            traceroute_enabled: options.traceroute,
            traceroute_max_hops: options.traceroute_max_hops,
            interface_name: network.interface_name,
            network_name: network.network_name,
            is_wireless: network.is_wireless,
            interface_mac: network.interface_mac,
            local_ipv4: network.local_ipv4,
            local_ipv6: network.local_ipv6,
            initial_history_load_size: load_size,
            run_start: now,
            ..fresh
        },
        t,
        runs,
    )
}

/// The state that the interface starts in. `load_size` is how many runs were asked for,
/// `runs` are those that were loaded, and `now` is the clock's reading.
pub fn launch(
    options: LaunchOptions,
    network: NetworkInfo,
    load_size: usize,
    runs: Vec<RunRecord>,
    now: u64,
) -> (t: UiState)
    ensures
        exists|fresh: UiState| #[trigger]
            is_fresh(fresh) && launched(fresh, t, options, network, load_size, runs, now),
        t.wf(),
{
    let mut state = UiState::default();
    let ghost fresh = state;
    state.dscp_label = dscp_label(&options.dscp);
    state.auto_save = options.auto_save;
    state.comments = options.comments;
    state.hide_network_info = options.hide_network_info;
    state.certificate_filename = options.certificate_filename;
    state.proxy_url = options.proxy;
    state.traceroute_enabled = options.traceroute;
    state.traceroute_max_hops = options.traceroute_max_hops;
    state.interface_name = network.interface_name;
    state.network_name = network.network_name;
    state.is_wireless = network.is_wireless;
    state.interface_mac = network.interface_mac;
    state.local_ipv4 = network.local_ipv4;
    state.local_ipv6 = network.local_ipv6;
    state.initial_history_load_size = load_size;
    state.run_start = now;
    replace_history(&mut state, runs);
    assert(launched(fresh, state, options, network, load_size, runs, now));
    state
}

/// What the beginning of another run does: all that was measured in the last one is
/// forgotten, with its log, and the clock's reading is kept as the run's start.
pub open spec fn run_begun(s: UiState, t: UiState, now: u64) -> bool {
    &&& t.dl_series@.len() == 0
    &&& t.ul_series@.len() == 0
    &&& t.idle_lat_series@.len() == 0
    &&& t.loaded_dl_lat_series@.len() == 0
    &&& t.loaded_ul_lat_series@.len() == 0
    &&& t.dl_points@.len() == 0
    &&& t.ul_points@.len() == 0
    &&& t.idle_lat_points@.len() == 0
    &&& t.loaded_dl_lat_points@.len() == 0
    &&& t.loaded_ul_lat_points@.len() == 0
    &&& t.idle_latency_samples@.len() == 0
    &&& t.loaded_dl_latency_samples@.len() == 0
    &&& t.loaded_ul_latency_samples@.len() == 0
    &&& t.traceroute_hops@.len() == 0
    &&& t.text_log@.len() == 0
    &&& t == (UiState {
        last_result: None,
        run_start: now,
        dl_series: t.dl_series,
        ul_series: t.ul_series,
        idle_lat_series: t.idle_lat_series,
        loaded_dl_lat_series: t.loaded_dl_lat_series,
        loaded_ul_lat_series: t.loaded_ul_lat_series,
        dl_points: t.dl_points,
        ul_points: t.ul_points,
        idle_lat_points: t.idle_lat_points,
        loaded_dl_lat_points: t.loaded_dl_lat_points,
        loaded_ul_lat_points: t.loaded_ul_lat_points,
        dl_mbps: Real::zeroed(),
        ul_mbps: Real::zeroed(),
        dl_avg_mbps: Real::zeroed(),
        ul_avg_mbps: Real::zeroed(),
        dl_bytes_total: 0,
        ul_bytes_total: 0,
        dl_phase_start: None,
        ul_phase_start: None,
        idle_latency_samples: t.idle_latency_samples,
        loaded_dl_latency_samples: t.loaded_dl_latency_samples,
        loaded_ul_latency_samples: t.loaded_ul_latency_samples,
        idle_latency_sent: 0,
        idle_latency_received: 0,
        loaded_dl_latency_sent: 0,
        loaded_dl_latency_received: 0,
        loaded_ul_latency_sent: 0,
        loaded_ul_latency_received: 0,
        phase: Phase::IdleLatency,
        paused: false,
        udp_loss_sent: 0,
        udp_loss_received: 0,
        udp_loss_total: 0,
        udp_loss_latest_rtt_ms: None,
        dns_summary: None,
        tls_summary: None,
        ip_comparison: None,
        traceroute_summary: None,
        traceroute_hops: t.traceroute_hops,
        text_log: t.text_log,
        dashboard_log_scroll: 0,
        ..s
    })
}

/// Forgets the last run before another one begins, at the clock's reading `now`.
pub fn begin_run(state: &mut UiState, now: u64)
    ensures
        run_begun(*old(state), *final(state), now),
        old(state).wf() ==> final(state).wf(),
{
    state.last_result = None;
    state.run_start = now;
    state.dl_series = Vec::new();
    state.ul_series = Vec::new();
    state.idle_lat_series = Vec::new();
    state.loaded_dl_lat_series = Vec::new();
    state.loaded_ul_lat_series = Vec::new();
    state.dl_points = Vec::new();
    state.ul_points = Vec::new();
    state.idle_lat_points = Vec::new();
    state.loaded_dl_lat_points = Vec::new();
    state.loaded_ul_lat_points = Vec::new();
    state.dl_mbps = Real::zero();
    state.ul_mbps = Real::zero();
    state.dl_avg_mbps = Real::zero();
    state.ul_avg_mbps = Real::zero();
    state.dl_bytes_total = 0;
    state.ul_bytes_total = 0;
    state.dl_phase_start = None;
    state.ul_phase_start = None;
    state.idle_latency_samples = Vec::new();
    state.loaded_dl_latency_samples = Vec::new();
    state.loaded_ul_latency_samples = Vec::new();
    state.idle_latency_sent = 0;
    state.idle_latency_received = 0;
    state.loaded_dl_latency_sent = 0;
    state.loaded_dl_latency_received = 0;
    state.loaded_ul_latency_sent = 0;
    state.loaded_ul_latency_received = 0;
    state.phase = Phase::IdleLatency;
    state.paused = false;
    // Clear UDP loss counters
    state.udp_loss_sent = 0;
    state.udp_loss_received = 0;
    state.udp_loss_total = 0;
    state.udp_loss_latest_rtt_ms = None;
    // Clear diagnostic results
    state.dns_summary = None;
    state.tls_summary = None;
    state.ip_comparison = None;
    state.traceroute_summary = None;
    state.traceroute_hops = Vec::new();
    state.text_log = Vec::new();
    state.dashboard_log_scroll = 0;
}

/// What the server says about the connection.
#[derive(Debug)]
pub struct Metadata {
    pub ip: Option<String>,
    pub colo: Option<String>,
    pub asn: Option<String>,
    pub as_org: Option<String>,
}

/// A state with the metadata of a connection.
pub open spec fn with_metadata(s: UiState, meta: Metadata) -> UiState {
    UiState { ip: meta.ip, colo: meta.colo, asn: meta.asn, as_org: meta.as_org, ..s }
}

/// Keeps the metadata of a connection.
pub fn set_metadata(state: &mut UiState, meta: Metadata)
    ensures
        *final(state) == with_metadata(*old(state), meta),
        old(state).wf() ==> final(state).wf(),
{
    state.ip = meta.ip;
    state.colo = meta.colo;
    state.asn = meta.asn;
    state.as_org = meta.as_org;
}

/// What the result of a run tells about the connection: its metadata and its server, where
/// it has them.
pub open spec fn connection_adopted(
    s: UiState,
    meta: Option<Metadata>,
    server: Option<String>,
) -> UiState {
    let known = match meta {
        Some(meta) => with_metadata(s, meta),
        None => s,
    };
    match server {
        Some(_) => UiState { server, ..known },
        None => known,
    }
}

/// Takes over what the result of a run tells about the connection.
pub fn adopt_connection(state: &mut UiState, meta: Option<Metadata>, server: Option<String>)
    ensures
        *final(state) == connection_adopted(*old(state), meta, server),
        old(state).wf() ==> final(state).wf(),
{
    match meta {
        Some(meta) => set_metadata(state, meta),
        None => {},
    }
    if server.is_some() {
        state.server = server;
    }
}

/// A log with new lines at its end, of which only the last ones stay; without new lines it
/// stays as it is.
pub open spec fn lines_added(log: Seq<String>, lines: Seq<String>) -> Seq<String> {
    if lines.len() == 0 {
        log
    } else {
        last_n(log + lines, MAX_LOG_LINES as nat)
    }
}

/// Appends lines to the activity log, of which only the last ones stay.
pub fn push_log_lines(log: &mut Vec<String>, lines: Vec<String>)
    ensures
        final(log)@ == lines_added(old(log)@, lines@),
{
    let ghost before = log@;
    let ghost all = lines@;
    assert(before + all.take(0) =~= before);
    for line in it: lines
        invariant
            it.seq() == all,
            it.index() == 0 ==> log@ == before,
            it.index() > 0 ==> log@ == last_n(
                before + all.take(it.index() as int),
                MAX_LOG_LINES as nat,
            ),
    {
        proof {
            let k = it.index() as int;
            let so_far = before + all.take(k);
            assert((before + all.take(k + 1)) =~= so_far.push(all[k]));
            lemma_last_of_last(so_far, all[k], MAX_LOG_LINES as nat);
        }
        UiState::push_log_line(log, line);
    }
    assert(all.take(all.len() as int) =~= all);
}

/// Dropping what is too old before an element is appended makes no difference.
proof fn lemma_last_of_last<T>(s: Seq<T>, x: T, n: nat)
    requires
        n > 0,
    ensures
        last_n(last_n(s, n).push(x), n) =~= last_n(s.push(x), n),
{
}

/// Whether the result of a run is to be saved: where saving by itself is on.
pub fn save_wanted(state: &UiState) -> (r: bool)
    ensures
        r == state.auto_save,
{
    state.auto_save
}

/// What the result of a run does: it is kept, and its summary is appended to the log.
pub open spec fn result_kept(
    s: UiState,
    t: UiState,
    result: RunRecord,
    summary: Seq<String>,
) -> bool {
    &&& t.text_log@ == lines_added(s.text_log@, summary)
    &&& t == (UiState { last_result: Some(result), text_log: t.text_log, ..s })
}

/// Keeps the result of a run, and appends its summary to the log.
pub fn keep_result(state: &mut UiState, result: RunRecord, summary: Vec<String>)
    ensures
        result_kept(*old(state), *final(state), result, summary@),
        old(state).wf() ==> final(state).wf(),
{
    state.last_result = Some(result);
    push_log_lines(&mut state.text_log, summary);
}

/// What the exports asked for on the command line came to, each as a message.
pub open spec fn export_messages(
    json: Option<Result<String, String>>,
    csv: Option<Result<String, String>>,
) -> Seq<Seq<char>> {
    export_message(json, "Exported JSON: "@, "Export JSON failed: "@) + export_message(
        csv,
        "Exported CSV: "@,
        "Export CSV failed: "@,
    )
}

/// What one export came to: no message where it was not asked for.
pub open spec fn export_message(
    outcome: Option<Result<String, String>>,
    done: Seq<char>,
    failed: Seq<char>,
) -> Seq<Seq<char>> {
    match outcome {
        Some(Ok(path)) => seq![done + path@],
        Some(Err(e)) => seq![failed + e@],
        None => Seq::empty(),
    }
}

/// Appends what one export came to.
fn push_message(
    messages: &mut Vec<String>,
    outcome: Option<Result<String, String>>,
    done: &str,
    failed: &str,
)
    ensures
        strings(final(messages)@) == strings(old(messages)@) + export_message(
            outcome,
            done@,
            failed@,
        ),
{
    let ghost before = strings(messages@);
    match outcome {
        Some(Ok(path)) => {
            let mut text = done.to_string();
            text.append(path.as_str());
            messages.push(text);
            assert(strings(messages@) =~= before + seq![done@ + path@]);
        },
        Some(Err(e)) => {
            let mut text = failed.to_string();
            text.append(e.as_str());
            messages.push(text);
            assert(strings(messages@) =~= before + seq![failed@ + e@]);
        },
        None => {
            assert(before + Seq::<Seq<char>>::empty() =~= before);
        },
    }
}

/// Tells what the exports asked for on the command line came to: the path of each file, or
/// an error. Where none was asked for, nothing is told.
pub fn tell_exports(
    state: &mut UiState,
    json: Option<Result<String, String>>,
    csv: Option<Result<String, String>>,
)
    ensures
        if export_messages(json, csv).len() == 0 {
            *final(state) == *old(state)
        } else {
            says(*old(state), *final(state), joined(export_messages(json, csv), "; "@))
        },
        old(state).wf() ==> final(state).wf(),
{
    let mut messages: Vec<String> = Vec::new();
    assert(strings(messages@) =~= Seq::empty());
    push_message(&mut messages, json, "Exported JSON: ", "Export JSON failed: ");
    push_message(&mut messages, csv, "Exported CSV: ", "Export CSV failed: ");
    assert(strings(messages@) =~= export_messages(json, csv));
    if messages.len() > 0 {
        state.info = join(messages.as_slice(), "; ");
    }
}

/// How many runs are loaded after a run: at least one more than before, so that the new one
/// is among them.
pub fn reload_size(state: &UiState) -> (r: usize)
    requires
        state.history_loaded_count < usize::MAX,
    ensures
        r == greater(
            state.history_loaded_count + 1,
            state.initial_history_load_size as int,
        ),
{
    let more = state.history_loaded_count + 1;
    if more > state.initial_history_load_size {
        more
    } else {
        state.initial_history_load_size
    }
}

/// What loading the history after a run does: the loaded runs are the history, and on the
/// history tab the new run is selected.
pub open spec fn run_listed(s: UiState, t: UiState, runs: Vec<RunRecord>) -> bool {
    history_replaced(
        UiState {
            history_selected: if s.tab == 1 {
                0
            } else {
                s.history_selected
            },
            history_scroll_offset: if s.tab == 1 {
                0
            } else {
                s.history_scroll_offset
            },
            ..s
        },
        t,
        runs,
    )
}

/// Takes the history as it was loaded after a run.
pub fn list_run(state: &mut UiState, runs: Vec<RunRecord>)
    ensures
        run_listed(*old(state), *final(state), runs),
        old(state).wf() ==> final(state).wf(),
{
    if state.tab == 1 {
        state.history_selected = 0;
        state.history_scroll_offset = 0;
    }
    replace_history(state, runs);
}

/// Tells that a run failed.
pub fn run_failed(state: &mut UiState, error: &str)
    ensures
        says(*old(state), *final(state), "Run failed: "@ + error@),
        old(state).wf() ==> final(state).wf(),
{
    tell(state, "Run failed: ", error);
}

/// Tells that a run's task did not come to its end.
pub fn run_join_failed(state: &mut UiState, error: &str)
    ensures
        says(*old(state), *final(state), "Run join failed: "@ + error@),
        old(state).wf() ==> final(state).wf(),
{
    tell(state, "Run join failed: ", error);
}

/// Keeps what the check for updates came to: the newer version, or none.
pub fn note_update(state: &mut UiState, newer: Option<String>)
    ensures
        *final(state) == (UiState { update_status: Some(newer), ..*old(state) }),
        old(state).wf() ==> final(state).wf(),
{
    state.update_status = Some(newer);
}

} // verus!
