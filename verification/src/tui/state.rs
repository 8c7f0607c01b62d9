//! The state of the terminal interface.

use crate::binary64::{ratio_bits, ratio_of};
use crate::model::{
    DnsSummary, IpVersionComparison, LatencyFigures, LatencySummary, Phase, Real, RunRecord,
    TlsSummary, TracerouteHop, TracerouteSummary,
};
use crate::tui::editor::{blank_editor, is_new_editor, pageable, Editor};
pub use crate::tui::networks::update_available_networks;
pub use crate::tui::status::push_wrapped_status_kv;
use vstd::prelude::*;

verus! {

/// How many values a series of a chart holds.
pub const MAX_SERIES: usize = 120;

/// How many points a time series holds: about 2 minutes at 10 Hz.
pub const MAX_POINTS: usize = 1200;

/// How many lines the activity log holds.
pub const MAX_LOG_LINES: usize = 500;

/// How many latency samples are kept for the live figures.
pub const MAX_SAMPLES: usize = 10000;

/// Display string used in place of identifying network info when redaction is on.
pub const REDACTED_PLACEHOLDER: &'static str = "[redacted]";

/// The state of the terminal interface. Times are readings of a clock in nanoseconds.
pub struct UiState {
    pub tab: usize,
    pub paused: bool,
    pub phase: Phase,
    pub info: String,
    pub comments: Option<String>,
    pub dl_series: Vec<u64>,
    pub ul_series: Vec<u64>,
    pub idle_lat_series: Vec<u64>,
    pub loaded_dl_lat_series: Vec<u64>,
    pub loaded_ul_lat_series: Vec<u64>,
    // Time-series for charts (seconds since run start, value)
    pub run_start: u64,
    pub dl_points: Vec<(Real, Real)>,
    pub ul_points: Vec<(Real, Real)>,
    pub idle_lat_points: Vec<(Real, Real)>,
    pub loaded_dl_lat_points: Vec<(Real, Real)>,
    pub loaded_ul_lat_points: Vec<(Real, Real)>,
    pub dl_mbps: Real,
    pub ul_mbps: Real,
    pub dl_avg_mbps: Real,
    pub ul_avg_mbps: Real,
    pub dl_bytes_total: u64,
    pub ul_bytes_total: u64,
    pub dl_phase_start: Option<u64>,
    pub ul_phase_start: Option<u64>,
    // Live latency samples for real-time stats
    pub idle_latency_samples: Vec<Real>,
    pub loaded_dl_latency_samples: Vec<Real>,
    pub loaded_ul_latency_samples: Vec<Real>,
    pub idle_latency_sent: u64,
    pub idle_latency_received: u64,
    pub loaded_dl_latency_sent: u64,
    pub loaded_dl_latency_received: u64,
    pub loaded_ul_latency_sent: u64,
    pub loaded_ul_latency_received: u64,
    pub udp_loss_sent: u64,
    pub udp_loss_received: u64,
    pub udp_loss_total: u64,
    pub udp_loss_latest_rtt_ms: Option<Real>,
    pub last_result: Option<RunRecord>,
    pub history: Vec<RunRecord>,
    /// Index of selected history item (0 = most recent)
    pub history_selected: usize,
    pub history_scroll_offset: usize,
    pub history_loaded_count: usize,
    /// Initial load size based on terminal height
    pub initial_history_load_size: usize,
    /// Current filter text
    pub history_filter: String,
    /// Whether user is typing in filter input
    pub history_filter_editing: bool,
    /// None = all networks, Some(name) = specific network
    pub charts_network_filter: Option<String>,
    /// List of unique network names from history
    pub charts_available_networks: Vec<String>,
    /// Whether showing JSON detail view
    pub history_detail_view: bool,
    pub history_detail_textarea: Editor,
    /// Current regex pattern
    pub history_detail_search: String,
    /// In search input mode
    pub history_detail_search_editing: bool,
    /// Last regex compile error, if any
    pub history_detail_search_error: Option<String>,
    /// Whether the Space-triggered action menu is visible
    pub history_menu_open: bool,
    /// Index of the highlighted menu item
    pub history_menu_selected: usize,
    pub ip: Option<String>,
    pub colo: Option<String>,
    pub server: Option<String>,
    pub asn: Option<String>,
    pub as_org: Option<String>,
    pub auto_save: bool,
    // Post-export result modal
    pub history_export_modal_open: bool,
    pub history_export_modal_path: Option<String>,
    pub history_export_modal_copied: bool,
    // Comment editor modal
    pub history_comment_modal_open: bool,
    pub history_comment_modal_textarea: Editor,
    // Network interface information
    pub interface_name: Option<String>,
    pub network_name: Option<String>,
    pub is_wireless: Option<bool>,
    pub interface_mac: Option<String>,
    pub local_ipv4: Option<String>,
    pub local_ipv6: Option<String>,
    pub external_ipv4: Option<String>,
    pub external_ipv6: Option<String>,
    pub certificate_filename: Option<String>,
    pub proxy_url: Option<String>,
    /// Human-readable DSCP distribution (e.g. "EF (DSCP 46, 0xB8) 60%, ..."), shown in the
    /// Network Information panel. `None` when `--dscp` is unset.
    pub dscp_label: Option<String>,
    // Diagnostic results
    pub dns_summary: Option<DnsSummary>,
    pub tls_summary: Option<TlsSummary>,
    pub ip_comparison: Option<IpVersionComparison>,
    pub traceroute_summary: Option<TracerouteSummary>,
    pub traceroute_enabled: bool,
    pub traceroute_max_hops: u8,
    pub traceroute_hops: Vec<TracerouteHop>,
    /// None = check not completed, Some(None) = on latest, Some(Some(v)) = update available
    pub update_status: Option<Option<String>>,
    /// Rolling log of text-mode lines for the dashboard's Test Activity panel.
    pub text_log: Vec<String>,
    /// How far back (in lines) the dashboard's Test Activity panel is scrolled from the
    /// bottom. 0 = pinned to newest (auto-follow).
    pub dashboard_log_scroll: usize,
    /// When true, identifying network info (IP, MAC, SSID, ISP, server location) is rendered
    /// as [`REDACTED_PLACEHOLDER`]. Toggled by Shift+H.
    pub hide_network_info: bool,
}

/// How many tabs there are: the traceroute tab is there only when it is enabled.
pub open spec fn tab_count(traceroute: bool) -> usize {
    if traceroute {
        5
    } else {
        4
    }
}

/// How many items the history menu has.
pub const MENU_ITEM_COUNT: usize = 5;

/// The last `n` elements of `s`.
pub open spec fn last_n<T>(s: Seq<T>, n: nat) -> Seq<T> {
    if s.len() > n {
        s.skip(s.len() - n)
    } else {
        s
    }
}

/// How far back the activity log can be scrolled.
pub open spec fn max_scroll(log: Seq<String>) -> int {
    if log.len() > 0 {
        log.len() - 1
    } else {
        0
    }
}

impl UiState {
    /// Whether the selected history row exists, or is the first one.
    pub open spec fn selection_valid(&self) -> bool {
        self.history_selected < self.history@.len() || self.history_selected == 0
    }

    /// Whether the charts show all networks, or one of those available.
    pub open spec fn chart_filter_valid(&self) -> bool {
        match self.charts_network_filter {
            None => true,
            Some(name) => crate::text::strings(self.charts_available_networks@).contains(name@),
        }
    }

    /// Whether no series, log or sample list is longer than it may be.
    pub open spec fn bounded(&self) -> bool {
        &&& self.dl_series@.len() <= MAX_SERIES
        &&& self.ul_series@.len() <= MAX_SERIES
        &&& self.idle_lat_series@.len() <= MAX_SERIES
        &&& self.loaded_dl_lat_series@.len() <= MAX_SERIES
        &&& self.loaded_ul_lat_series@.len() <= MAX_SERIES
        &&& self.dl_points@.len() <= MAX_POINTS
        &&& self.ul_points@.len() <= MAX_POINTS
        &&& self.idle_lat_points@.len() <= MAX_POINTS
        &&& self.loaded_dl_lat_points@.len() <= MAX_POINTS
        &&& self.loaded_ul_lat_points@.len() <= MAX_POINTS
        &&& self.idle_latency_samples@.len() <= MAX_SAMPLES
        &&& self.loaded_dl_latency_samples@.len() <= MAX_SAMPLES
        &&& self.loaded_ul_latency_samples@.len() <= MAX_SAMPLES
        &&& self.text_log@.len() <= MAX_LOG_LINES
    }

    /// Whether no more probes were answered than were sent.
    pub open spec fn counts_valid(&self) -> bool {
        &&& self.idle_latency_received <= self.idle_latency_sent
        &&& self.loaded_dl_latency_received <= self.loaded_dl_latency_sent
        &&& self.loaded_ul_latency_received <= self.loaded_ul_latency_sent
    }

    /// Whether keys can be taken: the tab and the menu item can be counted on from, and the
    /// editors can be scrolled by a page.
    pub open spec fn operable(&self) -> bool {
        &&& self.tab < usize::MAX
        &&& self.history_menu_selected <= usize::MAX - MENU_ITEM_COUNT
        &&& pageable(self.history_detail_textarea)
        &&& pageable(self.history_comment_modal_textarea)
    }

    /// What every state keeps: the tab and the menu item exist, the history tab has a valid
    /// selection, the charts' filter is one of the networks, the log is not scrolled past
    /// its first line, no more probes were answered than were sent, nothing outgrows its
    /// bound, and keys can be taken.
    pub open spec fn wf(&self) -> bool {
        &&& self.tab < tab_count(self.traceroute_enabled)
        &&& self.history_menu_selected < MENU_ITEM_COUNT
        &&& self.tab == 1 ==> self.selection_valid()
        &&& self.chart_filter_valid()
        &&& self.dashboard_log_scroll <= max_scroll(self.text_log@)
        &&& self.counts_valid()
        &&& self.bounded()
        &&& self.operable()
    }
}

/// A state that shows another text in the info line, and is else the same.
pub open spec fn says(s: UiState, t: UiState, text: Seq<char>) -> bool {
    &&& t.info@ == text
    &&& t == (UiState { info: t.info, ..s })
}

/// `a - b`, but at least 0.
pub open spec fn less(a: int, b: int) -> usize {
    if a > b {
        (a - b) as usize
    } else {
        0
    }
}

/// The lesser of two numbers.
pub open spec fn lesser(a: int, b: int) -> usize {
    if a < b {
        a as usize
    } else {
        b as usize
    }
}

/// The greater of two numbers.
pub open spec fn greater(a: int, b: int) -> usize {
    if a > b {
        a as usize
    } else {
        b as usize
    }
}

/// Appends `x` and drops what is then too old: only the last `max` elements stay.
pub fn push_bounded<T>(v: &mut Vec<T>, x: T, max: usize)
    ensures
        final(v)@ == last_n(old(v)@.push(x), max as nat),
{
    v.push(x);
    let n = v.len();
    if n > max {
        let ghost all = v@;
        let tail = v.split_off(n - max);
        *v = tail;
        assert(v@ =~= all.skip(n - max));
    }
}

impl UiState {
    /// Appends a value to a chart's series.
    pub fn push_series(series: &mut Vec<u64>, v: u64)
        ensures
            final(series)@ == last_n(old(series)@.push(v), MAX_SERIES as nat),
    {
        push_bounded(series, v, MAX_SERIES)
    }

    /// Appends a point to a time series.
    pub fn push_point(points: &mut Vec<(Real, Real)>, x: Real, y: Real)
        ensures
            final(points)@ == last_n(old(points)@.push((x, y)), MAX_POINTS as nat),
    {
        push_bounded(points, (x, y), MAX_POINTS)
    }

    /// Appends a line to the activity log.
    pub fn push_log_line(log: &mut Vec<String>, line: String)
        ensures
            final(log)@ == last_n(old(log)@.push(line), MAX_LOG_LINES as nat),
    {
        push_bounded(log, line, MAX_LOG_LINES)
    }

    /// The live figures of a latency series: how many probes were sent and answered, the
    /// share of those that were lost, and `figures`, which are those of the samples where
    /// they have any. Without a sample there are none.
    pub fn compute_live_latency_stats(
        samples: &[Real],
        sent: u64,
        received: u64,
        figures: Option<LatencyFigures>,
    ) -> (r: LatencySummary)
        requires
            sent != 0 ==> received <= sent,
        ensures
            r == live_summary(samples@, sent, received, figures),
    {
        let loss = if sent == 0 {
            Real::zero()
        } else {
            Real { bits: ratio_of(sent - received, sent) }
        };
        let mut r = LatencySummary {
            sent,
            received,
            loss,
            min_ms: None,
            mean_ms: None,
            median_ms: None,
            p25_ms: None,
            p75_ms: None,
            max_ms: None,
            jitter_ms: None,
        };
        if samples.len() > 0 {
            match figures {
                Some(f) => {
                    r.min_ms = Some(f.min_ms);
                    r.mean_ms = Some(f.mean_ms);
                    r.median_ms = Some(f.median_ms);
                    r.p25_ms = Some(f.p25_ms);
                    r.p75_ms = Some(f.p75_ms);
                    r.max_ms = Some(f.max_ms);
                    r.jitter_ms = f.jitter_ms;
                },
                None => {},
            }
        }
        r
    }
}

/// The share of the probes that were lost, as a double.
pub open spec fn loss_of(sent: u64, received: u64) -> Real {
    if sent == 0 {
        Real::zeroed()
    } else {
        Real { bits: ratio_bits((sent - received) as nat, sent as nat) as u64 }
    }
}

/// A summary of a latency series.
pub open spec fn live_summary(
    samples: Seq<Real>,
    sent: u64,
    received: u64,
    figures: Option<LatencyFigures>,
) -> LatencySummary {
    let loss = loss_of(sent, received);
    if samples.len() > 0 && figures is Some {
        let f = figures->0;
        LatencySummary {
            sent,
            received,
            loss,
            min_ms: Some(f.min_ms),
            mean_ms: Some(f.mean_ms),
            median_ms: Some(f.median_ms),
            p25_ms: Some(f.p25_ms),
            p75_ms: Some(f.p75_ms),
            max_ms: Some(f.max_ms),
            jitter_ms: f.jitter_ms,
        }
    } else {
        LatencySummary {
            sent,
            received,
            loss,
            min_ms: None,
            mean_ms: None,
            median_ms: None,
            p25_ms: None,
            p75_ms: None,
            max_ms: None,
            jitter_ms: None,
        }
    }
}

/// A state before anything has happened.
pub open spec fn is_fresh(s: UiState) -> bool {
    &&& s.tab == 0
    &&& !s.paused
    &&& s.phase == Phase::IdleLatency
    &&& s.info@ == Seq::<char>::empty()
    &&& s.comments is None
    &&& s.dl_series@.len() == 0
    &&& s.ul_series@.len() == 0
    &&& s.idle_lat_series@.len() == 0
    &&& s.loaded_dl_lat_series@.len() == 0
    &&& s.loaded_ul_lat_series@.len() == 0
    &&& s.run_start == 0
    &&& s.dl_points@.len() == 0
    &&& s.ul_points@.len() == 0
    &&& s.idle_lat_points@.len() == 0
    &&& s.loaded_dl_lat_points@.len() == 0
    &&& s.loaded_ul_lat_points@.len() == 0
    &&& s.dl_mbps == Real::zeroed()
    &&& s.ul_mbps == Real::zeroed()
    &&& s.dl_avg_mbps == Real::zeroed()
    &&& s.ul_avg_mbps == Real::zeroed()
    &&& s.dl_bytes_total == 0
    &&& s.ul_bytes_total == 0
    &&& s.dl_phase_start is None
    &&& s.ul_phase_start is None
    &&& s.idle_latency_samples@.len() == 0
    &&& s.loaded_dl_latency_samples@.len() == 0
    &&& s.loaded_ul_latency_samples@.len() == 0
    &&& s.idle_latency_sent == 0
    &&& s.idle_latency_received == 0
    &&& s.loaded_dl_latency_sent == 0
    &&& s.loaded_dl_latency_received == 0
    &&& s.loaded_ul_latency_sent == 0
    &&& s.loaded_ul_latency_received == 0
    &&& s.udp_loss_sent == 0
    &&& s.udp_loss_received == 0
    &&& s.udp_loss_total == 0
    &&& s.udp_loss_latest_rtt_ms is None
    &&& s.last_result is None
    &&& s.history@.len() == 0
    &&& s.history_selected == 0
    &&& s.history_scroll_offset == 0
    &&& s.history_loaded_count == 0
    &&& s.initial_history_load_size == 66
    &&& s.history_filter@ == Seq::<char>::empty()
    &&& !s.history_filter_editing
    &&& s.charts_network_filter is None
    &&& s.charts_available_networks@.len() == 0
    &&& !s.history_detail_view
    &&& is_new_editor(s.history_detail_textarea, Seq::empty())
    &&& s.history_detail_search@ == Seq::<char>::empty()
    &&& !s.history_detail_search_editing
    &&& s.history_detail_search_error is None
    &&& !s.history_menu_open
    &&& s.history_menu_selected == 0
    &&& s.ip is None
    &&& s.colo is None
    &&& s.server is None
    &&& s.asn is None
    &&& s.as_org is None
    &&& s.auto_save
    &&& !s.history_export_modal_open
    &&& s.history_export_modal_path is None
    &&& !s.history_export_modal_copied
    &&& !s.history_comment_modal_open
    &&& is_new_editor(s.history_comment_modal_textarea, Seq::empty())
    &&& s.interface_name is None
    &&& s.network_name is None
    &&& s.is_wireless is None
    &&& s.interface_mac is None
    &&& s.local_ipv4 is None
    &&& s.local_ipv6 is None
    &&& s.external_ipv4 is None
    &&& s.external_ipv6 is None
    &&& s.certificate_filename is None
    &&& s.proxy_url is None
    &&& s.dscp_label is None
    &&& s.dns_summary is None
    &&& s.tls_summary is None
    &&& s.ip_comparison is None
    &&& s.traceroute_summary is None
    &&& !s.traceroute_enabled
    &&& s.traceroute_max_hops == 30
    &&& s.traceroute_hops@.len() == 0
    &&& s.update_status is None
    &&& s.text_log@.len() == 0
    &&& s.dashboard_log_scroll == 0
    &&& !s.hide_network_info
}

impl Default for UiState {
    /// A state before anything has happened, at the clock reading 0.
    fn default() -> (s: Self)
        ensures
            is_fresh(s),
            s.wf(),
    {
        UiState {
            tab: 0,
            paused: false,
            phase: Phase::IdleLatency,
            info: String::new(),
            comments: None,
            dl_series: Vec::new(),
            ul_series: Vec::new(),
            idle_lat_series: Vec::new(),
            loaded_dl_lat_series: Vec::new(),
            loaded_ul_lat_series: Vec::new(),
            run_start: 0,
            dl_points: Vec::new(),
            ul_points: Vec::new(),
            idle_lat_points: Vec::new(),
            loaded_dl_lat_points: Vec::new(),
            loaded_ul_lat_points: Vec::new(),
            dl_mbps: Real::zero(),
            ul_mbps: Real::zero(),
            dl_avg_mbps: Real::zero(),
            ul_avg_mbps: Real::zero(),
            dl_bytes_total: 0,
            ul_bytes_total: 0,
            dl_phase_start: None,
            ul_phase_start: None,
            idle_latency_samples: Vec::new(),
            loaded_dl_latency_samples: Vec::new(),
            loaded_ul_latency_samples: Vec::new(),
            idle_latency_sent: 0,
            idle_latency_received: 0,
            loaded_dl_latency_sent: 0,
            loaded_dl_latency_received: 0,
            loaded_ul_latency_sent: 0,
            loaded_ul_latency_received: 0,
            udp_loss_sent: 0,
            udp_loss_received: 0,
            udp_loss_total: 0,
            udp_loss_latest_rtt_ms: None,
            last_result: None,
            history: Vec::new(),
            history_selected: 0,
            history_scroll_offset: 0,
            history_loaded_count: 0,
            initial_history_load_size: 66,
            history_filter: String::new(),
            history_filter_editing: false,
            charts_network_filter: None,
            charts_available_networks: Vec::new(),
            history_detail_view: false,
            history_detail_textarea: blank_editor(),
            history_detail_search: String::new(),
            history_detail_search_editing: false,
            history_detail_search_error: None,
            history_menu_open: false,
            history_menu_selected: 0,
            ip: None,
            colo: None,
            server: None,
            asn: None,
            as_org: None,
            auto_save: true,
            history_export_modal_open: false,
            history_export_modal_path: None,
            history_export_modal_copied: false,
            history_comment_modal_open: false,
            history_comment_modal_textarea: blank_editor(),
            interface_name: None,
            network_name: None,
            is_wireless: None,
            interface_mac: None,
            local_ipv4: None,
            local_ipv6: None,
            external_ipv4: None,
            external_ipv6: None,
            certificate_filename: None,
            proxy_url: None,
            dscp_label: None,
            dns_summary: None,
            tls_summary: None,
            ip_comparison: None,
            traceroute_summary: None,
            traceroute_enabled: false,
            traceroute_max_hops: 30,
            traceroute_hops: Vec::new(),
            update_status: None,
            text_log: Vec::new(),
            dashboard_log_scroll: 0,
            hide_network_info: false,
        }
    }
}

} // verus!
