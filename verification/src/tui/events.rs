//! Events of the test engine.

use crate::binary64::{percent_tenths, percent_tenths_of};
use crate::model::{
    phase_text, text_of, DnsSummary, IpVersionComparison, IpVersionResult, Phase, Real, TlsSummary,
    TracerouteHop, TracerouteSummary,
};
use crate::text::{decimal, push_decimal};
use crate::tui::runs::{push_log_lines, set_metadata, with_metadata, Metadata};
use crate::tui::state::{
    last_n, lesser, max_scroll, push_bounded, says, UiState, MAX_LOG_LINES, MAX_POINTS, MAX_SAMPLES,
    MAX_SERIES,
};
use vstd::prelude::*;

verus! {

/// A latency sample that was answered in `ms` milliseconds, `at` seconds after the run's
/// start. `level` is the whole number of milliseconds that a chart shows for it.
#[derive(Debug, Clone, Copy)]
pub struct LatencyPoint {
    pub ms: Real,
    pub level: u64,
    pub at: Real,
}

/// A reading of the throughput, `at` seconds after the run's start: the rate of the moment
/// and that since the phase began, the rate that a chart shows as a point, and the whole
/// number that it shows as a level.
#[derive(Debug, Clone, Copy)]
pub struct Throughput {
    pub mbps: Real,
    pub avg_mbps: Real,
    pub shown: Real,
    pub level: u64,
    pub at: Real,
}

/// An event of the test engine. Times are readings of the clock in nanoseconds; a `_text`
/// is a number of the event as it is to be shown.
#[derive(Debug)]
#[allow(inconsistent_fields)]
pub enum TestEvent {
    PhaseStarted { phase: Phase, now: u64 },
    Info { message: String },
    MetaInfo { meta: Metadata, city: Option<String>, country: Option<String> },
    LatencySample { phase: Phase, during: Option<Phase>, point: Option<LatencyPoint>, ok: bool },
    ThroughputTick { phase: Phase, bytes_total: u64, rate: Throughput },
    UdpLossProgress { sent: u64, received: u64, total: u64, rtt_ms: Option<Real> },
    DiagnosticDns { summary: DnsSummary, time_text: String },
    DiagnosticTls { summary: TlsSummary, time_text: String },
    DiagnosticIpComparison { comparison: IpVersionComparison, v4_text: String, v6_text: String },
    TracerouteHop { hop_number: u64, hop: TracerouteHop, rtt_text: String },
    TracerouteComplete { summary: TracerouteSummary },
    ExternalIps { ipv4: Option<String>, ipv6: Option<String> },
}

/// What new lines do to the activity log: they are appended, and only the last ones stay. A
/// log that is scrolled back is scrolled back by as many lines more, as far as there are
/// any; one that shows its newest line goes on to show it.
pub open spec fn lines_logged(s: UiState, t: UiState, lines: Seq<String>) -> bool {
    if lines.len() == 0 {
        t == s
    } else {
        &&& t.text_log@ == last_n(s.text_log@ + lines, MAX_LOG_LINES as nat)
        &&& t == (UiState {
            text_log: t.text_log,
            dashboard_log_scroll: if s.dashboard_log_scroll > 0 {
                lesser(s.dashboard_log_scroll + lines.len(), max_scroll(t.text_log@))
            } else {
                0
            },
            ..s
        })
    }
}

/// Appends lines to the activity log and keeps the view where it is.
fn log_lines(state: &mut UiState, lines: Vec<String>)
    ensures
        lines_logged(*old(state), *final(state), lines@),
{
    let added = lines.len();
    if added == 0 {
        return;
    }
    push_log_lines(&mut state.text_log, lines);
    if state.dashboard_log_scroll > 0 {
        let count = state.text_log.len();
        let top: usize = if count > 0 {
            count - 1
        } else {
            0
        };
        let back = state.dashboard_log_scroll.saturating_add(added);
        state.dashboard_log_scroll = if back < top {
            back
        } else {
            top
        };
    }
}

/// What the idle phase measures begins anew.
pub open spec fn idle_reset(s: UiState, t: UiState) -> bool {
    &&& t.idle_latency_samples@.len() == 0
    &&& t == (UiState {
        idle_latency_samples: t.idle_latency_samples,
        idle_latency_sent: 0,
        idle_latency_received: 0,
        ..s
    })
}

/// Resets what the idle phase measures.
fn reset_idle(state: &mut UiState)
    ensures
        idle_reset(*old(state), *final(state)),
{
    state.idle_latency_samples = Vec::new();
    state.idle_latency_sent = 0;
    state.idle_latency_received = 0;
}

/// What the download measures begins anew.
pub open spec fn dl_reset(s: UiState, t: UiState, now: u64) -> bool {
    &&& t.loaded_dl_latency_samples@.len() == 0
    &&& t == (UiState {
        dl_phase_start: Some(now),
        dl_bytes_total: 0,
        dl_avg_mbps: Real::zeroed(),
        loaded_dl_latency_samples: t.loaded_dl_latency_samples,
        loaded_dl_latency_sent: 0,
        loaded_dl_latency_received: 0,
        ..s
    })
}

/// Resets what the download measures.
fn reset_dl(state: &mut UiState, now: u64)
    ensures
        dl_reset(*old(state), *final(state), now),
{
    state.dl_phase_start = Some(now);
    state.dl_bytes_total = 0;
    state.dl_avg_mbps = Real::zero();
    state.loaded_dl_latency_samples = Vec::new();
    state.loaded_dl_latency_sent = 0;
    state.loaded_dl_latency_received = 0;
}

/// What the upload measures begins anew.
pub open spec fn ul_reset(s: UiState, t: UiState, now: u64) -> bool {
    &&& t.loaded_ul_latency_samples@.len() == 0
    &&& t == (UiState {
        ul_phase_start: Some(now),
        ul_bytes_total: 0,
        ul_avg_mbps: Real::zeroed(),
        loaded_ul_latency_samples: t.loaded_ul_latency_samples,
        loaded_ul_latency_sent: 0,
        loaded_ul_latency_received: 0,
        ..s
    })
}

/// Resets what the upload measures.
fn reset_ul(state: &mut UiState, now: u64)
    ensures
        ul_reset(*old(state), *final(state), now),
{
    state.ul_phase_start = Some(now);
    state.ul_bytes_total = 0;
    state.ul_avg_mbps = Real::zero();
    state.loaded_ul_latency_samples = Vec::new();
    state.loaded_ul_latency_sent = 0;
    state.loaded_ul_latency_received = 0;
}

/// What the packet loss probe counts begins anew.
pub open spec fn loss_reset(s: UiState) -> UiState {
    UiState {
        udp_loss_sent: 0,
        udp_loss_received: 0,
        udp_loss_total: 0,
        udp_loss_latest_rtt_ms: None,
        ..s
    }
}

/// Resets what the packet loss probe counts.
fn reset_loss(state: &mut UiState)
    ensures
        *final(state) == loss_reset(*old(state)),
{
    state.udp_loss_sent = 0;
    state.udp_loss_received = 0;
    state.udp_loss_total = 0;
    state.udp_loss_latest_rtt_ms = None;
}

/// What the beginning of a phase does: it is told, and what the phase measures begins anew.
pub open spec fn phase_begun(s: UiState, t: UiState, phase: Phase, now: u64) -> bool {
    let told = UiState { phase: phase, info: t.info, ..s };
    &&& t.info@ == "Phase: "@ + phase_text(phase)
    &&& match phase {
        Phase::IdleLatency => idle_reset(told, t),
        Phase::Download => dl_reset(told, t, now),
        Phase::Upload => ul_reset(told, t, now),
        Phase::PacketLoss => t == loss_reset(told),
        Phase::Other(_) => t == told,
    }
}

/// Tells a phase.
fn tell_phase(state: &mut UiState, phase: Phase)
    ensures
        says(
            UiState { phase: phase, ..*old(state) },
            *final(state),
            "Phase: "@ + phase_text(phase),
        ),
{
    let mut info = "Phase: ".to_string();
    info.append(phase.name());
    state.info = info;
    state.phase = phase;
}

/// Begins a phase.
fn begin_phase(state: &mut UiState, phase: Phase, now: u64)
    ensures
        phase_begun(*old(state), *final(state), phase, now),
{
    tell_phase(state, phase);
    match &state.phase {
        Phase::IdleLatency => reset_idle(state),
        Phase::Download => reset_dl(state, now),
        Phase::Upload => reset_ul(state, now),
        Phase::PacketLoss => reset_loss(state),
        Phase::Other(_) => {},
    }
}

/// Where the server is: the city, with its country where that is known; without a city the
/// code of the location; without either as it was.
pub open spec fn server_located(
    s: UiState,
    t: UiState,
    city: Option<String>,
    country: Option<String>,
) -> bool {
    &&& t == (UiState { server: t.server, ..s })
    &&& match (city, country, s.colo) {
        (Some(city), Some(country), _) => text_of(t.server) == Some(city@ + ", "@ + country@),
        (Some(city), None, _) => text_of(t.server) == Some(city@),
        (None, _, Some(colo)) => text_of(t.server) == Some(colo@),
        (None, _, None) => t.server == s.server,
    }
}

/// Notes where the server is.
fn locate_server(state: &mut UiState, city: Option<String>, country: Option<String>)
    ensures
        server_located(*old(state), *final(state), city, country),
{
    match city {
        Some(city) => {
            let mut place = city;
            match country {
                Some(country) => {
                    place.append(", ");
                    place.append(country.as_str());
                },
                None => {},
            }
            state.server = Some(place);
        },
        None => {
            match &state.colo {
                Some(colo) => {
                    state.server = Some(colo.clone());
                },
                None => {},
            }
        },
    }
}

/// A count that goes up by one or stays.
pub open spec fn counted(n: u64, up: bool) -> u64 {
    if up {
        (n + 1) as u64
    } else {
        n
    }
}

/// A probe of the idle phase counted.
pub open spec fn idle_counted(s: UiState, ok: bool) -> UiState {
    UiState {
        idle_latency_sent: counted(s.idle_latency_sent, true),
        idle_latency_received: counted(s.idle_latency_received, ok),
        ..s
    }
}

/// Whether one more probe can be counted, and its answer if there is one.
pub open spec fn probe_countable(sent: u64, received: u64, ok: bool) -> bool {
    sent < u64::MAX && (ok ==> received < u64::MAX)
}

/// Counts a probe of the idle phase.
fn count_idle(state: &mut UiState, ok: bool)
    requires
        probe_countable(old(state).idle_latency_sent, old(state).idle_latency_received, ok),
    ensures
        *final(state) == idle_counted(*old(state), ok),
{
    state.idle_latency_sent = state.idle_latency_sent + 1;
    if ok {
        state.idle_latency_received = state.idle_latency_received + 1;
    }
}

/// An answer to a probe of the idle phase shown: its level, its point and its sample are
/// appended.
pub open spec fn idle_plotted(s: UiState, t: UiState, p: LatencyPoint) -> bool {
    &&& t.idle_lat_series@ == last_n(s.idle_lat_series@.push(p.level), MAX_SERIES as nat)
    &&& t.idle_lat_points@ == last_n(
        s.idle_lat_points@.push((p.at, p.ms)),
        MAX_POINTS as nat,
    )
    &&& t.idle_latency_samples@ == last_n(
        s.idle_latency_samples@.push(p.ms),
        MAX_SAMPLES as nat,
    )
    &&& t == (UiState {
        idle_lat_series: t.idle_lat_series,
        idle_lat_points: t.idle_lat_points,
        idle_latency_samples: t.idle_latency_samples,
        ..s
    })
}

/// Shows an answer to a probe of the idle phase.
fn plot_idle(state: &mut UiState, p: LatencyPoint)
    ensures
        idle_plotted(*old(state), *final(state), p),
{
    UiState::push_series(&mut state.idle_lat_series, p.level);
    UiState::push_point(&mut state.idle_lat_points, p.at, p.ms);
    push_bounded(&mut state.idle_latency_samples, p.ms, MAX_SAMPLES);
}

/// What a probe of the idle phase does: it is counted, and an answer is shown.
pub open spec fn idle_sampled(
    s: UiState,
    t: UiState,
    point: Option<LatencyPoint>,
    ok: bool,
) -> bool {
    if ok && point is Some {
        idle_plotted(idle_counted(s, ok), t, point->0)
    } else {
        t == idle_counted(s, ok)
    }
}

/// A probe of the idle phase.
fn sample_idle(state: &mut UiState, point: Option<LatencyPoint>, ok: bool)
    requires
        probe_countable(old(state).idle_latency_sent, old(state).idle_latency_received, ok),
    ensures
        idle_sampled(*old(state), *final(state), point, ok),
{
    count_idle(state, ok);
    match point {
        Some(p) => {
            if ok {
                plot_idle(state, p);
            }
        },
        None => {},
    }
}

/// A probe during the download counted.
pub open spec fn dl_counted(s: UiState, ok: bool) -> UiState {
    UiState {
        loaded_dl_latency_sent: counted(s.loaded_dl_latency_sent, true),
        loaded_dl_latency_received: counted(s.loaded_dl_latency_received, ok),
        ..s
    }
}

/// Counts a probe during the download.
fn count_dl(state: &mut UiState, ok: bool)
    requires
        probe_countable(
            old(state).loaded_dl_latency_sent,
            old(state).loaded_dl_latency_received,
            ok,
        ),
    ensures
        *final(state) == dl_counted(*old(state), ok),
{
    state.loaded_dl_latency_sent = state.loaded_dl_latency_sent + 1;
    if ok {
        state.loaded_dl_latency_received = state.loaded_dl_latency_received + 1;
    }
}

/// An answer to a probe during the download shown: its level, its point and its sample are
/// appended.
pub open spec fn dl_plotted(s: UiState, t: UiState, p: LatencyPoint) -> bool {
    &&& t.loaded_dl_lat_series@ == last_n(s.loaded_dl_lat_series@.push(p.level), MAX_SERIES as nat)
    &&& t.loaded_dl_lat_points@ == last_n(
        s.loaded_dl_lat_points@.push((p.at, p.ms)),
        MAX_POINTS as nat,
    )
    &&& t.loaded_dl_latency_samples@ == last_n(
        s.loaded_dl_latency_samples@.push(p.ms),
        MAX_SAMPLES as nat,
    )
    &&& t == (UiState {
        loaded_dl_lat_series: t.loaded_dl_lat_series,
        loaded_dl_lat_points: t.loaded_dl_lat_points,
        loaded_dl_latency_samples: t.loaded_dl_latency_samples,
        ..s
    })
}

/// Shows an answer to a probe during the download.
fn plot_dl(state: &mut UiState, p: LatencyPoint)
    ensures
        dl_plotted(*old(state), *final(state), p),
{
    UiState::push_series(&mut state.loaded_dl_lat_series, p.level);
    UiState::push_point(&mut state.loaded_dl_lat_points, p.at, p.ms);
    push_bounded(&mut state.loaded_dl_latency_samples, p.ms, MAX_SAMPLES);
}

/// What a probe during the download does: it is counted, and an answer is shown.
pub open spec fn dl_sampled(
    s: UiState,
    t: UiState,
    point: Option<LatencyPoint>,
    ok: bool,
) -> bool {
    if ok && point is Some {
        dl_plotted(dl_counted(s, ok), t, point->0)
    } else {
        t == dl_counted(s, ok)
    }
}

/// A probe during the download.
fn sample_dl(state: &mut UiState, point: Option<LatencyPoint>, ok: bool)
    requires
        probe_countable(
            old(state).loaded_dl_latency_sent,
            old(state).loaded_dl_latency_received,
            ok,
        ),
    ensures
        dl_sampled(*old(state), *final(state), point, ok),
{
    count_dl(state, ok);
    match point {
        Some(p) => {
            if ok {
                plot_dl(state, p);
            }
        },
        None => {},
    }
}

/// A probe during the upload counted.
pub open spec fn ul_counted(s: UiState, ok: bool) -> UiState {
    UiState {
        loaded_ul_latency_sent: counted(s.loaded_ul_latency_sent, true),
        loaded_ul_latency_received: counted(s.loaded_ul_latency_received, ok),
        ..s
    }
}

/// Counts a probe during the upload.
fn count_ul(state: &mut UiState, ok: bool)
    requires
        probe_countable(
            old(state).loaded_ul_latency_sent,
            old(state).loaded_ul_latency_received,
            ok,
        ),
    ensures
        *final(state) == ul_counted(*old(state), ok),
{
    state.loaded_ul_latency_sent = state.loaded_ul_latency_sent + 1;
    if ok {
        state.loaded_ul_latency_received = state.loaded_ul_latency_received + 1;
    }
}

/// An answer to a probe during the upload shown: its level, its point and its sample are
/// appended.
pub open spec fn ul_plotted(s: UiState, t: UiState, p: LatencyPoint) -> bool {
    &&& t.loaded_ul_lat_series@ == last_n(s.loaded_ul_lat_series@.push(p.level), MAX_SERIES as nat)
    &&& t.loaded_ul_lat_points@ == last_n(
        s.loaded_ul_lat_points@.push((p.at, p.ms)),
        MAX_POINTS as nat,
    )
    &&& t.loaded_ul_latency_samples@ == last_n(
        s.loaded_ul_latency_samples@.push(p.ms),
        MAX_SAMPLES as nat,
    )
    &&& t == (UiState {
        loaded_ul_lat_series: t.loaded_ul_lat_series,
        loaded_ul_lat_points: t.loaded_ul_lat_points,
        loaded_ul_latency_samples: t.loaded_ul_latency_samples,
        ..s
    })
}

/// Shows an answer to a probe during the upload.
fn plot_ul(state: &mut UiState, p: LatencyPoint)
    ensures
        ul_plotted(*old(state), *final(state), p),
{
    UiState::push_series(&mut state.loaded_ul_lat_series, p.level);
    UiState::push_point(&mut state.loaded_ul_lat_points, p.at, p.ms);
    push_bounded(&mut state.loaded_ul_latency_samples, p.ms, MAX_SAMPLES);
}

/// What a probe during the upload does: it is counted, and an answer is shown.
pub open spec fn ul_sampled(
    s: UiState,
    t: UiState,
    point: Option<LatencyPoint>,
    ok: bool,
) -> bool {
    if ok && point is Some {
        ul_plotted(ul_counted(s, ok), t, point->0)
    } else {
        t == ul_counted(s, ok)
    }
}

/// A probe during the upload.
fn sample_ul(state: &mut UiState, point: Option<LatencyPoint>, ok: bool)
    requires
        probe_countable(
            old(state).loaded_ul_latency_sent,
            old(state).loaded_ul_latency_received,
            ok,
        ),
    ensures
        ul_sampled(*old(state), *final(state), point, ok),
{
    count_ul(state, ok);
    match point {
        Some(p) => {
            if ok {
                plot_ul(state, p);
            }
        },
        None => {},
    }
}

/// What a latency probe does: one of the idle phase belongs to the idle series, one during
/// the download or the upload to the series of that phase, and any other to none.
pub open spec fn sample_taken(
    s: UiState,
    t: UiState,
    phase: Phase,
    during: Option<Phase>,
    point: Option<LatencyPoint>,
    ok: bool,
) -> bool {
    match (phase, during) {
        (Phase::IdleLatency, _) => idle_sampled(s, t, point, ok),
        (Phase::Download, Some(Phase::Download)) => dl_sampled(s, t, point, ok),
        (Phase::Upload, Some(Phase::Upload)) => ul_sampled(s, t, point, ok),
        _ => t == s,
    }
}

/// Whether a latency probe can be counted where it belongs.
pub open spec fn sample_countable(
    s: UiState,
    phase: Phase,
    during: Option<Phase>,
    ok: bool,
) -> bool {
    match (phase, during) {
        (Phase::IdleLatency, _) => probe_countable(
            s.idle_latency_sent,
            s.idle_latency_received,
            ok,
        ),
        (Phase::Download, Some(Phase::Download)) => probe_countable(
            s.loaded_dl_latency_sent,
            s.loaded_dl_latency_received,
            ok,
        ),
        (Phase::Upload, Some(Phase::Upload)) => probe_countable(
            s.loaded_ul_latency_sent,
            s.loaded_ul_latency_received,
            ok,
        ),
        _ => true,
    }
}

/// Whether the probe that an event brings, if it brings one, can be counted.
pub open spec fn countable(s: UiState, ev: TestEvent) -> bool {
    match ev {
        TestEvent::LatencySample { phase, during, ok, .. } => sample_countable(
            s,
            phase,
            during,
            ok,
        ),
        _ => true,
    }
}

/// What a reading of the throughput does: the rate, the bytes and the charts of the phase
/// follow it; the average does once the phase has begun.
pub open spec fn throughput_taken(
    s: UiState,
    t: UiState,
    phase: Phase,
    bytes_total: u64,
    rate: Throughput,
) -> bool {
    match phase {
        Phase::Download => {
            &&& t.dl_series@ == last_n(s.dl_series@.push(rate.level), MAX_SERIES as nat)
            &&& t.dl_points@ == last_n(
                s.dl_points@.push((rate.at, rate.shown)),
                MAX_POINTS as nat,
            )
            &&& t == (UiState {
                dl_mbps: rate.mbps,
                dl_bytes_total: bytes_total,
                dl_avg_mbps: if s.dl_phase_start is Some {
                    rate.avg_mbps
                } else {
                    s.dl_avg_mbps
                },
                dl_series: t.dl_series,
                dl_points: t.dl_points,
                ..s
            })
        },
        Phase::Upload => {
            &&& t.ul_series@ == last_n(s.ul_series@.push(rate.level), MAX_SERIES as nat)
            &&& t.ul_points@ == last_n(
                s.ul_points@.push((rate.at, rate.shown)),
                MAX_POINTS as nat,
            )
            &&& t == (UiState {
                ul_mbps: rate.mbps,
                ul_bytes_total: bytes_total,
                ul_avg_mbps: if s.ul_phase_start is Some {
                    rate.avg_mbps
                } else {
                    s.ul_avg_mbps
                },
                ul_series: t.ul_series,
                ul_points: t.ul_points,
                ..s
            })
        },
        _ => t == s,
    }
}

/// Takes a reading of the throughput.
fn take_throughput(state: &mut UiState, phase: &Phase, bytes_total: u64, rate: Throughput)
    ensures
        throughput_taken(*old(state), *final(state), *phase, bytes_total, rate),
{
    match phase {
        Phase::Download => {
            state.dl_mbps = rate.mbps;
            state.dl_bytes_total = bytes_total;
            if state.dl_phase_start.is_some() {
                state.dl_avg_mbps = rate.avg_mbps;
            }
            UiState::push_series(&mut state.dl_series, rate.level);
            UiState::push_point(&mut state.dl_points, rate.at, rate.shown);
        },
        Phase::Upload => {
            state.ul_mbps = rate.mbps;
            state.ul_bytes_total = bytes_total;
            if state.ul_phase_start.is_some() {
                state.ul_avg_mbps = rate.avg_mbps;
            }
            UiState::push_series(&mut state.ul_series, rate.level);
            UiState::push_point(&mut state.ul_points, rate.at, rate.shown);
        },
        _ => {},
    }
}

/// The share of the probes that were lost, in tenths of a percent.
pub open spec fn loss_tenths(sent: u64, received: u64) -> nat {
    if received < sent {
        percent_tenths((sent - received) as nat, sent as nat)
    } else {
        0
    }
}

/// How the packet loss probe is told.
pub open spec fn loss_text(sent: u64, received: u64, total: u64) -> Seq<char> {
    let tenths = loss_tenths(sent, received);
    "Packet loss probe: "@ + decimal(sent as nat) + "/"@ + decimal(total as nat) + " (loss "@
        + decimal(tenths / 10) + "."@ + decimal(tenths % 10) + "%)"@
}

/// What progress of the packet loss probe does.
pub open spec fn loss_noted(
    s: UiState,
    t: UiState,
    sent: u64,
    received: u64,
    total: u64,
    rtt_ms: Option<Real>,
) -> bool {
    says(
        UiState {
            udp_loss_sent: sent,
            udp_loss_received: received,
            udp_loss_total: total,
            udp_loss_latest_rtt_ms: rtt_ms,
            ..s
        },
        t,
        loss_text(sent, received, total),
    )
}

/// How the packet loss probe is told.
fn loss_info(sent: u64, received: u64, total: u64) -> (info: String)
    ensures
        info@ == loss_text(sent, received, total),
{
    let tenths: u128 = if received < sent {
        percent_tenths_of(sent - received, sent)
    } else {
        0
    };
    let mut info = "Packet loss probe: ".to_string();
    push_decimal(&mut info, sent as u128);
    info.append("/");
    push_decimal(&mut info, total as u128);
    info.append(" (loss ");
    push_decimal(&mut info, tenths / 10);
    info.append(".");
    push_decimal(&mut info, tenths % 10);
    info.append("%)");
    info
}

/// Notes progress of the packet loss probe.
fn note_loss(state: &mut UiState, sent: u64, received: u64, total: u64, rtt_ms: Option<Real>)
    ensures
        loss_noted(*old(state), *final(state), sent, received, total, rtt_ms),
{
    state.udp_loss_sent = sent;
    state.udp_loss_received = received;
    state.udp_loss_total = total;
    state.udp_loss_latest_rtt_ms = rtt_ms;
    state.info = loss_info(sent, received, total);
}

/// How a name lookup is told.
pub open spec fn dns_text(summary: DnsSummary, time: Seq<char>) -> Seq<char> {
    "DNS: "@ + summary.hostname@ + " resolved in "@ + time + "ms ("@ + decimal(
        summary.resolved_ips@.len(),
    ) + " IPs)"@
}

/// Notes a name lookup.
fn note_dns(state: &mut UiState, summary: DnsSummary, time_text: String)
    ensures
        says(
            UiState { dns_summary: Some(summary), ..*old(state) },
            *final(state),
            dns_text(summary, time_text@),
        ),
{
    let mut info = "DNS: ".to_string();
    info.append(summary.hostname.as_str());
    info.append(" resolved in ");
    info.append(time_text.as_str());
    info.append("ms (");
    push_decimal(&mut info, summary.resolved_ips.len() as u128);
    info.append(" IPs)");
    state.info = info;
    state.dns_summary = Some(summary);
}

/// How a TLS handshake is told.
pub open spec fn tls_text(summary: TlsSummary, time: Seq<char>) -> Seq<char> {
    "TLS: "@ + time + "ms, "@ + match summary.protocol_version {
        Some(version) => version@,
        None => "-"@,
    }
}

/// Notes a TLS handshake.
fn note_tls(state: &mut UiState, summary: TlsSummary, time_text: String)
    ensures
        says(
            UiState { tls_summary: Some(summary), ..*old(state) },
            *final(state),
            tls_text(summary, time_text@),
        ),
{
    let mut info = "TLS: ".to_string();
    info.append(time_text.as_str());
    info.append("ms, ");
    match &summary.protocol_version {
        Some(version) => info.append(version.as_str()),
        None => info.append("-"),
    }
    state.info = info;
    state.tls_summary = Some(summary);
}

/// How the result over one address family is told.
pub open spec fn family_text(
    result: Option<IpVersionResult>,
    name: Seq<char>,
    rate: Seq<char>,
) -> Seq<char> {
    match result {
        Some(r) => if r.available {
            name + ":"@ + rate + "Mbps"@
        } else {
            name + ":N/A"@
        },
        None => "-"@,
    }
}

/// Appends how the result over one address family is told.
fn push_family(info: &mut String, result: &Option<IpVersionResult>, name: &str, rate: &str)
    ensures
        final(info)@ == old(info)@ + family_text(*result, name@, rate@),
{
    let ghost before = info@;
    match result {
        Some(r) => {
            info.append(name);
            if r.available {
                info.append(":");
                info.append(rate);
                info.append("Mbps");
            } else {
                info.append(":N/A");
            }
        },
        None => info.append("-"),
    }
    assert(info@ =~= before + family_text(*result, name@, rate@));
}

/// How a comparison of the address families is told.
pub open spec fn comparison_text(
    comparison: IpVersionComparison,
    v4: Seq<char>,
    v6: Seq<char>,
) -> Seq<char> {
    "IP Comparison: "@ + family_text(comparison.ipv4_result, "v4"@, v4) + " / "@ + family_text(
        comparison.ipv6_result,
        "v6"@,
        v6,
    )
}

/// Notes a comparison of the address families.
fn note_comparison(
    state: &mut UiState,
    comparison: IpVersionComparison,
    v4_text: String,
    v6_text: String,
)
    ensures
        says(
            UiState { ip_comparison: Some(comparison), ..*old(state) },
            *final(state),
            comparison_text(comparison, v4_text@, v6_text@),
        ),
{
    let mut info = "IP Comparison: ".to_string();
    push_family(&mut info, &comparison.ipv4_result, "v4", v4_text.as_str());
    info.append(" / ");
    push_family(&mut info, &comparison.ipv6_result, "v6", v6_text.as_str());
    state.info = info;
    state.ip_comparison = Some(comparison);
}

/// How a hop of a traceroute is told.
pub open spec fn hop_text(number: u64, hop: TracerouteHop, rtt: Seq<char>) -> Seq<char> {
    "Traceroute hop "@ + decimal(number as nat) + ": "@ + (match hop.ip_address {
        Some(address) => address@,
        None => "*"@,
    }) + " "@ + (if hop.rtt_ms@.len() > 0 {
        rtt + "ms"@
    } else {
        "*"@
    })
}

/// What a hop of a traceroute does.
pub open spec fn hop_noted(
    s: UiState,
    t: UiState,
    number: u64,
    hop: TracerouteHop,
    rtt: Seq<char>,
) -> bool {
    &&& t.traceroute_hops@ == s.traceroute_hops@.push(hop)
    &&& says(
        UiState { traceroute_hops: t.traceroute_hops, ..s },
        t,
        hop_text(number, hop, rtt),
    )
}

/// Notes a hop of a traceroute.
fn note_hop(state: &mut UiState, number: u64, hop: TracerouteHop, rtt_text: String)
    ensures
        hop_noted(*old(state), *final(state), number, hop, rtt_text@),
{
    let mut info = "Traceroute hop ".to_string();
    push_decimal(&mut info, number as u128);
    info.append(": ");
    match &hop.ip_address {
        Some(address) => info.append(address.as_str()),
        None => info.append("*"),
    }
    info.append(" ");
    let ghost before = info@;
    if hop.rtt_ms.len() > 0 {
        info.append(rtt_text.as_str());
        info.append("ms");
        assert(info@ =~= before + (rtt_text@ + "ms"@));
    } else {
        info.append("*");
    }
    state.info = info;
    state.traceroute_hops.push(hop);
}

/// How a traceroute is told.
pub open spec fn trace_text(summary: TracerouteSummary) -> Seq<char> {
    "Traceroute: "@ + decimal(summary.hops@.len()) + " hops to "@ + summary.destination@
}

/// Notes a traceroute.
fn note_trace(state: &mut UiState, summary: TracerouteSummary)
    ensures
        says(
            UiState { traceroute_summary: Some(summary), ..*old(state) },
            *final(state),
            trace_text(summary),
        ),
{
    let mut info = "Traceroute: ".to_string();
    push_decimal(&mut info, summary.hops.len() as u128);
    info.append(" hops to ");
    info.append(summary.destination.as_str());
    state.info = info;
    state.traceroute_summary = Some(summary);
}

/// What an event does, apart from the lines it is logged with.
pub open spec fn event_noted(s: UiState, t: UiState, ev: TestEvent) -> bool {
    match ev {
        TestEvent::PhaseStarted { phase, now } => phase_begun(s, t, phase, now),
        TestEvent::Info { message } => t == (UiState { info: message, ..s }),
        TestEvent::MetaInfo { meta, city, country } => server_located(
            with_metadata(s, meta),
            t,
            city,
            country,
        ),
        TestEvent::LatencySample { phase, during, point, ok } => sample_taken(
            s,
            t,
            phase,
            during,
            point,
            ok,
        ),
        TestEvent::ThroughputTick { phase, bytes_total, rate } => throughput_taken(
            s,
            t,
            phase,
            bytes_total,
            rate,
        ),
        TestEvent::UdpLossProgress { sent, received, total, rtt_ms } => loss_noted(
            s,
            t,
            sent,
            received,
            total,
            rtt_ms,
        ),
        TestEvent::DiagnosticDns { summary, time_text } => says(
            UiState { dns_summary: Some(summary), ..s },
            t,
            dns_text(summary, time_text@),
        ),
        TestEvent::DiagnosticTls { summary, time_text } => says(
            UiState { tls_summary: Some(summary), ..s },
            t,
            tls_text(summary, time_text@),
        ),
        TestEvent::DiagnosticIpComparison { comparison, v4_text, v6_text } => says(
            UiState { ip_comparison: Some(comparison), ..s },
            t,
            comparison_text(comparison, v4_text@, v6_text@),
        ),
        TestEvent::TracerouteHop { hop_number, hop, rtt_text } => hop_noted(
            s,
            t,
            hop_number,
            hop,
            rtt_text@,
        ),
        TestEvent::TracerouteComplete { summary } => says(
            UiState { traceroute_summary: Some(summary), ..s },
            t,
            trace_text(summary),
        ),
        TestEvent::ExternalIps { ipv4, ipv6 } => t == (UiState {
            external_ipv4: ipv4,
            external_ipv6: ipv6,
            ..s
        }),
    }
}

/// What an event does: the lines that tell it are logged, and then it is noted.
pub open spec fn event_applied(s: UiState, t: UiState, ev: TestEvent, lines: Seq<String>) -> bool {
    let logged = UiState {
        text_log: t.text_log,
        dashboard_log_scroll: t.dashboard_log_scroll,
        ..s
    };
    &&& lines_logged(s, logged, lines)
    &&& event_noted(logged, t, ev)
}

/// Takes a latency probe.
fn take_sample(
    state: &mut UiState,
    phase: &Phase,
    during: &Option<Phase>,
    point: Option<LatencyPoint>,
    ok: bool,
)
    requires
        sample_countable(*old(state), *phase, *during, ok),
    ensures
        sample_taken(*old(state), *final(state), *phase, *during, point, ok),
{
    match (phase, during) {
        (Phase::IdleLatency, _) => sample_idle(state, point, ok),
        (Phase::Download, Some(Phase::Download)) => sample_dl(state, point, ok),
        (Phase::Upload, Some(Phase::Upload)) => sample_ul(state, point, ok),
        _ => {},
    }
}

/// Notes an event.
fn note_event(state: &mut UiState, ev: TestEvent)
    requires
        countable(*old(state), ev),
    ensures
        event_noted(*old(state), *final(state), ev),
        final(state).text_log == old(state).text_log,
        final(state).dashboard_log_scroll == old(state).dashboard_log_scroll,
{
    match ev {
        TestEvent::PhaseStarted { phase, now } => begin_phase(state, phase, now),
        TestEvent::Info { message } => {
            state.info = message;
        },
        TestEvent::MetaInfo { meta, city, country } => {
            set_metadata(state, meta);
            locate_server(state, city, country);
        },
        TestEvent::LatencySample { phase, during, point, ok } => take_sample(
            state,
            &phase,
            &during,
            point,
            ok,
        ),
        TestEvent::ThroughputTick { phase, bytes_total, rate } => take_throughput(
            state,
            &phase,
            bytes_total,
            rate,
        ),
        TestEvent::UdpLossProgress { sent, received, total, rtt_ms } => note_loss(
            state,
            sent,
            received,
            total,
            rtt_ms,
        ),
        TestEvent::DiagnosticDns { summary, time_text } => note_dns(state, summary, time_text),
        TestEvent::DiagnosticTls { summary, time_text } => note_tls(state, summary, time_text),
        TestEvent::DiagnosticIpComparison { comparison, v4_text, v6_text } => note_comparison(
            state,
            comparison,
            v4_text,
            v6_text,
        ),
        TestEvent::TracerouteHop { hop_number, hop, rtt_text } => note_hop(
            state,
            hop_number,
            hop,
            rtt_text,
        ),
        TestEvent::TracerouteComplete { summary } => note_trace(state, summary),
        TestEvent::ExternalIps { ipv4, ipv6 } => {
            state.external_ipv4 = ipv4;
            state.external_ipv6 = ipv6;
        },
    }
}

/// The beginning of a phase keeps the state valid.
proof fn lemma_phase_keeps_valid(s: UiState, t: UiState, phase: Phase, now: u64)
    requires
        s.wf(),
        phase_begun(s, t, phase, now),
    ensures
        t.wf(),
{
    let told = UiState { phase: phase, info: t.info, ..s };
    assert(told.wf());
}

/// A latency probe keeps the state valid.
proof fn lemma_sample_keeps_valid(
    s: UiState,
    t: UiState,
    phase: Phase,
    during: Option<Phase>,
    point: Option<LatencyPoint>,
    ok: bool,
)
    requires
        s.wf(),
        sample_taken(s, t, phase, during, point, ok),
        countable(s, TestEvent::LatencySample { phase, during, point, ok }),
    ensures
        t.wf(),
{
    match (phase, during) {
        (Phase::IdleLatency, _) => {
            assert(idle_counted(s, ok).wf());
        },
        (Phase::Download, Some(Phase::Download)) => {
            assert(dl_counted(s, ok).wf());
        },
        (Phase::Upload, Some(Phase::Upload)) => {
            assert(ul_counted(s, ok).wf());
        },
        _ => {},
    }
}

/// A reading of the throughput keeps the state valid.
proof fn lemma_throughput_keeps_valid(
    s: UiState,
    t: UiState,
    phase: Phase,
    bytes_total: u64,
    rate: Throughput,
)
    requires
        s.wf(),
        throughput_taken(s, t, phase, bytes_total, rate),
    ensures
        t.wf(),
{
}

/// No event breaks what every state keeps.
pub proof fn events_keep_the_state_valid(
    s: UiState,
    t: UiState,
    ev: TestEvent,
    lines: Seq<String>,
)
    requires
        s.wf(),
        countable(s, ev),
        event_applied(s, t, ev, lines),
    ensures
        t.wf(),
{
    let logged = UiState {
        text_log: t.text_log,
        dashboard_log_scroll: t.dashboard_log_scroll,
        ..s
    };
    assert(logged.wf());
    match ev {
        TestEvent::PhaseStarted { phase, now } => {
            lemma_phase_keeps_valid(logged, t, phase, now);
        },
        TestEvent::LatencySample { phase, during, point, ok } => {
            lemma_sample_keeps_valid(logged, t, phase, during, point, ok);
        },
        TestEvent::ThroughputTick { phase, bytes_total, rate } => {
            lemma_throughput_keeps_valid(logged, t, phase, bytes_total, rate);
        },
        _ => {},
    }
}

/// Takes an event of the test engine. `lines` are those that tell it in the activity log.
pub fn apply_event(state: &mut UiState, ev: TestEvent, lines: Vec<String>)
    requires
        countable(*old(state), ev),
    ensures
        event_applied(*old(state), *final(state), ev, lines@),
        old(state).wf() ==> final(state).wf(),
{
    let ghost s = *state;
    log_lines(state, lines);
    let ghost logged = *state;
    note_event(state, ev);
    assert(logged == (UiState {
        text_log: state.text_log,
        dashboard_log_scroll: state.dashboard_log_scroll,
        ..s
    }));
    proof {
        if s.wf() {
            events_keep_the_state_valid(s, *state, ev, lines@);
        }
    }
}

/// An activity log that is scrolled back goes on to show the same line at its bottom when
/// lines are appended, as long as that line is kept and there is room to scroll.
pub proof fn scrolled_view_stays(s: UiState, t: UiState, lines: Seq<String>)
    requires
        s.wf(),
        lines_logged(s, t, lines),
        s.dashboard_log_scroll > 0,
        s.dashboard_log_scroll + lines.len() < MAX_LOG_LINES,
    ensures
        t.text_log@.len() - 1 - t.dashboard_log_scroll >= 0,
        t.text_log@[t.text_log@.len() - 1 - t.dashboard_log_scroll]
            == s.text_log@[s.text_log@.len() - 1 - s.dashboard_log_scroll],
{
    let all = s.text_log@ + lines;
    let at = s.text_log@.len() - 1 - s.dashboard_log_scroll;
    assert(all[at] == s.text_log@[at]);
}

/// An activity log that shows its newest line goes on to show the newest line.
pub proof fn newest_line_is_followed(s: UiState, t: UiState, lines: Seq<String>)
    requires
        lines_logged(s, t, lines),
        s.dashboard_log_scroll == 0,
    ensures
        t.dashboard_log_scroll == 0,
        lines.len() > 0 ==> t.text_log@.last() == lines.last(),
{
}

} // verus!
