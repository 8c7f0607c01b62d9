use speedcli::model::{
    DnsSummary, IpVersionComparison, IpVersionResult, Phase, Real, TlsSummary, TracerouteHop,
    TracerouteSummary,
};
use speedcli::tui::events::{apply_event, LatencyPoint, TestEvent, Throughput};
use speedcli::tui::runs::Metadata;
use speedcli::tui::UiState;

fn double(x: f64) -> Real {
    Real { bits: x.to_bits() }
}

fn apply(s: &mut UiState, ev: TestEvent) {
    apply_event(s, ev, Vec::new());
}

fn info(s: &mut UiState, lines: &[&str]) {
    let ev = TestEvent::Info { message: "m".to_string() };
    apply_event(s, ev, lines.iter().map(|l| l.to_string()).collect());
}

fn probe(phase: Phase, during: Option<Phase>, ms: Option<f64>, ok: bool) -> TestEvent {
    let point = ms.map(|ms| LatencyPoint { ms: double(ms), level: ms as u64, at: double(1.0) });
    TestEvent::LatencySample { phase, during, point, ok }
}

#[test]
fn lines_are_logged_and_the_newest_is_followed() {
    let mut s = UiState::default();
    info(&mut s, &["a", "b"]);
    assert_eq!(s.text_log, ["a", "b"]);
    assert_eq!((s.dashboard_log_scroll, s.info.as_str()), (0, "m"));
}

#[test]
fn a_scrolled_log_stays_where_it_is() {
    let mut s = UiState::default();
    info(&mut s, &["a", "b", "c", "d"]);
    s.dashboard_log_scroll = 1;
    info(&mut s, &["e", "f"]);
    assert_eq!(s.dashboard_log_scroll, 3);
    assert_eq!(s.text_log[s.text_log.len() - 1 - s.dashboard_log_scroll], "c");
    let many: Vec<String> = (0..499).map(|i| i.to_string()).collect();
    apply_event(&mut s, TestEvent::Info { message: String::new() }, many);
    assert_eq!((s.text_log.len(), s.dashboard_log_scroll), (500, 499));
}

#[test]
fn a_phase_begins_anew() {
    let mut s = UiState::default();
    apply(&mut s, probe(Phase::IdleLatency, None, Some(3.0), true));
    apply(&mut s, TestEvent::PhaseStarted { phase: Phase::IdleLatency, now: 5 });
    assert_eq!(s.info, "Phase: IdleLatency");
    assert_eq!((s.idle_latency_sent, s.idle_latency_received), (0, 0));
    assert!(s.idle_latency_samples.is_empty());
    assert_eq!(s.idle_lat_series, [3]);
    s.dl_bytes_total = 9;
    s.dl_avg_mbps = double(1.0);
    apply(&mut s, TestEvent::PhaseStarted { phase: Phase::Download, now: 7 });
    assert_eq!((s.dl_phase_start, s.dl_bytes_total, s.dl_avg_mbps), (Some(7), 0, Real::zero()));
    apply(&mut s, TestEvent::PhaseStarted { phase: Phase::Upload, now: 8 });
    assert_eq!((s.ul_phase_start, s.dl_phase_start), (Some(8), Some(7)));
    s.udp_loss_sent = 4;
    apply(&mut s, TestEvent::PhaseStarted { phase: Phase::PacketLoss, now: 9 });
    assert_eq!((s.udp_loss_sent, s.info.as_str()), (0, "Phase: PacketLoss"));
    apply(&mut s, TestEvent::PhaseStarted { phase: Phase::Other("Summary".to_string()), now: 9 });
    assert_eq!(s.info, "Phase: Summary");
}

fn meta(colo: Option<&str>) -> Metadata {
    Metadata {
        ip: Some("1.2.3.4".to_string()),
        colo: colo.map(String::from),
        asn: None,
        as_org: Some("org".to_string()),
    }
}

#[test]
fn the_server_is_where_its_city_is() {
    let mut s = UiState::default();
    let some = |t: &str| Some(t.to_string());
    apply(&mut s, TestEvent::MetaInfo { meta: meta(None), city: None, country: some("DE") });
    assert_eq!(s.server, None);
    assert_eq!((s.ip.as_deref(), s.as_org.as_deref()), (Some("1.2.3.4"), Some("org")));
    apply(&mut s, TestEvent::MetaInfo { meta: meta(Some("FRA")), city: None, country: None });
    assert_eq!(s.server.as_deref(), Some("FRA"));
    apply(&mut s, TestEvent::MetaInfo { meta: meta(Some("FRA")), city: some("Berlin"), country: None });
    assert_eq!(s.server.as_deref(), Some("Berlin"));
    apply(
        &mut s,
        TestEvent::MetaInfo { meta: meta(Some("FRA")), city: some("Berlin"), country: some("DE") },
    );
    assert_eq!(s.server.as_deref(), Some("Berlin, DE"));
}

#[test]
fn probes_are_counted_in_their_phase() {
    let mut s = UiState::default();
    apply(&mut s, probe(Phase::IdleLatency, Some(Phase::Upload), Some(2.0), true));
    apply(&mut s, probe(Phase::IdleLatency, None, Some(9.0), false));
    apply(&mut s, probe(Phase::IdleLatency, None, None, true));
    assert_eq!((s.idle_latency_sent, s.idle_latency_received), (3, 2));
    assert_eq!(s.idle_lat_series, [2]);
    assert_eq!(s.idle_latency_samples, [double(2.0)]);
    assert_eq!(s.idle_lat_points, [(double(1.0), double(2.0))]);
    apply(&mut s, probe(Phase::Download, Some(Phase::Download), Some(4.0), true));
    apply(&mut s, probe(Phase::Upload, Some(Phase::Upload), Some(5.0), true));
    apply(&mut s, probe(Phase::Download, Some(Phase::Upload), Some(6.0), true));
    apply(&mut s, probe(Phase::Download, None, Some(6.0), true));
    assert_eq!((s.loaded_dl_latency_sent, s.loaded_dl_latency_received), (1, 1));
    assert_eq!((s.loaded_ul_latency_sent, s.loaded_ul_latency_received), (1, 1));
    assert_eq!((s.loaded_dl_lat_series, s.loaded_ul_lat_series), (vec![4], vec![5]));
}

#[test]
fn an_unanswered_probe_leaves_the_answers() {
    let mut s = UiState::default();
    s.idle_latency_received = u64::MAX;
    apply(&mut s, probe(Phase::IdleLatency, None, None, false));
    assert_eq!((s.idle_latency_sent, s.idle_latency_received), (1, u64::MAX));
    s.loaded_dl_latency_received = 7;
    apply(&mut s, probe(Phase::Download, Some(Phase::Download), None, true));
    assert_eq!((s.loaded_dl_latency_sent, s.loaded_dl_latency_received), (1, 8));
}

#[test]
fn the_throughput_belongs_to_its_phase() {
    let mut s = UiState::default();
    let rate = |mbps: f64| Throughput {
        mbps: double(mbps),
        avg_mbps: double(mbps / 2.0),
        shown: double(mbps.max(0.0)),
        level: mbps.round() as u64,
        at: double(2.0),
    };
    let tick = |phase: Phase, n: u64, mbps: f64| TestEvent::ThroughputTick {
        phase,
        bytes_total: n,
        rate: rate(mbps),
    };
    apply(&mut s, tick(Phase::Download, 10, 8.0));
    assert_eq!((s.dl_mbps, s.dl_bytes_total, s.dl_avg_mbps), (double(8.0), 10, Real::zero()));
    apply(&mut s, TestEvent::PhaseStarted { phase: Phase::Download, now: 1 });
    apply(&mut s, tick(Phase::Download, 20, 6.0));
    assert_eq!((s.dl_mbps, s.dl_bytes_total, s.dl_avg_mbps), (double(6.0), 20, double(3.0)));
    assert_eq!(s.dl_series, [8, 6]);
    assert_eq!(s.dl_points[1], (double(2.0), double(6.0)));
    apply(&mut s, tick(Phase::Upload, 30, 5.0));
    assert_eq!((s.ul_mbps, s.ul_bytes_total, s.ul_avg_mbps), (double(5.0), 30, Real::zero()));
    apply(&mut s, tick(Phase::PacketLoss, 40, 1.0));
    assert_eq!((s.dl_bytes_total, s.ul_bytes_total), (20, 30));
}

#[test]
fn packet_loss_is_told_in_percent() {
    let mut s = UiState::default();
    let ev = |sent: u64, received: u64| TestEvent::UdpLossProgress {
        sent,
        received,
        total: 1000,
        rtt_ms: Some(double(1.0)),
    };
    apply(&mut s, ev(0, 0));
    assert_eq!(s.info, "Packet loss probe: 0/1000 (loss 0.0%)");
    apply(&mut s, ev(3, 2));
    assert_eq!(s.info, "Packet loss probe: 3/1000 (loss 33.3%)");
    assert_eq!((s.udp_loss_sent, s.udp_loss_received, s.udp_loss_total), (3, 2, 1000));
    assert_eq!(s.udp_loss_latest_rtt_ms, Some(double(1.0)));
    apply(&mut s, ev(2, 3));
    assert_eq!(s.info, "Packet loss probe: 2/1000 (loss 0.0%)");
    apply(&mut s, ev(8, 0));
    assert_eq!(s.info, "Packet loss probe: 8/1000 (loss 100.0%)");
}

#[test]
fn a_lookup_is_told() {
    let mut s = UiState::default();
    let summary = DnsSummary {
        hostname: "h".to_string(),
        resolution_time_ms: double(1.234),
        resolved_ips: vec!["a".to_string(), "b".to_string()],
    };
    apply(&mut s, TestEvent::DiagnosticDns { summary, time_text: "1.23".to_string() });
    assert_eq!(s.info, "DNS: h resolved in 1.23ms (2 IPs)");
    assert!(s.dns_summary.is_some());
}

#[test]
fn a_handshake_is_told() {
    let mut s = UiState::default();
    let summary = TlsSummary { handshake_time_ms: double(2.0), protocol_version: None };
    apply(&mut s, TestEvent::DiagnosticTls { summary, time_text: "2.00".to_string() });
    assert_eq!(s.info, "TLS: 2.00ms, -");
    let summary = TlsSummary {
        handshake_time_ms: double(2.0),
        protocol_version: Some("TLSv1.3".to_string()),
    };
    apply(&mut s, TestEvent::DiagnosticTls { summary, time_text: "2.00".to_string() });
    assert_eq!(s.info, "TLS: 2.00ms, TLSv1.3");
    assert!(s.tls_summary.is_some());
}

fn result(available: bool) -> IpVersionResult {
    IpVersionResult {
        ip_address: "x".to_string(),
        download_mbps: double(99.6),
        upload_mbps: Real::zero(),
        latency_ms: Real::zero(),
        available,
        error: None,
    }
}

#[test]
fn a_comparison_is_told() {
    let mut s = UiState::default();
    let mut told = |v4: Option<bool>, v6: Option<bool>| {
        let comparison = IpVersionComparison {
            ipv4_result: v4.map(result),
            ipv6_result: v6.map(result),
        };
        apply(
            &mut s,
            TestEvent::DiagnosticIpComparison {
                comparison,
                v4_text: "100".to_string(),
                v6_text: "7".to_string(),
            },
        );
        s.info.clone()
    };
    assert_eq!(told(Some(true), Some(true)), "IP Comparison: v4:100Mbps / v6:7Mbps");
    assert_eq!(told(Some(false), None), "IP Comparison: v4:N/A / -");
    assert_eq!(told(None, Some(false)), "IP Comparison: - / v6:N/A");
    assert!(s.ip_comparison.is_some());
}

#[test]
fn a_route_is_told_hop_by_hop() {
    let mut s = UiState::default();
    let hop = TracerouteHop { ip_address: Some("10.0.0.1".to_string()), rtt_ms: vec![double(1.5)] };
    apply(&mut s, TestEvent::TracerouteHop { hop_number: 1, hop, rtt_text: "1.5".to_string() });
    assert_eq!(s.info, "Traceroute hop 1: 10.0.0.1 1.5ms");
    let hop = TracerouteHop { ip_address: None, rtt_ms: Vec::new() };
    apply(&mut s, TestEvent::TracerouteHop { hop_number: 12, hop, rtt_text: String::new() });
    assert_eq!(s.info, "Traceroute hop 12: * *");
    assert_eq!(s.traceroute_hops.len(), 2);
    let summary = TracerouteSummary { destination: "h".to_string(), hops: Vec::new() };
    apply(&mut s, TestEvent::TracerouteComplete { summary });
    assert_eq!(s.info, "Traceroute: 0 hops to h");
    assert!(s.traceroute_summary.is_some());
}

#[test]
fn external_addresses_are_kept() {
    let mut s = UiState::default();
    apply(
        &mut s,
        TestEvent::ExternalIps { ipv4: Some("1.1.1.1".to_string()), ipv6: None },
    );
    assert_eq!((s.external_ipv4.as_deref(), s.external_ipv6), (Some("1.1.1.1"), None));
    assert_eq!(s.info, "");
}
