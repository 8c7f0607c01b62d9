use speedcli::model::{Phase, Real, RunRecord};
use speedcli::tui::runs::{
    adopt_connection, begin_run, dscp_label, initial_load_size, keep_result, launch, list_run,
    note_update, reload_size, run_failed, run_join_failed, save_wanted, tell_exports,
    LaunchOptions, Metadata, NetworkInfo,
};
use speedcli::tui::UiState;

fn record(id: &str) -> RunRecord {
    RunRecord {
        meas_id: id.to_string(),
        network_name: Some("home".to_string()),
        comments: None,
        server: None,
        rest: String::new(),
    }
}

#[test]
fn three_screens_of_runs_are_loaded_at_first() {
    assert_eq!(initial_load_size(None), 66);
    assert_eq!(initial_load_size(Some(24)), 66);
    assert_eq!(initial_load_size(Some(0)), 20);
    assert_eq!(initial_load_size(Some(8)), 20);
    assert_eq!(initial_load_size(Some(9)), 21);
    assert_eq!(initial_load_size(Some(u16::MAX)), 196599);
}

#[test]
fn a_label_describes_an_accepted_specifier() {
    assert_eq!(dscp_label(&None), None);
    assert_eq!(dscp_label(&Some("zz".to_string())), None);
    assert_eq!(
        dscp_label(&Some("ef:60,cs1:40".to_string())).as_deref(),
        Some("EF (DSCP 46, 0xB8) 60%, CS1 (DSCP 8, 0x20) 40%")
    );
    assert_eq!(dscp_label(&Some("5".to_string())).as_deref(), Some("DSCP 5 (0x14) 100%"));
}

#[test]
fn the_interface_starts_with_what_is_known() {
    let s = launch(
        LaunchOptions {
            auto_save: false,
            comments: Some("c".to_string()),
            hide_network_info: true,
            certificate_filename: Some("ca.pem".to_string()),
            proxy: Some("http://p".to_string()),
            dscp: Some("ef".to_string()),
            traceroute: true,
            traceroute_max_hops: 12,
        },
        NetworkInfo {
            interface_name: Some("eth0".to_string()),
            network_name: Some("home".to_string()),
            is_wireless: Some(false),
            interface_mac: Some("aa".to_string()),
            local_ipv4: Some("10.0.0.1".to_string()),
            local_ipv6: None,
        },
        40,
        vec![record("1"), record("2")],
        99,
    );
    assert_eq!((s.tab, s.auto_save, s.hide_network_info, s.run_start), (0, false, true, 99));
    assert_eq!((s.history.len(), s.history_loaded_count, s.initial_history_load_size), (2, 2, 40));
    assert_eq!(s.charts_available_networks, ["home"]);
    assert_eq!(s.dscp_label.as_deref(), Some("EF (DSCP 46, 0xB8) 100%"));
    assert_eq!((s.traceroute_enabled, s.traceroute_max_hops), (true, 12));
    assert_eq!(s.certificate_filename.as_deref(), Some("ca.pem"));
    assert_eq!(s.proxy_url.as_deref(), Some("http://p"));
    assert_eq!(s.comments.as_deref(), Some("c"));
    assert_eq!(s.interface_name.as_deref(), Some("eth0"));
    assert_eq!(s.network_name.as_deref(), Some("home"));
    assert_eq!(s.is_wireless, Some(false));
    assert_eq!(s.interface_mac.as_deref(), Some("aa"));
    assert_eq!((s.local_ipv4.as_deref(), s.local_ipv6.as_deref()), (Some("10.0.0.1"), None));
    assert!(matches!(s.phase, Phase::IdleLatency));
}

#[test]
fn a_fresh_state_is_empty() {
    let s = UiState::default();
    assert_eq!((s.tab, s.paused, s.auto_save, s.hide_network_info), (0, false, true, false));
    assert_eq!((s.initial_history_load_size, s.traceroute_max_hops), (66, 30));
    assert_eq!(s.history_detail_textarea.area.lines(), [""]);
    assert!(s.history.is_empty() && s.text_log.is_empty() && s.update_status.is_none());
}

#[test]
fn another_run_forgets_the_last_one() {
    let mut s = UiState::default();
    s.tab = 2;
    s.info = "kept".to_string();
    s.last_result = Some(record("1"));
    s.dl_series = vec![1];
    s.dl_points = vec![(Real::zero(), Real::zero())];
    s.idle_latency_samples = vec![Real::zero()];
    s.idle_latency_sent = 4;
    s.idle_latency_received = 3;
    s.dl_mbps = Real { bits: 1.5f64.to_bits() };
    s.dl_phase_start = Some(3);
    s.phase = Phase::Upload;
    s.paused = true;
    s.udp_loss_total = 9;
    s.text_log = vec!["a".to_string(), "b".to_string()];
    s.dashboard_log_scroll = 1;
    s.history = vec![record("1")];
    begin_run(&mut s, 77);
    assert!(s.last_result.is_none() && s.dl_series.is_empty() && s.dl_points.is_empty());
    assert!(s.idle_latency_samples.is_empty() && s.text_log.is_empty());
    assert_eq!((s.idle_latency_sent, s.idle_latency_received, s.udp_loss_total), (0, 0, 0));
    assert_eq!((s.run_start, s.paused, s.dashboard_log_scroll, s.tab), (77, false, 0, 2));
    assert_eq!(s.dl_mbps, Real::zero());
    assert_eq!(s.dl_phase_start, None);
    assert!(matches!(s.phase, Phase::IdleLatency));
    assert_eq!(s.info, "kept");
    assert_eq!(s.history.len(), 1);
}

#[test]
fn a_result_tells_about_the_connection() {
    let mut s = UiState::default();
    s.server = Some("old".to_string());
    adopt_connection(
        &mut s,
        Some(Metadata {
            ip: Some("1.2.3.4".to_string()),
            colo: Some("FRA".to_string()),
            asn: Some("13335".to_string()),
            as_org: None,
        }),
        None,
    );
    assert_eq!(s.ip.as_deref(), Some("1.2.3.4"));
    assert_eq!(s.colo.as_deref(), Some("FRA"));
    assert_eq!(s.asn.as_deref(), Some("13335"));
    assert_eq!(s.as_org, None);
    assert_eq!(s.server.as_deref(), Some("old"));
    adopt_connection(&mut s, None, Some("new".to_string()));
    assert_eq!(s.server.as_deref(), Some("new"));
    assert_eq!(s.ip.as_deref(), Some("1.2.3.4"));
}

#[test]
fn a_result_is_kept_with_its_summary() {
    let mut s = UiState::default();
    s.text_log = (0..499).map(|i| i.to_string()).collect();
    keep_result(&mut s, record("9"), vec!["x".to_string(), "y".to_string(), "z".to_string()]);
    assert_eq!(s.last_result.as_ref().map(|r| r.meas_id.as_str()), Some("9"));
    assert_eq!(s.text_log.len(), 500);
    assert_eq!(s.text_log[0], "2");
    assert_eq!(s.text_log[499], "z");
    keep_result(&mut s, record("10"), Vec::new());
    assert_eq!(s.text_log[499], "z");
    s.text_log = (0..510).map(|i| i.to_string()).collect();
    keep_result(&mut s, record("11"), Vec::new());
    assert_eq!(s.text_log.len(), 510);
    keep_result(&mut s, record("12"), vec!["x".to_string()]);
    assert_eq!((s.text_log.len(), s.text_log[0].as_str()), (500, "11"));
}

#[test]
fn exports_are_told_in_one_line() {
    let mut s = UiState::default();
    s.info = "before".to_string();
    tell_exports(&mut s, None, None);
    assert_eq!(s.info, "before");
    tell_exports(&mut s, Some(Ok("a.json".to_string())), Some(Err("full".to_string())));
    assert_eq!(s.info, "Exported JSON: a.json; Export CSV failed: full");
    tell_exports(&mut s, None, Some(Ok("a.csv".to_string())));
    assert_eq!(s.info, "Exported CSV: a.csv");
    tell_exports(&mut s, Some(Err("full".to_string())), None);
    assert_eq!(s.info, "Export JSON failed: full");
}

#[test]
fn the_history_after_a_run_includes_it() {
    let mut s = UiState::default();
    assert_eq!(reload_size(&s), 66);
    s.history_loaded_count = 66;
    assert_eq!(reload_size(&s), 67);
    s.tab = 1;
    s.history_selected = 5;
    s.history_scroll_offset = 3;
    list_run(&mut s, vec![record("new"), record("old")]);
    assert_eq!((s.history_selected, s.history_scroll_offset, s.history_loaded_count), (0, 0, 2));
    assert_eq!(s.charts_available_networks, ["home"]);
    s.tab = 0;
    s.history_selected = 1;
    list_run(&mut s, vec![record("a"), record("b"), record("c")]);
    assert_eq!((s.history_selected, s.history.len()), (1, 3));
}

#[test]
fn a_run_that_fails_is_told() {
    let mut s = UiState::default();
    run_failed(&mut s, "no network");
    assert_eq!(s.info, "Run failed: no network");
    run_join_failed(&mut s, "panicked");
    assert_eq!(s.info, "Run join failed: panicked");
}

#[test]
fn the_check_for_updates_is_kept() {
    let mut s = UiState::default();
    note_update(&mut s, Some("2.0".to_string()));
    assert_eq!(s.update_status, Some(Some("2.0".to_string())));
    note_update(&mut s, None);
    assert_eq!(s.update_status, Some(None));
}

#[test]
fn results_are_saved_where_that_is_on() {
    let mut s = UiState::default();
    assert!(save_wanted(&s));
    s.auto_save = false;
    assert!(!save_wanted(&s));
}
