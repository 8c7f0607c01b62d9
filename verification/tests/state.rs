use speedcli::model::{LatencyFigures, Real};
use speedcli::tui::state::{push_wrapped_status_kv, UiState, REDACTED_PLACEHOLDER};
use speedcli::tui::status::StatusLine;
use speedcli::tui::view::{headline, screen, tab_titles, Screen};

fn double(x: f64) -> Real {
    Real { bits: x.to_bits() }
}

#[test]
fn series_keep_their_newest_values() {
    let mut v = Vec::new();
    for i in 0..130 {
        UiState::push_series(&mut v, i);
    }
    assert_eq!(v, (10..130).collect::<Vec<u64>>());
}

#[test]
fn points_keep_their_newest_values() {
    let mut v = Vec::new();
    for i in 0..1203 {
        UiState::push_point(&mut v, double(i as f64), double(-1.0));
    }
    assert_eq!(v.len(), 1200);
    assert_eq!(v[0], (double(3.0), double(-1.0)));
}

#[test]
fn the_log_keeps_its_newest_lines() {
    let mut v = Vec::new();
    for i in 0..502 {
        UiState::push_log_line(&mut v, i.to_string());
    }
    assert_eq!((v.len(), v[0].as_str(), v[499].as_str()), (500, "2", "501"));
    let mut long: Vec<String> = (0..600).map(|i| i.to_string()).collect();
    UiState::push_log_line(&mut long, "x".to_string());
    assert_eq!((long.len(), long[0].as_str()), (500, "101"));
}

#[test]
fn live_figures_tell_the_loss() {
    let r = UiState::compute_live_latency_stats(&[], 0, 5, None);
    assert_eq!((r.sent, r.received, r.loss, r.min_ms), (0, 5, double(0.0), None));
    let r = UiState::compute_live_latency_stats(&[], 3, 2, None);
    assert_eq!(r.loss, double(1.0 / 3.0));
    assert_eq!(UiState::compute_live_latency_stats(&[], 7, 0, None).loss, double(1.0));
    assert_eq!(UiState::compute_live_latency_stats(&[], 7, 7, None).loss, double(0.0));
}

#[test]
fn live_figures_need_a_sample() {
    let figures = LatencyFigures {
        min_ms: double(1.0),
        mean_ms: double(2.0),
        median_ms: double(3.0),
        p25_ms: double(4.0),
        p75_ms: double(5.0),
        max_ms: double(6.0),
        jitter_ms: Some(double(7.0)),
    };
    let r = UiState::compute_live_latency_stats(&[], 1, 1, Some(figures));
    assert_eq!((r.min_ms, r.jitter_ms), (None, None));
    let r = UiState::compute_live_latency_stats(&[double(1.0)], 1, 1, None);
    assert_eq!((r.min_ms, r.max_ms), (None, None));
    let r = UiState::compute_live_latency_stats(&[double(1.0)], 1, 1, Some(figures));
    assert_eq!((r.min_ms, r.mean_ms), (Some(double(1.0)), Some(double(2.0))));
    assert_eq!((r.median_ms, r.p25_ms), (Some(double(3.0)), Some(double(4.0))));
    assert_eq!((r.p75_ms, r.max_ms), (Some(double(5.0)), Some(double(6.0))));
    assert_eq!(r.jitter_ms, Some(double(7.0)));
}

fn shown(label: &str, value: &str, width: u16) -> Vec<String> {
    let mut out = vec![StatusLine { label: None, text: "first".to_string() }];
    push_wrapped_status_kv(&mut out, label, value, width);
    assert_eq!(out[0].text, "first");
    out[1..]
        .iter()
        .map(|l| match &l.label {
            Some(label) => format!("{} {}", label, l.text),
            None => format!("  {}", l.text),
        })
        .collect()
}

#[test]
fn a_short_value_takes_one_line() {
    assert_eq!(shown("IP", " 1.2.3.4 ", 80), ["IP: 1.2.3.4"]);
    assert!(shown("IP", " \t ", 80).is_empty());
}

#[test]
fn an_empty_value_asks_nothing_of_its_label() {
    assert!(shown(&"x".repeat(0xfffe), " ", 80).is_empty());
}

#[test]
fn a_long_value_is_wrapped() {
    assert_eq!(shown("AB", "0123456789abcdef", 14), ["AB: 012345", "  6789abcd", "  ef"]);
    assert_eq!(shown("Long label", "xyz", 14), ["Long label: x", "  yz"]);
    assert_eq!(shown("A", "xyz", 0), ["A: x", "  y", "  z"]);
    let wide: String = "\u{e9}".repeat(10);
    assert_eq!(shown("AB", &wide, 14)[0], format!("AB: {}", "\u{e9}".repeat(6)));
}

#[test]
fn wrapping_keeps_every_character() {
    let value = "the quick brown fox jumps over the lazy dog";
    for width in 0..60 {
        let mut out = Vec::new();
        push_wrapped_status_kv(&mut out, "Key", value, width);
        let text: String = out.iter().map(|l| l.text.as_str()).collect();
        assert_eq!(text, value);
    }
}

#[test]
fn each_tab_shows_its_screen() {
    let mut s = UiState::default();
    let name = |screen: Screen| match screen {
        Screen::Dashboard => "Dashboard",
        Screen::History { .. } | Screen::HistoryDetail => "History",
        Screen::Traceroute => "Traceroute",
        Screen::Charts => "Charts",
        Screen::Help => "Help",
    };
    for traceroute in [false, true] {
        s.traceroute_enabled = traceroute;
        let titles = tab_titles(traceroute);
        assert_eq!(titles.len(), if traceroute { 5 } else { 4 });
        for (tab, title) in titles.iter().enumerate() {
            s.tab = tab;
            assert_eq!(name(screen(&s)), title);
        }
    }
}

#[test]
fn the_history_shows_what_is_open() {
    let mut s = UiState::default();
    s.tab = 1;
    s.history_menu_open = true;
    assert_eq!(screen(&s), Screen::History { menu: true, export: false, comment: false });
    s.history_menu_open = false;
    s.history_export_modal_open = true;
    s.history_comment_modal_open = true;
    assert_eq!(screen(&s), Screen::History { menu: false, export: true, comment: true });
    s.history_detail_view = true;
    assert_eq!(screen(&s), Screen::HistoryDetail);
}

#[test]
fn the_headline_tells_the_version() {
    let h = headline("1.2.3", &None);
    assert_eq!((h.plain.as_str(), h.highlight), ("cloudflare-speed-cli v1.2.3", None));
    let h = headline("1.2.3", &Some(None));
    assert_eq!((h.plain.as_str(), h.highlight), ("cloudflare-speed-cli v1.2.3 (latest)", None));
    let h = headline("1.2.3", &Some(Some("2.0.0".to_string())));
    assert_eq!(h.plain, "cloudflare-speed-cli v1.2.3 ");
    assert_eq!(h.highlight.as_deref(), Some("(v2.0.0 available)"));
}

#[test]
fn redacted_info_has_its_placeholder() {
    assert_eq!(REDACTED_PLACEHOLDER, "[redacted]");
}
