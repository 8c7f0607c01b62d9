use speedcli::engine::dist::DscpDist;
use speedcli::engine::dscp::{
    describe_dscp, dscp_name, parse_dscp, parse_dscp_weights, tos_byte, DscpWeight,
};

#[test]
fn parses_keywords_case_insensitively() {
    assert_eq!(parse_dscp("ef").unwrap(), 46);
    assert_eq!(parse_dscp("EF").unwrap(), 46);
    assert_eq!(parse_dscp("cs5").unwrap(), 40);
    assert_eq!(parse_dscp("AF41").unwrap(), 34);
    assert_eq!(parse_dscp("be").unwrap(), 0);
    assert_eq!(parse_dscp("cs0").unwrap(), 0);
    assert_eq!(parse_dscp("default").unwrap(), 0);
    assert_eq!(parse_dscp("le").unwrap(), 1);
    assert_eq!(parse_dscp("va").unwrap(), 44);
    assert_eq!(parse_dscp("voice-admit").unwrap(), 44);
}

#[test]
fn trims_surrounding_whitespace() {
    assert_eq!(parse_dscp("  ef  ").unwrap(), 46);
    assert_eq!(parse_dscp(" 46 ").unwrap(), 46);
}

#[test]
fn parses_decimal_and_hex_numbers() {
    assert_eq!(parse_dscp("0").unwrap(), 0);
    assert_eq!(parse_dscp("46").unwrap(), 46);
    assert_eq!(parse_dscp("63").unwrap(), 63);
    assert_eq!(parse_dscp("0x2e").unwrap(), 46);
    assert_eq!(parse_dscp("0x3F").unwrap(), 63);
}

#[test]
fn rejects_out_of_range() {
    assert!(parse_dscp("64").is_err());
    assert!(parse_dscp("255").is_err());
    assert!(parse_dscp("0x40").is_err());
}

#[test]
fn rejects_garbage() {
    assert!(parse_dscp("nonsense").is_err());
    assert!(parse_dscp("").is_err());
    assert!(parse_dscp("cs8").is_err());
}

#[test]
fn tos_byte_shifts_left_two_and_clears_ecn() {
    assert_eq!(tos_byte(46), 0xB8); // EF -> 184 -> 0xB8
    assert_eq!(tos_byte(0), 0);
    assert_eq!(tos_byte(63), 0xFC);
    // High bits beyond 6 are masked off.
    assert_eq!(tos_byte(0xFF), 0xFC);
}

fn pairs(ws: &[DscpWeight]) -> Vec<(u8, u32)> {
    ws.iter().map(|w| (w.dscp, w.weight)).collect()
}

#[test]
fn weights_single_value_defaults_to_full_share() {
    // A lone DSCP with no weight is the equal-split case with one entry.
    assert_eq!(pairs(&parse_dscp_weights("ef").unwrap()), vec![(46, 1)]);
    assert_eq!(pairs(&parse_dscp_weights("0x2e").unwrap()), vec![(46, 1)]);
}

#[test]
fn weights_omitted_means_equal_split() {
    assert_eq!(
        pairs(&parse_dscp_weights("ef,cs1,af21").unwrap()),
        vec![(46, 1), (8, 1), (18, 1)]
    );
    // Whitespace around tokens is tolerated.
    assert_eq!(
        pairs(&parse_dscp_weights(" ef , cs1 ").unwrap()),
        vec![(46, 1), (8, 1)]
    );
}

#[test]
fn weights_explicit_must_sum_to_100() {
    assert_eq!(
        pairs(&parse_dscp_weights("ef:60,cs1:40").unwrap()),
        vec![(46, 60), (8, 40)]
    );
    assert_eq!(pairs(&parse_dscp_weights("ef:100").unwrap()), vec![(46, 100)]);
    assert_eq!(
        pairs(&parse_dscp_weights("ef:50,cs1:30,af21:20").unwrap()),
        vec![(46, 50), (8, 30), (18, 20)]
    );
}

#[test]
fn weights_wrong_sum_rejected() {
    let err = parse_dscp_weights("ef:60,cs1:30").unwrap_err().to_string();
    assert!(err.contains("sum to 100"), "got: {err}");
    assert!(parse_dscp_weights("ef:50").is_err());
}

#[test]
fn weights_mixed_specified_and_unspecified_rejected() {
    assert!(parse_dscp_weights("ef:60,cs1").is_err());
    assert!(parse_dscp_weights("ef,cs1:100").is_err());
}

#[test]
fn weights_empty_and_garbage_rejected() {
    assert!(parse_dscp_weights("").is_err());
    assert!(parse_dscp_weights(",,").is_err());
    assert!(parse_dscp_weights("ef:abc").is_err());
    assert!(parse_dscp_weights("bogus:50,ef:50").is_err());
}

#[test]
fn dist_single_entry_always_selects_it() {
    let dist = DscpDist::from_weights(&parse_dscp_weights("ef").unwrap()).unwrap();
    for _ in 0..100 {
        assert_eq!(dist.select(), 46);
    }
}

#[test]
fn dist_select_only_returns_members() {
    let dist =
        DscpDist::from_weights(&parse_dscp_weights("ef:50,cs1:30,af21:20").unwrap()).unwrap();
    let members = [46u8, 8, 18];
    for _ in 0..500 {
        assert!(members.contains(&dist.select()));
    }
}

#[test]
fn dist_drops_zero_weight_and_none_when_empty() {
    // All-zero weights -> no usable distribution.
    let zero = vec![DscpWeight { dscp: 46, weight: 0 }];
    assert!(DscpDist::from_weights(&zero).is_none());
    assert!(DscpDist::from_weights(&[]).is_none());
}

#[test]
fn dscp_name_maps_known_classes() {
    assert_eq!(dscp_name(46), Some("EF"));
    assert_eq!(dscp_name(40), Some("CS5"));
    assert_eq!(dscp_name(34), Some("AF41"));
    assert_eq!(dscp_name(30), Some("AF33"));
    assert_eq!(dscp_name(0), Some("CS0"));
    assert_eq!(dscp_name(1), Some("LE"));
    assert_eq!(dscp_name(44), Some("VA"));
    // No standard name for these.
    assert_eq!(dscp_name(5), None);
    assert_eq!(dscp_name(63), None);
}

#[test]
fn describe_dscp_includes_name_decimal_and_tos() {
    assert_eq!(describe_dscp(46), "EF (DSCP 46, 0xB8)");
    assert_eq!(describe_dscp(0), "CS0 (DSCP 0, 0x00)");
    assert_eq!(describe_dscp(30), "AF33 (DSCP 30, 0x78)");
    // Unnamed value still shows decimal + TOS byte.
    assert_eq!(describe_dscp(5), "DSCP 5 (0x14)");
}

#[test]
fn dist_describe_reports_names_values_and_percentages() {
    let dist = DscpDist::from_weights(&parse_dscp_weights("ef:60,cs1:40").unwrap()).unwrap();
    assert_eq!(
        dist.describe(),
        "EF (DSCP 46, 0xB8) 60%, CS1 (DSCP 8, 0x20) 40%"
    );
    // Equal split of two -> 50% each.
    let eq = DscpDist::from_weights(&parse_dscp_weights("ef,cs1").unwrap()).unwrap();
    assert_eq!(
        eq.describe(),
        "EF (DSCP 46, 0xB8) 50%, CS1 (DSCP 8, 0x20) 50%"
    );
}

#[test]
fn describe_rounds_shares_as_doubles_do() {
    for w in [1u32, 2, 3, 7, 23, 57, 575, 999, 4095, 65537, 4294967295] {
        for rest in [1u32, 2, 3, 17, 40, 77, 425, 1000, 8191, 70001, 4294967295] {
            let ws = vec![
                DscpWeight { dscp: 46, weight: w },
                DscpWeight { dscp: 8, weight: rest },
            ];
            let total = w as u64 + rest as u64;
            let dist = DscpDist::from_weights(&ws).unwrap();
            assert_eq!(
                dist.describe(),
                format!(
                    "EF (DSCP 46, 0xB8) {:.0}%, CS1 (DSCP 8, 0x20) {:.0}%",
                    (w as f64) / (total as f64) * 100.0,
                    (rest as f64) / (total as f64) * 100.0
                )
            );
        }
    }
}

#[test]
fn describe_rounds_half_shares_as_doubles_do() {
    for total in [8u32, 40, 200, 1000, 2000] {
        for w in 1..total {
            let ws = vec![
                DscpWeight { dscp: 5, weight: w },
                DscpWeight { dscp: 6, weight: total - w },
            ];
            let dist = DscpDist::from_weights(&ws).unwrap();
            assert_eq!(
                dist.describe(),
                format!(
                    "DSCP 5 (0x14) {:.0}%, DSCP 6 (0x18) {:.0}%",
                    (w as f64) / (total as f64) * 100.0,
                    ((total - w) as f64) / (total as f64) * 100.0
                )
            );
        }
    }
}
