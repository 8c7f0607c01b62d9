use speedcli::engine::dscp::{apply, parse_dscp, parse_dscp_weights, DscpDist, DscpWeight};
use speedcli::engine::error::DscpError;
use speedcli::engine::marking::{mark_outcome, OptionError, TosOption};

#[test]
fn marking_writes_the_tos_byte_to_the_option_of_the_family() {
    let mut seen = Vec::new();
    apply(
        |option, tos| {
            seen.push((option, tos));
            Ok(())
        },
        46,
        false,
    )
    .unwrap();
    apply(
        |option, tos| {
            seen.push((option, tos));
            Ok(())
        },
        8,
        true,
    )
    .unwrap();
    assert_eq!(seen, [(TosOption::IpTos, 0xb8), (TosOption::Ipv6Tclass, 0x20)]);
}

#[test]
fn marking_reports_a_refusal_with_the_option() {
    let e = apply(|_, _| Err(OptionError::Refused("denied".to_string())), 46, true).unwrap_err();
    assert_eq!(e.to_string(), "failed to set DSCP via IPV6_TCLASS: denied");
    let e = mark_outcome(TosOption::IpTos, Err(OptionError::Refused("no".to_string()))).unwrap_err();
    assert_eq!(e.to_string(), "failed to set DSCP via IP_TOS: no");
}

#[test]
fn marking_reports_a_platform_without_it() {
    let e = apply(|_, _| Err(OptionError::Unsupported), 46, false).unwrap_err();
    assert_eq!(e.to_string(), "DSCP marking is not supported on this platform");
}

#[test]
fn every_specifier_error_has_its_text() {
    assert_eq!(
        parse_dscp(" Foo ").unwrap_err().to_string(),
        "invalid DSCP value ' Foo ': expected a keyword (e.g. ef, cs5, af41) or a number 0-63"
    );
    assert_eq!(
        parse_dscp("64").unwrap_err().to_string(),
        "DSCP value 64 out of range (must be 0-63)"
    );
    assert_eq!(parse_dscp_weights(" , ").unwrap_err().to_string(), "empty --dscp value");
    assert_eq!(
        parse_dscp_weights("ef: x").unwrap_err().to_string(),
        "invalid DSCP weight 'x' in 'ef: x': expected a non-negative integer"
    );
    assert_eq!(
        parse_dscp_weights("ef:50,cs1").unwrap_err().to_string(),
        "give a weight for every DSCP (e.g. ef:60,cs1:40) or for none (equal split)"
    );
    assert_eq!(
        parse_dscp_weights("ef:50,cs1:49").unwrap_err().to_string(),
        "--dscp weights must sum to 100, got 99"
    );
}

#[test]
fn weights_that_exceed_32_bits_do_not_sum_to_a_hundred() {
    match parse_dscp_weights("ef:4294967295,cs1:101") {
        Err(DscpError::WeightSum(n)) => assert_eq!(n, 4294967396),
        _ => panic!("accepted"),
    }
}

#[test]
fn the_first_wrong_entry_is_reported() {
    assert!(matches!(parse_dscp_weights("zz,ef:x"), Err(DscpError::InvalidValue(_))));
    assert!(matches!(parse_dscp_weights("ef:x,zz"), Err(DscpError::InvalidWeight { .. })));
}

#[test]
fn each_ticket_belongs_to_one_entry() {
    let dist = DscpDist::from_weights(&[
        DscpWeight { dscp: 46, weight: 2 },
        DscpWeight { dscp: 9, weight: 0 },
        DscpWeight { dscp: 8, weight: 3 },
    ])
    .unwrap();
    let drawn: Vec<Option<u8>> = (0..6).map(|t| dist.select_at(t)).collect();
    assert_eq!(drawn, [Some(46), Some(46), Some(8), Some(8), Some(8), None]);
}

#[test]
fn every_draw_is_a_member_and_every_member_is_drawn() {
    let dist = DscpDist::from_weights(&[
        DscpWeight { dscp: 46, weight: 1 },
        DscpWeight { dscp: 8, weight: 1 },
        DscpWeight { dscp: 10, weight: 1 },
    ])
    .unwrap();
    let picker = dist.picker();
    let mut seen = [0u32; 3];
    for _ in 0..3000 {
        match dist.select() {
            46 => seen[0] += 1,
            8 => seen[1] += 1,
            10 => seen[2] += 1,
            other => panic!("{}", other),
        }
        assert!(matches!(picker.pick(), Some(0xb8) | Some(0x20) | Some(0x28)));
    }
    assert!(seen.iter().all(|n| *n > 700));
}

#[test]
fn a_picker_of_one_entry_returns_its_byte() {
    let dist = DscpDist::from_weights(&[
        DscpWeight { dscp: 8, weight: 0 },
        DscpWeight { dscp: 46, weight: 1 },
    ])
    .unwrap();
    let picker = dist.picker();
    for _ in 0..50 {
        assert_eq!(picker.pick(), Some(0xb8));
    }
}

#[test]
fn a_clone_draws_from_the_same_entries() {
    let dist = DscpDist::from_weights(&[
        DscpWeight { dscp: 46, weight: 60 },
        DscpWeight { dscp: 8, weight: 40 },
    ])
    .unwrap();
    assert_eq!(dist.clone().describe(), dist.describe());
    assert_eq!(dist.describe(), "EF (DSCP 46, 0xB8) 60%, CS1 (DSCP 8, 0x20) 40%");
}
