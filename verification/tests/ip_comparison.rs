use speedcli::engine::ip_comparison::{
    download_url, first_address, latency_url, plan_family, skipped_result, target, target_from,
    unavailable_result, upload_url, CompareError, FamilyPlan, IpFamily, Progress, ResolvedAddr,
    Stage, Transfer, TransferStep, UrlParts, VersionTest, TEST_DURATION, UPLOAD_CHUNK,
};
use speedcli::model::{IpVersionResult, Real};

fn double(x: f64) -> Real {
    Real { bits: x.to_bits() }
}

fn addr(family: IpFamily, ip: &str) -> ResolvedAddr {
    ResolvedAddr { family, ip: ip.to_string() }
}

fn settled(plan: FamilyPlan) -> IpVersionResult {
    match plan {
        FamilyPlan::Settled(r) => r,
        FamilyPlan::Test(ip) => panic!("{}", ip),
    }
}

fn next(p: Progress) -> VersionTest {
    match p {
        Progress::Next(t) => t,
        Progress::Finished(r) => panic!("{:?}", r),
    }
}

fn finished(p: Progress) -> IpVersionResult {
    match p {
        Progress::Finished(r) => r,
        Progress::Next(t) => panic!("{:?}", t),
    }
}

#[test]
fn target_is_the_host_and_the_port_of_the_url() {
    let t = target("https://speed.cloudflare.com").unwrap();
    assert_eq!((t.host.as_str(), t.port), ("speed.cloudflare.com", 443));
    assert_eq!(t.lookup(), "speed.cloudflare.com:443");
    let t = target("http://Example.COM:8080/x?y").unwrap();
    assert_eq!(t.lookup(), "example.com:8080");
    let t = target("http://[::1]/").unwrap();
    assert_eq!(t.lookup(), "[::1]:80");
    let t = target("other://host/").unwrap();
    assert_eq!(t.lookup(), "host:443");
}

#[test]
fn target_needs_a_url_with_a_host() {
    let e = target("not a url").unwrap_err();
    assert!(matches!(e, CompareError::BadUrl(_)));
    assert_eq!(e.to_string(), "relative URL without a base");
    let e = target("mailto:someone@example.com").unwrap_err();
    assert!(matches!(e, CompareError::NoHost));
    assert_eq!(e.to_string(), "No host in URL");
}

#[test]
fn parts_of_a_url_make_a_target() {
    let t = target_from(Ok(UrlParts { host: Some("h".to_string()), port: None })).unwrap();
    assert_eq!((t.host.as_str(), t.port), ("h", 443));
    assert!(target_from(Ok(UrlParts { host: None, port: Some(1) })).is_err());
    assert_eq!(target_from(Err("bad".to_string())).unwrap_err().to_string(), "bad");
}

#[test]
fn the_first_address_of_each_family_is_tested() {
    let addrs = [
        addr(IpFamily::V6, "::1"),
        addr(IpFamily::V4, "10.0.0.1"),
        addr(IpFamily::V4, "10.0.0.2"),
        addr(IpFamily::V6, "::2"),
    ];
    assert_eq!(first_address(&addrs, IpFamily::V4).as_deref(), Some("10.0.0.1"));
    assert!(matches!(plan_family(IpFamily::V4, None, &addrs), FamilyPlan::Test(ip) if ip == "10.0.0.1"));
    assert!(matches!(plan_family(IpFamily::V6, None, &addrs), FamilyPlan::Test(ip) if ip == "::1"));
    assert_eq!(first_address(&[], IpFamily::V4), None);
}

#[test]
fn a_family_without_an_address_is_unavailable() {
    let addrs = [addr(IpFamily::V4, "10.0.0.1")];
    let r = settled(plan_family(IpFamily::V6, None, &addrs));
    assert_eq!(r.error.as_deref(), Some("No IPv6 address resolved"));
    assert_eq!(r.ip_address, "N/A");
    assert!(!r.available);
    let r = settled(plan_family(IpFamily::V4, Some(IpFamily::V4), &[]));
    assert_eq!(r.error.as_deref(), Some("No IPv4 address resolved"));
}

#[test]
fn a_restriction_wins_over_testing_both() {
    let addrs = [addr(IpFamily::V4, "10.0.0.1"), addr(IpFamily::V6, "::1")];
    let r = settled(plan_family(IpFamily::V6, Some(IpFamily::V4), &addrs));
    assert_eq!(r.error.as_deref(), Some("Skipped (--ipv4-only in effect)"));
    let r = settled(plan_family(IpFamily::V4, Some(IpFamily::V6), &addrs));
    assert_eq!(r.error.as_deref(), Some("Skipped (--ipv6-only in effect)"));
    assert!(matches!(plan_family(IpFamily::V4, Some(IpFamily::V4), &addrs), FamilyPlan::Test(_)));
    assert_eq!(skipped_result(None).error.as_deref(), Some("Skipped"));
    assert_eq!(unavailable_result("why").error.as_deref(), Some("why"));
}

#[test]
fn a_test_goes_through_all_its_steps() {
    let t = VersionTest::start("10.0.0.1".to_string(), true);
    assert_eq!(t.stage, Stage::Certificate);
    let t = next(t.step(Ok(Real::zero())));
    assert_eq!(t.stage, Stage::Client);
    let t = next(t.step(Ok(Real::zero())));
    assert_eq!(t.stage, Stage::Latency);
    let t = next(t.step(Ok(double(12.5))));
    assert_eq!(t.stage, Stage::Download);
    let t = next(t.step(Ok(double(100.0))));
    assert_eq!(t.stage, Stage::Upload);
    let r = finished(t.step(Ok(double(50.0))));
    assert_eq!(r.ip_address, "10.0.0.1");
    assert_eq!((r.latency_ms, r.download_mbps, r.upload_mbps), (double(12.5), double(100.0), double(50.0)));
    assert!(r.available);
    assert_eq!(r.error, None);
}

#[test]
fn each_step_that_fails_ends_the_test() {
    let err = || Err("oops".to_string());
    let r = finished(VersionTest::start("ip".to_string(), true).step(err()));
    assert_eq!(r.error.as_deref(), Some("Failed to load certificate: oops"));
    assert!(!r.available);

    let t = VersionTest::start("ip".to_string(), false);
    assert_eq!(t.stage, Stage::Client);
    let r = finished(t.step(err()));
    assert_eq!(r.error.as_deref(), Some("Failed to build client: oops"));

    let t = next(VersionTest::start("ip".to_string(), false).step(Ok(Real::zero())));
    let r = finished(t.step(err()));
    assert_eq!(r.error.as_deref(), Some("Latency test failed: oops"));
    assert_eq!(r.latency_ms, Real::zero());

    let t = next(VersionTest::start("ip".to_string(), false).step(Ok(Real::zero())));
    let t = next(t.step(Ok(double(3.0))));
    let r = finished(t.step(err()));
    assert_eq!(r.error.as_deref(), Some("Download test failed: oops"));
    assert_eq!((r.latency_ms, r.download_mbps), (double(3.0), Real::zero()));
    assert!(!r.available);

    let t = next(VersionTest::start("ip".to_string(), false).step(Ok(Real::zero())));
    let t = next(t.step(Ok(double(3.0))));
    let t = next(t.step(Ok(double(9.0))));
    let r = finished(t.step(err()));
    assert_eq!(r.error.as_deref(), Some("Upload test failed: oops"));
    assert_eq!((r.latency_ms, r.download_mbps, r.upload_mbps), (double(3.0), double(9.0), Real::zero()));
    assert!(r.available);
}

#[test]
fn urls_are_made_of_the_base() {
    assert_eq!(latency_url("https://h"), "https://h/__down?bytes=0");
    assert_eq!(download_url("https://h"), "https://h/__down?bytes=5000000");
    assert_eq!(upload_url("https://h"), "https://h/__up");
}

#[test]
fn chunks_are_moved_until_the_time_is_up() {
    let mut t = Transfer::start();
    assert_eq!(t.next(0, TEST_DURATION), TransferStep::Move);
    t.moved(UPLOAD_CHUNK as u64);
    assert_eq!(t.next(TEST_DURATION - 1, TEST_DURATION), TransferStep::Move);
    t.moved(7);
    assert_eq!(t.next(TEST_DURATION, TEST_DURATION), TransferStep::Over(5_000_007));
}
