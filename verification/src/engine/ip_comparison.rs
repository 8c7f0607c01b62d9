//! IPv4 vs IPv6 comparison.
//!
//! An abbreviated speed test runs over each address family. Resolving, connecting and
//! measuring are the caller's work; what is tested, in which order, and what is reported
//! is decided here.

use crate::model::{IpVersionResult, IpVersionView, Real};
use crate::text::{decimal, push_decimal};
use vstd::prelude::*;

verus! {

/// An address family.
#[derive(Debug, Clone, Copy, PartialEq, Eq, Structural)]
pub enum IpFamily {
    V4,
    V6,
}

/// The command-line flag that restricts a run to a family.
pub open spec fn flag_of(family: IpFamily) -> Seq<char> {
    match family {
        IpFamily::V4 => "--ipv4-only"@,
        IpFamily::V6 => "--ipv6-only"@,
    }
}

impl IpFamily {
    /// The command-line flag that restricts a run to this family.
    pub fn flag(&self) -> (r: &'static str)
        ensures
            r@ == flag_of(*self),
    {
        match self {
            IpFamily::V4 => "--ipv4-only",
            IpFamily::V6 => "--ipv6-only",
        }
    }
}

/// Why no comparison can be made.
#[derive(Debug)]
pub enum CompareError {
    /// The base URL is none, for this reason.
    BadUrl(String),
    /// The base URL names no host.
    NoHost,
}

/// What is read of a URL: its host, and its port or the one known for its scheme.
#[derive(Debug)]
pub struct UrlParts {
    pub host: Option<String>,
    pub port: Option<u16>,
}

/// The contents of [`UrlParts`].
pub struct UrlView {
    pub host: Option<Seq<char>>,
    pub port: Option<u16>,
}

impl View for UrlParts {
    type V = UrlView;

    open spec fn view(&self) -> UrlView {
        UrlView { host: crate::model::text_of(self.host), port: self.port }
    }
}

/// A parsed URL with the contents of its parts or of the error text.
pub open spec fn url_outcome(r: Result<UrlParts, String>) -> Result<UrlView, Seq<char>> {
    match r {
        Ok(parts) => Ok(parts@),
        Err(e) => Err(e@),
    }
}

/// What `Url::parse` makes of a text: the host and the port of the URL, or the text of the
/// error.
pub uninterp spec fn parsed_url(url: Seq<char>) -> Result<UrlView, Seq<char>>;

/// `Url::parse` on `url`, then `host_str` and `port_or_known_default` of the URL, or the
/// text of the error. The result depends on the text alone; which text gives which parts
/// is left to the URL grammar.
#[verifier::external_body]
fn parse_url(url: &str) -> (r: Result<UrlParts, String>)
    ensures
        url_outcome(r) == parsed_url(url@),
{
    match reqwest::Url::parse(url) {
        Ok(u) => Ok(UrlParts {
            host: u.host_str().map(|h| h.to_string()),
            port: u.port_or_known_default(),
        }),
        Err(e) => Err(e.to_string()),
    }
}

/// The host and the port that are connected to.
#[derive(Debug)]
pub struct Target {
    pub host: String,
    pub port: u16,
}

/// The target that the parts of a URL name: its host, and its port or 443.
pub open spec fn target_of(parts: Result<UrlView, Seq<char>>) -> Result<
    (Seq<char>, u16),
    Option<Seq<char>>,
> {
    match parts {
        Err(e) => Err(Some(e)),
        Ok(parts) => match parts.host {
            None => Err(None),
            Some(host) => Ok(
                (
                    host,
                    match parts.port {
                        Some(port) => port,
                        None => 443,
                    },
                ),
            ),
        },
    }
}

/// A target or an error with its contents: the text for a bad URL, `None` for a missing
/// host.
pub open spec fn target_outcome(r: Result<Target, CompareError>) -> Result<
    (Seq<char>, u16),
    Option<Seq<char>>,
> {
    match r {
        Ok(t) => Ok((t.host@, t.port)),
        Err(CompareError::BadUrl(e)) => Err(Some(e@)),
        Err(CompareError::NoHost) => Err(None),
    }
}

/// The target that the parts of a URL name.
pub fn target_from(parts: Result<UrlParts, String>) -> (r: Result<Target, CompareError>)
    ensures
        target_outcome(r) == target_of(url_outcome(parts)),
{
    match parts {
        Err(e) => Err(CompareError::BadUrl(e)),
        Ok(parts) => match parts.host {
            None => Err(CompareError::NoHost),
            Some(host) => {
                let port: u16 = match parts.port {
                    Some(port) => port,
                    None => 443,
                };
                Ok(Target { host, port })
            },
        },
    }
}

/// The target that a base URL names.
pub fn target(base_url: &str) -> (r: Result<Target, CompareError>)
    ensures
        target_outcome(r) == target_of(parsed_url(base_url@)),
{
    target_from(parse_url(base_url))
}

impl CompareError {
    /// The text that tells a user why no comparison can be made.
    pub fn to_string(&self) -> (r: String)
        ensures
            r@ == (match self {
                CompareError::BadUrl(e) => e@,
                CompareError::NoHost => "No host in URL"@,
            }),
    {
        match self {
            CompareError::BadUrl(e) => e.clone(),
            CompareError::NoHost => "No host in URL".to_string(),
        }
    }
}

impl Target {
    /// What is looked up to find the addresses: `<host>:<port>`.
    pub fn lookup(&self) -> (r: String)
        ensures
            r@ == self.host@ + ":"@ + decimal(self.port as nat),
    {
        let mut r = self.host.clone();
        r.append(":");
        push_decimal(&mut r, self.port as u128);
        r
    }
}

/// An address that a lookup gave, as text.
#[derive(Debug)]
pub struct ResolvedAddr {
    pub family: IpFamily,
    pub ip: String,
}

/// The first address of a family among those looked up.
pub open spec fn first_of_family(addrs: Seq<ResolvedAddr>, family: IpFamily) -> Option<
    Seq<char>,
>
    decreases addrs.len(),
{
    if addrs.len() == 0 {
        None
    } else if addrs[0].family == family {
        Some(addrs[0].ip@)
    } else {
        first_of_family(addrs.drop_first(), family)
    }
}

/// The first address of a family among those looked up.
pub fn first_address(addrs: &[ResolvedAddr], family: IpFamily) -> (r: Option<String>)
    ensures
        crate::model::text_of(r) == first_of_family(addrs@, family),
{
    let mut i: usize = 0;
    assert(addrs@.skip(0) =~= addrs@);
    while i < addrs.len()
        invariant
            i <= addrs@.len(),
            first_of_family(addrs@, family) == first_of_family(addrs@.skip(i as int), family),
        decreases addrs@.len() - i,
    {
        if addrs[i].family == family {
            return Some(addrs[i].ip.clone());
        }
        assert(addrs@.skip(i as int).drop_first() =~= addrs@.skip(i + 1));
        i = i + 1;
    }
    None
}

/// A result that says only why there is none.
pub open spec fn unavailable(error: Seq<char>) -> IpVersionView {
    IpVersionView {
        ip_address: "N/A"@,
        download_mbps: Real::zeroed(),
        upload_mbps: Real::zeroed(),
        latency_ms: Real::zeroed(),
        available: false,
        error: Some(error),
    }
}

/// Result placeholder for a family that resolved no address.
pub fn unavailable_result(error: &str) -> (r: IpVersionResult)
    ensures
        r@ == unavailable(error@),
{
    IpVersionResult {
        ip_address: "N/A".to_string(),
        download_mbps: Real::zero(),
        upload_mbps: Real::zero(),
        latency_ms: Real::zero(),
        available: false,
        error: Some(error.to_string()),
    }
}

/// Why a family is skipped.
pub open spec fn skip_reason(family: Option<IpFamily>) -> Seq<char> {
    match family {
        Some(f) => "Skipped ("@ + flag_of(f) + " in effect)"@,
        None => "Skipped"@,
    }
}

/// Result placeholder for a family skipped because of `--ipvX-only`.
pub fn skipped_result(family: Option<IpFamily>) -> (r: IpVersionResult)
    ensures
        r@ == unavailable(skip_reason(family)),
{
    let mut reason = String::new();
    match family {
        Some(f) => {
            reason.append("Skipped (");
            reason.append(f.flag());
            reason.append(" in effect)");
        },
        None => {
            reason.append("Skipped");
        },
    }
    assert(reason@ =~= skip_reason(family));
    unavailable_result(reason.as_str())
}

/// What is to be done for one family.
#[derive(Debug)]
pub enum FamilyPlan {
    /// Nothing is tested; this is the result.
    Settled(IpVersionResult),
    /// The test runs over this address.
    Test(String),
}

/// The contents of a [`FamilyPlan`].
pub enum PlanView {
    Settled(IpVersionView),
    Test(Seq<char>),
}

impl View for FamilyPlan {
    type V = PlanView;

    open spec fn view(&self) -> PlanView {
        match self {
            FamilyPlan::Settled(r) => PlanView::Settled(r@),
            FamilyPlan::Test(ip) => PlanView::Test(ip@),
        }
    }
}

/// What a family without an address reports.
pub open spec fn missing_text(family: IpFamily) -> Seq<char> {
    match family {
        IpFamily::V4 => "No IPv4 address resolved"@,
        IpFamily::V6 => "No IPv6 address resolved"@,
    }
}

/// What is to be done for `family` in a run restricted to `only`: a family that is
/// disabled is skipped, the first address of the other one is tested.
pub open spec fn plan_of(
    family: IpFamily,
    only: Option<IpFamily>,
    addrs: Seq<ResolvedAddr>,
) -> PlanView {
    if only is Some && only->0 != family {
        PlanView::Settled(unavailable(skip_reason(only)))
    } else {
        match first_of_family(addrs, family) {
            Some(ip) => PlanView::Test(ip),
            None => PlanView::Settled(unavailable(missing_text(family))),
        }
    }
}

/// What is to be done for `family`, given the addresses that the lookup gave.
///
/// A run-wide restriction (`--ipv4-only` / `--ipv6-only`) wins over the comparison's
/// "test both": the disabled family is skipped rather than connected on, and the result
/// explains why.
pub fn plan_family(family: IpFamily, only: Option<IpFamily>, addrs: &[ResolvedAddr]) -> (r:
    FamilyPlan)
    ensures
        r@ == plan_of(family, only, addrs@),
{
    if let Some(f) = only {
        if f != family {
            return FamilyPlan::Settled(skipped_result(only));
        }
    }
    match first_address(addrs, family) {
        Some(ip) => FamilyPlan::Test(ip),
        None => FamilyPlan::Settled(
            unavailable_result(
                match family {
                    IpFamily::V4 => "No IPv4 address resolved",
                    IpFamily::V6 => "No IPv6 address resolved",
                },
            ),
        ),
    }
}

/// The step of a family's test that is to be done next.
#[derive(Debug, Clone, Copy, PartialEq, Eq, Structural)]
pub enum Stage {
    /// Load the certificate that was asked for.
    Certificate,
    /// Build a client that connects to the address under test.
    Client,
    /// Measure the latency.
    Latency,
    /// Run the abbreviated download test.
    Download,
    /// Run the abbreviated upload test.
    Upload,
}

/// A family's test under way: the address, the next step and what was measured so far.
#[derive(Debug)]
pub struct VersionTest {
    pub ip: String,
    pub stage: Stage,
    pub latency_ms: Real,
    pub download_mbps: Real,
}

/// What a step leads to.
#[derive(Debug)]
pub enum Progress {
    /// The test goes on.
    Next(VersionTest),
    /// The test is over, with this result.
    Finished(IpVersionResult),
}

/// The contents of a [`VersionTest`].
pub struct TestView {
    pub ip: Seq<char>,
    pub stage: Stage,
    pub latency_ms: Real,
    pub download_mbps: Real,
}

/// The contents of a [`Progress`].
pub enum ProgressView {
    Next(TestView),
    Finished(IpVersionView),
}

impl View for VersionTest {
    type V = TestView;

    open spec fn view(&self) -> TestView {
        TestView {
            ip: self.ip@,
            stage: self.stage,
            latency_ms: self.latency_ms,
            download_mbps: self.download_mbps,
        }
    }
}

impl View for Progress {
    type V = ProgressView;

    open spec fn view(&self) -> ProgressView {
        match self {
            Progress::Next(t) => ProgressView::Next(t@),
            Progress::Finished(r) => ProgressView::Finished(r@),
        }
    }
}

/// What the failure of a step is called.
pub open spec fn failure_text(stage: Stage) -> Seq<char> {
    match stage {
        Stage::Certificate => "Failed to load certificate: "@,
        Stage::Client => "Failed to build client: "@,
        Stage::Latency => "Latency test failed: "@,
        Stage::Download => "Download test failed: "@,
        Stage::Upload => "Upload test failed: "@,
    }
}

/// The result of a test whose next step failed with `error`: what was measured before
/// stays, and the family counts as available once the download worked.
pub open spec fn failed(t: TestView, error: Seq<char>) -> IpVersionView {
    IpVersionView {
        ip_address: t.ip,
        download_mbps: if t.stage == Stage::Upload {
            t.download_mbps
        } else {
            Real::zeroed()
        },
        upload_mbps: Real::zeroed(),
        latency_ms: if t.stage == Stage::Download || t.stage == Stage::Upload {
            t.latency_ms
        } else {
            Real::zeroed()
        },
        available: t.stage == Stage::Upload,
        error: Some(failure_text(t.stage) + error),
    }
}

/// What a step leads to: it was done and measured `measured`.
pub open spec fn advanced(t: TestView, measured: Real) -> ProgressView {
    match t.stage {
        Stage::Certificate => ProgressView::Next(TestView { stage: Stage::Client, ..t }),
        Stage::Client => ProgressView::Next(TestView { stage: Stage::Latency, ..t }),
        Stage::Latency => ProgressView::Next(
            TestView { stage: Stage::Download, latency_ms: measured, ..t },
        ),
        Stage::Download => ProgressView::Next(
            TestView { stage: Stage::Upload, download_mbps: measured, ..t },
        ),
        Stage::Upload => ProgressView::Finished(
            IpVersionView {
                ip_address: t.ip,
                download_mbps: t.download_mbps,
                upload_mbps: measured,
                latency_ms: t.latency_ms,
                available: true,
                error: None,
            },
        ),
    }
}

/// What a step that came to `done` leads to.
pub open spec fn stepped(t: TestView, done: Result<Real, String>) -> ProgressView {
    match done {
        Ok(measured) => advanced(t, measured),
        Err(e) => ProgressView::Finished(failed(t, e@)),
    }
}

impl VersionTest {
    /// A test of `ip` that has not begun. Where a certificate was asked for, it is loaded
    /// first.
    pub fn start(ip: String, with_certificate: bool) -> (r: VersionTest)
        ensures
            r@ == (TestView {
                ip: ip@,
                stage: if with_certificate {
                    Stage::Certificate
                } else {
                    Stage::Client
                },
                latency_ms: Real::zeroed(),
                download_mbps: Real::zeroed(),
            }),
    {
        let stage = if with_certificate {
            Stage::Certificate
        } else {
            Stage::Client
        };
        VersionTest { ip, stage, latency_ms: Real::zero(), download_mbps: Real::zero() }
    }

    /// What the step came to leads to: the next step, or the result. A step that measures
    /// nothing may hand in any number.
    pub fn step(self, done: Result<Real, String>) -> (r: Progress)
        ensures
            r@ == stepped(self@, done),
    {
        match done {
            Ok(measured) => match self.stage {
                Stage::Certificate => Progress::Next(
                    VersionTest {
                        ip: self.ip,
                        stage: Stage::Client,
                        latency_ms: self.latency_ms,
                        download_mbps: self.download_mbps,
                    },
                ),
                Stage::Client => Progress::Next(
                    VersionTest {
                        ip: self.ip,
                        stage: Stage::Latency,
                        latency_ms: self.latency_ms,
                        download_mbps: self.download_mbps,
                    },
                ),
                Stage::Latency => Progress::Next(
                    VersionTest {
                        ip: self.ip,
                        stage: Stage::Download,
                        latency_ms: measured,
                        download_mbps: self.download_mbps,
                    },
                ),
                Stage::Download => Progress::Next(
                    VersionTest {
                        ip: self.ip,
                        stage: Stage::Upload,
                        latency_ms: self.latency_ms,
                        download_mbps: measured,
                    },
                ),
                Stage::Upload => Progress::Finished(
                    IpVersionResult {
                        ip_address: self.ip,
                        download_mbps: self.download_mbps,
                        upload_mbps: measured,
                        latency_ms: self.latency_ms,
                        available: true,
                        error: None,
                    },
                ),
            },
            Err(e) => {
                let mut error = String::new();
                error.append(
                    match self.stage {
                        Stage::Certificate => "Failed to load certificate: ",
                        Stage::Client => "Failed to build client: ",
                        Stage::Latency => "Latency test failed: ",
                        Stage::Download => "Download test failed: ",
                        Stage::Upload => "Upload test failed: ",
                    },
                );
                error.append(e.as_str());
                assert(error@ =~= failure_text(self.stage) + e@);
                let reached_upload = self.stage == Stage::Upload;
                let measured_latency = reached_upload || self.stage == Stage::Download;
                Progress::Finished(
                    IpVersionResult {
                        ip_address: self.ip,
                        download_mbps: if reached_upload {
                            self.download_mbps
                        } else {
                            Real::zero()
                        },
                        upload_mbps: Real::zero(),
                        latency_ms: if measured_latency {
                            self.latency_ms
                        } else {
                            Real::zero()
                        },
                        available: reached_upload,
                        error: Some(error),
                    },
                )
            },
        }
    }
}

/// The URL that the latency is measured with.
pub fn latency_url(base_url: &str) -> (r: String)
    ensures
        r@ == base_url@ + "/__down?bytes=0"@,
{
    base_url.to_string().concat("/__down?bytes=0")
}

/// The URL that a chunk is downloaded from.
pub fn download_url(base_url: &str) -> (r: String)
    ensures
        r@ == base_url@ + "/__down?bytes=5000000"@,
{
    base_url.to_string().concat("/__down?bytes=5000000")
}

/// The URL that a chunk is uploaded to.
pub fn upload_url(base_url: &str) -> (r: String)
    ensures
        r@ == base_url@ + "/__up"@,
{
    base_url.to_string().concat("/__up")
}

/// The size of an uploaded chunk.
pub const UPLOAD_CHUNK: usize = 5_000_000;

/// The duration of each abbreviated speed test, in nanoseconds.
pub const TEST_DURATION: u128 = 3_000_000_000;

/// What an abbreviated speed test does next.
#[derive(Debug, Clone, Copy, PartialEq, Eq, Structural)]
pub enum TransferStep {
    /// Move another chunk.
    Move,
    /// The time is up; this many bytes were moved.
    Over(u64),
}

/// An abbreviated speed test under way: chunks are moved until the time is up.
#[derive(Debug)]
pub struct Transfer {
    pub total_bytes: u64,
}

impl Transfer {
    /// A test that has moved nothing yet.
    pub fn start() -> (r: Transfer)
        ensures
            r.total_bytes == 0,
    {
        Transfer { total_bytes: 0 }
    }

    /// What comes after `elapsed` nanoseconds of `duration`: another chunk while there is
    /// time, else the number of bytes moved.
    pub fn next(&self, elapsed: u128, duration: u128) -> (r: TransferStep)
        ensures
            r == (if elapsed < duration {
                TransferStep::Move
            } else {
                TransferStep::Over(self.total_bytes)
            }),
    {
        if elapsed < duration {
            TransferStep::Move
        } else {
            TransferStep::Over(self.total_bytes)
        }
    }

    /// A chunk of `bytes` was moved.
    pub fn moved(&mut self, bytes: u64)
        requires
            old(self).total_bytes + bytes <= u64::MAX,
        ensures
            final(self).total_bytes == old(self).total_bytes + bytes,
    {
        self.total_bytes = self.total_bytes + bytes;
    }
}

/// Whichever step fails, and however the steps before it went, a family is reported as
/// available exactly when its download was measured, and without an error exactly when its
/// upload was measured too.
pub proof fn available_once_download_worked(t: TestView, done: Result<Real, String>)
    ensures
        stepped(t, done) matches ProgressView::Finished(r) ==> {
            &&& r.ip_address == t.ip
            &&& r.available <==> t.stage == Stage::Upload
            &&& r.error is None <==> t.stage == Stage::Upload && done is Ok
            &&& r.available ==> r.download_mbps == t.download_mbps && r.latency_ms == t.latency_ms
            &&& !r.available ==> r.download_mbps == Real::zeroed()
        },
{
}

/// How many steps are left before a test is over.
pub open spec fn steps_left(stage: Stage) -> nat {
    match stage {
        Stage::Certificate => 5,
        Stage::Client => 4,
        Stage::Latency => 3,
        Stage::Download => 2,
        Stage::Upload => 1,
    }
}

/// Every step brings a test closer to its end; so a test is over after at most five steps.
pub proof fn every_step_comes_closer(t: TestView, done: Result<Real, String>)
    ensures
        match stepped(t, done) {
            ProgressView::Next(next) => steps_left(next.stage) + 1 == steps_left(t.stage)
                && next.ip == t.ip,
            ProgressView::Finished(_) => done is Err || steps_left(t.stage) == 1,
        },
{
}

/// With a restriction to one family, the other one is never tested, whatever addresses
/// were looked up; without one, a family is tested exactly when it has an address.
pub proof fn restriction_wins(family: IpFamily, only: Option<IpFamily>, addrs: Seq<ResolvedAddr>)
    ensures
        only is Some && only->0 != family ==> plan_of(family, only, addrs) is Settled,
        only is None || only->0 == family ==> (plan_of(family, only, addrs) is Test
            <==> exists|i: int| 0 <= i < addrs.len() && (#[trigger] addrs[i]).family == family),
{
    lemma_first_of_family(addrs, family);
}

/// Whatever the restriction is, an address that is to be tested for a family is one of that
/// family, with none of that family before it, and the restriction allows the family. Where
/// nothing is tested, the restriction forbids the family or there is no address of it.
pub proof fn planned_address_is_the_first_of_its_family(
    family: IpFamily,
    only: Option<IpFamily>,
    addrs: &[ResolvedAddr],
    r: FamilyPlan,
)
    requires
        call_ensures(plan_family, (family, only, addrs), r),
    ensures
        match r {
            FamilyPlan::Test(ip) => {
                &&& only is None || only->0 == family
                &&& exists|i: int|
                    0 <= i < addrs@.len() && (#[trigger] addrs@[i]).family == family
                        && addrs@[i].ip@ == ip@ && forall|j: int|
                        0 <= j < i ==> (#[trigger] addrs@[j]).family != family
            },
            FamilyPlan::Settled(_) => {
                ||| only is Some && only->0 != family
                ||| forall|j: int| 0 <= j < addrs@.len() ==> (#[trigger] addrs@[j]).family != family
            },
        },
{
    lemma_first_is_first(addrs@, family);
}

/// What is settled without a test is reported as unavailable, with no figures and with the
/// reason: the flag of the restriction, whose family is not the one in question, or that
/// the family in question has no address.
pub proof fn what_is_not_tested_says_why(
    family: IpFamily,
    only: Option<IpFamily>,
    addrs: &[ResolvedAddr],
    r: IpVersionResult,
)
    requires
        call_ensures(plan_family, (family, only, addrs), FamilyPlan::Settled(r)),
    ensures
        !r.available,
        r.ip_address@ == "N/A"@,
        r.download_mbps.bits == 0 && r.upload_mbps.bits == 0 && r.latency_ms.bits == 0,
        r.error is Some,
        only is Some && only->0 != family ==> r.error->0@ == "Skipped ("@ + (match family {
            IpFamily::V6 => "--ipv4-only"@,
            IpFamily::V4 => "--ipv6-only"@,
        }) + " in effect)"@,
        only is None || only->0 == family ==> r.error->0@ == (match family {
            IpFamily::V4 => "No IPv4 address resolved"@,
            IpFamily::V6 => "No IPv6 address resolved"@,
        }),
{
    assert(FamilyPlan::Settled(r)@ == PlanView::Settled(r@));
    assert(r@ == plan_of(family, only, addrs@)->Settled_0);
}

/// A test whose every step succeeds reports the address it was begun with and, each under its
/// own name, what was measured for the latency, the download and the upload, in this order;
/// it is available and has no error. A certificate to be loaded is one step more.
#[verifier::spinoff_prover]
#[verifier::rlimit(40)]
pub proof fn successful_test_reports_what_was_measured(
    ip: String,
    tests: Seq<VersionTest>,
    done: Seq<Real>,
    r: IpVersionResult,
    certificate: bool,
)
    requires
        tests.len() == (if certificate {
            5int
        } else {
            4
        }),
        done.len() == tests.len(),
        call_ensures(VersionTest::start, (ip, certificate), tests[0]),
        forall|i: int|
            0 <= i < tests.len() - 1 ==> call_ensures(
                VersionTest::step,
                (#[trigger] tests[i], Ok(done[i])),
                Progress::Next(tests[i + 1]),
            ),
        call_ensures(
            VersionTest::step,
            (tests.last(), Ok(done.last())),
            Progress::Finished(r),
        ),
    ensures
        r.ip_address@ == ip@,
        r.latency_ms == done[done.len() - 3],
        r.download_mbps == done[done.len() - 2],
        r.upload_mbps == done[done.len() - 1],
        r.available,
        r.error is None,
{
    let n = tests.len();
    assert(tests[0]@.ip == ip@);
    assert forall|i: int| 0 <= i < n - 1 implies stepped(
        (#[trigger] tests[i])@,
        Ok(done[i]),
    ) == ProgressView::Next(tests[i + 1]@) by {
        assert(Progress::Next(tests[i + 1])@ == ProgressView::Next(tests[i + 1]@));
    }
    assert(stepped(tests[0]@, Ok(done[0])) == ProgressView::Next(tests[1]@));
    assert(stepped(tests[1]@, Ok(done[1])) == ProgressView::Next(tests[2]@));
    assert(stepped(tests[2]@, Ok(done[2])) == ProgressView::Next(tests[3]@));
    if certificate {
        assert(stepped(tests[3]@, Ok(done[3])) == ProgressView::Next(tests[4]@));
    }
    assert(Progress::Finished(r)@ == ProgressView::Finished(r@));
}

/// A step that fails ends the test at once, whatever the step is. The report names the
/// address and the error after the name of the step, and keeps of what was measured before
/// exactly what the steps before this one measure; nothing counts as uploaded.
pub proof fn failed_step_ends_the_test(t: VersionTest, e: String, p: Progress)
    requires
        call_ensures(VersionTest::step, (t, Err(e)), p),
    ensures
        p is Finished,
        ({
            let r = p->Finished_0;
            &&& r.ip_address@ == t.ip@
            &&& r.error is Some
            &&& r.error->0@ == (match t.stage {
                Stage::Certificate => "Failed to load certificate: "@,
                Stage::Client => "Failed to build client: "@,
                Stage::Latency => "Latency test failed: "@,
                Stage::Download => "Download test failed: "@,
                Stage::Upload => "Upload test failed: "@,
            }) + e@
            &&& r.upload_mbps.bits == 0
            &&& match t.stage {
                Stage::Upload => {
                    &&& r.available
                    &&& r.latency_ms == t.latency_ms
                    &&& r.download_mbps == t.download_mbps
                },
                Stage::Download => {
                    &&& !r.available
                    &&& r.latency_ms == t.latency_ms
                    &&& r.download_mbps.bits == 0
                },
                _ => {
                    &&& !r.available
                    &&& r.latency_ms.bits == 0
                    &&& r.download_mbps.bits == 0
                },
            }
        }),
{
    assert(p@ == ProgressView::Finished(failed(t@, e@)));
    assert(p is Finished);
    assert(p@ == ProgressView::Finished(p->Finished_0@));
}

/// The target is what the URL names: its host, and its port where it has or implies one, else
/// 443. There is none exactly where the URL is bad or has no host.
pub proof fn target_is_what_the_url_names(
    parts: Result<UrlParts, String>,
    r: Result<Target, CompareError>,
)
    requires
        call_ensures(target_from, (parts,), r),
    ensures
        r is Ok <==> parts is Ok && parts->Ok_0.host is Some,
        r is Ok ==> r->Ok_0.host@ == parts->Ok_0.host->0@,
        r is Ok && parts->Ok_0.port is Some ==> r->Ok_0.port == parts->Ok_0.port->0,
        r is Ok && parts->Ok_0.port is None ==> r->Ok_0.port == 443,
        parts is Ok && parts->Ok_0.host is None ==> r == Err::<Target, CompareError>(
            CompareError::NoHost,
        ),
        parts is Err ==> (r matches Err(CompareError::BadUrl(e)) && e@ == parts->Err_0@),
{
    assert(target_outcome(r) == target_of(url_outcome(parts)));
}

/// The target of a base URL is that of its parts, and what is looked up is its host and its
/// port with a colon between.
pub proof fn target_is_looked_up(
    base_url: &str,
    r: Result<Target, CompareError>,
    t: Target,
    looked_up: String,
)
    ensures
        call_ensures(target, (base_url,), r) ==> (r is Ok <==> parsed_url(base_url@) is Ok
            && parsed_url(base_url@)->Ok_0.host is Some),
        call_ensures(target, (base_url,), r) && r is Ok ==> Some(r->Ok_0.host@) == parsed_url(
            base_url@,
        )->Ok_0.host && r->Ok_0.port == (match parsed_url(base_url@)->Ok_0.port {
            Some(port) => port,
            None => 443,
        }),
        call_ensures(Target::lookup, (&t,), looked_up) ==> looked_up@ == t.host@ + ":"@ + decimal(
            t.port as nat,
        ),
{
}

/// A transfer goes on exactly while there is time left, and then tells all the bytes that were
/// moved: it begins at none, and each chunk adds its own.
pub proof fn transfer_counts_every_chunk(
    t: &mut Transfer,
    fresh: Transfer,
    bytes: u64,
    elapsed: u128,
    duration: u128,
    r: TransferStep,
)
    ensures
        call_ensures(Transfer::start, (), fresh) ==> fresh.total_bytes == 0,
        call_ensures(Transfer::next, (&fresh, elapsed, duration), r) ==> (r == TransferStep::Move
            <==> elapsed < duration) && (r matches TransferStep::Over(n) ==> n
            == fresh.total_bytes),
        call_ensures(Transfer::moved, (t, bytes), ()) ==> final(t).total_bytes == old(
            t
        ).total_bytes + bytes,
{
}

/// Every URL that is used begins with the base URL: nothing is asked for to measure the
/// latency, 5 MB are asked for to measure the download, and the upload goes to its own place.
pub proof fn urls_begin_with_the_base(base_url: &str, r: String)
    ensures
        call_ensures(latency_url, (base_url,), r) ==> r@ == base_url@ + "/__down?bytes=0"@,
        call_ensures(download_url, (base_url,), r) ==> r@ == base_url@ + "/__down?bytes=5000000"@,
        call_ensures(upload_url, (base_url,), r) ==> r@ == base_url@ + "/__up"@,
{
}

/// A skipped family is unavailable, has no figures and names the flag in effect, if any.
pub proof fn skipped_family_names_the_flag(family: Option<IpFamily>, r: IpVersionResult)
    requires
        call_ensures(skipped_result, (family,), r),
    ensures
        !r.available,
        r.download_mbps.bits == 0 && r.upload_mbps.bits == 0 && r.latency_ms.bits == 0,
        r.error is Some,
        r.error->0@ == (match family {
            Some(IpFamily::V4) => "Skipped ("@ + "--ipv4-only"@ + " in effect)"@,
            Some(IpFamily::V6) => "Skipped ("@ + "--ipv6-only"@ + " in effect)"@,
            None => "Skipped"@,
        }),
{
    assert(r@.error == crate::model::text_of(r.error));
    assert(r@ == unavailable(skip_reason(family)));
}

/// The first address of a family is one of that family, with none of it before.
proof fn lemma_first_is_first(addrs: Seq<ResolvedAddr>, family: IpFamily)
    ensures
        match first_of_family(addrs, family) {
            Some(ip) => exists|i: int|
                0 <= i < addrs.len() && (#[trigger] addrs[i]).family == family && addrs[i].ip@ == ip
                    && forall|j: int| 0 <= j < i ==> (#[trigger] addrs[j]).family != family,
            None => forall|j: int|
                0 <= j < addrs.len() ==> (#[trigger] addrs[j]).family != family,
        },
    decreases addrs.len(),
{
    if addrs.len() > 0 {
        let rest = addrs.drop_first();
        if addrs[0].family != family {
            lemma_first_is_first(rest, family);
            match first_of_family(rest, family) {
                Some(ip) => {
                    let i = choose|i: int|
                        0 <= i < rest.len() && (#[trigger] rest[i]).family == family && rest[i].ip@
                            == ip && forall|j: int|
                            0 <= j < i ==> (#[trigger] rest[j]).family != family;
                    assert(addrs[i + 1] == rest[i]);
                    assert forall|j: int| 0 <= j < i + 1 implies (#[trigger] addrs[j]).family
                        != family by {
                        if j > 0 {
                            assert(rest[j - 1] == addrs[j]);
                        }
                    }
                },
                None => {
                    assert forall|j: int| 0 <= j < addrs.len() implies (#[trigger] addrs[j]).family
                        != family by {
                        if j > 0 {
                            assert(rest[j - 1] == addrs[j]);
                        }
                    }
                },
            }
        }
    }
}

/// There is a first address of a family exactly when there is one.
proof fn lemma_first_of_family(addrs: Seq<ResolvedAddr>, family: IpFamily)
    ensures
        first_of_family(addrs, family) is Some <==> exists|i: int|
            0 <= i < addrs.len() && (#[trigger] addrs[i]).family == family,
    decreases addrs.len(),
{
    if addrs.len() > 0 {
        let rest = addrs.drop_first();
        lemma_first_of_family(rest, family);
        if first_of_family(rest, family) is Some {
            let i = choose|i: int| 0 <= i < rest.len() && (#[trigger] rest[i]).family == family;
            assert(addrs[i + 1] == rest[i]);
        }
        if exists|i: int| 0 <= i < addrs.len() && (#[trigger] addrs[i]).family == family {
            let i = choose|i: int| 0 <= i < addrs.len() && (#[trigger] addrs[i]).family == family;
            if i > 0 {
                assert(rest[i - 1] == addrs[i]);
            }
        }
    }
}

} // verus!
