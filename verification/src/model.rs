//! What a test run measures and reports.

use vstd::prelude::*;

verus! {

/// A measured real number, kept as the bit pattern of a double. Zero is all bits zero.
#[derive(Debug, Clone, Copy, PartialEq, Eq, Structural)]
pub struct Real {
    pub bits: u64,
}

impl Real {
    /// The number zero.
    pub open spec fn zeroed() -> Real {
        Real { bits: 0 }
    }

    /// The number zero.
    pub fn zero() -> (r: Real)
        ensures
            r == Real::zeroed(),
    {
        Real { bits: 0 }
    }
}

/// The contents of an optional string.
pub open spec fn text_of(s: Option<String>) -> Option<Seq<char>> {
    match s {
        Some(s) => Some(s@),
        None => None,
    }
}

/// What a test over one address family came to.
#[derive(Debug)]
pub struct IpVersionResult {
    pub ip_address: String,
    pub download_mbps: Real,
    pub upload_mbps: Real,
    pub latency_ms: Real,
    pub available: bool,
    pub error: Option<String>,
}

/// The contents of an [`IpVersionResult`].
pub struct IpVersionView {
    pub ip_address: Seq<char>,
    pub download_mbps: Real,
    pub upload_mbps: Real,
    pub latency_ms: Real,
    pub available: bool,
    pub error: Option<Seq<char>>,
}

impl View for IpVersionResult {
    type V = IpVersionView;

    open spec fn view(&self) -> IpVersionView {
        IpVersionView {
            ip_address: self.ip_address@,
            download_mbps: self.download_mbps,
            upload_mbps: self.upload_mbps,
            latency_ms: self.latency_ms,
            available: self.available,
            error: text_of(self.error),
        }
    }
}

/// What the tests over IPv4 and IPv6 came to.
#[derive(Debug)]
pub struct IpVersionComparison {
    pub ipv4_result: Option<IpVersionResult>,
    pub ipv6_result: Option<IpVersionResult>,
}

/// A phase of a test run.
#[derive(Debug)]
pub enum Phase {
    IdleLatency,
    Download,
    Upload,
    PacketLoss,
    /// Any other phase, by its name.
    Other(String),
}

/// The name of a phase.
pub open spec fn phase_text(phase: Phase) -> Seq<char> {
    match phase {
        Phase::IdleLatency => "IdleLatency"@,
        Phase::Download => "Download"@,
        Phase::Upload => "Upload"@,
        Phase::PacketLoss => "PacketLoss"@,
        Phase::Other(name) => name@,
    }
}

impl Phase {
    /// The name of the phase.
    pub fn name(&self) -> (r: &str)
        ensures
            r@ == phase_text(*self),
    {
        match self {
            Phase::IdleLatency => "IdleLatency",
            Phase::Download => "Download",
            Phase::Upload => "Upload",
            Phase::PacketLoss => "PacketLoss",
            Phase::Other(name) => name.as_str(),
        }
    }
}

/// A completed run: the fields that the interface reads, and all the others as the JSON
/// text of an object.
#[derive(Debug)]
pub struct RunRecord {
    pub meas_id: String,
    pub network_name: Option<String>,
    pub comments: Option<String>,
    pub server: Option<String>,
    pub rest: String,
}

/// What a name lookup came to.
#[derive(Debug)]
pub struct DnsSummary {
    pub hostname: String,
    pub resolution_time_ms: Real,
    pub resolved_ips: Vec<String>,
}

/// What a TLS handshake came to.
#[derive(Debug)]
pub struct TlsSummary {
    pub handshake_time_ms: Real,
    pub protocol_version: Option<String>,
}

/// One hop of a traceroute.
#[derive(Debug)]
pub struct TracerouteHop {
    pub ip_address: Option<String>,
    pub rtt_ms: Vec<Real>,
}

/// What a traceroute came to.
#[derive(Debug)]
pub struct TracerouteSummary {
    pub destination: String,
    pub hops: Vec<TracerouteHop>,
}

/// Figures of a series of latency samples.
#[derive(Debug, Clone, Copy)]
pub struct LatencyFigures {
    pub min_ms: Real,
    pub mean_ms: Real,
    pub median_ms: Real,
    pub p25_ms: Real,
    pub p75_ms: Real,
    pub max_ms: Real,
    pub jitter_ms: Option<Real>,
}

/// A summary of latency samples.
#[derive(Debug, Clone, Copy)]
pub struct LatencySummary {
    pub sent: u64,
    pub received: u64,
    pub loss: Real,
    pub min_ms: Option<Real>,
    pub mean_ms: Option<Real>,
    pub median_ms: Option<Real>,
    pub p25_ms: Option<Real>,
    pub p75_ms: Option<Real>,
    pub max_ms: Option<Real>,
    pub jitter_ms: Option<Real>,
}

} // verus!
