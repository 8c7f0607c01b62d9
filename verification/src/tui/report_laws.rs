//! What holds of the single events of a test run: phases, probes, packet loss and diagnosis.

use crate::binary64::tenths_are_nearest;
use crate::model::{
    DnsSummary, IpVersionComparison, Phase, Real, TlsSummary, TracerouteHop, TracerouteSummary,
};
use crate::text::decimal;
use crate::tui::event_laws::{
    grown_by, same_connection, same_diagnosis, same_dl_latency, same_download, same_idle_latency,
    same_loss, same_measurements, same_news, same_ul_latency, same_upload,
};
use crate::tui::events::{apply_event, countable, loss_tenths, LatencyPoint, TestEvent};
use crate::tui::runs::Metadata;
use crate::tui::state::{UiState, MAX_POINTS, MAX_SAMPLES, MAX_SERIES};
use vstd::prelude::*;

verus! {

/// A probe of the idle phase is counted as sent, and as received where it was answered; only
/// an answer with a time is shown, and it is shown as it is, at the end of what the idle
/// phase shows. Nothing else is touched, whatever runs meanwhile.
#[verifier::spinoff_prover]
pub proof fn idle_probes_belong_to_the_idle_phase(
    state: &mut UiState,
    during: Option<Phase>,
    point: Option<LatencyPoint>,
    ok: bool,
    lines: Vec<String>,
)
    requires
        countable(
            *old(state),
            (TestEvent::LatencySample { phase: Phase::IdleLatency, during, point, ok }),
        ),
        call_ensures(
            apply_event,
            (
                state,
                (TestEvent::LatencySample { phase: Phase::IdleLatency, during, point, ok }),
                lines,
            ),
            (),
        ),
    ensures
        final(state).idle_latency_sent == old(state).idle_latency_sent + 1,
        final(state).idle_latency_received == old(state).idle_latency_received + (if ok {
            1int
        } else {
            0
        }),
        if ok && point is Some {
            &&& grown_by(
                old(state).idle_lat_series@,
                final(state).idle_lat_series@,
                point->0.level,
                MAX_SERIES as nat,
            )
            &&& grown_by(
                old(state).idle_lat_points@,
                final(state).idle_lat_points@,
                (point->0.at, point->0.ms),
                MAX_POINTS as nat,
            )
            &&& grown_by(
                old(state).idle_latency_samples@,
                final(state).idle_latency_samples@,
                point->0.ms,
                MAX_SAMPLES as nat,
            )
        } else {
            &&& final(state).idle_lat_series == old(state).idle_lat_series
            &&& final(state).idle_lat_points == old(state).idle_lat_points
            &&& final(state).idle_latency_samples == old(state).idle_latency_samples
        },
        same_dl_latency(*old(state), *final(state)),
        same_ul_latency(*old(state), *final(state)),
        same_download(*old(state), *final(state)),
        same_upload(*old(state), *final(state)),
        same_loss(*old(state), *final(state)),
        same_diagnosis(*old(state), *final(state)),
        same_connection(*old(state), *final(state)),
        same_news(*old(state), *final(state)),
{
}

/// A probe during the download is counted as sent, and as received where it was answered; only
/// an answer with a time is shown, and it is shown as it is, at the end of the latencies
/// during the download. Nothing else is touched.
#[verifier::spinoff_prover]
pub proof fn download_probes_belong_to_the_download(
    state: &mut UiState,
    point: Option<LatencyPoint>,
    ok: bool,
    lines: Vec<String>,
)
    requires
        countable(
            *old(state),
            (TestEvent::LatencySample {
                phase: Phase::Download,
                during: Some(Phase::Download),
                point,
                ok,
            }),
        ),
        call_ensures(
            apply_event,
            (
                state,
                (TestEvent::LatencySample {
                    phase: Phase::Download,
                    during: Some(Phase::Download),
                    point,
                    ok,
                }),
                lines,
            ),
            (),
        ),
    ensures
        final(state).loaded_dl_latency_sent == old(state).loaded_dl_latency_sent + 1,
        final(state).loaded_dl_latency_received == old(state).loaded_dl_latency_received + (if ok {
            1int
        } else {
            0
        }),
        if ok && point is Some {
            &&& grown_by(
                old(state).loaded_dl_lat_series@,
                final(state).loaded_dl_lat_series@,
                point->0.level,
                MAX_SERIES as nat,
            )
            &&& grown_by(
                old(state).loaded_dl_lat_points@,
                final(state).loaded_dl_lat_points@,
                (point->0.at, point->0.ms),
                MAX_POINTS as nat,
            )
            &&& grown_by(
                old(state).loaded_dl_latency_samples@,
                final(state).loaded_dl_latency_samples@,
                point->0.ms,
                MAX_SAMPLES as nat,
            )
        } else {
            &&& final(state).loaded_dl_lat_series == old(state).loaded_dl_lat_series
            &&& final(state).loaded_dl_lat_points == old(state).loaded_dl_lat_points
            &&& final(state).loaded_dl_latency_samples == old(state).loaded_dl_latency_samples
        },
        same_idle_latency(*old(state), *final(state)),
        same_ul_latency(*old(state), *final(state)),
        same_download(*old(state), *final(state)),
        same_upload(*old(state), *final(state)),
        same_loss(*old(state), *final(state)),
        same_diagnosis(*old(state), *final(state)),
        same_connection(*old(state), *final(state)),
        same_news(*old(state), *final(state)),
{
}

/// A probe during the upload is counted as sent, and as received where it was answered; only
/// an answer with a time is shown, and it is shown as it is, at the end of the latencies
/// during the upload. Nothing else is touched.
#[verifier::spinoff_prover]
pub proof fn upload_probes_belong_to_the_upload(
    state: &mut UiState,
    point: Option<LatencyPoint>,
    ok: bool,
    lines: Vec<String>,
)
    requires
        countable(
            *old(state),
            (TestEvent::LatencySample {
                phase: Phase::Upload,
                during: Some(Phase::Upload),
                point,
                ok,
            }),
        ),
        call_ensures(
            apply_event,
            (
                state,
                (TestEvent::LatencySample {
                    phase: Phase::Upload,
                    during: Some(Phase::Upload),
                    point,
                    ok,
                }),
                lines,
            ),
            (),
        ),
    ensures
        final(state).loaded_ul_latency_sent == old(state).loaded_ul_latency_sent + 1,
        final(state).loaded_ul_latency_received == old(state).loaded_ul_latency_received + (if ok {
            1int
        } else {
            0
        }),
        if ok && point is Some {
            &&& grown_by(
                old(state).loaded_ul_lat_series@,
                final(state).loaded_ul_lat_series@,
                point->0.level,
                MAX_SERIES as nat,
            )
            &&& grown_by(
                old(state).loaded_ul_lat_points@,
                final(state).loaded_ul_lat_points@,
                (point->0.at, point->0.ms),
                MAX_POINTS as nat,
            )
            &&& grown_by(
                old(state).loaded_ul_latency_samples@,
                final(state).loaded_ul_latency_samples@,
                point->0.ms,
                MAX_SAMPLES as nat,
            )
        } else {
            &&& final(state).loaded_ul_lat_series == old(state).loaded_ul_lat_series
            &&& final(state).loaded_ul_lat_points == old(state).loaded_ul_lat_points
            &&& final(state).loaded_ul_latency_samples == old(state).loaded_ul_latency_samples
        },
        same_idle_latency(*old(state), *final(state)),
        same_dl_latency(*old(state), *final(state)),
        same_download(*old(state), *final(state)),
        same_upload(*old(state), *final(state)),
        same_loss(*old(state), *final(state)),
        same_diagnosis(*old(state), *final(state)),
        same_connection(*old(state), *final(state)),
        same_news(*old(state), *final(state)),
{
}

/// A probe that belongs neither to the idle phase nor to a transfer during itself counts
/// nowhere.
#[verifier::spinoff_prover]
pub proof fn other_probes_count_nowhere(
    state: &mut UiState,
    phase: Phase,
    during: Option<Phase>,
    point: Option<LatencyPoint>,
    ok: bool,
    lines: Vec<String>,
)
    requires
        !(phase is IdleLatency),
        !(phase is Download && during is Some && during->0 is Download),
        !(phase is Upload && during is Some && during->0 is Upload),
        call_ensures(
            apply_event,
            (state, (TestEvent::LatencySample { phase, during, point, ok }), lines),
            (),
        ),
    ensures
        same_measurements(*old(state), *final(state)),
        same_diagnosis(*old(state), *final(state)),
        same_connection(*old(state), *final(state)),
        same_news(*old(state), *final(state)),
{
}

/// A phase that begins is told by its name, and what it measures begins at nothing: its
/// counts, samples, bytes and average. What has been charted stays, as does all that other
/// phases measure; a transfer's clock starts now.
#[verifier::spinoff_prover]
pub proof fn phase_begins_at_nothing(
    state: &mut UiState,
    phase: Phase,
    now: u64,
    lines: Vec<String>,
)
    requires
        call_ensures(apply_event, (state, (TestEvent::PhaseStarted { phase, now }), lines), ()),
    ensures
        final(state).phase == phase,
        final(state).info@ == "Phase: "@ + (match phase {
            Phase::IdleLatency => "IdleLatency"@,
            Phase::Download => "Download"@,
            Phase::Upload => "Upload"@,
            Phase::PacketLoss => "PacketLoss"@,
            Phase::Other(name) => name@,
        }),
        match phase {
            Phase::IdleLatency => {
                &&& final(state).idle_latency_samples@.len() == 0
                &&& final(state).idle_latency_sent == 0
                &&& final(state).idle_latency_received == 0
            },
            _ => same_idle_latency(*old(state), *final(state)),
        },
        match phase {
            Phase::Download => {
                &&& final(state).dl_phase_start == Some(now)
                &&& final(state).dl_bytes_total == 0
                &&& final(state).dl_avg_mbps.bits == 0
                &&& final(state).loaded_dl_latency_samples@.len() == 0
                &&& final(state).loaded_dl_latency_sent == 0
                &&& final(state).loaded_dl_latency_received == 0
            },
            _ => {
                &&& same_download(*old(state), *final(state))
                &&& same_dl_latency(*old(state), *final(state))
            },
        },
        match phase {
            Phase::Upload => {
                &&& final(state).ul_phase_start == Some(now)
                &&& final(state).ul_bytes_total == 0
                &&& final(state).ul_avg_mbps.bits == 0
                &&& final(state).loaded_ul_latency_samples@.len() == 0
                &&& final(state).loaded_ul_latency_sent == 0
                &&& final(state).loaded_ul_latency_received == 0
            },
            _ => {
                &&& same_upload(*old(state), *final(state))
                &&& same_ul_latency(*old(state), *final(state))
            },
        },
        match phase {
            Phase::PacketLoss => {
                &&& final(state).udp_loss_sent == 0
                &&& final(state).udp_loss_received == 0
                &&& final(state).udp_loss_total == 0
                &&& final(state).udp_loss_latest_rtt_ms is None
            },
            _ => same_loss(*old(state), *final(state)),
        },
        final(state).dl_series == old(state).dl_series,
        final(state).dl_points == old(state).dl_points,
        final(state).dl_mbps == old(state).dl_mbps,
        final(state).ul_series == old(state).ul_series,
        final(state).ul_points == old(state).ul_points,
        final(state).ul_mbps == old(state).ul_mbps,
        final(state).idle_lat_series == old(state).idle_lat_series,
        final(state).idle_lat_points == old(state).idle_lat_points,
        final(state).loaded_dl_lat_series == old(state).loaded_dl_lat_series,
        final(state).loaded_dl_lat_points == old(state).loaded_dl_lat_points,
        final(state).loaded_ul_lat_series == old(state).loaded_ul_lat_series,
        final(state).loaded_ul_lat_points == old(state).loaded_ul_lat_points,
        same_diagnosis(*old(state), *final(state)),
        same_connection(*old(state), *final(state)),
{
}

/// Progress of the packet loss probe is kept number by number and told with them: how many
/// packets were sent of how many, and the share of those sent that did not come back, to the
/// nearest tenth of a percent for fewer than 2^42 packets.
#[verifier::spinoff_prover]
pub proof fn packet_loss_is_kept_and_told(
    state: &mut UiState,
    sent: u64,
    received: u64,
    total: u64,
    rtt_ms: Option<Real>,
    lines: Vec<String>,
)
    requires
        call_ensures(
            apply_event,
            (state, (TestEvent::UdpLossProgress { sent, received, total, rtt_ms }), lines),
            (),
        ),
    ensures
        final(state).udp_loss_sent == sent,
        final(state).udp_loss_received == received,
        final(state).udp_loss_total == total,
        final(state).udp_loss_latest_rtt_ms == rtt_ms,
        ({
            let tenths = loss_tenths(sent, received);
            final(state).info@ == "Packet loss probe: "@ + decimal(sent as nat) + "/"@ + decimal(
                total as nat,
            ) + " (loss "@ + decimal(tenths / 10) + "."@ + decimal(tenths % 10) + "%)"@
        }),
        received <= sent && 0 < sent < 0x400_0000_0000 ==> {
            let shown = loss_tenths(sent, received) * sent;
            &&& 2 * shown <= 2000 * (sent - received) + sent
            &&& 2000 * (sent - received) <= 2 * shown + sent
        },
        received >= sent ==> loss_tenths(sent, received) == 0,
        same_download(*old(state), *final(state)),
        same_upload(*old(state), *final(state)),
        same_idle_latency(*old(state), *final(state)),
        same_dl_latency(*old(state), *final(state)),
        same_ul_latency(*old(state), *final(state)),
        same_diagnosis(*old(state), *final(state)),
        same_connection(*old(state), *final(state)),
{
    if received < sent && sent < 0x400_0000_0000 {
        tenths_are_nearest((sent - received) as nat, sent as nat);
    } else {
        assert(0 * sent == 0);
    }
}

/// A name lookup is kept as it is and told with its host, its time and how many addresses it
/// gave; a handshake with its time and its protocol.
#[verifier::spinoff_prover]
pub proof fn lookups_and_handshakes_are_kept_and_told(
    state: &mut UiState,
    dns: DnsSummary,
    tls: TlsSummary,
    time_text: String,
    lines: Vec<String>,
)
    ensures
        call_ensures(
            apply_event,
            (state, (TestEvent::DiagnosticDns { summary: dns, time_text }), lines),
            (),
        ) ==> {
            &&& final(state).dns_summary == Some(dns)
            &&& final(state).info@ == "DNS: "@ + dns.hostname@ + " resolved in "@ + time_text@
                + "ms ("@ + decimal(dns.resolved_ips@.len()) + " IPs)"@
            &&& final(state).tls_summary == old(state).tls_summary
            &&& same_measurements(*old(state), *final(state))
            &&& same_connection(*old(state), *final(state))
        },
        call_ensures(
            apply_event,
            (state, (TestEvent::DiagnosticTls { summary: tls, time_text }), lines),
            (),
        ) ==> {
            &&& final(state).tls_summary == Some(tls)
            &&& final(state).info@ == "TLS: "@ + time_text@ + "ms, "@ + (
            match tls.protocol_version {
                Some(version) => version@,
                None => "-"@,
            })
            &&& final(state).dns_summary == old(state).dns_summary
            &&& same_measurements(*old(state), *final(state))
            &&& same_connection(*old(state), *final(state))
        },
{
}

/// A comparison of the address families is kept as it is and told with IPv4 before IPv6, each
/// with its own rate where it is available.
#[verifier::spinoff_prover]
pub proof fn comparisons_are_kept_and_told(
    state: &mut UiState,
    comparison: IpVersionComparison,
    v4_text: String,
    v6_text: String,
    lines: Vec<String>,
)
    requires
        call_ensures(
            apply_event,
            (state, (TestEvent::DiagnosticIpComparison { comparison, v4_text, v6_text }), lines),
            (),
        ),
    ensures
        final(state).ip_comparison == Some(comparison),
        final(state).info@ == "IP Comparison: "@ + (match comparison.ipv4_result {
            None => "-"@,
            Some(r) => if r.available {
                "v4"@ + ":"@ + v4_text@ + "Mbps"@
            } else {
                "v4"@ + ":N/A"@
            },
        }) + " / "@ + (match comparison.ipv6_result {
            None => "-"@,
            Some(r) => if r.available {
                "v6"@ + ":"@ + v6_text@ + "Mbps"@
            } else {
                "v6"@ + ":N/A"@
            },
        }),
        same_measurements(*old(state), *final(state)),
        same_connection(*old(state), *final(state)),
{
}

/// The hops of a traceroute are listed in the order in which they come, and each is told with
/// its number, its address and its time, where it has them; a complete traceroute is kept as
/// it is and leaves the list alone.
#[verifier::spinoff_prover]
pub proof fn hops_are_listed_in_order(
    state: &mut UiState,
    hop_number: u64,
    hop: TracerouteHop,
    rtt_text: String,
    summary: TracerouteSummary,
    lines: Vec<String>,
)
    ensures
        call_ensures(
            apply_event,
            (state, (TestEvent::TracerouteHop { hop_number, hop, rtt_text }), lines),
            (),
        ) ==> {
            &&& final(state).traceroute_hops@ == old(state).traceroute_hops@ + seq![hop]
            &&& final(state).info@ == "Traceroute hop "@ + decimal(hop_number as nat) + ": "@ + (
            match hop.ip_address {
                Some(address) => address@,
                None => "*"@,
            }) + " "@ + (if hop.rtt_ms@.len() > 0 {
                rtt_text@ + "ms"@
            } else {
                "*"@
            })
            &&& final(state).traceroute_summary == old(state).traceroute_summary
            &&& same_measurements(*old(state), *final(state))
        },
        call_ensures(
            apply_event,
            (state, (TestEvent::TracerouteComplete { summary }), lines),
            (),
        ) ==> {
            &&& final(state).traceroute_summary == Some(summary)
            &&& final(state).traceroute_hops == old(state).traceroute_hops
            &&& final(state).info@ == "Traceroute: "@ + decimal(summary.hops@.len()) + " hops to "@
                + summary.destination@
            &&& same_measurements(*old(state), *final(state))
        },
{
    assert(old(state).traceroute_hops@.push(hop) =~= old(state).traceroute_hops@ + seq![hop]);
}

/// The addresses that the outside sees are kept each under its own family.
#[verifier::spinoff_prover]
pub proof fn external_addresses_keep_their_family(
    state: &mut UiState,
    ipv4: Option<String>,
    ipv6: Option<String>,
    lines: Vec<String>,
)
    requires
        call_ensures(apply_event, (state, (TestEvent::ExternalIps { ipv4, ipv6 }), lines), ()),
    ensures
        final(state).external_ipv4 == ipv4,
        final(state).external_ipv6 == ipv6,
        same_news(*old(state), *final(state)),
        same_measurements(*old(state), *final(state)),
        same_connection(*old(state), *final(state)),
{
}

/// What the server says about the connection is kept field by field. The server is shown as
/// its city with its country, as its city alone, or else by the code of its location; where
/// nothing is said of it, it stays.
#[verifier::spinoff_prover]
pub proof fn metadata_is_kept_field_by_field(
    state: &mut UiState,
    meta: Metadata,
    city: Option<String>,
    country: Option<String>,
    lines: Vec<String>,
)
    requires
        call_ensures(apply_event, (state, (TestEvent::MetaInfo { meta, city, country }), lines), ()),
    ensures
        final(state).ip == meta.ip,
        final(state).colo == meta.colo,
        final(state).asn == meta.asn,
        final(state).as_org == meta.as_org,
        city is Some && country is Some ==> final(state).server is Some && final(state).server->0@
            == city->0@ + ", "@ + country->0@,
        city is Some && country is None ==> final(state).server is Some && final(state).server->0@
            == city->0@,
        city is None && meta.colo is Some ==> final(state).server is Some && final(state).server->0@
            == meta.colo->0@,
        city is None && meta.colo is None ==> final(state).server == old(state).server,
        same_news(*old(state), *final(state)),
        same_measurements(*old(state), *final(state)),
        same_diagnosis(*old(state), *final(state)),
{
}

/// News are told as they are, and change nothing else.
#[verifier::spinoff_prover]
pub proof fn news_are_told_as_they_are(state: &mut UiState, message: String, lines: Vec<String>)
    requires
        call_ensures(apply_event, (state, (TestEvent::Info { message }), lines), ()),
    ensures
        final(state).info == message,
        same_measurements(*old(state), *final(state)),
        same_diagnosis(*old(state), *final(state)),
        same_connection(*old(state), *final(state)),
{
}

} // verus!
