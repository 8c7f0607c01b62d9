//! What holds of what is shown: the networks of the charts, the screen, the headline, the
//! status lines and the live figures.

use crate::binary64::{ratio_bits_fit, ratio_is_the_nearest_double, LEAST, LIMIT};
use crate::model::{text_of, LatencyFigures, LatencySummary, Real, RunRecord};
use crate::text::{strings, trimmed};
use crate::tui::event_laws::grown_by;
use crate::tui::history::{extend_history, refreshed};
use crate::tui::networks::{
    cycle_filter, is_network_list, lemma_place, seen, update_available_networks,
};
use crate::tui::runs::{launch, list_run, LaunchOptions, NetworkInfo};
use crate::tui::state::UiState;
use crate::tui::status::{
    at_least_one, label_width, push_wrapped_status_kv, unwrapped, usable_width, wrapped,
    wrapped_pieces_fit, wrapping_keeps_the_text, StatusLine,
};
use crate::tui::view::{headline, screen, tab_titles, Headline, Screen};
use vstd::arithmetic::power2::pow2;
use vstd::prelude::*;

verus! {

/// The networks of the charts are those that some run was made over, each once and in
/// ascending order. A network that is chosen stays chosen where it is among them; else all
/// are shown. Nothing else changes.
#[verifier::spinoff_prover]
pub proof fn networks_are_those_of_the_runs(state: &mut UiState)
    requires
        call_ensures(update_available_networks, (state,), ()),
    ensures
        ({
            let names = strings(final(state).charts_available_networks@);
            let runs = old(state).history@;
            &&& names_networks(names, runs)
            &&& forall|i: int, j: int|
                0 <= i < j < names.len() ==> crate::text::precedes(
                    #[trigger] names[i],
                    #[trigger] names[j],
                )
            &&& old(state).charts_network_filter is None ==> final(
                state
            ).charts_network_filter is None
            &&& old(state).charts_network_filter is Some && names.contains(
                old(state).charts_network_filter->0@,
            ) ==> final(state).charts_network_filter == old(state).charts_network_filter
            &&& old(state).charts_network_filter is Some && !names.contains(
                old(state).charts_network_filter->0@,
            ) ==> final(state).charts_network_filter is None
        }),
        *final(state) == (UiState {
            charts_available_networks: final(state).charts_available_networks,
            charts_network_filter: final(state).charts_network_filter,
            ..*old(state)
        }),
{
    lemma_names_networks(
        strings(final(state).charts_available_networks@),
        old(state).history@,
    );
}

/// Whether the names are those of the networks that the runs were made over.
pub open spec fn names_networks(names: Seq<Seq<char>>, runs: Seq<RunRecord>) -> bool {
    forall|name: Seq<char>| #[trigger]
        names.contains(name) <==> exists|i: int|
            0 <= i < runs.len() && (#[trigger] runs[i]).network_name is Some
                && runs[i].network_name->0@ == name
}

/// A list of networks names those of the runs.
pub proof fn lemma_names_networks(names: Seq<Seq<char>>, runs: Seq<RunRecord>)
    requires
        is_network_list(names, runs),
    ensures
        names_networks(names, runs),
{
    assert forall|name: Seq<char>| #[trigger] names.contains(name) implies exists|i: int|
        0 <= i < runs.len() && (#[trigger] runs[i]).network_name is Some
            && runs[i].network_name->0@ == name by {
        assert(seen(runs, name));
        let i = choose|i: int|
            0 <= i < runs.len() && text_of((#[trigger] runs[i]).network_name) == Some(name);
        assert(runs[i].network_name is Some && runs[i].network_name->0@ == name);
    }
    assert forall|name: Seq<char>|
        (exists|i: int|
            0 <= i < runs.len() && (#[trigger] runs[i]).network_name is Some
                && runs[i].network_name->0@ == name) implies #[trigger] names.contains(name) by {
        let i = choose|i: int|
            0 <= i < runs.len() && (#[trigger] runs[i]).network_name is Some
                && runs[i].network_name->0@ == name;
        assert(text_of(runs[i].network_name) == Some(name));
        assert(seen(runs, name));
    }
}

/// Whichever way the history is loaded, the networks of the charts are those of its runs.
pub proof fn loaded_networks_are_those_of_the_runs(
    state: &mut UiState,
    runs: Vec<RunRecord>,
    options: LaunchOptions,
    network: NetworkInfo,
    size: usize,
    now: u64,
    t: UiState,
)
    ensures
        call_ensures(refreshed, (state, Ok::<Vec<RunRecord>, String>(runs)), ())
            ==> names_networks(
            strings(final(state).charts_available_networks@),
            final(state).history@,
        ),
        call_ensures(list_run, (state, runs), ()) ==> names_networks(
            strings(final(state).charts_available_networks@),
            final(state).history@,
        ),
        call_ensures(extend_history, (state, Ok::<Vec<RunRecord>, String>(runs)), ())
            && final(state).history@.len() > old(state).history@.len() ==> names_networks(
            strings(final(state).charts_available_networks@),
            final(state).history@,
        ),
        call_ensures(launch, (options, network, size, runs, now), t) ==> names_networks(
            strings(t.charts_available_networks@),
            t.history@,
        ),
{
    let names = strings(final(state).charts_available_networks@);
    if is_network_list(names, final(state).history@) {
        lemma_names_networks(names, final(state).history@);
    }
    if is_network_list(strings(t.charts_available_networks@), t.history@) {
        lemma_names_networks(strings(t.charts_available_networks@), t.history@);
    }
}

/// Going through the networks leads forwards from all to the first, from each to the next and
/// from the last to all, and backwards the other way; without networks nothing changes.
#[verifier::spinoff_prover]
pub proof fn networks_are_gone_through_in_order(state: &mut UiState, forwards: bool, i: int)
    requires
        crate::tui::networks::ascending(strings(old(state).charts_available_networks@)),
        call_ensures(cycle_filter, (state, forwards), ()),
    ensures
        ({
            let names = strings(old(state).charts_available_networks@);
            let n = names.len();
            let then = text_of(final(state).charts_network_filter);
            &&& n == 0 ==> *final(state) == *old(state)
            &&& n > 0 && old(state).charts_network_filter is None ==> then == Some(
                if forwards {
                    names[0]
                } else {
                    names[n - 1]
                },
            )
            &&& 0 <= i < n && text_of(old(state).charts_network_filter) == Some(names[i])
                && forwards ==> then == (if i + 1 < n {
                Some(names[i + 1])
            } else {
                None
            })
            &&& 0 <= i < n && text_of(old(state).charts_network_filter) == Some(names[i])
                && !forwards ==> then == (if i > 0 {
                Some(names[i - 1])
            } else {
                None
            })
        }),
        *final(state) == (UiState {
            charts_network_filter: final(state).charts_network_filter,
            ..*old(state)
        }),
{
    let names = strings(old(state).charts_available_networks@);
    if 0 <= i < names.len() {
        lemma_place(names, i);
    }
}

/// Each tab has its own screen: the dashboard comes first and the history second, the
/// traceroute third where it is enabled, and then the charts and the help. The history shows
/// one run where its detail view is open, and else what is open above the list.
pub proof fn each_tab_has_its_screen(state: &UiState, r: Screen)
    requires
        call_ensures(screen, (state,), r),
    ensures
        r is Dashboard <==> state.tab == 0,
        r is HistoryDetail <==> state.tab == 1 && state.history_detail_view,
        r is History <==> state.tab == 1 && !state.history_detail_view,
        r matches Screen::History { menu, export, comment } ==> {
            &&& menu == state.history_menu_open
            &&& export == state.history_export_modal_open
            &&& comment == state.history_comment_modal_open
        },
        r is Traceroute <==> state.tab == 2 && state.traceroute_enabled,
        r is Charts <==> state.tab == 2 + (if state.traceroute_enabled {
            1int
        } else {
            0
        }),
        r is Help <==> state.tab > 2 + (if state.traceroute_enabled {
            1int
        } else {
            0
        }),
{
}

/// The tabs have their titles in the order of their screens.
pub proof fn tabs_have_their_titles(traceroute: bool, r: Vec<String>)
    requires
        call_ensures(tab_titles, (traceroute,), r),
    ensures
        ({
            let more: int = if traceroute {
                1
            } else {
                0
            };
            &&& r@.len() == 4 + more
            &&& strings(r@)[0] == "Dashboard"@
            &&& strings(r@)[1] == "History"@
            &&& traceroute ==> strings(r@)[2] == "Traceroute"@
            &&& strings(r@)[2 + more] == "Charts"@
            &&& strings(r@)[3 + more] == "Help"@
        }),
{
    assert(strings(r@).len() == r@.len());
}

/// The headline names the version, and says that it is the latest or, so that it stands out,
/// which newer one there is; before that is known it says neither.
pub proof fn headline_tells_what_is_newer(
    version: &str,
    status: &Option<Option<String>>,
    r: Headline,
)
    requires
        call_ensures(headline, (version, status), r),
    ensures
        r.highlight is Some <==> *status is Some && (*status)->0 is Some,
        r.highlight is Some ==> r.highlight->0@ == "(v"@ + (*status)->0->0@ + " available)"@
            && r.plain@ == "cloudflare-speed-cli v"@ + version@ + " "@,
        *status is None ==> r.plain@ == "cloudflare-speed-cli v"@ + version@,
        *status is Some && (*status)->0 is None ==> r.plain@ == "cloudflare-speed-cli v"@ + version@
            + " (latest)"@,
{
    assert(r@.highlight == text_of(r.highlight));
    assert(r@.plain == r.plain@);
}

/// The texts of status lines.
pub open spec fn texts_of(lines: Seq<StatusLine>) -> Seq<Seq<char>> {
    lines.map_values(|l: StatusLine| l.text@)
}

/// A value is shown whole and once: the texts of the lines that are added, one after the
/// other, are the value without the white space around it. The first of them, and no other,
/// has the label, with a colon. Where the area is wide enough for the label no line is wider
/// than it, and all but the last are as wide. A value of white space adds nothing, and what
/// was there stays.
#[verifier::spinoff_prover]
pub proof fn status_lines_show_the_value_once(
    out: &mut Vec<StatusLine>,
    label: &str,
    value: &str,
    width: u16,
)
    requires
        label_width(label@) != 0xffff,
        trimmed(value@).len() <= 0xffff,
        call_ensures(push_wrapped_status_kv, (out, label, value, width), ()),
    ensures
        ({
            let before = old(out)@.len() as int;
            let all = final(out)@;
            let new = all.skip(before);
            &&& all.len() >= before
            &&& all.take(before) == old(out)@
            &&& trimmed(value@).len() == 0 ==> new.len() == 0
            &&& trimmed(value@).len() > 0 ==> new.len() > 0
            &&& unwrapped(texts_of(new)) == trimmed(value@)
            &&& forall|i: int|
                0 <= i < new.len() ==> ((#[trigger] new[i]).label is Some <==> i == 0)
            &&& new.len() > 0 ==> new[0].label->0@ == label@ + seq![':']
            &&& forall|i: int|
                0 <= i < new.len() && label@.len() + 7 <= width ==> (
                #[trigger] new[i]).text@.len() + (if i == 0 {
                    label@.len() + 2
                } else {
                    2
                }) + 4 <= width
            &&& forall|i: int|
                0 <= i < new.len() - 1 && label@.len() + 7 <= width ==> (
                #[trigger] new[i]).text@.len() + (if i == 0 {
                    label@.len() + 2
                } else {
                    2
                }) + 4 == width
        }),
{
    let before = old(out)@.len() as int;
    let all = final(out)@;
    let new = all.skip(before);
    let t = trimmed(value@);
    let usable = usable_width(width);
    let first = at_least_one(usable, label_width(label@) + 1);
    let then = at_least_one(usable, 2);
    let parts = wrapped(t, first, then);
    let views = crate::tui::status::status_views(all);
    let lines = crate::tui::status::status_lines(label@, value@, width);
    assert(views == crate::tui::status::status_views(old(out)@) + lines);
    assert(views.len() == all.len());
    assert(new.len() == lines.len());
    assert forall|i: int| 0 <= i < new.len() implies (#[trigger] new[i])@ == lines[i] by {
        assert(views[before + i] == all[before + i]@);
        assert(views[before + i] == lines[i]);
    }
    if t.len() == 0 {
        assert(texts_of(new) =~= Seq::empty());
        assert(unwrapped(texts_of(new)) =~= t);
    } else {
        assert(texts_of(new) =~= parts) by {
            assert forall|i: int| 0 <= i < parts.len() implies texts_of(new)[i] == parts[i] by {
                assert(new[i]@.text == lines[i].text);
            }
        }
        wrapping_keeps_the_text(t, first, then);
        assert(parts.len() > 0);
        assert(label@.push(':') =~= label@ + seq![':']);
        assert(new[0]@.label == text_of(new[0].label));
    }
    assert forall|i: int| 0 <= i < new.len() implies ((#[trigger] new[i]).label is Some <==> i
        == 0) by {
        assert(new[i]@.label == text_of(new[i].label));
    }
    assert forall|i: int| 0 <= i < new.len() && label@.len() + 7 <= width implies (
    #[trigger] new[i]).text@.len() + (if i == 0 {
        label@.len() + 2
    } else {
        2
    }) + 4 <= width by {
        wrapped_pieces_fit(t, first, then, i);
        assert(new[i]@.text == parts[i]);
    }
    assert forall|i: int| 0 <= i < new.len() - 1 && label@.len() + 7 <= width implies (
    #[trigger] new[i]).text@.len() + (if i == 0 {
        label@.len() + 2
    } else {
        2
    }) + 4 == width by {
        lemma_wrapped_full(t, first, then, i);
        assert(new[i]@.text == parts[i]);
    }
}

/// Every piece but the last one is full.
proof fn lemma_wrapped_full(s: Seq<char>, first: nat, then: nat, i: int)
    requires
        first > 0,
        then > 0,
        0 <= i < wrapped(s, first, then).len() - 1,
    ensures
        wrapped(s, first, then)[i].len() == (if i == 0 {
            first
        } else {
            then
        }),
    decreases s.len(),
{
    if s.len() > first && i > 0 {
        let rest = s.skip(first as int);
        assert(wrapped(s, first, then)[i] == wrapped(rest, then, then)[i - 1]);
        lemma_wrapped_full(rest, then, then, i - 1);
    }
}

/// A value goes to the end of a chart's series, a point to the end of a time series and a line
/// to the end of the log; of each, the last ones stay, 120, 1200 and 500 of them.
pub proof fn newest_ones_stay(
    series: &mut Vec<u64>,
    v: u64,
    points: &mut Vec<(Real, Real)>,
    x: Real,
    y: Real,
    log: &mut Vec<String>,
    line: String,
)
    ensures
        call_ensures(UiState::push_series, (series, v), ()) ==> grown_by(
            old(series)@,
            final(series)@,
            v,
            120,
        ),
        call_ensures(UiState::push_point, (points, x, y), ()) ==> grown_by(
            old(points)@,
            final(points)@,
            (x, y),
            1200,
        ),
        call_ensures(UiState::push_log_line, (log, line), ()) ==> grown_by(
            old(log)@,
            final(log)@,
            line,
            500,
        ),
{
}

/// The live figures are those that are given, each under its own name, where there is a
/// sample; without a sample there are none. The counts are those that are given. Nothing is
/// lost where all was received.
pub proof fn live_figures_keep_their_names(
    samples: &[Real],
    sent: u64,
    received: u64,
    figures: Option<LatencyFigures>,
    r: LatencySummary,
)
    requires
        sent != 0 ==> received <= sent,
        call_ensures(
            UiState::compute_live_latency_stats,
            (samples, sent, received, figures),
            r,
        ),
    ensures
        r.sent == sent,
        r.received == received,
        sent == received || sent == 0 ==> r.loss.bits == 0,
        samples@.len() > 0 && figures is Some ==> {
            &&& r.min_ms == Some(figures->0.min_ms)
            &&& r.mean_ms == Some(figures->0.mean_ms)
            &&& r.median_ms == Some(figures->0.median_ms)
            &&& r.p25_ms == Some(figures->0.p25_ms)
            &&& r.p75_ms == Some(figures->0.p75_ms)
            &&& r.max_ms == Some(figures->0.max_ms)
            &&& r.jitter_ms == figures->0.jitter_ms
        },
        samples@.len() == 0 || figures is None ==> {
            &&& r.min_ms is None
            &&& r.mean_ms is None
            &&& r.median_ms is None
            &&& r.p25_ms is None
            &&& r.p75_ms is None
            &&& r.max_ms is None
            &&& r.jitter_ms is None
        },
{
}

/// The loss is the double nearest to the share of the probes sent that were not received, for
/// fewer than 2^53 probes: its 53 bits, `m`, are the integer nearest to that share times the
/// power of two, `e`, that its exponent says.
pub proof fn loss_is_the_share_not_received(
    samples: &[Real],
    sent: u64,
    received: u64,
    figures: Option<LatencyFigures>,
    r: LatencySummary,
)
    requires
        received < sent < LIMIT,
        call_ensures(
            UiState::compute_live_latency_stats,
            (samples, sent, received, figures),
            r,
        ),
    ensures
        exists|m: nat, e: nat|
            #![trigger pow2(e), m * sent]
            r.loss.bits == (1075 - e) * LEAST + (m - LEAST) && LEAST <= m <= LIMIT && 2 * (m * sent)
                <= 2 * ((sent - received) * pow2(e)) + sent && 2 * ((sent - received) * pow2(e))
                <= 2 * (m * sent) + sent,
{
    let part = (sent - received) as nat;
    ratio_is_the_nearest_double(part, sent as nat);
    ratio_bits_fit(part, sent as nat);
}

} // verus!
