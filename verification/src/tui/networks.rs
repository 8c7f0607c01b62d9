//! The networks that the charts can be restricted to.

use crate::model::{text_of, RunRecord};
use crate::text::{
    before, chars_of, lemma_precedes_total, lemma_precedes_transitive, precedes, same, strings,
};
use crate::tui::state::UiState;
use vstd::prelude::*;

verus! {

/// Whether the names stand in ascending order, each once.
pub open spec fn ascending(names: Seq<Seq<char>>) -> bool {
    forall|i: int, j: int|
        0 <= i < j < names.len() ==> precedes(#[trigger] names[i], #[trigger] names[j])
}

/// Whether some run was made over the network of that name.
pub open spec fn seen(history: Seq<RunRecord>, name: Seq<char>) -> bool {
    exists|i: int|
        0 <= i < history.len() && text_of((#[trigger] history[i]).network_name) == Some(name)
}

/// Whether `names` are the networks of the runs: each once, in ascending order.
pub open spec fn is_network_list(names: Seq<Seq<char>>, history: Seq<RunRecord>) -> bool {
    &&& ascending(names)
    &&& forall|name: Seq<char>| #[trigger] names.contains(name) <==> seen(history, name)
}

/// Adds a name at its place, unless it is there already.
fn insert_name(list: &mut Vec<String>, name: &String)
    requires
        ascending(strings(old(list)@)),
    ensures
        ascending(strings(final(list)@)),
        forall|n: Seq<char>| #[trigger]
            strings(final(list)@).contains(n) <==> strings(old(list)@).contains(n) || n == name@,
{
    let ghost names = strings(list@);
    let key = chars_of(name.as_str());
    let mut p: usize = 0;
    let mut place: Vec<char> = Vec::new();
    while p < list.len()
        invariant_except_break
            p <= list@.len(),
        invariant
            names == strings(list@),
            list@ == old(list)@,
            key@ == name@,
            p <= list@.len(),
            forall|j: int| 0 <= j < p ==> precedes(#[trigger] names[j], name@),
        ensures
            p < list@.len() ==> place@ == names[p as int] && !precedes(names[p as int], name@),
        decreases list@.len() - p,
    {
        place = chars_of(list[p].as_str());
        assert(place@ == names[p as int]);
        if !before(place.as_slice(), key.as_slice()) {
            break;
        }
        p = p + 1;
    }
    if p < list.len() {
        if same(place.as_slice(), key.as_slice()) {
            assert(names.contains(name@)) by {
                assert(names[p as int] == name@);
            }
            return;
        }
        proof {
            lemma_precedes_total(names[p as int], name@);
        }
    }
    list.insert(p, name.clone());
    let ghost now = strings(list@);
    proof {
        assert(now =~= names.insert(p as int, name@));
        assert forall|i: int, j: int| 0 <= i < j < now.len() implies precedes(
            #[trigger] now[i],
            #[trigger] now[j],
        ) by {
            if i == p {
                assert(now[j] == names[j - 1]);
                if j - 1 > p {
                    lemma_precedes_transitive(name@, names[p as int], names[j - 1]);
                }
            } else if j == p {
                assert(now[i] == names[i]);
            } else {
                assert(now[i] == names[if i < p { i } else { i - 1 }]);
                assert(now[j] == names[if j < p { j } else { j - 1 }]);
            }
        }
        assert forall|n: Seq<char>| #[trigger] now.contains(n) <==> names.contains(n) || n
            == name@ by {
            if now.contains(n) {
                let i = choose|i: int| 0 <= i < now.len() && now[i] == n;
                if i != p {
                    assert(names[if i < p { i } else { i - 1 }] == n);
                }
            }
            if names.contains(n) {
                let i = choose|i: int| 0 <= i < names.len() && names[i] == n;
                assert(now[if i < p { i } else { i + 1 }] == n);
            }
            assert(now[p as int] == name@);
        }
    }
}

/// The networks of the runs: each once, in ascending order.
pub fn network_names(history: &[RunRecord]) -> (r: Vec<String>)
    ensures
        is_network_list(strings(r@), history@),
{
    let mut r: Vec<String> = Vec::new();
    for i in 0..history.len()
        invariant
            is_network_list(strings(r@), history@.take(i as int)),
    {
        let ghost then = history@.take(i as int);
        let ghost now = history@.take(i + 1);
        let ghost names = strings(r@);
        if let Some(name) = &history[i].network_name {
            insert_name(&mut r, name);
        }
        proof {
            let here = text_of(history@[i as int].network_name);
            assert forall|n: Seq<char>| #[trigger] strings(r@).contains(n) <==> seen(now, n) by {
                assert(names.contains(n) <==> seen(then, n));
                if seen(then, n) {
                    let j = choose|j: int|
                        0 <= j < then.len() && text_of((#[trigger] then[j]).network_name)
                            == Some(n);
                    assert(now[j] == then[j]);
                }
                if seen(now, n) {
                    let j = choose|j: int|
                        0 <= j < now.len() && text_of((#[trigger] now[j]).network_name) == Some(n);
                    if j < i {
                        assert(then[j] == now[j]);
                    }
                }
                if here == Some(n) {
                    assert(text_of(now[i as int].network_name) == Some(n));
                }
            }
        }
    }
    assert(history@.take(history@.len() as int) =~= history@);
    r
}

/// Whether `name` is among the strings.
fn is_among(list: &[String], name: &String) -> (r: bool)
    ensures
        r == strings(list@).contains(name@),
{
    match position(list, name) {
        Some(_) => true,
        None => false,
    }
}

/// The first place of `name` in the strings, if it is among them.
fn position(list: &[String], name: &String) -> (r: Option<usize>)
    ensures
        match r {
            Some(i) => i < list@.len() && list@[i as int]@ == name@ && forall|j: int|
                0 <= j < i ==> (#[trigger] list@[j])@ != name@,
            None => !strings(list@).contains(name@),
        },
        r is Some ==> strings(list@).contains(name@),
{
    for i in 0..list.len()
        invariant
            forall|j: int| 0 <= j < i ==> (#[trigger] list@[j])@ != name@,
    {
        if list[i] == *name {
            assert(strings(list@)[i as int] == name@);
            return Some(i);
        }
    }
    assert forall|j: int| 0 <= j < strings(list@).len() implies strings(list@)[j] != name@ by {
        assert(strings(list@)[j] == list@[j]@);
    }
    None
}

/// What updating the networks does: the list is that of the history's networks, and a
/// filter that is no longer among them is reset. Nothing else changes.
pub open spec fn networks_updated(s: UiState, t: UiState) -> bool {
    let names = strings(t.charts_available_networks@);
    &&& is_network_list(names, s.history@)
    &&& t.charts_network_filter == (match s.charts_network_filter {
        Some(name) => if names.contains(name@) {
            Some(name)
        } else {
            None
        },
        None => None,
    })
    &&& t == (UiState {
        charts_available_networks: t.charts_available_networks,
        charts_network_filter: t.charts_network_filter,
        ..s
    })
}

/// Updates the list of available networks from history for the Charts tab.
pub fn update_available_networks(state: &mut UiState)
    ensures
        networks_updated(*old(state), *final(state)),
        final(state).chart_filter_valid(),
{
    state.charts_available_networks = network_names(state.history.as_slice());
    let keep = match &state.charts_network_filter {
        Some(current) => is_among(state.charts_available_networks.as_slice(), current),
        None => true,
    };
    if !keep {
        state.charts_network_filter = None;
    }
}

/// A list of networks in which the filter stands at some place, or at none for all.
pub open spec fn place_of(names: Seq<Seq<char>>, filter: Option<Seq<char>>) -> Option<int> {
    match filter {
        None => None,
        Some(name) => if names.contains(name) {
            Some(first_place(names, name))
        } else {
            None
        },
    }
}

/// The first place of a name.
pub open spec fn first_place(names: Seq<Seq<char>>, name: Seq<char>) -> int
    decreases names.len(),
{
    if names.len() == 0 || names[0] == name {
        0
    } else {
        1 + first_place(names.drop_first(), name)
    }
}

/// The filter after one step forwards: all networks, the first one, ..., the last one, and
/// all again. A filter that is not among the networks is reset to all.
pub open spec fn next_filter(names: Seq<Seq<char>>, filter: Option<Seq<char>>) -> Option<
    Seq<char>,
> {
    match filter {
        None => Some(names[0]),
        Some(_) => match place_of(names, filter) {
            Some(i) => if i + 1 < names.len() {
                Some(names[i + 1])
            } else {
                None
            },
            None => None,
        },
    }
}

/// The filter after one step backwards: all networks, the last one, ..., the first one, and
/// all again. A filter that is not among the networks is reset to all.
pub open spec fn previous_filter(names: Seq<Seq<char>>, filter: Option<Seq<char>>) -> Option<
    Seq<char>,
> {
    match filter {
        None => Some(names.last()),
        Some(_) => match place_of(names, filter) {
            Some(i) => if i > 0 {
                Some(names[i - 1])
            } else {
                None
            },
            None => None,
        },
    }
}

/// What [`first_place`] finds.
proof fn lemma_first_place(names: Seq<Seq<char>>, name: Seq<char>, i: int)
    requires
        0 <= i < names.len(),
        names[i] == name,
        forall|j: int| 0 <= j < i ==> #[trigger] names[j] != name,
    ensures
        first_place(names, name) == i,
    decreases names.len(),
{
    if i > 0 {
        let rest = names.drop_first();
        assert forall|j: int| 0 <= j < i - 1 implies #[trigger] rest[j] != name by {
            assert(rest[j] == names[j + 1]);
        }
        assert(names[0] != name);
        lemma_first_place(rest, name, i - 1);
    }
}

/// The filter after one step forwards.
fn step_forwards(names: &[String], filter: &Option<String>) -> (r: Option<String>)
    requires
        names@.len() > 0,
    ensures
        text_of(r) == next_filter(strings(names@), text_of(*filter)),
{
    match filter {
        None => Some(names[0].clone()),
        Some(current) => match position(names, current) {
            Some(i) => {
                proof {
                    assert(forall|j: int|
                        0 <= j < names@.len() ==> #[trigger] strings(names@)[j] == names@[j]@);
                    lemma_first_place(strings(names@), current@, i as int);
                }
                if i >= names.len() - 1 {
                    None
                } else {
                    Some(names[i + 1].clone())
                }
            },
            None => None,
        },
    }
}

/// The filter after one step backwards.
fn step_backwards(names: &[String], filter: &Option<String>) -> (r: Option<String>)
    requires
        names@.len() > 0,
    ensures
        text_of(r) == previous_filter(strings(names@), text_of(*filter)),
{
    match filter {
        None => Some(names[names.len() - 1].clone()),
        Some(current) => match position(names, current) {
            Some(i) => {
                proof {
                    assert(forall|j: int|
                        0 <= j < names@.len() ==> #[trigger] strings(names@)[j] == names@[j]@);
                    lemma_first_place(strings(names@), current@, i as int);
                }
                if i == 0 {
                    None
                } else {
                    Some(names[i - 1].clone())
                }
            },
            None => None,
        },
    }
}

/// What cycling through the networks does: only the filter changes, and only where there are
/// networks.
pub open spec fn filter_cycled(s: UiState, t: UiState, forwards: bool) -> bool {
    let names = strings(s.charts_available_networks@);
    if names.len() == 0 {
        t == s
    } else {
        &&& text_of(t.charts_network_filter) == (if forwards {
            next_filter(names, text_of(s.charts_network_filter))
        } else {
            previous_filter(names, text_of(s.charts_network_filter))
        })
        &&& t == (UiState { charts_network_filter: t.charts_network_filter, ..s })
    }
}

/// However the networks are cycled through, the charts show all networks, or one of those
/// available.
pub proof fn cycling_keeps_the_filter_valid(s: UiState, t: UiState, forwards: bool)
    requires
        s.chart_filter_valid(),
        filter_cycled(s, t, forwards),
    ensures
        t.chart_filter_valid(),
{
    let names = strings(s.charts_available_networks@);
    if names.len() > 0 {
        assert(names.contains(names[0]));
        assert(names.contains(names[names.len() - 1]));
        let was = text_of(s.charts_network_filter);
        if was is Some {
            lemma_first_place_bound(names, was->0);
            let p = first_place(names, was->0);
            if p + 1 < names.len() {
                assert(names.contains(names[p + 1]));
            }
            if p > 0 {
                assert(names.contains(names[p - 1]));
            }
        }
    }
}

/// Cycles through the networks: all, then each of them, then all again.
pub fn cycle_filter(state: &mut UiState, forwards: bool)
    ensures
        filter_cycled(*old(state), *final(state), forwards),
{
    if state.charts_available_networks.len() == 0 {
        return;
    }
    let filter = if forwards {
        step_forwards(state.charts_available_networks.as_slice(), &state.charts_network_filter)
    } else {
        step_backwards(state.charts_available_networks.as_slice(), &state.charts_network_filter)
    };
    state.charts_network_filter = filter;
}

/// The first place of a name that is among the names is one of their places.
proof fn lemma_first_place_bound(names: Seq<Seq<char>>, name: Seq<char>)
    requires
        names.contains(name),
    ensures
        0 <= first_place(names, name) < names.len(),
        names[first_place(names, name)] == name,
    decreases names.len(),
{
    let i = choose|i: int| 0 <= i < names.len() && names[i] == name;
    if names[0] != name {
        let rest = names.drop_first();
        assert(rest[i - 1] == name);
        lemma_first_place_bound(rest, name);
    }
}

/// There is only one list of the networks of a history.
pub proof fn network_list_is_unique(
    a: Seq<Seq<char>>,
    b: Seq<Seq<char>>,
    history: Seq<RunRecord>,
)
    requires
        is_network_list(a, history),
        is_network_list(b, history),
    ensures
        a == b,
{
    lemma_same_members(a, b);
}

/// Ascending names with the same members are the same names.
proof fn lemma_same_members(a: Seq<Seq<char>>, b: Seq<Seq<char>>)
    requires
        ascending(a),
        ascending(b),
        forall|n: Seq<char>| #[trigger] a.contains(n) <==> b.contains(n),
    ensures
        a == b,
    decreases a.len(),
{
    if a.len() == 0 {
        if b.len() > 0 {
            assert(b.contains(b[0]));
            assert(a.contains(b[0]));
        }
        assert(a =~= b);
    } else {
        assert(a.contains(a[0]));
        assert(b.contains(a[0]));
        let k = choose|k: int| 0 <= k < b.len() && b[k] == a[0];
        assert(b.contains(b[0]));
        assert(a.contains(b[0]));
        let m = choose|m: int| 0 <= m < a.len() && a[m] == b[0];
        if k > 0 {
            assert(precedes(b[0], b[k]));
            if m > 0 {
                assert(precedes(a[0], a[m]));
                lemma_precedes_total(a[0], b[0]);
            } else {
                lemma_precedes_total(a[0], b[0]);
            }
        }
        let ra = a.drop_first();
        let rb = b.drop_first();
        assert forall|i: int, j: int| 0 <= i < j < ra.len() implies precedes(
            #[trigger] ra[i],
            #[trigger] ra[j],
        ) by {
            assert(ra[i] == a[i + 1] && ra[j] == a[j + 1]);
        }
        assert forall|i: int, j: int| 0 <= i < j < rb.len() implies precedes(
            #[trigger] rb[i],
            #[trigger] rb[j],
        ) by {
            assert(rb[i] == b[i + 1] && rb[j] == b[j + 1]);
        }
        assert forall|n: Seq<char>| #[trigger] ra.contains(n) <==> rb.contains(n) by {
            if ra.contains(n) {
                let i = choose|i: int| 0 <= i < ra.len() && ra[i] == n;
                assert(a[i + 1] == n);
                assert(a.contains(n));
                let j = choose|j: int| 0 <= j < b.len() && b[j] == n;
                assert(precedes(a[0], a[i + 1]));
                lemma_precedes_total(a[0], n);
                assert(j > 0);
                assert(rb[j - 1] == n);
            }
            if rb.contains(n) {
                let i = choose|i: int| 0 <= i < rb.len() && rb[i] == n;
                assert(b[i + 1] == n);
                assert(b.contains(n));
                assert(a.contains(n));
                let j = choose|j: int| 0 <= j < a.len() && a[j] == n;
                assert(precedes(b[0], b[i + 1]));
                lemma_precedes_total(b[0], n);
                assert(j > 0);
                assert(ra[j - 1] == n);
            }
        }
        lemma_same_members(ra, rb);
        assert(a =~= seq![a[0]] + ra);
        assert(b =~= seq![b[0]] + rb);
    }
}

/// Each name of an ascending list stands at one place only.
pub proof fn lemma_place(names: Seq<Seq<char>>, i: int)
    requires
        ascending(names),
        0 <= i < names.len(),
    ensures
        names.contains(names[i]),
        first_place(names, names[i]) == i,
{
    assert forall|j: int| 0 <= j < i implies #[trigger] names[j] != names[i] by {
        lemma_precedes_total(names[j], names[i]);
    }
    lemma_first_place(names, names[i], i);
}

/// Cycling forwards and then backwards, or the other way round, leads back to where it
/// began.
pub proof fn cycling_back_undoes_cycling(names: Seq<Seq<char>>, filter: Option<Seq<char>>)
    requires
        ascending(names),
        names.len() > 0,
        filter is Some ==> names.contains(filter->0),
    ensures
        previous_filter(names, next_filter(names, filter)) == filter,
        next_filter(names, previous_filter(names, filter)) == filter,
{
    lemma_place(names, 0);
    lemma_place(names, names.len() - 1);
    if filter is Some {
        let i = choose|i: int| 0 <= i < names.len() && names[i] == filter->0;
        lemma_place(names, i);
        if i + 1 < names.len() {
            lemma_place(names, i + 1);
        }
        if i > 0 {
            lemma_place(names, i - 1);
        }
    }
}

/// The filter after `n` steps forwards.
pub open spec fn filter_after(
    names: Seq<Seq<char>>,
    filter: Option<Seq<char>>,
    n: nat,
) -> Option<Seq<char>>
    decreases n,
{
    if n == 0 {
        filter
    } else {
        next_filter(names, filter_after(names, filter, (n - 1) as nat))
    }
}

/// From "all networks", the steps forwards show each network in order and then all again.
pub proof fn cycle_visits_every_network(names: Seq<Seq<char>>, n: nat)
    requires
        ascending(names),
        names.len() > 0,
        0 < n <= names.len() + 1,
    ensures
        n <= names.len() ==> filter_after(names, None, n) == Some(names[n - 1]),
        n == names.len() + 1 ==> filter_after(names, None, n) is None,
    decreases n,
{
    if n > 1 {
        cycle_visits_every_network(names, (n - 1) as nat);
        lemma_place(names, n - 2);
    } else {
        assert(filter_after(names, None, 0) is None);
    }
}

} // verus!
