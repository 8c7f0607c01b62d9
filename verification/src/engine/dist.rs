//! A weighted distribution of DSCP values.

use crate::binary64::{percent, percent_of};
use crate::engine::dscp::{describe_dscp, description, tos_byte, tos_of, weight_sum, DscpWeight};
use crate::text::{decimal, join, joined, push_decimal, strings};
use rand::Rng;
use vstd::prelude::*;

verus! {

/// The sum of the weights of the entries.
pub open spec fn entry_sum(entries: Seq<(u8, u32)>) -> nat
    decreases entries.len(),
{
    if entries.len() == 0 {
        0
    } else {
        entry_sum(entries.drop_last()) + entries.last().1 as nat
    }
}

/// The entries that can be drawn: those with a positive weight.
pub open spec fn drawable(weights: Seq<DscpWeight>) -> Seq<(u8, u32)>
    decreases weights.len(),
{
    if weights.len() == 0 {
        Seq::empty()
    } else {
        let before = drawable(weights.drop_last());
        let w = weights.last();
        if w.weight > 0 {
            before.push((w.dscp, w.weight))
        } else {
            before
        }
    }
}

/// Entries of which one can be drawn: at least one, and each with a positive weight.
pub open spec fn usable(entries: Seq<(u8, u32)>) -> bool {
    &&& entries.len() > 0
    &&& forall|i: int| 0 <= i < entries.len() ==> (#[trigger] entries[i]).1 > 0
}

/// The entry that owns the ticket `ticket`, when the entries are handed as many tickets as
/// their weights say, one after the other.
pub open spec fn owner(entries: Seq<(u8, u32)>, ticket: nat) -> int
    decreases entries.len(),
{
    if entries.len() == 0 || ticket < entries[0].1 {
        0
    } else {
        1 + owner(entries.drop_first(), (ticket - entries[0].1) as nat)
    }
}

/// The sum is that of the first entry and of the rest.
proof fn lemma_sum_from_front(entries: Seq<(u8, u32)>)
    requires
        entries.len() > 0,
    ensures
        entry_sum(entries) == entries[0].1 + entry_sum(entries.drop_first()),
    decreases entries.len(),
{
    if entries.len() == 1 {
        assert(entries.drop_last() =~= Seq::empty());
        assert(entries.drop_first() =~= Seq::empty());
    } else {
        lemma_sum_from_front(entries.drop_last());
        assert(entries.drop_last().drop_first() =~= entries.drop_first().drop_last());
    }
}

/// Each entry owns exactly as many tickets as its weight says: those from the sum of the
/// weights before it up to that sum and its own weight.
pub proof fn owner_has_its_share(entries: Seq<(u8, u32)>, ticket: nat, i: int)
    requires
        ticket < entry_sum(entries),
        0 <= i < entries.len(),
    ensures
        0 <= owner(entries, ticket) < entries.len(),
        owner(entries, ticket) == i <==> entry_sum(entries.take(i)) <= ticket < entry_sum(
            entries.take(i),
        ) + entries[i].1,
    decreases entries.len(),
{
    let rest = entries.drop_first();
    let first = entries[0].1 as nat;
    lemma_sum_from_front(entries);
    assert(entries.take(0) =~= Seq::empty());
    if i > 0 {
        lemma_sum_from_front(entries.take(i));
        assert(entries.take(i).drop_first() =~= rest.take(i - 1));
        assert(rest[i - 1] == entries[i]);
    }
    if ticket >= first {
        if i > 0 {
            owner_has_its_share(rest, (ticket - first) as nat, i - 1);
        } else {
            owner_has_its_share(rest, (ticket - first) as nat, 0);
        }
    }
}

/// A number drawn at random below `limit`: `gen_range` of the thread's generator on the
/// range from 0 up to `limit`, which yields some number in the range and panics only where
/// the range is empty.
#[verifier::external_body]
fn random_below(limit: u64) -> (r: u64)
    requires
        limit > 0,
    ensures
        r < limit,
{
    rand::thread_rng().gen_range(0..limit)
}

/// A ready-to-use weighted distribution of DSCP values. Built from a non-empty list of
/// [`DscpWeight`]s with at least one positive weight.
#[derive(Debug)]
pub struct DscpDist {
    /// (dscp, weight) pairs with weight > 0.
    entries: Vec<(u8, u32)>,
    total: u64,
}

impl View for DscpDist {
    type V = Seq<(u8, u32)>;

    /// The (dscp, weight) pairs of the distribution.
    closed spec fn view(&self) -> Seq<(u8, u32)> {
        self.entries@
    }
}

impl Clone for DscpDist {
    fn clone(&self) -> (r: Self)
        ensures
            r@ == self@,
    {
        proof {
            use_type_invariant(self);
        }
        let mut entries: Vec<(u8, u32)> = Vec::new();
        for i in 0..self.entries.len()
            invariant
                entries@ == self.entries@.take(i as int),
        {
            entries.push(self.entries[i]);
            assert(self.entries@.take(i as int).push(self.entries@[i as int])
                =~= self.entries@.take(i + 1));
        }
        assert(self.entries@.take(self.entries@.len() as int) =~= self.entries@);
        DscpDist { entries, total: self.total }
    }
}

/// What `select` may return: the value of the entry that owns some ticket.
pub open spec fn selectable(entries: Seq<(u8, u32)>, dscp: u8) -> bool {
    exists|ticket: nat|
        ticket < entry_sum(entries) && dscp == entries[#[trigger] owner(entries, ticket)].0
}

/// Whether `ticket` is one that the thread's generator drew below `limit`.
pub closed spec fn drawn(limit: u64, ticket: u64) -> bool {
    call_ensures(random_below, (limit,), ticket)
}

/// What `select` returns: the only value there is, or else that of the entry which owns a
/// ticket that was drawn among as many as there are.
pub open spec fn selected(entries: Seq<(u8, u32)>, dscp: u8) -> bool {
    if entries.len() == 1 {
        dscp == entries[0].0
    } else {
        exists|limit: u64, ticket: u64|
            limit == entry_sum(entries) && #[trigger] drawn(limit, ticket) && dscp
                == entries[owner(entries, ticket as nat)].0
    }
}

/// The weight's share of the sum, `<description> <percent>%`.
pub open spec fn share_text(entry: (u8, u32), total: nat) -> Seq<char> {
    description(entry.0) + " "@ + decimal(percent(entry.1 as nat, total)) + "%"@
}

/// The shares of all entries, separated by commas.
pub open spec fn dist_text(entries: Seq<(u8, u32)>) -> Seq<char> {
    joined(entries.map_values(|e: (u8, u32)| share_text(e, entry_sum(entries))), ", "@)
}

impl DscpDist {
    #[verifier::type_invariant]
    spec fn wf(self) -> bool {
        &&& usable(self.entries@)
        &&& self.total == entry_sum(self.entries@)
    }

    /// Builds a distribution, dropping zero-weight entries. Returns `None` if no usable
    /// entries remain (empty input or all weights zero).
    pub fn from_weights(weights: &[DscpWeight]) -> (r: Option<Self>)
        requires
            weight_sum(weights@) <= u64::MAX,
        ensures
            match r {
                Some(dist) => dist@ == drawable(weights@) && usable(dist@),
                None => drawable(weights@).len() == 0,
            },
    {
        let mut entries: Vec<(u8, u32)> = Vec::new();
        let mut total: u64 = 0;
        for i in 0..weights.len()
            invariant
                weight_sum(weights@) <= u64::MAX,
                entries@ == drawable(weights@.take(i as int)),
                total == entry_sum(entries@),
                total == weight_sum(weights@.take(i as int)),
                forall|j: int| 0 <= j < entries@.len() ==> (#[trigger] entries@[j]).1 > 0,
        {
            let ghost now = weights@.take(i + 1);
            assert(now.drop_last() =~= weights@.take(i as int));
            proof {
                lemma_weight_sum_grows(weights@, i + 1);
            }
            let w = weights[i];
            if w.weight > 0 {
                let ghost before = entries@;
                total = total + w.weight as u64;
                entries.push((w.dscp, w.weight));
                assert(entries@.drop_last() =~= before);
            }
        }
        assert(weights@.take(weights@.len() as int) =~= weights@);
        if entries.len() == 0 {
            return None;
        }
        Some(DscpDist { entries, total })
    }

    /// The DSCP value of the entry that owns `ticket`, or `None` where no entry does.
    pub fn select_at(&self, ticket: u64) -> (r: Option<u8>)
        ensures
            ticket < entry_sum(self@) ==> r == Some(self@[owner(self@, ticket as nat)].0),
            ticket >= entry_sum(self@) ==> r is None,
    {
        let mut r: u64 = ticket;
        let mut i: usize = 0;
        assert(self.entries@.skip(0) =~= self.entries@);
        while i < self.entries.len()
            invariant
                i <= self.entries@.len(),
                ticket < entry_sum(self.entries@) <==> r < entry_sum(
                    self.entries@.skip(i as int),
                ),
                r < entry_sum(self.entries@.skip(i as int)) ==> owner(
                    self.entries@,
                    ticket as nat,
                ) == i + owner(self.entries@.skip(i as int), r as nat),
            decreases self.entries@.len() - i,
        {
            let (dscp, weight) = self.entries[i];
            let ghost rest = self.entries@.skip(i as int);
            let w: u64 = weight as u64;
            proof {
                lemma_sum_from_front(rest);
                assert(rest.drop_first() =~= self.entries@.skip(i + 1));
            }
            if r < w {
                return Some(dscp);
            }
            r = r - w;
            i = i + 1;
        }
        assert(self.entries@.skip(i as int) =~= Seq::empty());
        None
    }

    /// The DSCP value that `draw` leads to, which draws one of the tickets below a number; with
    /// a single entry nothing is drawn.
    pub fn select_by<F: FnOnce(u64) -> u64>(&self, draw: F) -> (r: u8)
        requires
            forall|limit: u64|
                limit == entry_sum(self@) ==> #[trigger] call_requires(draw, (limit,)),
            forall|limit: u64, ticket: u64|
                limit == entry_sum(self@) && #[trigger] call_ensures(draw, (limit,), ticket)
                    ==> ticket < limit,
        ensures
            self@.len() == 1 ==> r == self@[0].0,
            self@.len() != 1 ==> exists|limit: u64, ticket: u64|
                limit == entry_sum(self@) && #[trigger] call_ensures(draw, (limit,), ticket) && r
                    == self@[owner(self@, ticket as nat)].0,
            selectable(self@, r),
    {
        proof {
            use_type_invariant(self);
            lemma_sum_positive(self@);
        }
        if self.entries.len() == 1 {
            assert(owner(self@, 0) == 0);
            return self.entries[0].0;
        }
        let ticket = draw(self.total);
        match self.select_at(ticket) {
            Some(dscp) => {
                assert(dscp == self@[owner(self@, ticket as nat)].0);
                dscp
            },
            // The ticket is below the total, so some entry owns it.
            None => self.entries[self.entries.len() - 1].0,
        }
    }

    /// Weighted-random pick of one DSCP value.
    pub fn select(&self) -> (r: u8)
        ensures
            selectable(self@, r),
            selected(self@, r),
    {
        proof {
            use_type_invariant(self);
            lemma_sum_positive(self@);
        }
        let r = self.select_by(random_below);
        proof {
            if self@.len() != 1 {
                let (limit, ticket) = choose|limit: u64, ticket: u64|
                    limit == entry_sum(self@) && #[trigger] call_ensures(
                        random_below,
                        (limit,),
                        ticket,
                    ) && r == self@[owner(self@, ticket as nat)].0;
                assert(drawn(limit, ticket));
            }
        }
        r
    }

    /// A per-connection picker for the TOS byte of each new connection.
    pub fn picker(&self) -> (p: TosPicker)
        ensures
            p@ == self@,
    {
        TosPicker { dist: self.clone() }
    }

    /// Human-readable summary including class name, decimal DSCP, the TOS / Traffic-Class
    /// byte, and the weight, e.g. `EF (DSCP 46, 0xB8) 60%, CS1 (DSCP 8, 0x20) 40%`.
    pub fn describe(&self) -> (r: String)
        ensures
            r@ == dist_text(self@),
    {
        proof {
            use_type_invariant(self);
        }
        let ghost total = entry_sum(self@);
        let ghost wanted = self@.map_values(|e: (u8, u32)| share_text(e, total));
        let mut parts: Vec<String> = Vec::new();
        for i in 0..self.entries.len()
            invariant
                usable(self.entries@),
                self.total == entry_sum(self.entries@),
                total == self.total,
                wanted == self.entries@.map_values(|e: (u8, u32)| share_text(e, total)),
                strings(parts@) == wanted.take(i as int),
        {
            let (dscp, weight) = self.entries[i];
            proof {
                lemma_part_of_sum(self.entries@, i as int);
            }
            let mut part = describe_dscp(dscp);
            part.append(" ");
            push_decimal(&mut part, percent_of(weight, self.total));
            part.append("%");
            let ghost before = strings(parts@);
            parts.push(part);
            assert(strings(parts@) =~= before.push(part@));
            assert(wanted.take(i as int).push(wanted[i as int]) =~= wanted.take(i + 1));
        }
        assert(wanted.take(wanted.len() as int) =~= wanted);
        join(parts.as_slice(), ", ")
    }
}

/// What a picker may return for a connection: the TOS byte of a value that may be selected.
pub open spec fn pickable(entries: Seq<(u8, u32)>, tos: u32) -> bool {
    exists|dscp: u8| #[trigger] selectable(entries, dscp) && tos == tos_of(dscp)
}

/// What a picker returns for a connection: the TOS byte of a value as `select` returns it.
pub open spec fn picked(entries: Seq<(u8, u32)>, tos: u32) -> bool {
    exists|dscp: u8| #[trigger] selected(entries, dscp) && tos == tos_of(dscp)
}

/// Picks the TOS byte of each new connection from a distribution.
#[derive(Debug)]
pub struct TosPicker {
    dist: DscpDist,
}

impl View for TosPicker {
    type V = Seq<(u8, u32)>;

    /// The (dscp, weight) pairs of the distribution.
    closed spec fn view(&self) -> Seq<(u8, u32)> {
        self.dist@
    }
}

impl TosPicker {
    /// A weighted-random TOS byte for a new connection; there always is one.
    pub fn pick(&self) -> (r: Option<u32>)
        ensures
            r is Some,
            pickable(self@, r->0),
            picked(self@, r->0),
    {
        Some(tos_byte(self.dist.select()))
    }
}

/// A selection goes by weight: the value is that of an entry `i`, and it is selected because a
/// number that the generator drew below the sum of all weights lies among as many numbers as
/// the weight of `i` says, after those of the entries before it. Only a single entry is
/// selected without drawing.
pub proof fn selection_goes_by_weight(dist: DscpDist, r: u8)
    requires
        dist@.len() > 1,
        call_ensures(DscpDist::select, (&dist,), r),
    ensures
        exists|limit: u64, ticket: u64, i: int|
            limit == entry_sum(dist@) && #[trigger] drawn(limit, ticket)
                && 0 <= i < dist@.len() && entry_sum(dist@.take(i)) <= ticket < entry_sum(
                dist@.take(i),
            ) + (#[trigger] dist@[i]).1 && r == dist@[i].0,
{
    let entries = dist@;
    let (limit, ticket) = choose|limit: u64, ticket: u64|
        limit == entry_sum(entries) && #[trigger] drawn(limit, ticket) && r == entries[owner(
            entries,
            ticket as nat,
        )].0;
    only_the_generator_draws(limit, ticket);
    owner_has_its_share(entries, ticket as nat, 0);
    let i = owner(entries, ticket as nat);
    owner_has_its_share(entries, ticket as nat, i);
    assert(dist@[i].0 == r);
}

/// A picked byte goes by weight in the same way: above two zero bits it holds the value of
/// the entry that owns a number which the generator drew below the sum of all weights.
pub proof fn pick_goes_by_weight(picker: TosPicker, r: Option<u32>)
    requires
        picker@.len() > 1,
        call_ensures(TosPicker::pick, (&picker,), r),
    ensures
        exists|limit: u64, ticket: u64, i: int|
            limit == entry_sum(picker@) && #[trigger] drawn(limit, ticket) && 0 <= i
                < picker@.len() && entry_sum(picker@.take(i)) <= ticket < entry_sum(
                picker@.take(i),
            ) + (#[trigger] picker@[i]).1 && r is Some && r->0 % 4 == 0 && r->0 / 4
                == picker@[i].0 % 64,
{
    let entries = picker@;
    let dscp = choose|dscp: u8| #[trigger] selected(entries, dscp) && r->0 == tos_of(dscp);
    let (limit, ticket) = choose|limit: u64, ticket: u64|
        limit == entry_sum(entries) && #[trigger] drawn(limit, ticket) && dscp == entries[owner(
            entries,
            ticket as nat,
        )].0;
    only_the_generator_draws(limit, ticket);
    owner_has_its_share(entries, ticket as nat, 0);
    let i = owner(entries, ticket as nat);
    owner_has_its_share(entries, ticket as nat, i);
    assert(picker@[i].0 == dscp);
}

/// A picker picks from the distribution that it was made of.
pub proof fn picker_has_the_distribution(dist: DscpDist, p: TosPicker)
    requires
        call_ensures(DscpDist::picker, (&dist,), p),
    ensures
        p@ == dist@,
{
}

/// What is drawn below a number comes from the generator, asked for one below that number.
proof fn only_the_generator_draws(limit: u64, ticket: u64)
    ensures
        drawn(limit, ticket) <==> call_ensures(random_below, (limit,), ticket),
        drawn(limit, ticket) ==> ticket < limit,
{
}

/// Every ticket below the sum of all weights leads to the one entry whose weight covers it,
/// and none leads anywhere from the sum on.
pub proof fn tickets_lead_to_what_they_fall_in(dist: DscpDist, ticket: u64, r: Option<u8>, i: int)
    requires
        0 <= i < dist@.len(),
        call_ensures(DscpDist::select_at, (&dist, ticket), r),
    ensures
        entry_sum(dist@.take(i)) <= ticket < entry_sum(dist@.take(i)) + dist@[i].1 ==> r == Some(
            dist@[i].0,
        ),
        r is None <==> ticket >= entry_sum(dist@),
{
    lemma_beginning_of_sum(dist@, i);
    if ticket < entry_sum(dist@) {
        owner_has_its_share(dist@, ticket as nat, i);
    }
}

/// Of all the tickets, as many lead to an entry as its weight says.
pub proof fn each_entry_owns_as_many_tickets_as_it_weighs(dist: DscpDist, i: int)
    requires
        0 <= i < dist@.len(),
    ensures
        ({
            let leading = Set::new(
                |ticket: int| 0 <= ticket < entry_sum(dist@) && owner(dist@, ticket as nat) == i,
            );
            leading.finite() && leading.len() == dist@[i].1
        }),
{
    let entries = dist@;
    let leading = Set::new(
        |ticket: int| 0 <= ticket < entry_sum(entries) && owner(entries, ticket as nat) == i,
    );
    let from = entry_sum(entries.take(i)) as int;
    let to = from + entries[i].1;
    lemma_beginning_of_sum(entries, i);
    assert forall|ticket: int| leading.contains(ticket) == (from <= ticket < to) by {
        if 0 <= ticket < entry_sum(entries) {
            owner_has_its_share(entries, ticket as nat, i);
        }
    }
    assert(leading =~= vstd::set_lib::set_int_range(from, to));
    vstd::set_lib::lemma_int_range(from, to);
}

/// The weights of the first `n` entries are no more than those of all.
proof fn lemma_weight_sum_grows(weights: Seq<DscpWeight>, n: int)
    requires
        0 <= n <= weights.len(),
    ensures
        weight_sum(weights.take(n)) <= weight_sum(weights),
    decreases weights.len() - n,
{
    if n == weights.len() {
        assert(weights.take(n) =~= weights);
    } else {
        assert(weights.take(n + 1).drop_last() =~= weights.take(n));
        lemma_weight_sum_grows(weights, n + 1);
    }
}

/// Each weight is part of the sum.
proof fn lemma_part_of_sum(entries: Seq<(u8, u32)>, i: int)
    requires
        0 <= i < entries.len(),
    ensures
        entries[i].1 <= entry_sum(entries),
    decreases entries.len(),
{
    if i < entries.len() - 1 {
        lemma_part_of_sum(entries.drop_last(), i);
    }
}

/// The weights up to and with entry `i` are no more than all of them.
pub proof fn lemma_beginning_of_sum(entries: Seq<(u8, u32)>, i: int)
    requires
        0 <= i < entries.len(),
    ensures
        entry_sum(entries.take(i)) + entries[i].1 <= entry_sum(entries),
    decreases entries.len() - i,
{
    assert(entries.take(i + 1).drop_last() =~= entries.take(i));
    if i + 1 == entries.len() {
        assert(entries.take(i + 1) =~= entries);
    } else {
        lemma_beginning_of_sum(entries, i + 1);
    }
}

/// Usable entries have a positive sum.
proof fn lemma_sum_positive(entries: Seq<(u8, u32)>)
    requires
        usable(entries),
    ensures
        entry_sum(entries) > 0,
{
    lemma_part_of_sum(entries, 0);
    assert(entries[0].1 > 0);
}

} // verus!
