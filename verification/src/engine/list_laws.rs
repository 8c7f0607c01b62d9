//! What holds of lists of DSCP values: how a list is read.

use crate::engine::dscp::{
    all_weighted, any_weighted, dscp_of, entries_of, entry_of, kept_parts, parse_dscp,
    parse_dscp_weights, tokens_of, weight_of, weight_sum, weighted, weights_of, DscpWeight,
};
use crate::engine::error::{DscpError, ErrorView};
use crate::text::{
    decimal, first_of, is_space, joined, split_at_each, trim_start, trimmed, unsigned,
};
use crate::text_laws::{
    decimal_reads_back, first_place_is_first, lemma_one_part, lemma_split_after,
    lemma_trim_start_before, lemma_trim_start_of_trimmed,
    lemma_trimmed_is_piece, lemma_trimmed_twice, lemma_trimmed_word, splitting_undoes_joining,
    lemma_decimal,
};
use vstd::prelude::*;

verus! {

/// What is kept of two lists of parts is what is kept of each.
proof fn lemma_kept_parts_of_both(p: Seq<Seq<char>>, q: Seq<Seq<char>>)
    ensures
        kept_parts(p + q) == kept_parts(p) + kept_parts(q),
    decreases q.len(),
{
    if q.len() == 0 {
        assert(p + q =~= p);
        assert(kept_parts(p) + kept_parts(q) =~= kept_parts(p));
    } else {
        lemma_kept_parts_of_both(p, q.drop_last());
        assert((p + q).drop_last() =~= p + q.drop_last());
        assert(kept_parts(p + q) =~= kept_parts(p) + kept_parts(q));
    }
}

/// A comma parts a list in two, which are read one after the other.
pub proof fn comma_parts_the_list(a: Seq<char>, b: Seq<char>)
    ensures
        tokens_of(a.push(',') + b) == tokens_of(a) + tokens_of(b),
{
    lemma_split_after(a, ',', b);
    lemma_kept_parts_of_both(split_at_each(a, ','), split_at_each(b, ','));
}

/// What stands between commas is an entry, without the white space around it; where that is
/// all there is, it is none.
pub proof fn text_without_comma_is_one_entry(s: Seq<char>)
    requires
        !s.contains(','),
    ensures
        tokens_of(s) == (if trimmed(s).len() == 0 {
            Seq::empty()
        } else {
            seq![trimmed(s)]
        }),
{
    lemma_one_part(s, ',');
    assert(seq![s].drop_last() =~= Seq::<Seq<char>>::empty());
    reveal_with_fuel(kept_parts, 2);
    assert(tokens_of(s) =~= (if trimmed(s).len() == 0 {
        Seq::empty()
    } else {
        seq![trimmed(s)]
    }));
}

/// The entries are read one by one.
proof fn lemma_entries(tokens: Seq<Seq<char>>, i: int)
    requires
        entries_of(tokens) is Ok,
        0 <= i < tokens.len(),
    ensures
        entries_of(tokens)->Ok_0.len() == tokens.len(),
        entry_of(tokens[i]) == Ok::<(u8, Option<u32>), ErrorView>(entries_of(tokens)->Ok_0[i]),
    decreases tokens.len(),
{
    let front = tokens.drop_last();
    if i < front.len() {
        lemma_entries(front, i);
        assert(front[i] == tokens[i]);
    } else if front.len() > 0 {
        lemma_entries(front, 0);
    }
}

/// Trimming makes no difference to what a specifier stands for.
proof fn lemma_trimmed_value(s: Seq<char>)
    ensures
        dscp_of(trimmed(s)) is Ok <==> dscp_of(s) is Ok,
        dscp_of(s) is Ok ==> dscp_of(trimmed(s)) == dscp_of(s),
{
    lemma_trimmed_twice(s);
}

/// The value of an entry is the one that `parse_dscp` gives for the text up to its colon, or
/// for all of it where it has none; its weight is the number after the colon, or 1 where it
/// has none. Entries come in the order in which they are written.
pub proof fn entries_have_the_values_that_are_written(
    spec: &str,
    r: Result<Vec<DscpWeight>, DscpError>,
    i: int,
    value: &str,
    v: Result<u8, DscpError>,
)
    requires
        call_ensures(parse_dscp_weights, (spec,), r),
        r is Ok,
        0 <= i < tokens_of(spec@).len(),
        call_ensures(parse_dscp, (value,), v),
        !value@.contains(':'),
    ensures
        r->Ok_0@.len() == tokens_of(spec@).len(),
        ({
            let token = tokens_of(spec@)[i];
            let entry = r->Ok_0@[i];
            &&& token == value@ ==> v == Ok::<u8, DscpError>(entry.dscp) && entry.weight == 1
            &&& forall|weight: Seq<char>| #[trigger]
                (value@.push(':') + weight) == token ==> v == Ok::<u8, DscpError>(entry.dscp)
                    && unsigned(trimmed(weight), 10, u32::MAX as nat) == Some(entry.weight as nat)
        }),
{
    let tokens = tokens_of(spec@);
    let token = tokens[i];
    assert(weights_of(spec@) is Ok);
    lemma_entries(tokens, i);
    let entry = entries_of(tokens)->Ok_0[i];
    assert(entry_of(token) == Ok::<(u8, Option<u32>), ErrorView>(entry));
    assert(r->Ok_0@ == weighted(entries_of(tokens)->Ok_0));
    first_place_is_first(token, ':');
    if token == value@ {
        assert forall|j: int| 0 <= j < token.len() implies token[j] != ':' by {
            assert(value@.contains(value@[j]));
        }
        lemma_trimmed_value(token);
    }
    assert forall|weight: Seq<char>| #[trigger] (value@.push(':') + weight) == token implies v == Ok::<
        u8,
        DscpError,
    >(r->Ok_0@[i].dscp) && unsigned(trimmed(weight), 10, u32::MAX as nat) == Some(
        r->Ok_0@[i].weight as nat,
    ) by {
        let colon = value@.len() as int;
        assert(token[colon] == ':');
        assert forall|j: int| 0 <= j < colon implies token[j] != ':' by {
            assert(value@.contains(value@[j]));
        }
        assert(first_of(token, ':') == colon);
        assert(token.take(colon) =~= value@);
        assert(token.skip(colon + 1) =~= weight);
        lemma_trimmed_value(value@);
    }
}

/// What is written for an entry with a weight.
pub open spec fn written_entry(value: Seq<char>, weight: u32) -> Seq<char> {
    value.push(':') + decimal(weight as nat)
}

/// An entry that is written with a weight reads as its value and its weight.
proof fn lemma_written_entry(value: Seq<char>, weight: u32)
    requires
        !value.contains(':'),
        !value.contains(','),
        dscp_of(value) is Ok,
    ensures
        !written_entry(value, weight).contains(','),
        trimmed(written_entry(value, weight)).len() > 0,
        entry_of(trimmed(written_entry(value, weight))) == Ok::<(u8, Option<u32>), ErrorView>(
            (dscp_of(value)->Ok_0, Some(weight)),
        ),
{
    let number = decimal(weight as nat);
    let rest = seq![':'] + number;
    let all = written_entry(value, weight);
    lemma_decimal(weight as nat);
    decimal_reads_back(weight as nat, u32::MAX as nat);
    assert('0' <= number[number.len() - 1] <= '9');
    assert('0' <= number[0] <= '9');
    assert(all =~= value + rest);
    assert forall|j: int| 0 <= j < all.len() implies all[j] != ',' by {
        if j < value.len() {
            assert(value.contains(value[j]));
        } else if j > value.len() {
            assert(all[j] == number[j - value.len() - 1]);
        }
    }
    lemma_trim_start_before(value, rest);
    let start = trim_start(value);
    let token = start + rest;
    assert(token.last() == number[number.len() - 1]);
    assert(trimmed(all) == token);
    lemma_trim_start_of_trimmed(value);
    lemma_part_of_trimmed(value, ':');
    let colon = start.len() as int;
    first_place_is_first(token, ':');
    assert(token[colon] == ':');
    assert forall|j: int| 0 <= j < colon implies token[j] != ':' by {
        assert(token[j] == start[j]);
    }
    assert(first_of(token, ':') == colon);
    assert(token.take(colon) =~= start);
    assert(token.skip(colon + 1) =~= number);
    lemma_trimmed_word(number);
    assert(trimmed(start) == trimmed(value));
    lemma_trimmed_value(value);
}

/// What a text does not hold, the text without leading white space does not hold.
proof fn lemma_part_of_trimmed(s: Seq<char>, c: char)
    requires
        !s.contains(c),
    ensures
        forall|i: int| 0 <= i < trim_start(s).len() ==> trim_start(s)[i] != c,
    decreases s.len(),
{
    if s.len() > 0 && is_space(s[0]) {
        let rest = s.drop_first();
        assert forall|i: int| 0 <= i < rest.len() implies rest[i] != c by {
            assert(s.contains(s[i + 1]));
        }
        lemma_part_of_trimmed(rest, c);
        assert(trim_start(s) == trim_start(rest));
    } else {
        assert(trim_start(s) == s);
        assert forall|i: int| 0 <= i < s.len() implies s[i] != c by {
            assert(s.contains(s[i]));
        }
    }
}

/// What is kept of parts that are not blank is each of them, trimmed.
proof fn lemma_all_kept(parts: Seq<Seq<char>>)
    requires
        forall|i: int| 0 <= i < parts.len() ==> trimmed(#[trigger] parts[i]).len() > 0,
    ensures
        kept_parts(parts).len() == parts.len(),
        forall|i: int|
            0 <= i < parts.len() ==> #[trigger] kept_parts(parts)[i] == trimmed(parts[i]),
    decreases parts.len(),
{
    if parts.len() > 0 {
        let front = parts.drop_last();
        assert forall|i: int| 0 <= i < front.len() implies trimmed(#[trigger] front[i]).len()
            > 0 by {
            assert(front[i] == parts[i]);
        }
        lemma_all_kept(front);
        assert(trimmed(parts[parts.len() - 1]).len() > 0);
        assert forall|i: int| 0 <= i < parts.len() implies #[trigger] kept_parts(parts)[i]
            == trimmed(parts[i]) by {
            if i < front.len() {
                assert(kept_parts(front)[i] == trimmed(front[i]));
            }
        }
    }
}

/// Entries that can be read are read, in their order.
proof fn lemma_all_read(tokens: Seq<Seq<char>>, entries: Seq<(u8, Option<u32>)>)
    requires
        tokens.len() == entries.len(),
        forall|i: int|
            0 <= i < tokens.len() ==> entry_of(#[trigger] tokens[i]) == Ok::<
                (u8, Option<u32>),
                ErrorView,
            >(entries[i]),
    ensures
        entries_of(tokens) == Ok::<Seq<(u8, Option<u32>)>, ErrorView>(entries),
    decreases tokens.len(),
{
    if tokens.len() == 0 {
        assert(entries =~= Seq::empty());
    } else {
        let front = tokens.drop_last();
        assert forall|i: int| 0 <= i < front.len() implies entry_of(#[trigger] front[i]) == Ok::<
            (u8, Option<u32>),
            ErrorView,
        >(entries.drop_last()[i]) by {
            assert(front[i] == tokens[i]);
        }
        lemma_all_read(front, entries.drop_last());
        assert(entry_of(tokens[tokens.len() - 1]) == Ok::<(u8, Option<u32>), ErrorView>(
            entries[entries.len() - 1],
        ));
        assert(entries.drop_last().push(entries.last()) =~= entries);
    }
}

/// The sum of numbers.
pub open spec fn sum_of(numbers: Seq<u32>) -> nat
    decreases numbers.len(),
{
    if numbers.len() == 0 {
        0
    } else {
        sum_of(numbers.drop_last()) + numbers.last() as nat
    }
}

/// The weights of a list add up to the sum of its weights.
proof fn lemma_sum_of_weights(weights: Seq<DscpWeight>, numbers: Seq<u32>)
    requires
        weights.len() == numbers.len(),
        forall|i: int| 0 <= i < weights.len() ==> (#[trigger] weights[i]).weight == numbers[i],
    ensures
        weight_sum(weights) == sum_of(numbers),
    decreases weights.len(),
{
    if weights.len() > 0 {
        let front = weights.drop_last();
        assert forall|i: int| 0 <= i < front.len() implies (#[trigger] front[i]).weight
            == numbers.drop_last()[i] by {
            assert(front[i] == weights[i]);
        }
        lemma_sum_of_weights(front, numbers.drop_last());
        assert(weights[weights.len() - 1].weight == numbers[numbers.len() - 1]);
    }
}

/// A list that is written of values and weights, `value:weight` with commas between, is read
/// as those values with those weights, in that order, where the weights add up to 100; where
/// they do not, it is refused with their sum.
pub proof fn weighted_list_reads_back(
    values: Seq<Seq<char>>,
    weights: Seq<u32>,
    spec: &str,
    r: Result<Vec<DscpWeight>, DscpError>,
)
    requires
        values.len() > 0,
        weights.len() == values.len(),
        forall|i: int|
            0 <= i < values.len() ==> {
                &&& !(#[trigger] values[i]).contains(':')
                &&& !values[i].contains(',')
                &&& dscp_of(values[i]) is Ok
            },
        spec@ == joined(
            Seq::new(values.len(), |i: int| values[i].push(':') + decimal(weights[i] as nat)),
            seq![','],
        ),
        call_ensures(parse_dscp_weights, (spec,), r),
    ensures
        r is Ok <==> sum_of(weights) == 100,
        r is Ok ==> r->Ok_0@.len() == values.len() && forall|i: int|
            0 <= i < values.len() ==> (#[trigger] r->Ok_0@[i]).weight == weights[i]
                && r->Ok_0@[i].dscp == dscp_of(values[i])->Ok_0,
        r is Err ==> r->Err_0@ == ErrorView::WeightSum(sum_of(weights)),
{
    let parts = Seq::new(
        values.len(),
        |i: int| values[i].push(':') + decimal(weights[i] as nat),
    );
    let entries = Seq::new(values.len(), |i: int| (dscp_of(values[i])->Ok_0, Some(weights[i])));
    assert forall|i: int| 0 <= i < parts.len() implies !(#[trigger] parts[i]).contains(',')
        && trimmed(parts[i]).len() > 0 && entry_of(trimmed(parts[i])) == Ok::<
        (u8, Option<u32>),
        ErrorView,
    >(entries[i]) by {
        assert(!values[i].contains(':'));
        lemma_written_entry(values[i], weights[i]);
    }
    splitting_undoes_joining(parts, ',');
    lemma_all_kept(parts);
    let tokens = tokens_of(spec@);
    assert forall|i: int| 0 <= i < tokens.len() implies entry_of(#[trigger] tokens[i]) == Ok::<
        (u8, Option<u32>),
        ErrorView,
    >(entries[i]) by {
        assert(tokens[i] == trimmed(parts[i]));
    }
    lemma_all_read(tokens, entries);
    let read = weighted(entries);
    assert forall|i: int| 0 <= i < read.len() implies (#[trigger] read[i]).weight == weights[i]
        && read[i].dscp == dscp_of(values[i])->Ok_0 by {
        assert(entries[i].1 == Some(weights[i]));
        assert(read[i] == (DscpWeight { dscp: entries[i].0, weight: weight_of(entries[i]) }));
    }
    lemma_sum_of_weights(read, weights);
    assert(all_weighted(entries));
}

/// A list that is written of values alone, with commas between, is read as those values, in
/// that order and with equal weights.
pub proof fn plain_list_reads_back(
    values: Seq<Seq<char>>,
    spec: &str,
    r: Result<Vec<DscpWeight>, DscpError>,
)
    requires
        values.len() > 0,
        forall|i: int|
            0 <= i < values.len() ==> {
                &&& !(#[trigger] values[i]).contains(':')
                &&& !values[i].contains(',')
                &&& trimmed(values[i]).len() > 0
                &&& dscp_of(values[i]) is Ok
            },
        spec@ == joined(values, seq![',']),
        call_ensures(parse_dscp_weights, (spec,), r),
    ensures
        r is Ok,
        r->Ok_0@.len() == values.len(),
        forall|i: int|
            0 <= i < values.len() ==> (#[trigger] r->Ok_0@[i]).weight == 1 && r->Ok_0@[i].dscp
                == dscp_of(values[i])->Ok_0,
{
    let entries = Seq::new(values.len(), |i: int| (dscp_of(values[i])->Ok_0, None::<u32>));
    splitting_undoes_joining(values, ',');
    lemma_all_kept(values);
    let tokens = tokens_of(spec@);
    assert forall|i: int| 0 <= i < tokens.len() implies entry_of(#[trigger] tokens[i]) == Ok::<
        (u8, Option<u32>),
        ErrorView,
    >(entries[i]) by {
        let value = values[i];
        assert(tokens[i] == trimmed(value));
        assert(!value.contains(':'));
        assert forall|j: int| 0 <= j < value.len() implies value[j] != ':' by {
            assert(value.contains(value[j]));
        }
        lemma_trimmed_is_piece(value, ':');
        first_place_is_first(tokens[i], ':');
        lemma_trimmed_value(value);
        lemma_trimmed_twice(value);
    }
    lemma_all_read(tokens, entries);
    let read = weighted(entries);
    assert forall|i: int| 0 <= i < read.len() implies (#[trigger] read[i]).weight == 1
        && read[i].dscp == dscp_of(values[i])->Ok_0 by {
        assert(entries[i].1 is None);
        assert(read[i] == (DscpWeight { dscp: entries[i].0, weight: weight_of(entries[i]) }));
    }
    assert(entries[0].1 is None);
    assert(!all_weighted(entries));
    assert(!any_weighted(entries));
}

/// A list that is refused for one of its entries is refused for the first that has an error,
/// with that error.
pub proof fn first_wrong_entry_is_refused(tokens: Seq<Seq<char>>)
    requires
        entries_of(tokens) is Err,
    ensures
        exists|i: int|
            0 <= i < tokens.len() && entry_of(#[trigger] tokens[i]) == Err::<
                (u8, Option<u32>),
                ErrorView,
            >(entries_of(tokens)->Err_0) && forall|j: int|
                0 <= j < i ==> entry_of(#[trigger] tokens[j]) is Ok,
    decreases tokens.len(),
{
    let front = tokens.drop_last();
    if entries_of(front) is Err {
        first_wrong_entry_is_refused(front);
        let i = choose|i: int|
            0 <= i < front.len() && entry_of(#[trigger] front[i]) == Err::<
                (u8, Option<u32>),
                ErrorView,
            >(entries_of(front)->Err_0) && forall|j: int|
                0 <= j < i ==> entry_of(#[trigger] front[j]) is Ok;
        assert(tokens[i] == front[i]);
        assert forall|j: int| 0 <= j < i implies entry_of(#[trigger] tokens[j]) is Ok by {
            assert(front[j] == tokens[j]);
        }
    } else {
        let last = tokens.len() - 1;
        assert(entry_of(tokens[last]) is Err);
        assert forall|j: int| 0 <= j < last implies entry_of(#[trigger] tokens[j]) is Ok by {
            lemma_entries(front, j);
            assert(front[j] == tokens[j]);
        }
    }
}

/// An entry whose weight is no number that 32 bits hold is refused with that weight and the
/// entry, whatever its value is; one with a good weight is refused for its value alone.
pub proof fn weight_is_looked_at_first(value: Seq<char>, weight: Seq<char>)
    requires
        !value.contains(':'),
    ensures
        ({
            let token = value.push(':') + weight;
            let n = unsigned(trimmed(weight), 10, u32::MAX as nat);
            &&& n is None ==> entry_of(token) == Err::<(u8, Option<u32>), ErrorView>(
                (ErrorView::InvalidWeight { weight: trimmed(weight), entry: token }),
            )
            &&& n is Some && dscp_of(trimmed(value)) is Err ==> entry_of(token) == Err::<
                (u8, Option<u32>),
                ErrorView,
            >(dscp_of(trimmed(value))->Err_0)
            &&& n is Some && dscp_of(trimmed(value)) is Ok ==> entry_of(token) == Ok::<
                (u8, Option<u32>),
                ErrorView,
            >((dscp_of(trimmed(value))->Ok_0, Some(n->0 as u32)))
        }),
{
    let token = value.push(':') + weight;
    let colon = value.len() as int;
    first_place_is_first(token, ':');
    assert(token[colon] == ':');
    assert forall|j: int| 0 <= j < colon implies token[j] != ':' by {
        assert(value.contains(value[j]));
    }
    assert(first_of(token, ':') == colon);
    assert(token.take(colon) =~= value);
    assert(token.skip(colon + 1) =~= weight);
}

/// A list without any entry is refused as empty, and no other one is; one whose entries can be
/// read is refused only for its weights: where some have one and some have none, or where
/// all have one and they do not add up to 100.
pub proof fn lists_are_refused_for_a_reason(spec: &str, r: Result<Vec<DscpWeight>, DscpError>)
    requires
        call_ensures(parse_dscp_weights, (spec,), r),
    ensures
        tokens_of(spec@).len() == 0 <==> r == Err::<Vec<DscpWeight>, DscpError>(DscpError::Empty),
        tokens_of(spec@).len() > 0 && entries_of(tokens_of(spec@)) is Err ==> r is Err
            && r->Err_0@ == entries_of(tokens_of(spec@))->Err_0,
        ({
            let entries = entries_of(tokens_of(spec@))->Ok_0;
            let some = exists|i: int| 0 <= i < entries.len() && (#[trigger] entries[i]).1 is Some;
            let none = exists|i: int| 0 <= i < entries.len() && (#[trigger] entries[i]).1 is None;
            tokens_of(spec@).len() > 0 && entries_of(tokens_of(spec@)) is Ok ==> {
                &&& some && none ==> r == Err::<Vec<DscpWeight>, DscpError>(DscpError::MixedWeights)
                &&& !some ==> r is Ok
                &&& !none ==> (r is Ok <==> weight_sum(weighted(entries)) == 100)
            }
        }),
{
    let tokens = tokens_of(spec@);
    assert(crate::engine::dscp::list_outcome(r) == weights_of(spec@));
    if tokens.len() > 0 && entries_of(tokens) is Err {
        first_wrong_entry_is_refused(tokens);
    }
    if tokens.len() > 0 && entries_of(tokens) is Ok {
        lemma_entries(tokens, 0);
        let entries = entries_of(tokens)->Ok_0;
        assert(entries.len() > 0);
        assert(entries[0].1 is Some || entries[0].1 is None);
        assert(all_weighted(entries) == !(exists|i: int|
            0 <= i < entries.len() && (#[trigger] entries[i]).1 is None));
    }
}

} // verus!
