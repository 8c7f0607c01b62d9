//! What holds of DSCP specifiers and distributions as a whole.

use crate::binary64::{percent, percent_is_nearest, percent_of_hundred};
use crate::engine::dist::{
    drawable, entry_sum, lemma_beginning_of_sum, owner, owner_has_its_share, pickable, selectable,
    usable,
};
use crate::engine::dscp::{
    all_weighted, class_name, dscp_of, entries_of, keyword, tokens_of, tos_of, weight_sum,
    weights_of, DscpWeight,
};
use crate::engine::error::ErrorView;
use crate::text::{decimal, lowered, trimmed};
use crate::text_laws::{lemma_decimal, lemma_trimmed_word};
use vstd::prelude::*;

verus! {

/// Every accepted specifier stands for a 6-bit value.
pub proof fn accepted_values_have_six_bits(s: Seq<char>)
    ensures
        dscp_of(s) is Ok ==> dscp_of(s)->Ok_0 < 64,
{
}

/// The case of a specifier and the white space around it make no difference to the value
/// it stands for.
pub proof fn case_and_white_space_are_ignored(s: Seq<char>, t: Seq<char>)
    requires
        lowered(trimmed(s)) == lowered(trimmed(t)),
    ensures
        dscp_of(s) is Ok <==> dscp_of(t) is Ok,
        dscp_of(s) is Ok ==> dscp_of(s) == dscp_of(t),
{
}

/// The DSCP value is what the TOS byte holds above two zero bits.
pub proof fn tos_byte_holds_the_value(dscp: u8)
    ensures
        tos_of(dscp) / 4 == dscp % 64,
        tos_of(dscp) % 4 == 0,
        tos_of(dscp) < 256,
{
}

/// The class name of a value, read back, is the value's low 6 bits.
#[verifier::rlimit(60)]
#[verifier::spinoff_prover]
pub proof fn class_name_reads_back(dscp: u8)
    requires
        class_name(dscp) is Some,
    ensures
        dscp_of(class_name(dscp)->0) == Ok::<u8, ErrorView>(
            (dscp % 64) as u8,
        ),
{
    let name = class_name(dscp)->0;
    let low = dscp as nat % 64;
    reveal_strlit("CS0");
    reveal_strlit("CS1");
    reveal_strlit("CS2");
    reveal_strlit("CS3");
    reveal_strlit("CS4");
    reveal_strlit("CS5");
    reveal_strlit("CS6");
    reveal_strlit("CS7");
    reveal_strlit("AF11");
    reveal_strlit("AF12");
    reveal_strlit("AF13");
    reveal_strlit("AF21");
    reveal_strlit("AF22");
    reveal_strlit("AF23");
    reveal_strlit("AF31");
    reveal_strlit("AF32");
    reveal_strlit("AF33");
    reveal_strlit("AF41");
    reveal_strlit("AF42");
    reveal_strlit("AF43");
    reveal_strlit("VA");
    reveal_strlit("EF");
    reveal_strlit("LE");
    reveal_strlit("cs0");
    reveal_strlit("cs1");
    reveal_strlit("cs2");
    reveal_strlit("cs3");
    reveal_strlit("cs4");
    reveal_strlit("cs5");
    reveal_strlit("cs6");
    reveal_strlit("cs7");
    reveal_strlit("af11");
    reveal_strlit("af12");
    reveal_strlit("af13");
    reveal_strlit("af21");
    reveal_strlit("af22");
    reveal_strlit("af23");
    reveal_strlit("af31");
    reveal_strlit("af32");
    reveal_strlit("af33");
    reveal_strlit("af41");
    reveal_strlit("af42");
    reveal_strlit("af43");
    reveal_strlit("be");
    reveal_strlit("default");
    reveal_strlit("le");
    reveal_strlit("va");
    reveal_strlit("ef");
    reveal_strlit("voice-admit");
    lemma_trimmed_word(name);
    let t = lowered(name);
    if low == 0 {
        assert(t =~= "cs0"@);
    } else if low == 1 {
        assert(t =~= "le"@);
    } else if low == 8 {
        assert(t =~= "cs1"@);
    } else if low == 16 {
        assert(t =~= "cs2"@);
    } else if low == 24 {
        assert(t =~= "cs3"@);
    } else if low == 32 {
        assert(t =~= "cs4"@);
    } else if low == 40 {
        assert(t =~= "cs5"@);
    } else if low == 48 {
        assert(t =~= "cs6"@);
    } else if low == 56 {
        assert(t =~= "cs7"@);
    } else if low == 10 {
        assert(t =~= "af11"@);
    } else if low == 12 {
        assert(t =~= "af12"@);
    } else if low == 14 {
        assert(t =~= "af13"@);
    } else if low == 18 {
        assert(t =~= "af21"@);
    } else if low == 20 {
        assert(t =~= "af22"@);
    } else if low == 22 {
        assert(t =~= "af23"@);
    } else if low == 26 {
        assert(t =~= "af31"@);
    } else if low == 28 {
        assert(t =~= "af32"@);
    } else if low == 30 {
        assert(t =~= "af33"@);
    } else if low == 34 {
        assert(t =~= "af41"@);
    } else if low == 36 {
        assert(t =~= "af42"@);
    } else if low == 38 {
        assert(t =~= "af43"@);
    } else if low == 44 {
        assert(t =~= "va"@);
    } else {
        assert(t =~= "ef"@);
    }
}

/// A word that begins with a digit is no keyword.
pub proof fn lemma_digit_is_no_keyword(t: Seq<char>)
    requires
        t.len() > 0,
        '0' <= t[0] <= '9',
    ensures
        keyword(t) is None,
{
    reveal_strlit("cs0");
    reveal_strlit("cs1");
    reveal_strlit("cs2");
    reveal_strlit("cs3");
    reveal_strlit("cs4");
    reveal_strlit("cs5");
    reveal_strlit("cs6");
    reveal_strlit("cs7");
    reveal_strlit("af11");
    reveal_strlit("af12");
    reveal_strlit("af13");
    reveal_strlit("af21");
    reveal_strlit("af22");
    reveal_strlit("af23");
    reveal_strlit("af31");
    reveal_strlit("af32");
    reveal_strlit("af33");
    reveal_strlit("af41");
    reveal_strlit("af42");
    reveal_strlit("af43");
    reveal_strlit("be");
    reveal_strlit("default");
    reveal_strlit("le");
    reveal_strlit("va");
    reveal_strlit("ef");
    reveal_strlit("voice-admit");
}

/// A number up to 63 in decimal stands for itself; a greater one that 16 bits hold is out
/// of range.
pub proof fn decimal_numbers_stand_for_themselves(n: nat)
    requires
        n <= 0xffff,
    ensures
        n <= 63 ==> dscp_of(decimal(n)) == Ok::<u8, ErrorView>(n as u8),
        n > 63 ==> dscp_of(decimal(n)) == Err::<u8, ErrorView>(ErrorView::OutOfRange(n)),
{
    let s = decimal(n);
    lemma_decimal(n);
    assert('0' <= s[0] <= '9');
    assert('0' <= s[s.len() - 1] <= '9');
    lemma_trimmed_word(s);
    assert(lowered(s) =~= s);
    lemma_digit_is_no_keyword(s);
    if s.len() >= 2 {
        assert('0' <= s[1] <= '9');
    }
}

/// What `select` may return is the value of one of the entries.
pub proof fn selection_is_a_member(entries: Seq<(u8, u32)>, dscp: u8)
    requires
        selectable(entries, dscp),
    ensures
        exists|i: int| 0 <= i < entries.len() && (#[trigger] entries[i]).0 == dscp,
{
    let ticket = choose|ticket: nat|
        ticket < entry_sum(entries) && dscp == entries[#[trigger] owner(entries, ticket)].0;
    if entries.len() > 0 {
        owner_has_its_share(entries, ticket, 0);
        assert(entries[owner(entries, ticket)].0 == dscp);
    }
}

/// Every entry with a positive weight can be selected.
pub proof fn every_member_can_be_selected(entries: Seq<(u8, u32)>, i: int)
    requires
        usable(entries),
        0 <= i < entries.len(),
    ensures
        selectable(entries, entries[i].0),
{
    let ticket = entry_sum(entries.take(i));
    assert(entries[i].1 > 0);
    lemma_beginning_of_sum(entries, i);
    owner_has_its_share(entries, ticket, i);
    assert(owner(entries, ticket) == i);
}

/// With a single entry, that one is selected.
pub proof fn single_entry_is_always_selected(entries: Seq<(u8, u32)>, dscp: u8)
    requires
        entries.len() == 1,
        selectable(entries, dscp),
    ensures
        dscp == entries[0].0,
{
    selection_is_a_member(entries, dscp);
}

/// What can be drawn is what was given with a positive weight.
proof fn lemma_drawn_was_given(weights: Seq<DscpWeight>, j: int)
    requires
        0 <= j < drawable(weights).len(),
    ensures
        exists|i: int|
            0 <= i < weights.len() && (#[trigger] weights[i]).weight > 0 && (weights[i].dscp,
                weights[i].weight) == drawable(weights)[j],
    decreases weights.len(),
{
    if weights.len() > 0 {
        let rest = weights.drop_last();
        let last = weights[weights.len() - 1];
        if j < drawable(rest).len() {
            lemma_drawn_was_given(rest, j);
            let i = choose|i: int|
                0 <= i < rest.len() && (#[trigger] rest[i]).weight > 0 && (rest[i].dscp,
                    rest[i].weight) == drawable(rest)[j];
            assert(weights[i] == rest[i]);
        } else {
            assert(last.weight > 0);
        }
    }
}

/// Every TOS byte that a picker may return is that of a value which was given with a
/// positive weight, and leaves the two lowest bits zero.
pub proof fn picked_bytes_were_given(weights: Seq<DscpWeight>, tos: u32)
    requires
        pickable(drawable(weights), tos),
    ensures
        exists|i: int|
            0 <= i < weights.len() && (#[trigger] weights[i]).weight > 0 && tos == tos_of(
                weights[i].dscp,
            ),
        tos % 4 == 0,
        tos <= 0xfc,
{
    let entries = drawable(weights);
    let dscp = choose|dscp: u8| #[trigger] selectable(entries, dscp) && tos == tos_of(dscp);
    selection_is_a_member(entries, dscp);
    let j = choose|j: int| 0 <= j < entries.len() && (#[trigger] entries[j]).0 == dscp;
    lemma_drawn_was_given(weights, j);
}

/// With a single entry, a picker always returns its TOS byte.
pub proof fn single_entry_is_always_picked(entries: Seq<(u8, u32)>, tos: u32)
    requires
        entries.len() == 1,
        pickable(entries, tos),
    ensures
        tos == tos_of(entries[0].0),
{
    let dscp = choose|dscp: u8| #[trigger] selectable(entries, dscp) && tos == tos_of(dscp);
    single_entry_is_always_selected(entries, dscp);
}

/// The drawable entries have positive weights, and are as heavy as all the weights.
pub proof fn drawable_entries_keep_the_sum(weights: Seq<DscpWeight>)
    ensures
        entry_sum(drawable(weights)) == weight_sum(weights),
        forall|i: int|
            0 <= i < drawable(weights).len() ==> (#[trigger] drawable(weights)[i]).1 > 0,
        drawable(weights).len() > 0 <==> weight_sum(weights) > 0,
    decreases weights.len(),
{
    if weights.len() > 0 {
        drawable_entries_keep_the_sum(weights.drop_last());
        let before = drawable(weights.drop_last());
        if weights.last().weight > 0 {
            assert(drawable(weights).drop_last() =~= before);
        }
    }
}

/// The sum of weights that are all 1 is their number.
proof fn lemma_unit_weights(weights: Seq<DscpWeight>)
    requires
        forall|i: int| 0 <= i < weights.len() ==> (#[trigger] weights[i]).weight == 1,
    ensures
        weight_sum(weights) == weights.len(),
    decreases weights.len(),
{
    if weights.len() > 0 {
        let before = weights.drop_last();
        assert forall|i: int| 0 <= i < before.len() implies (#[trigger] before[i]).weight == 1 by {
            assert(before[i] == weights[i]);
        }
        lemma_unit_weights(before);
    }
}

/// As many entries are parsed as there are.
proof fn lemma_entry_count(tokens: Seq<Seq<char>>)
    ensures
        entries_of(tokens) is Ok ==> entries_of(tokens)->Ok_0.len() == tokens.len(),
        entries_of(tokens) is Ok ==> forall|i: int|
            0 <= i < tokens.len() ==> (#[trigger] entries_of(tokens)->Ok_0[i]).0 < 64,
    decreases tokens.len(),
{
    if tokens.len() > 0 {
        lemma_entry_count(tokens.drop_last());
        if entries_of(tokens) is Ok {
            let before = entries_of(tokens.drop_last())->Ok_0;
            let now = entries_of(tokens)->Ok_0;
            assert forall|i: int| 0 <= i < tokens.len() implies (#[trigger] now[i]).0 < 64 by {
                if i < tokens.len() - 1 {
                    assert(now[i] == before[i]);
                }
            }
        }
    }
}

/// An accepted list of weights has an entry, and adds up to 100 or gives each entry the
/// weight 1; its values have 6 bits. So a distribution can always be built from it.
pub proof fn accepted_weights_make_a_distribution(spec: Seq<char>)
    requires
        weights_of(spec) is Ok,
    ensures
        ({
            let weights = weights_of(spec)->Ok_0;
            &&& weights.len() > 0
            &&& weights.len() == tokens_of(spec).len()
            &&& weight_sum(weights) == 100 || weight_sum(weights) == weights.len()
            &&& usable(drawable(weights))
            &&& forall|i: int| 0 <= i < weights.len() ==> (#[trigger] weights[i]).dscp < 64
        }),
{
    let entries = entries_of(tokens_of(spec))->Ok_0;
    let weights = weights_of(spec)->Ok_0;
    lemma_entry_count(tokens_of(spec));
    drawable_entries_keep_the_sum(weights);
    if !all_weighted(entries) {
        assert forall|i: int| 0 <= i < weights.len() implies (#[trigger] weights[i]).weight
            == 1 by {
            assert(entries[i].1 is None);
        }
        lemma_unit_weights(weights);
    }
}

/// Each accepted entry has its own value and the weight that was given; where none was
/// given, all entries weigh the same.
pub proof fn weights_are_those_given(spec: Seq<char>, i: int)
    requires
        weights_of(spec) is Ok,
        0 <= i < weights_of(spec)->Ok_0.len(),
    ensures
        entries_of(tokens_of(spec)) is Ok,
        ({
            let entry = entries_of(tokens_of(spec))->Ok_0[i];
            let w = weights_of(spec)->Ok_0[i];
            &&& w.dscp == entry.0
            &&& entry.1 is Some ==> w.weight == entry.1->0
            &&& entry.1 is None ==> w.weight == 1
        }),
{
    lemma_entry_count(tokens_of(spec));
}

/// Explicit weights are percentages: in a distribution whose weights add up to 100, the
/// share that is shown for an entry is its weight.
pub proof fn explicit_weights_are_percentages(entries: Seq<(u8, u32)>, i: int)
    requires
        usable(entries),
        entry_sum(entries) == 100,
        0 <= i < entries.len(),
    ensures
        percent(entries[i].1 as nat, entry_sum(entries)) == entries[i].1,
{
    lemma_beginning_of_sum(entries, i);
    assert(entries[i].1 > 0);
    percent_of_hundred(entries[i].1 as nat);
}

/// The share that is shown for an entry is a whole number nearest to its true share,
/// `100 * weight / total`; at a tie it is one of the two that are equally near.
pub proof fn shown_shares_are_nearest(entries: Seq<(u8, u32)>, i: int)
    requires
        usable(entries),
        0 <= i < entries.len(),
    ensures
        ({
            let total = entry_sum(entries);
            let shown = percent(entries[i].1 as nat, total) * total;
            &&& 2 * shown <= 200 * entries[i].1 + total
            &&& 200 * entries[i].1 <= 2 * shown + total
        }),
{
    let weight = entries[i].1;
    let total = entry_sum(entries);
    let share = percent(weight as nat, total);
    lemma_beginning_of_sum(entries, i);
    assert(weight > 0);
    percent_is_nearest(weight as nat, total);
    if total >= 0x800_0000_0000 {
        if share > 0 {
            assert(share * total >= total) by (nonlinear_arith)
                requires
                    share > 0,
            ;
        }
        assert(share * total == 0) by (nonlinear_arith)
            requires
                share == 0,
        ;
    }
}

/// Weights either stand at every entry or at none: a list with both is rejected, whatever
/// the weights are.
pub proof fn mixed_weights_are_rejected(spec: Seq<char>, i: int, j: int)
    requires
        entries_of(tokens_of(spec)) is Ok,
        0 <= i < tokens_of(spec).len(),
        0 <= j < tokens_of(spec).len(),
        entries_of(tokens_of(spec))->Ok_0[i].1 is Some,
        entries_of(tokens_of(spec))->Ok_0[j].1 is None,
    ensures
        weights_of(spec) == Err::<Seq<DscpWeight>, ErrorView>(ErrorView::MixedWeights),
{
    lemma_entry_count(tokens_of(spec));
}

} // verus!
