//! What holds of single DSCP values, of how they are shown and of how sockets are marked.

use crate::binary64::percent;
use crate::engine::dist::{
    dist_text, drawable, entry_sum, share_text, usable, DscpDist,
};
use crate::engine::dscp::{
    class_name, describe_dscp, description, dscp_name, dscp_of, keyword, parse_dscp, tos_byte,
    tos_of, DscpWeight,
};
use crate::engine::error::{DscpError, ErrorView};
use crate::engine::laws::{
    class_name_reads_back, lemma_digit_is_no_keyword, shown_shares_are_nearest,
};
use crate::engine::marking::{apply, option_of, OptionError, TosOption};
use crate::text::{
    all_digits, decimal, digit_char, hex_byte, joined, lowered, number, trimmed,
};
use crate::text_laws::lemma_trimmed_word;
use vstd::prelude::*;

verus! {

/// The class selectors `cs0` to `cs7` are the multiples of 8, and `af` with a class from 1 to
/// 4 and a drop precedence from 1 to 3 is 8 for each class and 2 for each precedence.
#[verifier::rlimit(40)]
#[verifier::spinoff_prover]
pub proof fn classes_follow_their_scheme(class: nat, drop: nat)
    ensures
        class <= 7 ==> dscp_of(seq!['c', 's', digit_char(class)]) == Ok::<u8, ErrorView>(
            (8 * class) as u8,
        ),
        1 <= class <= 4 && 1 <= drop <= 3 ==> dscp_of(
            seq!['a', 'f', digit_char(class), digit_char(drop)],
        ) == Ok::<u8, ErrorView>((8 * class + 2 * drop) as u8),
{
    reveal_strlit("cs0");
    reveal_strlit("cs1");
    reveal_strlit("cs2");
    reveal_strlit("cs3");
    reveal_strlit("cs4");
    reveal_strlit("cs5");
    reveal_strlit("cs6");
    reveal_strlit("cs7");
    reveal_strlit("af11");
    reveal_strlit("af12");
    reveal_strlit("af13");
    reveal_strlit("af21");
    reveal_strlit("af22");
    reveal_strlit("af23");
    reveal_strlit("af31");
    reveal_strlit("af32");
    reveal_strlit("af33");
    reveal_strlit("af41");
    reveal_strlit("af42");
    reveal_strlit("af43");
    reveal_strlit("be");
    reveal_strlit("default");
    reveal_strlit("le");
    let cs = seq!['c', 's', digit_char(class)];
    let af = seq!['a', 'f', digit_char(class), digit_char(drop)];
    if class <= 7 {
        lemma_trimmed_word(cs);
        assert(lowered(cs) =~= cs);
        if class == 0 {
            assert(cs =~= "cs0"@);
        } else if class == 1 {
            assert(cs =~= "cs1"@);
        } else if class == 2 {
            assert(cs =~= "cs2"@);
        } else if class == 3 {
            assert(cs =~= "cs3"@);
        } else if class == 4 {
            assert(cs =~= "cs4"@);
        } else if class == 5 {
            assert(cs =~= "cs5"@);
        } else if class == 6 {
            assert(cs =~= "cs6"@);
        } else {
            assert(cs =~= "cs7"@);
        }
    }
    if 1 <= class <= 4 && 1 <= drop <= 3 {
        lemma_trimmed_word(af);
        assert(lowered(af) =~= af);
        if class == 1 {
            assert(af =~= "af11"@ || af =~= "af12"@ || af =~= "af13"@);
        } else if class == 2 {
            assert(af =~= "af21"@ || af =~= "af22"@ || af =~= "af23"@);
        } else if class == 3 {
            assert(af =~= "af31"@ || af =~= "af32"@ || af =~= "af33"@);
        } else {
            assert(af =~= "af41"@ || af =~= "af42"@ || af =~= "af43"@);
        }
    }
}

/// The names of the default class, of the expedited and the lower effort, and of voice
/// admission stand for the same in any case and with any white space around them.
pub proof fn other_names_stand_for_their_class(s: Seq<char>)
    ensures
        ({
            let word = lowered(trimmed(s));
            &&& word == "be"@ || word == "default"@ ==> dscp_of(s) == Ok::<u8, ErrorView>(0)
            &&& word == "le"@ ==> dscp_of(s) == Ok::<u8, ErrorView>(1)
            &&& word == "va"@ || word == "voice-admit"@ ==> dscp_of(s) == Ok::<u8, ErrorView>(44)
            &&& word == "ef"@ ==> dscp_of(s) == Ok::<u8, ErrorView>(46)
        }),
{
    reveal_strlit("cs0");
    reveal_strlit("cs1");
    reveal_strlit("cs2");
    reveal_strlit("cs3");
    reveal_strlit("cs4");
    reveal_strlit("cs5");
    reveal_strlit("cs6");
    reveal_strlit("cs7");
    reveal_strlit("af11");
    reveal_strlit("af12");
    reveal_strlit("af13");
    reveal_strlit("af21");
    reveal_strlit("af22");
    reveal_strlit("af23");
    reveal_strlit("af31");
    reveal_strlit("af32");
    reveal_strlit("af33");
    reveal_strlit("af41");
    reveal_strlit("af42");
    reveal_strlit("af43");
    reveal_strlit("be");
    reveal_strlit("default");
    reveal_strlit("le");
    reveal_strlit("va");
    reveal_strlit("ef");
    reveal_strlit("voice-admit");
}

/// A word that is no number is accepted only where it stands for a class that has a name.
pub proof fn words_stand_for_named_classes(s: Seq<char>)
    requires
        dscp_of(s) is Ok,
        ({
            let word = lowered(trimmed(s));
            word.len() > 0 && !('0' <= word[0] <= '9') && word[0] != '+'
        }),
    ensures
        class_name(dscp_of(s)->Ok_0) is Some,
{
    let word = lowered(trimmed(s));
    if keyword(word) is None {
        assert(crate::text::digit_value(word[0]) >= 10);
    }
}

/// A byte in hexadecimal after `0x` stands for itself up to 63; a greater one is out of range.
/// The `X` may be a capital.
pub proof fn hexadecimal_bytes_stand_for_themselves(n: nat, x: char)
    requires
        n < 256,
        x == 'x' || x == 'X',
    ensures
        n <= 63 ==> dscp_of(seq!['0', x] + hex_byte(n)) == Ok::<u8, ErrorView>(n as u8),
        n > 63 ==> dscp_of(seq!['0', x] + hex_byte(n)) == Err::<u8, ErrorView>(
            ErrorView::OutOfRange(n),
        ),
{
    let s = seq!['0', x] + hex_byte(n);
    let t = lowered(s);
    lemma_trimmed_word(s);
    lemma_digit_is_no_keyword(t);
    let digits = t.skip(2);
    assert(digits =~= lowered(hex_byte(n)));
    assert(digits.len() == 2);
    assert(digits.drop_last().drop_last() =~= Seq::empty());
    assert(number(digits.drop_last().drop_last(), 16) == 0);
    assert(number(digits.drop_last(), 16) == n / 16);
    assert(number(digits, 16) == n);
    assert(all_digits(digits, 16));
}

/// What is not accepted is refused with the number that is too great, or with the specifier
/// as it was given; a keyword is never refused.
pub proof fn refusals_say_what_was_given(s: &str, r: Result<u8, DscpError>)
    requires
        call_ensures(parse_dscp, (s,), r),
    ensures
        r is Ok ==> r->Ok_0 <= 63,
        r is Err ==> keyword(lowered(trimmed(s@))) is None,
        match r {
            Err(DscpError::OutOfRange(n)) => n > 63,
            Err(DscpError::InvalidValue(given)) => given@ == s@,
            Err(_) => false,
            Ok(_) => true,
        },
{
    assert(crate::engine::dscp::outcome(r) == dscp_of(s@));
}

/// The byte that goes out holds the value's low 6 bits above two zero bits.
pub proof fn byte_holds_the_value(dscp: u8, r: u32)
    requires
        call_ensures(tos_byte, (dscp,), r),
    ensures
        r < 256,
        r % 4 == 0,
        r / 4 == dscp % 64,
{
}

/// The name of a value stands for its low 6 bits.
pub proof fn name_stands_for_the_value(
    dscp: u8,
    name: &'static str,
    r: Result<u8, DscpError>,
)
    requires
        call_ensures(dscp_name, (dscp,), Some(name)),
        call_ensures(parse_dscp, (name,), r),
    ensures
        r == Ok::<u8, DscpError>((dscp % 64) as u8),
{
    assert(class_name(dscp) == Some(name@));
    class_name_reads_back(dscp);
    assert(crate::engine::dscp::outcome(r) == dscp_of(name@));
}

/// What is wrong is told with what was given: the value, the number, the weight with its
/// entry, the sum, or the option with the cause.
pub proof fn errors_tell_what_was_given(e: DscpError, r: String)
    requires
        call_ensures(DscpError::to_string, (&e,), r),
    ensures
        match e {
            DscpError::InvalidValue(s) => r@ == "invalid DSCP value '"@ + s@
                + "': expected a keyword (e.g. ef, cs5, af41) or a number 0-63"@,
            DscpError::OutOfRange(n) => r@ == "DSCP value "@ + decimal(n as nat)
                + " out of range (must be 0-63)"@,
            DscpError::Empty => r@ == "empty --dscp value"@,
            DscpError::InvalidWeight { weight, entry } => r@ == "invalid DSCP weight '"@ + weight@
                + "' in '"@ + entry@ + "': expected a non-negative integer"@,
            DscpError::MixedWeights => r@
                == "give a weight for every DSCP (e.g. ef:60,cs1:40) or for none (equal split)"@,
            DscpError::WeightSum(n) => r@ == "--dscp weights must sum to 100, got "@ + decimal(
                n as nat,
            ),
            DscpError::SetOption { option, cause } => r@ == "failed to set DSCP via "@ + option@
                + ": "@ + cause@,
            DscpError::Unsupported => r@ == "DSCP marking is not supported on this platform"@,
        },
{
}

/// A value is shown with its class name where it has one, with its number in decimal, and
/// with the byte that goes out, which is the value's low 6 bits above two zero bits, in two
/// hexadecimal digits.
pub proof fn value_is_shown_with_its_byte(dscp: u8, r: String)
    requires
        call_ensures(describe_dscp, (dscp,), r),
    ensures
        ({
            let byte = 4 * (dscp as nat % 64);
            let shown = seq![digit_char(byte / 16), digit_char(byte % 16)];
            match class_name(dscp) {
                Some(name) => r@ == name + " (DSCP "@ + decimal(dscp as nat) + ", 0x"@ + shown
                    + ")"@,
                None => r@ == "DSCP "@ + decimal(dscp as nat) + " (0x"@ + shown + ")"@,
            }
        }),
{
}

/// A distribution is shown entry by entry in its order, each with its value and a whole
/// percentage nearest to the share that its weight has of all weights.
pub proof fn distribution_is_shown_in_order(dist: DscpDist, r: String)
    requires
        usable(dist@),
        call_ensures(DscpDist::describe, (&dist,), r),
    ensures
        exists|shares: Seq<nat>| #[trigger]
            shares.len() == dist@.len() && r@ == joined(
                Seq::new(
                    dist@.len(),
                    |i: int| description(dist@[i].0) + " "@ + decimal(shares[i]) + "%"@,
                ),
                ", "@,
            ) && forall|i: int|
                0 <= i < dist@.len() ==> {
                    let total = entry_sum(dist@);
                    &&& 2 * (#[trigger] shares[i] * total) <= 200 * dist@[i].1 + total
                    &&& 200 * dist@[i].1 <= 2 * (shares[i] * total) + total
                },
{
    let entries = dist@;
    let total = entry_sum(entries);
    let shares = Seq::new(entries.len(), |i: int| percent(entries[i].1 as nat, total));
    assert(r@ == dist_text(entries));
    assert(entries.map_values(|e: (u8, u32)| share_text(e, total)) =~= Seq::new(
        entries.len(),
        |i: int| description(entries[i].0) + " "@ + decimal(shares[i]) + "%"@,
    ));
    assert forall|i: int| 0 <= i < entries.len() implies 2 * (#[trigger] shares[i] * total) <= 200
        * entries[i].1 + total && 200 * entries[i].1 <= 2 * (shares[i] * total) + total by {
        shown_shares_are_nearest(entries, i);
    }
    assert(shares.len() == entries.len());
}

/// A distribution takes over what it is given in its order, without what weighs nothing: two
/// lists together give the entries of the one and then of the other, a single weight its
/// entry, and a weight of zero none.
pub proof fn entries_are_taken_over_in_order(a: Seq<DscpWeight>, b: Seq<DscpWeight>, w: DscpWeight)
    ensures
        drawable(a + b) == drawable(a) + drawable(b),
        drawable(seq![w]) == (if w.weight == 0 {
            Seq::<(u8, u32)>::empty()
        } else {
            seq![(w.dscp, w.weight)]
        }),
    decreases b.len(),
{
    if b.len() == 0 {
        assert(a + b =~= a);
        assert(drawable(a) + drawable(b) =~= drawable(a));
    } else {
        entries_are_taken_over_in_order(a, b.drop_last(), w);
        assert((a + b).drop_last() =~= a + b.drop_last());
        assert(drawable(a + b) =~= drawable(a) + drawable(b));
    }
    reveal_with_fuel(drawable, 2);
    assert(seq![w].drop_last() =~= Seq::<DscpWeight>::empty());
    assert(drawable(seq![w]) =~= (if w.weight == 0 {
        Seq::<(u8, u32)>::empty()
    } else {
        seq![(w.dscp, w.weight)]
    }));
}

/// The sum of the weights of two lists is that of the one and of the other, and of a single
/// entry its weight; without an entry it is nothing.
pub proof fn weights_add_up(a: Seq<(u8, u32)>, b: Seq<(u8, u32)>, e: (u8, u32))
    ensures
        entry_sum(a + b) == entry_sum(a) + entry_sum(b),
        entry_sum(seq![e]) == e.1,
        entry_sum(Seq::empty()) == 0,
    decreases b.len(),
{
    if b.len() == 0 {
        assert(a + b =~= a);
    } else {
        weights_add_up(a, b.drop_last(), e);
        assert((a + b).drop_last() =~= a + b.drop_last());
    }
    reveal_with_fuel(entry_sum, 2);
    assert(seq![e].drop_last() =~= Seq::<(u8, u32)>::empty());
}

/// A distribution is made exactly where some weight is positive, and of the entries that are
/// drawable.
pub proof fn distribution_needs_a_positive_weight(weights: &[DscpWeight], r: Option<DscpDist>)
    requires
        call_ensures(DscpDist::from_weights, (weights,), r),
    ensures
        r is Some <==> exists|i: int| 0 <= i < weights@.len() && (#[trigger] weights@[i]).weight > 0,
        r is Some ==> r->0@ == drawable(weights@),
{
    lemma_drawable_has_positive(weights@);
}

/// There is something to draw exactly where some weight is positive.
proof fn lemma_drawable_has_positive(weights: Seq<DscpWeight>)
    ensures
        drawable(weights).len() > 0 <==> exists|i: int|
            0 <= i < weights.len() && (#[trigger] weights[i]).weight > 0,
    decreases weights.len(),
{
    if weights.len() > 0 {
        let front = weights.drop_last();
        lemma_drawable_has_positive(front);
        assert(weights.last() == weights[weights.len() - 1]);
        if drawable(front).len() > 0 {
            let i = choose|i: int| 0 <= i < front.len() && (#[trigger] front[i]).weight > 0;
            assert(weights[i].weight > 0);
        }
        if exists|i: int| 0 <= i < weights.len() && (#[trigger] weights[i]).weight > 0 {
            let i = choose|i: int| 0 <= i < weights.len() && (#[trigger] weights[i]).weight > 0;
            if i < front.len() {
                assert(front[i].weight > 0);
            }
        }
    }
}

/// Marking a socket writes one byte, the value's low 6 bits above two zero bits, to the option
/// of the socket's family, and succeeds exactly where that does. A refusal names that option
/// and the cause.
pub proof fn marking_writes_to_the_option_of_the_family<
    F: FnOnce(TosOption, u32) -> Result<(), OptionError>,
>(set: F, dscp: u8, is_ipv6: bool, r: Result<(), DscpError>)
    requires
        call_ensures(apply::<F>, (set, dscp, is_ipv6), r),
    ensures
        exists|option: TosOption, tos: u32, done: Result<(), OptionError>| #[trigger]
            call_ensures(set, (option, tos), done) && option == (if is_ipv6 {
                TosOption::Ipv6Tclass
            } else {
                TosOption::IpTos
            }) && tos < 256 && tos % 4 == 0 && tos / 4 == dscp % 64 && (r is Ok <==> done is Ok)
                && (done matches Err(OptionError::Refused(cause)) ==> r->Err_0@
                == (ErrorView::SetOption {
                option: if is_ipv6 {
                    "IPV6_TCLASS"@
                } else {
                    "IP_TOS"@
                },
                cause: cause@,
            })) && (done == Err::<(), OptionError>(OptionError::Unsupported) ==> r->Err_0@
                == ErrorView::Unsupported),
{
    let (tos, done) = choose|tos: u32, done: Result<(), OptionError>|
        tos == tos_of(dscp) && #[trigger] call_ensures(set, (option_of(is_ipv6), tos), done)
            && crate::engine::marking::unit_outcome(r) == crate::engine::marking::marked(
            option_of(is_ipv6),
            done,
        );
    assert(call_ensures(set, (option_of(is_ipv6), tos), done));
}

} // verus!
