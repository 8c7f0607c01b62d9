//! What holds of texts: of trimming, splitting, joining and of numbers as text.

use crate::text::{
    all_digits, decimal, digit_value, first_of, is_space, joined, lemma_split_nonempty, lines_of,
    lowered, number, precedes, split_at_each, trim_end, trim_start, trimmed, unsigned,
    without_return,
};
use vstd::prelude::*;

verus! {

/// A text that does not begin with white space is not shortened at its beginning.
pub proof fn lemma_trim_start_of_trimmed(s: Seq<char>)
    ensures
        trim_start(s).len() > 0 ==> !is_space(trim_start(s)[0]),
        trim_start(trim_start(s)) == trim_start(s),
    decreases s.len(),
{
    if s.len() > 0 && is_space(s[0]) {
        lemma_trim_start_of_trimmed(s.drop_first());
    }
}

/// A text trimmed at its end is a beginning of it, and does not end with white space.
pub proof fn lemma_trim_end_of_trimmed(s: Seq<char>)
    ensures
        trim_end(s).len() <= s.len(),
        trim_end(s) == s.take(trim_end(s).len() as int),
        trim_end(s).len() > 0 ==> !is_space(trim_end(s).last()),
        trim_end(trim_end(s)) == trim_end(s),
    decreases s.len(),
{
    if s.len() > 0 && is_space(s.last()) {
        lemma_trim_end_of_trimmed(s.drop_last());
        assert(s.drop_last().take(trim_end(s).len() as int) =~= s.take(trim_end(s).len() as int));
    } else {
        assert(s.take(s.len() as int) =~= s);
    }
}

/// Trimming a trimmed text changes nothing.
pub proof fn lemma_trimmed_twice(s: Seq<char>)
    ensures
        trimmed(trimmed(s)) == trimmed(s),
        trimmed(s).len() > 0 ==> !is_space(trimmed(s).last()),
{
    let a = trim_start(s);
    let b = trim_end(a);
    lemma_trim_start_of_trimmed(s);
    lemma_trim_end_of_trimmed(a);
    if b.len() > 0 {
        assert(b[0] == a[0]);
    }
    assert(trim_start(b) == b);
}

/// A trimmed text is a piece of the text.
pub proof fn lemma_trimmed_is_piece(s: Seq<char>, c: char)
    requires
        forall|i: int| 0 <= i < s.len() ==> s[i] != c,
    ensures
        forall|i: int| 0 <= i < trimmed(s).len() ==> trimmed(s)[i] != c,
    decreases s.len(),
{
    if s.len() > 0 && is_space(s[0]) {
        lemma_trimmed_is_piece(s.drop_first(), c);
        assert(trimmed(s) == trimmed(s.drop_first()));
    } else {
        lemma_trim_end_of_trimmed(s);
        assert(trim_start(s) == s);
        assert forall|i: int| 0 <= i < trimmed(s).len() implies trimmed(s)[i] != c by {
            assert(trimmed(s)[i] == s[i]);
        }
    }
}

/// A word without white space at its ends is its own trimming.
pub proof fn lemma_trimmed_word(s: Seq<char>)
    requires
        s.len() > 0,
        !is_space(s[0]),
        !is_space(s.last()),
    ensures
        trimmed(s) == s,
{
}

/// A number written in decimal is made of digits and is the number that it writes.
pub proof fn lemma_decimal(n: nat)
    ensures
        decimal(n).len() > 0,
        all_digits(decimal(n), 10),
        number(decimal(n), 10) == n,
        forall|i: int| 0 <= i < decimal(n).len() ==> '0' <= #[trigger] decimal(n)[i] <= '9',
    decreases n,
{
    reveal_with_fuel(number, 2);
    if n >= 10 {
        lemma_decimal(n / 10);
        assert(decimal(n).drop_last() =~= decimal(n / 10));
        assert forall|i: int| 0 <= i < decimal(n).len() implies '0' <= #[trigger] decimal(n)[i]
            <= '9' && digit_value(decimal(n)[i]) < 10 by {
            if i < decimal(n).len() - 1 {
                assert(decimal(n)[i] == decimal(n / 10)[i]);
            }
        }
    } else {
        assert(decimal(n).drop_last() =~= Seq::empty());
    }
}

/// Trimming takes white space away at both ends and nothing else: what is left does not begin
/// or end with any, and what was taken away is nothing else.
pub proof fn trimming_takes_white_space(s: Seq<char>)
    ensures
        exists|from: int, to: int|
            0 <= from <= to <= s.len() && trimmed(s) == #[trigger] s.subrange(from, to) && (forall|
                i: int,
            |
                0 <= i < from || to <= i < s.len() ==> is_space(#[trigger] s[i])),
        trimmed(s).len() > 0 ==> !is_space(trimmed(s)[0]) && !is_space(trimmed(s).last()),
{
    lemma_trim_start_is_rest(s);
    lemma_trim_end_is_beginning(trim_start(s));
    lemma_trim_start_of_trimmed(s);
    lemma_trim_end_of_trimmed(trim_start(s));
    let from = s.len() - trim_start(s).len();
    let to = from + trimmed(s).len();
    assert(trimmed(s) =~= s.subrange(from, to));
    assert forall|i: int| 0 <= i < from || to <= i < s.len() implies is_space(#[trigger] s[i]) by {
        if i >= to {
            assert(trim_start(s)[i - from] == s[i]);
        }
    }
}

/// What is trimmed at the beginning is white space.
proof fn lemma_trim_start_is_rest(s: Seq<char>)
    ensures
        trim_start(s).len() <= s.len(),
        trim_start(s) == s.skip(s.len() - trim_start(s).len()),
        forall|i: int| 0 <= i < s.len() - trim_start(s).len() ==> is_space(#[trigger] s[i]),
    decreases s.len(),
{
    if s.len() > 0 && is_space(s[0]) {
        let rest = s.drop_first();
        lemma_trim_start_is_rest(rest);
        assert(rest.skip(rest.len() - trim_start(rest).len()) =~= s.skip(
            s.len() - trim_start(s).len(),
        ));
        assert forall|i: int| 0 <= i < s.len() - trim_start(s).len() implies is_space(
            #[trigger] s[i],
        ) by {
            if i > 0 {
                assert(rest[i - 1] == s[i]);
            }
        }
    } else {
        assert(s.skip(0) =~= s);
    }
}

/// What is trimmed at the end is white space.
proof fn lemma_trim_end_is_beginning(s: Seq<char>)
    ensures
        trim_end(s).len() <= s.len(),
        forall|i: int| trim_end(s).len() <= i < s.len() ==> is_space(#[trigger] s[i]),
    decreases s.len(),
{
    if s.len() > 0 && is_space(s.last()) {
        let rest = s.drop_last();
        lemma_trim_end_is_beginning(rest);
        assert forall|i: int| trim_end(s).len() <= i < s.len() implies is_space(#[trigger] s[i]) by {
            if i < s.len() - 1 {
                assert(rest[i] == s[i]);
            }
        }
    }
}

/// White space before a text that does not begin with any is trimmed.
pub proof fn lemma_trim_start_before(s: Seq<char>, rest: Seq<char>)
    requires
        rest.len() > 0,
        !is_space(rest[0]),
    ensures
        trim_start(s + rest) == trim_start(s) + rest,
    decreases s.len(),
{
    if s.len() > 0 && is_space(s[0]) {
        lemma_trim_start_before(s.drop_first(), rest);
        assert((s + rest).drop_first() =~= s.drop_first() + rest);
    } else if s.len() == 0 {
        assert(s + rest =~= rest);
        assert(trim_start(s) + rest =~= rest);
    } else {
        assert((s + rest)[0] == s[0]);
    }
}

/// Small letters stand for the capitals, and every other character for itself.
pub proof fn small_letters_keep_all_else(s: Seq<char>, i: int)
    requires
        0 <= i < s.len(),
    ensures
        lowered(s).len() == s.len(),
        !('A' <= s[i] <= 'Z') ==> lowered(s)[i] == s[i],
        'A' <= s[i] <= 'Z' ==> lowered(s)[i] as u32 == s[i] as u32 - 'A' as u32 + 'a' as u32,
        lowered(lowered(s)) == lowered(s),
{
    assert(lowered(lowered(s)) =~= lowered(s));
}

/// A text without the separator is one part.
pub proof fn lemma_one_part(s: Seq<char>, sep: char)
    requires
        !s.contains(sep),
    ensures
        split_at_each(s, sep) == seq![s],
    decreases s.len(),
{
    if s.len() > 0 {
        assert forall|i: int| 0 <= i < s.drop_last().len() implies s.drop_last()[i] != sep by {
            assert(s.contains(s[i]));
        }
        lemma_one_part(s.drop_last(), sep);
        assert(s.contains(s.last()));
        assert(s.drop_last().push(s.last()) =~= s);
        assert(split_at_each(s, sep) =~= seq![s]);
    } else {
        assert(s =~= Seq::<char>::empty());
    }
}

/// What follows the last separator is the last part.
pub proof fn lemma_last_part(s: Seq<char>, sep: char, part: Seq<char>)
    requires
        !part.contains(sep),
    ensures
        split_at_each(s.push(sep) + part, sep) == split_at_each(s, sep).push(part),
    decreases part.len(),
{
    let all = s.push(sep) + part;
    if part.len() == 0 {
        assert(all =~= s.push(sep));
        assert(all.drop_last() =~= s);
        assert(part =~= Seq::<char>::empty());
    } else {
        let front = part.drop_last();
        assert forall|i: int| 0 <= i < front.len() implies front[i] != sep by {
            assert(part.contains(part[i]));
        }
        lemma_last_part(s, sep, front);
        assert(part.contains(part.last()));
        assert(all.drop_last() =~= s.push(sep) + front);
        let before = split_at_each(all.drop_last(), sep);
        assert(before.last() == front);
        assert(front.push(part.last()) =~= part);
        assert(before.drop_last().push(part) =~= split_at_each(s, sep).push(part));
    }
}

/// A separator parts a text in two, whose parts follow each other.
pub proof fn lemma_split_after(a: Seq<char>, sep: char, b: Seq<char>)
    ensures
        split_at_each(a.push(sep) + b, sep) == split_at_each(a, sep) + split_at_each(b, sep),
    decreases b.len(),
{
    let all = a.push(sep) + b;
    if b.len() == 0 {
        assert(all =~= a.push(sep));
        assert(all.drop_last() =~= a);
        assert(split_at_each(all, sep) =~= split_at_each(a, sep) + split_at_each(b, sep));
    } else {
        lemma_split_after(a, sep, b.drop_last());
        lemma_split_nonempty(b.drop_last(), sep);
        assert(all.drop_last() =~= a.push(sep) + b.drop_last());
        assert(split_at_each(all, sep) =~= split_at_each(a, sep) + split_at_each(b, sep));
    }
}

/// Parts without the separator that are joined with it and split at it are the same parts.
pub proof fn splitting_undoes_joining(parts: Seq<Seq<char>>, sep: char)
    requires
        parts.len() > 0,
        forall|i: int| 0 <= i < parts.len() ==> !(#[trigger] parts[i]).contains(sep),
    ensures
        split_at_each(joined(parts, seq![sep]), sep) == parts,
    decreases parts.len(),
{
    if parts.len() == 1 {
        lemma_one_part(parts[0], sep);
        assert(parts =~= seq![parts[0]]);
    } else {
        let front = parts.drop_last();
        assert forall|i: int| 0 <= i < front.len() implies !(#[trigger] front[i]).contains(sep) by {
            assert(front[i] == parts[i]);
        }
        splitting_undoes_joining(front, sep);
        let head = joined(front, seq![sep]);
        assert(!parts[parts.len() - 1].contains(sep));
        lemma_last_part(head, sep, parts.last());
        assert(head + seq![sep] + parts.last() =~= head.push(sep) + parts.last());
        assert(front.push(parts.last()) =~= parts);
    }
}

/// The parts that a text is split into hold no separator, and joined with it make the text.
pub proof fn joining_undoes_splitting(s: Seq<char>, sep: char)
    ensures
        split_at_each(s, sep).len() > 0,
        forall|i: int|
            0 <= i < split_at_each(s, sep).len() ==> !(#[trigger] split_at_each(s, sep)[i]).contains(
                sep,
            ),
        joined(split_at_each(s, sep), seq![sep]) == s,
    decreases s.len(),
{
    let parts = split_at_each(s, sep);
    if s.len() == 0 {
        assert(parts =~= seq![Seq::<char>::empty()]);
        assert(joined(parts, seq![sep]) =~= s);
    } else {
        joining_undoes_splitting(s.drop_last(), sep);
        let before = split_at_each(s.drop_last(), sep);
        if s.last() == sep {
            assert(parts.drop_last() =~= before);
            assert(joined(parts, seq![sep]) =~= s);
            assert forall|i: int| 0 <= i < parts.len() implies !(#[trigger] parts[i]).contains(
                sep,
            ) by {
                if i < before.len() {
                    assert(parts[i] == before[i]);
                }
            }
        } else {
            let last = before.last();
            assert(parts.drop_last() =~= before.drop_last());
            assert(parts.last() == last.push(s.last()));
            if before.len() == 1 {
                assert(parts[0] == last.push(s.last()));
                assert(joined(before, seq![sep]) == last);
            } else {
                let head = joined(before.drop_last(), seq![sep]) + seq![sep];
                assert(joined(before, seq![sep]) == head + last);
                assert(joined(parts, seq![sep]) == head + last.push(s.last()));
                assert(head + last.push(s.last()) =~= (head + last).push(s.last()));
            }
            assert(joined(parts, seq![sep]) == joined(before, seq![sep]).push(s.last()));
            assert(s.drop_last().push(s.last()) =~= s);
            assert forall|i: int| 0 <= i < parts.len() implies !(#[trigger] parts[i]).contains(
                sep,
            ) by {
                if i < before.len() - 1 {
                    assert(parts[i] == before[i]);
                } else {
                    assert(!before[before.len() - 1].contains(sep));
                    assert forall|j: int| 0 <= j < parts[i].len() implies parts[i][j] != sep by {
                        if j < last.len() {
                            assert(last.contains(last[j]));
                        }
                    }
                }
            }
        }
    }
}

/// The first place of a character is where it stands with none before it; it is the end
/// where there is none.
pub proof fn first_place_is_first(s: Seq<char>, c: char)
    ensures
        0 <= first_of(s, c) <= s.len(),
        first_of(s, c) < s.len() ==> s[first_of(s, c)] == c,
        forall|i: int| 0 <= i < first_of(s, c) ==> #[trigger] s[i] != c,
    decreases s.len(),
{
    if s.len() > 0 && s[0] != c {
        let rest = s.drop_first();
        first_place_is_first(rest, c);
        assert forall|i: int| 0 <= i < first_of(s, c) implies #[trigger] s[i] != c by {
            if i > 0 {
                assert(rest[i - 1] == s[i]);
            }
        }
    }
}

/// Lines that hold no line feed and end with no carriage return, joined by line feeds, read as
/// the same lines; the last one may end with a line feed too, and must where it is empty.
pub proof fn lines_read_back(lines: Seq<Seq<char>>)
    requires
        lines.len() > 0,
        forall|i: int|
            0 <= i < lines.len() ==> !(#[trigger] lines[i]).contains('\n') && (lines[i].len() > 0
                ==> lines[i].last() != '\r'),
    ensures
        lines.last().len() > 0 ==> lines_of(joined(lines, seq!['\n'])) == lines,
        lines_of(joined(lines, seq!['\n']).push('\n')) == lines,
{
    let text = joined(lines, seq!['\n']);
    splitting_undoes_joining(lines, '\n');
    assert forall|i: int| 0 <= i < lines.len() implies without_return(#[trigger] lines[i])
        == lines[i] by {
        assert(!lines[i].contains('\n'));
    }
    let front = lines.drop_last().map_values(|l: Seq<char>| without_return(l));
    assert(front =~= lines.drop_last());
    assert(lines.drop_last().push(lines.last()) =~= lines);
    let ended = text.push('\n');
    assert(ended.drop_last() =~= text);
    let parts = split_at_each(ended, '\n');
    assert(parts == lines.push(Seq::<char>::empty()));
    assert(parts.drop_last() =~= lines);
    assert(lines.map_values(|l: Seq<char>| without_return(l)) =~= lines);
}

/// Which of two texts comes first is decided at the first place where they differ, by the
/// lesser character; a proper beginning comes first.
pub proof fn order_is_decided_at_the_first_difference(a: Seq<char>, b: Seq<char>, i: int)
    requires
        0 <= i <= a.len(),
        i <= b.len(),
        forall|k: int| 0 <= k < i ==> a[k] == b[k],
    ensures
        i < a.len() && i < b.len() && a[i] < b[i] ==> precedes(a, b) && !precedes(b, a),
        i == a.len() && i < b.len() ==> precedes(a, b) && !precedes(b, a),
        i == a.len() && i == b.len() ==> !precedes(a, b),
    decreases i,
{
    if i > 0 {
        let a1 = a.drop_first();
        let b1 = b.drop_first();
        assert(a[0] == b[0]);
        assert forall|k: int| 0 <= k < i - 1 implies a1[k] == b1[k] by {
            assert(a[k + 1] == b[k + 1]);
        }
        order_is_decided_at_the_first_difference(a1, b1, i - 1);
    }
}

/// A number in decimal reads as itself where it is not too great, and as none where it is; a
/// plus sign before it makes no difference.
pub proof fn decimal_reads_back(n: nat, max: nat)
    ensures
        unsigned(decimal(n), 10, max) == (if n <= max {
            Some(n)
        } else {
            None
        }),
        unsigned(seq!['+'] + decimal(n), 10, max) == unsigned(decimal(n), 10, max),
{
    lemma_decimal(n);
    let s = decimal(n);
    assert('0' <= s[0] <= '9');
    assert((seq!['+'] + s).drop_first() =~= s);
}

} // verus!
