//! Status lines: a label and a value that may need several lines.

use crate::model::text_of;
use crate::text::{chars_of, copy_range, string_of, trim, trimmed};
use vstd::prelude::*;

verus! {

/// A line of the status area. The first line of a value begins with its label and a space,
/// each further one with two spaces.
#[derive(Debug)]
pub struct StatusLine {
    pub label: Option<String>,
    pub text: String,
}

/// The contents of a [`StatusLine`].
pub struct StatusView {
    pub label: Option<Seq<char>>,
    pub text: Seq<char>,
}

impl View for StatusLine {
    type V = StatusView;

    open spec fn view(&self) -> StatusView {
        StatusView { label: text_of(self.label), text: self.text@ }
    }
}

/// The contents of each of the lines.
pub open spec fn status_views(lines: Seq<StatusLine>) -> Seq<StatusView> {
    lines.map_values(|l: StatusLine| l@)
}

/// `a - b`, but at least 1.
pub open spec fn at_least_one(a: nat, b: nat) -> nat {
    if a > b + 1 {
        (a - b) as nat
    } else {
        1
    }
}

/// How many characters a line of the status area holds: its width without 2 columns of
/// border on each side.
pub open spec fn usable_width(area_width: u16) -> nat {
    at_least_one(area_width as nat, 4)
}

/// The width of a label with its colon, as 16 bits hold it.
pub open spec fn label_width(label: Seq<char>) -> nat {
    (label.len() + 1) % 0x1_0000
}

/// `s` in pieces: one of up to `first` characters, and then of up to `then` characters
/// each. Every piece but the last one is full.
pub open spec fn wrapped(s: Seq<char>, first: nat, then: nat) -> Seq<Seq<char>>
    decreases s.len(),
{
    if s.len() <= first || first == 0 {
        seq![s]
    } else {
        seq![s.take(first as int)] + wrapped(s.skip(first as int), then, then)
    }
}

/// The lines that show `value` under `label` in a status area of that width: none for a
/// value of white space alone.
pub open spec fn status_lines(label: Seq<char>, value: Seq<char>, area_width: u16) -> Seq<
    StatusView,
> {
    let t = trimmed(value);
    let usable = usable_width(area_width);
    let parts = wrapped(
        t,
        at_least_one(usable, label_width(label) + 1),
        at_least_one(usable, 2),
    );
    if t.len() == 0 {
        Seq::empty()
    } else {
        Seq::new(
            parts.len(),
            |i: int|
                StatusView {
                    label: if i == 0 {
                        Some(label.push(':'))
                    } else {
                        None
                    },
                    text: parts[i],
                },
        )
    }
}

/// Appends the lines that show `value` under `label`.
pub fn push_wrapped_status_kv(
    out: &mut Vec<StatusLine>,
    label: &str,
    value: &str,
    status_area_width: u16,
)
    requires
        trimmed(value@).len() > 0 ==> label_width(label@) != 0xffff,
        trimmed(value@).len() <= 0xffff,
    ensures
        final(out)@.take(old(out)@.len() as int) == old(out)@,
        status_views(final(out)@) == status_views(old(out)@) + status_lines(
            label@,
            value@,
            status_area_width,
        ),
{
    let all = chars_of(value);
    let v = trim(all.as_slice());
    let n = v.len();
    if n == 0 {
        assert(status_views(out@) =~= status_views(old(out)@) + Seq::empty());
        assert(out@.take(out@.len() as int) =~= out@);
        return;
    }
    let usable: usize = if status_area_width > 5 {
        (status_area_width - 4) as usize
    } else {
        1
    };
    let mut label_text = label.to_string();
    label_text.push(':');
    let label_chars = chars_of(label_text.as_str());
    let width: usize = label_chars.len() % 0x1_0000;
    let first_width: usize = if usable > width + 2 {
        usable - (width + 1)
    } else {
        1
    };
    let next_width: usize = if usable > 3 {
        usable - 2
    } else {
        1
    };
    let ghost t = v@;
    let ghost parts = wrapped(t, first_width as nat, next_width as nat);
    let ghost wanted = status_lines(label@, value@, status_area_width);
    assert(t.skip(0) =~= t);
    let mut shown = Some(label_text);
    let mut line_width: usize = first_width;
    let mut at: usize = 0;
    let ghost mut k: int = 0;
    while at < n
        invariant
            n == t.len(),
            t == v@,
            at <= n,
            line_width >= 1,
            next_width >= 1,
            line_width == (if k == 0 {
                first_width
            } else {
                next_width
            }),
            parts == wrapped(t, first_width as nat, next_width as nat),
            wanted.len() == parts.len(),
            forall|i: int|
                0 <= i < parts.len() ==> #[trigger] wanted[i] == (StatusView {
                    label: if i == 0 {
                        Some(label@.push(':'))
                    } else {
                        None
                    },
                    text: parts[i],
                }),
            text_of(shown) == (if k == 0 {
                Some(label@.push(':'))
            } else {
                None
            }),
            0 <= k <= parts.len(),
            at < n ==> k < parts.len() && parts.skip(k) == wrapped(
                t.skip(at as int),
                line_width as nat,
                next_width as nat,
            ),
            at == n ==> k == parts.len(),
            out@.len() == old(out)@.len() + k,
            out@.take(old(out)@.len() as int) == old(out)@,
            status_views(out@) == status_views(old(out)@) + wanted.take(k),
        decreases n - at,
    {
        let left: usize = n - at;
        let take: usize = if left < line_width {
            left
        } else {
            line_width
        };
        let piece = copy_range(v.as_slice(), at, at + take);
        let text = string_of(piece.as_slice());
        let ghost rest = t.skip(at as int);
        let ghost here = parts.skip(k);
        proof {
            assert(here[0] == parts[k]);
            if left <= line_width {
                assert(piece@ =~= rest);
            } else {
                assert(piece@ =~= rest.take(line_width as int));
                assert(rest.skip(line_width as int) =~= t.skip(at + take));
                assert(here.skip(1) =~= wrapped(
                    t.skip(at + take),
                    next_width as nat,
                    next_width as nat,
                ));
                assert(parts.skip(k + 1) =~= here.skip(1));
                lemma_wrapped_nonempty(t.skip(at + take), next_width as nat, next_width as nat);
            }
            assert(parts[k] == piece@);
        }
        let ghost before = out@;
        let ghost views = status_views(out@);
        let line = StatusLine { label: shown, text };
        assert(line@ == wanted[k]);
        out.push(line);
        proof {
            assert(status_views(out@) =~= views.push(line@));
            assert(wanted.take(k).push(wanted[k]) =~= wanted.take(k + 1));
            assert(status_views(out@) =~= status_views(old(out)@) + wanted.take(k + 1));
            assert(out@.take(old(out)@.len() as int) =~= before.take(old(out)@.len() as int));
            k = k + 1;
            if left <= line_width {
                assert(here.len() == 1);
            }
        }
        shown = None;
        line_width = next_width;
        at = at + take;
    }
    assert(wanted.take(k) =~= wanted);
}

/// There is at least one piece.
proof fn lemma_wrapped_nonempty(s: Seq<char>, first: nat, then: nat)
    ensures
        wrapped(s, first, then).len() > 0,
{
}

/// The pieces one after the other.
pub open spec fn unwrapped(parts: Seq<Seq<char>>) -> Seq<char>
    decreases parts.len(),
{
    if parts.len() == 0 {
        Seq::empty()
    } else {
        parts[0] + unwrapped(parts.drop_first())
    }
}

/// Wrapping loses nothing and adds nothing: the pieces one after the other are the text.
pub proof fn wrapping_keeps_the_text(s: Seq<char>, first: nat, then: nat)
    requires
        first > 0,
        then > 0,
    ensures
        unwrapped(wrapped(s, first, then)) == s,
    decreases s.len(),
{
    let parts = wrapped(s, first, then);
    if s.len() <= first {
        assert(parts.drop_first() =~= Seq::empty());
        assert(unwrapped(parts.drop_first()) =~= Seq::empty());
        assert(unwrapped(parts) =~= s);
    } else {
        let rest = s.skip(first as int);
        wrapping_keeps_the_text(rest, then, then);
        assert(parts.drop_first() =~= wrapped(rest, then, then));
        assert(s.take(first as int) + rest =~= s);
    }
}

/// No piece is wider than it may be, and none is empty unless the text is.
pub proof fn wrapped_pieces_fit(s: Seq<char>, first: nat, then: nat, i: int)
    requires
        first > 0,
        then > 0,
        0 <= i < wrapped(s, first, then).len(),
    ensures
        i == 0 ==> wrapped(s, first, then)[i].len() <= first,
        i > 0 ==> wrapped(s, first, then)[i].len() <= then,
        s.len() > 0 ==> wrapped(s, first, then)[i].len() > 0,
    decreases s.len(),
{
    if s.len() > first && i > 0 {
        let rest = s.skip(first as int);
        assert(wrapped(s, first, then)[i] == wrapped(rest, then, then)[i - 1]);
        wrapped_pieces_fit(rest, then, then, i - 1);
    }
}

/// The width that a status line takes, with its label and a space or its two spaces.
pub open spec fn line_width(line: StatusView) -> nat {
    match line.label {
        Some(label) => label.len() + 1 + line.text.len(),
        None => 2 + line.text.len(),
    }
}

/// In an area that is wide enough for the label, a space and one character, every status
/// line fits between the borders.
pub proof fn status_lines_fit_the_area(
    label: Seq<char>,
    value: Seq<char>,
    area_width: u16,
    i: int,
)
    requires
        label.len() + 1 + 1 + 1 <= usable_width(area_width),
        3 <= usable_width(area_width),
        0 <= i < status_lines(label, value, area_width).len(),
    ensures
        line_width(status_lines(label, value, area_width)[i]) <= usable_width(area_width),
{
    let usable = usable_width(area_width);
    wrapped_pieces_fit(
        trimmed(value),
        at_least_one(usable, label_width(label) + 1),
        at_least_one(usable, 2),
        i,
    );
}

} // verus!
