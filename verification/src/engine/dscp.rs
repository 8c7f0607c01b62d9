//! DSCP (Differentiated Services Code Point) marking.
//!
//! The DSCP field is the upper 6 bits of the IPv4 TOS byte (`IP_TOS`) or of the IPv6
//! Traffic Class byte (`IPV6_TCLASS`). Marking test traffic lets QoS-aware network
//! equipment classify it. The lower 2 ECN bits are left zero.

use crate::engine::error::{DscpError, ErrorView};
use crate::text::{
    chars_of, copy_range, decimal, find, first_of, hex_byte, lower, lowered, parse_unsigned,
    push_decimal, push_hex_byte, spells, split, split_at_each, string_of, texts, trim, trimmed,
    unsigned,
};
pub use crate::engine::dist::{DscpDist, TosPicker};
pub use crate::engine::marking::apply;
use vstd::prelude::*;

verus! {

/// The value of a DSCP keyword written in small letters.
pub open spec fn keyword(t: Seq<char>) -> Option<u8> {
    if t == "be"@ || t == "cs0"@ || t == "default"@ {
        Some(0)
    } else if t == "le"@ {
        Some(1)
    } else if t == "cs1"@ {
        Some(8)
    } else if t == "cs2"@ {
        Some(16)
    } else if t == "cs3"@ {
        Some(24)
    } else if t == "cs4"@ {
        Some(32)
    } else if t == "cs5"@ {
        Some(40)
    } else if t == "cs6"@ {
        Some(48)
    } else if t == "cs7"@ {
        Some(56)
    } else if t == "af11"@ {
        Some(10)
    } else if t == "af12"@ {
        Some(12)
    } else if t == "af13"@ {
        Some(14)
    } else if t == "af21"@ {
        Some(18)
    } else if t == "af22"@ {
        Some(20)
    } else if t == "af23"@ {
        Some(22)
    } else if t == "af31"@ {
        Some(26)
    } else if t == "af32"@ {
        Some(28)
    } else if t == "af33"@ {
        Some(30)
    } else if t == "af41"@ {
        Some(34)
    } else if t == "af42"@ {
        Some(36)
    } else if t == "af43"@ {
        Some(38)
    } else if t == "ef"@ {
        Some(46)
    } else if t == "va"@ || t == "voice-admit"@ {
        Some(44)
    } else {
        None
    }
}

/// The number up to 65535 that `t` writes, in hexadecimal after `0x`, else in decimal.
pub open spec fn code_number(t: Seq<char>) -> Option<nat> {
    if t.len() >= 2 && t[0] == '0' && t[1] == 'x' {
        unsigned(t.skip(2), 16, 0xffff)
    } else {
        unsigned(t, 10, 0xffff)
    }
}

/// What the specifier `s` stands for: a keyword in any case or a number, with any white
/// space around it, and at most 63.
pub open spec fn dscp_of(s: Seq<char>) -> Result<u8, ErrorView> {
    let t = lowered(trimmed(s));
    match keyword(t) {
        Some(v) => Ok(v),
        None => match code_number(t) {
            None => Err(ErrorView::InvalidValue(s)),
            Some(n) => if n > 63 {
                Err(ErrorView::OutOfRange(n))
            } else {
                Ok(n as u8)
            },
        },
    }
}

/// A result with its error's contents.
pub open spec fn outcome<T>(r: Result<T, DscpError>) -> Result<T, ErrorView> {
    match r {
        Ok(v) => Ok(v),
        Err(e) => Err(e@),
    }
}

/// The value of the keyword `t`.
fn by_name(t: &[char]) -> (r: Option<u8>)
    ensures
        r == keyword(t@),
{
    if spells(t, "be") || spells(t, "cs0") || spells(t, "default") {
        Some(0)
    } else if spells(t, "le") {
        Some(1)
    } else if spells(t, "cs1") {
        Some(8)
    } else if spells(t, "cs2") {
        Some(16)
    } else if spells(t, "cs3") {
        Some(24)
    } else if spells(t, "cs4") {
        Some(32)
    } else if spells(t, "cs5") {
        Some(40)
    } else if spells(t, "cs6") {
        Some(48)
    } else if spells(t, "cs7") {
        Some(56)
    } else if spells(t, "af11") {
        Some(10)
    } else if spells(t, "af12") {
        Some(12)
    } else if spells(t, "af13") {
        Some(14)
    } else if spells(t, "af21") {
        Some(18)
    } else if spells(t, "af22") {
        Some(20)
    } else if spells(t, "af23") {
        Some(22)
    } else if spells(t, "af31") {
        Some(26)
    } else if spells(t, "af32") {
        Some(28)
    } else if spells(t, "af33") {
        Some(30)
    } else if spells(t, "af41") {
        Some(34)
    } else if spells(t, "af42") {
        Some(36)
    } else if spells(t, "af43") {
        Some(38)
    } else if spells(t, "ef") {
        Some(46)
    } else if spells(t, "va") || spells(t, "voice-admit") {
        Some(44)
    } else {
        None
    }
}

/// Parses a DSCP specifier into its 6-bit value (0-63).
///
/// Accepts well-known keywords (case-insensitive) or a number. Keywords:
/// `be`/`cs0`/`default`, `le`, `cs1`..`cs7`, `af11`..`af43`, `ef`, `va`/`voice-admit`.
/// Numbers may be decimal or hex (`0x`-prefixed) and must be in the range 0-63.
pub fn parse_dscp(s: &str) -> (r: Result<u8, DscpError>)
    ensures
        outcome(r) == dscp_of(s@),
{
    let all = chars_of(s);
    let inner = trim(all.as_slice());
    let t = lower(inner.as_slice());
    if let Some(v) = by_name(t.as_slice()) {
        return Ok(v);
    }
    let num = if t.len() >= 2 && t[0] == '0' && t[1] == 'x' {
        let hex = copy_range(t.as_slice(), 2, t.len());
        assert(hex@ =~= t@.skip(2));
        parse_unsigned(hex.as_slice(), 16, 0xffff)
    } else {
        parse_unsigned(t.as_slice(), 10, 0xffff)
    };
    match num {
        None => {
            let shown = string_of(all.as_slice());
            Err(DscpError::InvalidValue(shown))
        },
        Some(n) => {
            if n > 63 {
                Err(DscpError::OutOfRange(n as u16))
            } else {
                Ok(n as u8)
            }
        },
    }
}

/// The TOS byte of a DSCP value: the value's low 6 bits, moved up by 2.
pub open spec fn tos_of(dscp: u8) -> nat {
    4 * (dscp as nat % 64)
}

/// The IP TOS / IPv6 Traffic Class byte for a DSCP value: DSCP in the high 6 bits, ECN
/// cleared.
pub fn tos_byte(dscp: u8) -> (r: u32)
    ensures
        r == tos_of(dscp),
        r <= 252,
{
    assert(dscp & 0x3f == dscp % 64) by (bit_vector);
    let low: u32 = (dscp & 0x3f) as u32;
    assert(low << 2 == 4 * low) by (bit_vector)
        requires
            low < 64,
    ;
    low << 2
}

/// The class name of a DSCP value: the name of its low 6 bits.
pub open spec fn class_name(dscp: u8) -> Option<Seq<char>> {
    let low = dscp as nat % 64;
    if low == 0 {
        Some("CS0"@)
    } else if low == 8 {
        Some("CS1"@)
    } else if low == 16 {
        Some("CS2"@)
    } else if low == 24 {
        Some("CS3"@)
    } else if low == 32 {
        Some("CS4"@)
    } else if low == 40 {
        Some("CS5"@)
    } else if low == 48 {
        Some("CS6"@)
    } else if low == 56 {
        Some("CS7"@)
    } else if low == 10 {
        Some("AF11"@)
    } else if low == 12 {
        Some("AF12"@)
    } else if low == 14 {
        Some("AF13"@)
    } else if low == 18 {
        Some("AF21"@)
    } else if low == 20 {
        Some("AF22"@)
    } else if low == 22 {
        Some("AF23"@)
    } else if low == 26 {
        Some("AF31"@)
    } else if low == 28 {
        Some("AF32"@)
    } else if low == 30 {
        Some("AF33"@)
    } else if low == 34 {
        Some("AF41"@)
    } else if low == 36 {
        Some("AF42"@)
    } else if low == 38 {
        Some("AF43"@)
    } else if low == 44 {
        Some("VA"@)
    } else if low == 46 {
        Some("EF"@)
    } else if low == 1 {
        Some("LE"@)
    } else {
        None
    }
}

/// The standard DiffServ class name for a DSCP value (`EF`, `CS5`, `AF41`, `LE`, `VA`,
/// `CS0`, ...), or `None` for a value with no well-known name. The name is identical for
/// IPv4 and IPv6.
pub fn dscp_name(dscp: u8) -> (r: Option<&'static str>)
    ensures
        match r {
            Some(name) => class_name(dscp) == Some(name@),
            None => class_name(dscp) is None,
        },
{
    assert(dscp & 0x3f == dscp % 64) by (bit_vector);
    Some(
        match dscp & 0x3f {
            0 => "CS0",
            8 => "CS1",
            16 => "CS2",
            24 => "CS3",
            32 => "CS4",
            40 => "CS5",
            48 => "CS6",
            56 => "CS7",
            10 => "AF11",
            12 => "AF12",
            14 => "AF13",
            18 => "AF21",
            20 => "AF22",
            22 => "AF23",
            26 => "AF31",
            28 => "AF32",
            30 => "AF33",
            34 => "AF41",
            36 => "AF42",
            38 => "AF43",
            44 => "VA",
            46 => "EF",
            1 => "LE",
            _ => return None,
        },
    )
}

/// `NAME (DSCP <dec>, 0x<tos>)`, or `DSCP <dec> (0x<tos>)` for a value without a name.
pub open spec fn description(dscp: u8) -> Seq<char> {
    match class_name(dscp) {
        Some(name) => name + " (DSCP "@ + decimal(dscp as nat) + ", 0x"@ + hex_byte(tos_of(dscp))
            + ")"@,
        None => "DSCP "@ + decimal(dscp as nat) + " (0x"@ + hex_byte(tos_of(dscp)) + ")"@,
    }
}

/// Formats a single DSCP value as `NAME (DSCP <dec>, 0x<tos>)`, e.g.
/// `EF (DSCP 46, 0xB8)`. The `0x<tos>` byte is what gets written to IPv4 `IP_TOS` and
/// IPv6 `IPV6_TCLASS` (identical for both). Values with no standard class name render as
/// `DSCP <dec> (0x<tos>)`.
pub fn describe_dscp(dscp: u8) -> (r: String)
    ensures
        r@ == description(dscp),
{
    let tos = tos_byte(dscp);
    let mut r = String::new();
    match dscp_name(dscp) {
        Some(name) => {
            r.append(name);
            r.append(" (DSCP ");
            push_decimal(&mut r, dscp as u128);
            r.append(", 0x");
            push_hex_byte(&mut r, tos);
            r.append(")");
        },
        None => {
            r.append("DSCP ");
            push_decimal(&mut r, dscp as u128);
            r.append(" (0x");
            push_hex_byte(&mut r, tos);
            r.append(")");
        },
    }
    assert(r@ =~= description(dscp));
    r
}

/// A single DSCP value and its relative selection weight.
#[derive(Debug, Clone, Copy)]
pub struct DscpWeight {
    pub dscp: u8,
    pub weight: u32,
}

/// The entries of a specifier: its comma-separated parts, trimmed, without empty ones.
pub open spec fn kept_parts(parts: Seq<Seq<char>>) -> Seq<Seq<char>>
    decreases parts.len(),
{
    if parts.len() == 0 {
        Seq::empty()
    } else {
        let before = kept_parts(parts.drop_last());
        let part = trimmed(parts.last());
        if part.len() == 0 {
            before
        } else {
            before.push(part)
        }
    }
}

/// The entries of the specifier `spec`.
pub open spec fn tokens_of(spec: Seq<char>) -> Seq<Seq<char>> {
    kept_parts(split_at_each(spec, ','))
}

/// What one entry stands for: a DSCP value and, after a colon, its weight.
pub open spec fn entry_of(token: Seq<char>) -> Result<(u8, Option<u32>), ErrorView> {
    let colon = first_of(token, ':');
    if colon < token.len() {
        let weight = trimmed(token.skip(colon + 1));
        match unsigned(weight, 10, u32::MAX as nat) {
            None => Err(ErrorView::InvalidWeight { weight, entry: token }),
            Some(n) => match dscp_of(trimmed(token.take(colon))) {
                Err(e) => Err(e),
                Ok(dscp) => Ok((dscp, Some(n as u32))),
            },
        }
    } else {
        match dscp_of(trimmed(token)) {
            Err(e) => Err(e),
            Ok(dscp) => Ok((dscp, None)),
        }
    }
}

/// What the entries stand for, or the error of the first one that has an error.
pub open spec fn entries_of(tokens: Seq<Seq<char>>) -> Result<
    Seq<(u8, Option<u32>)>,
    ErrorView,
>
    decreases tokens.len(),
{
    if tokens.len() == 0 {
        Ok(Seq::empty())
    } else {
        match entries_of(tokens.drop_last()) {
            Err(e) => Err(e),
            Ok(before) => match entry_of(tokens.last()) {
                Err(e) => Err(e),
                Ok(entry) => Ok(before.push(entry)),
            },
        }
    }
}

/// Whether some entry has a weight.
pub open spec fn any_weighted(entries: Seq<(u8, Option<u32>)>) -> bool {
    exists|i: int| 0 <= i < entries.len() && (#[trigger] entries[i]).1 is Some
}

/// Whether every entry has a weight.
pub open spec fn all_weighted(entries: Seq<(u8, Option<u32>)>) -> bool {
    forall|i: int| 0 <= i < entries.len() ==> (#[trigger] entries[i]).1 is Some
}

/// The weight of an entry; 1 where it has none.
pub open spec fn weight_of(entry: (u8, Option<u32>)) -> u32 {
    match entry.1 {
        Some(w) => w,
        None => 1,
    }
}

/// The entries with their weights.
pub open spec fn weighted(entries: Seq<(u8, Option<u32>)>) -> Seq<DscpWeight> {
    entries.map_values(
        |e: (u8, Option<u32>)| DscpWeight { dscp: e.0, weight: weight_of(e) },
    )
}

/// The sum of the weights.
pub open spec fn weight_sum(weights: Seq<DscpWeight>) -> nat
    decreases weights.len(),
{
    if weights.len() == 0 {
        0
    } else {
        weight_sum(weights.drop_last()) + weights.last().weight as nat
    }
}

/// What the entries make together: weights that add up to 100, or no weight at all and
/// equal shares.
pub open spec fn shares_of(entries: Seq<(u8, Option<u32>)>) -> Result<
    Seq<DscpWeight>,
    ErrorView,
> {
    if any_weighted(entries) && !all_weighted(entries) {
        Err(ErrorView::MixedWeights)
    } else if all_weighted(entries) && weight_sum(weighted(entries)) != 100 {
        Err(ErrorView::WeightSum(weight_sum(weighted(entries))))
    } else {
        Ok(weighted(entries))
    }
}

/// What the `--dscp` specifier `spec` stands for.
pub open spec fn weights_of(spec: Seq<char>) -> Result<Seq<DscpWeight>, ErrorView> {
    let tokens = tokens_of(spec);
    if tokens.len() == 0 {
        Err(ErrorView::Empty)
    } else {
        match entries_of(tokens) {
            Err(e) => Err(e),
            Ok(entries) => shares_of(entries),
        }
    }
}

/// A result with the contents of its list or of its error.
pub open spec fn list_outcome<T>(r: Result<Vec<T>, DscpError>) -> Result<Seq<T>, ErrorView> {
    match r {
        Ok(v) => Ok(v@),
        Err(e) => Err(e@),
    }
}

/// The entries of the specifier `spec`.
fn tokens(spec: &str) -> (r: Vec<Vec<char>>)
    ensures
        texts(r@) == tokens_of(spec@),
{
    let all = chars_of(spec);
    let parts = split(all.as_slice(), ',');
    let mut r: Vec<Vec<char>> = Vec::new();
    for i in 0..parts.len()
        invariant
            texts(r@) == kept_parts(texts(parts@.take(i as int))),
    {
        let part = trim(parts[i].as_slice());
        let ghost now = texts(parts@.take(i + 1));
        assert(now.drop_last() =~= texts(parts@.take(i as int)));
        assert(now.last() == parts@[i as int]@);
        if part.len() > 0 {
            let ghost before = texts(r@);
            r.push(part);
            assert(texts(r@) =~= before.push(part@));
        }
    }
    assert(parts@.take(parts@.len() as int) =~= parts@);
    r
}

/// What one entry stands for.
fn parse_entry(token: &[char]) -> (r: Result<(u8, Option<u32>), DscpError>)
    ensures
        outcome(r) == entry_of(token@),
{
    match find(token, ':') {
        Some(colon) => {
            let n = token.len();
            let after = copy_range(token, colon + 1, n);
            assert(after@ =~= token@.skip(colon + 1));
            let w = trim(after.as_slice());
            match parse_unsigned(w.as_slice(), 10, u32::MAX as u64) {
                None => {
                    let weight = string_of(w.as_slice());
                    let entry = string_of(token);
                    Err(DscpError::InvalidWeight { weight, entry })
                },
                Some(weight) => {
                    let before = copy_range(token, 0, colon);
                    assert(before@ =~= token@.take(colon as int));
                    let v = trim(before.as_slice());
                    let val = string_of(v.as_slice());
                    match parse_dscp(val.as_str()) {
                        Ok(dscp) => Ok((dscp, Some(weight as u32))),
                        Err(e) => Err(e),
                    }
                },
            }
        },
        None => {
            let v = trim(token);
            let val = string_of(v.as_slice());
            match parse_dscp(val.as_str()) {
                Ok(dscp) => Ok((dscp, None)),
                Err(e) => Err(e),
            }
        },
    }
}

/// What the entries stand for.
fn parse_entries(tokens: &[Vec<char>]) -> (r: Result<Vec<(u8, Option<u32>)>, DscpError>)
    ensures
        list_outcome(r) == entries_of(texts(tokens@)),
{
    let mut parsed: Vec<(u8, Option<u32>)> = Vec::new();
    for i in 0..tokens.len()
        invariant
            entries_of(texts(tokens@.take(i as int))) == Ok::<Seq<(u8, Option<u32>)>, ErrorView>(
                parsed@,
            ),
    {
        let ghost now = texts(tokens@.take(i + 1));
        assert(now.drop_last() =~= texts(tokens@.take(i as int)));
        assert(now.last() == tokens@[i as int]@);
        match parse_entry(tokens[i].as_slice()) {
            Ok(entry) => {
                parsed.push(entry);
            },
            Err(e) => {
                proof {
                    lemma_first_error(texts(tokens@), i + 1);
                    assert(texts(tokens@).take(i + 1) =~= now);
                }
                return Err(e);
            },
        }
    }
    assert(tokens@.take(tokens@.len() as int) =~= tokens@);
    Ok(parsed)
}

/// An error among the first `n` entries is the error of all of them.
proof fn lemma_first_error(tokens: Seq<Seq<char>>, n: int)
    requires
        0 <= n <= tokens.len(),
        entries_of(tokens.take(n)) is Err,
    ensures
        entries_of(tokens) == entries_of(tokens.take(n)),
    decreases tokens.len() - n,
{
    if n == tokens.len() {
        assert(tokens.take(n) =~= tokens);
    } else {
        assert(tokens.take(n + 1).drop_last() =~= tokens.take(n));
        lemma_first_error(tokens, n + 1);
    }
}

/// What the entries make together.
fn share_out(entries: Vec<(u8, Option<u32>)>) -> (r: Result<Vec<DscpWeight>, DscpError>)
    ensures
        list_outcome(r) == shares_of(entries@),
{
    let mut any: bool = false;
    let mut all: bool = true;
    let mut total: u128 = 0;
    let mut out: Vec<DscpWeight> = Vec::new();
    for i in 0..entries.len()
        invariant
            any == any_weighted(entries@.take(i as int)),
            all == all_weighted(entries@.take(i as int)),
            out@ == weighted(entries@.take(i as int)),
            total == weight_sum(weighted(entries@.take(i as int))),
            total <= i * 0xffff_ffff,
    {
        let ghost then = entries@.take(i as int);
        let ghost now = entries@.take(i + 1);
        let entry = entries[i];
        let w: u32 = match entry.1 {
            Some(w) => w,
            None => 1,
        };
        proof {
            assert(now =~= then.push(entry));
            assert(weighted(now) =~= weighted(then).push(
                DscpWeight { dscp: entry.0, weight: weight_of(entry) },
            ));
            assert(weighted(now).drop_last() =~= weighted(then));
            assert(forall|j: int| 0 <= j < then.len() ==> #[trigger] now[j] == then[j]);
            assert(now[i as int] == entry);
            if any_weighted(now) {
                let j = choose|j: int| 0 <= j < now.len() && (#[trigger] now[j]).1 is Some;
                assert(j == i || then[j].1 is Some);
            }
            if any_weighted(then) {
                let j = choose|j: int| 0 <= j < then.len() && (#[trigger] then[j]).1 is Some;
                assert(now[j].1 is Some);
            }
            if all_weighted(now) {
                assert forall|j: int| 0 <= j < then.len() implies (#[trigger] then[j]).1
                    is Some by {
                    assert(now[j] == then[j]);
                }
            }
            assert(i * 0xffff_ffff + 0xffff_ffff == (i + 1) * 0xffff_ffff);
        }
        if entry.1.is_some() {
            any = true;
        } else {
            all = false;
        }
        assert(i * 0xffff_ffff <= u64::MAX * 0xffff_ffff);
        total = total + w as u128;
        out.push(DscpWeight { dscp: entry.0, weight: w });
    }
    assert(entries@.take(entries@.len() as int) =~= entries@);
    if any && !all {
        return Err(DscpError::MixedWeights);
    }
    if all && total != 100 {
        return Err(DscpError::WeightSum(total));
    }
    Ok(out)
}

/// Parses a `--dscp` specifier into a list of weighted DSCP values.
///
/// Format: `tos:weight,tos:weight,...` where each `tos` is a keyword (e.g. `ef`, `cs5`,
/// `af41`) or a number 0-63. Rules:
/// - If **every** entry has an explicit weight, the weights must sum to 100 (they are
///   read as percentages).
/// - If **no** entry has a weight, all entries are weighted equally (this also covers the
///   single-DSCP case, e.g. `--dscp ef`: 100% `ef`).
/// - Mixing weighted and unweighted entries is rejected.
pub fn parse_dscp_weights(spec: &str) -> (r: Result<Vec<DscpWeight>, DscpError>)
    ensures
        list_outcome(r) == weights_of(spec@),
{
    let tokens = tokens(spec);
    if tokens.len() == 0 {
        return Err(DscpError::Empty);
    }
    match parse_entries(tokens.as_slice()) {
        Err(e) => Err(e),
        Ok(entries) => share_out(entries),
    }
}

} // verus!
