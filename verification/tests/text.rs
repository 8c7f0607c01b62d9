use speedcli::text::{
    before, chars_of, copy_range, find, join, lines, lower, parse_unsigned, push_decimal,
    push_hex_byte, same, space, spells, split, string_of, trim,
};

fn chars(s: &str) -> Vec<char> {
    s.chars().collect()
}

#[test]
fn white_space_is_that_of_unicode() {
    for n in 0u32..0x11_0000 {
        if let Some(c) = char::from_u32(n) {
            assert_eq!(space(c), c.is_whitespace(), "{:x}", n);
        }
    }
}

#[test]
fn trim_drops_white_space_at_both_ends() {
    for s in ["", " ", "  a b ", "\t\u{a0}x\u{3000}\n", "x", "\u{2003}", "a\r\n"] {
        let v = chars(s);
        assert_eq!(trim(&v), chars(s.trim()), "{:?}", s);
    }
}

#[test]
fn lower_changes_ascii_capitals_only() {
    for s in ["AZaz09", "\u{c4}Q", "[@`{"] {
        assert_eq!(lower(&chars(s)), chars(&s.to_ascii_lowercase()));
    }
}

#[test]
fn lines_are_those_of_std() {
    for s in ["", "\n", "a", "a\n", "a\r\nb", "a\rb\n", "\n\n", "a\n\nb\r", "x\r\n\r\n", "\r"] {
        let expected: Vec<String> = s.lines().map(String::from).collect();
        assert_eq!(lines(s), expected, "{:?}", s);
    }
}

#[test]
fn split_keeps_empty_parts() {
    let parts: Vec<String> = split(&chars(",a,,b"), ',').iter().map(|p| p.iter().collect()).collect();
    assert_eq!(parts, ["", "a", "", "b"]);
    assert_eq!(split(&[], ',').len(), 1);
}

#[test]
fn find_gives_the_first_place() {
    assert_eq!(find(&chars("a:b:c"), ':'), Some(1));
    assert_eq!(find(&chars("abc"), ':'), None);
}

#[test]
fn numbers_are_read_as_std_reads_them() {
    for s in ["", "+", "0", "+7", "-1", "007", "65535", "65536", "99999999999999999999", "1a", " 1"] {
        let v = chars(s);
        assert_eq!(parse_unsigned(&v, 10, 65535), s.parse::<u16>().ok().map(u64::from), "{:?}", s);
        assert_eq!(
            parse_unsigned(&v, 16, 65535),
            u16::from_str_radix(s, 16).ok().map(u64::from),
            "{:?}",
            s
        );
        assert_eq!(
            parse_unsigned(&v, 10, u64::from(u32::MAX)),
            s.parse::<u32>().ok().map(u64::from),
            "{:?}",
            s
        );
    }
}

#[test]
fn numbers_are_written_as_std_writes_them() {
    for n in [0u128, 9, 10, 100, 12345, u64::MAX as u128, u128::MAX] {
        let mut s = String::from("n=");
        push_decimal(&mut s, n);
        assert_eq!(s, format!("n={}", n));
    }
    for n in [0u32, 9, 10, 0xb8, 255] {
        let mut s = String::new();
        push_hex_byte(&mut s, n);
        assert_eq!(s, format!("{:02X}", n));
    }
}

#[test]
fn join_puts_the_separator_between() {
    assert_eq!(join(&[], ", "), "");
    assert_eq!(join(&["a".to_string()], ", "), "a");
    assert_eq!(join(&["a".to_string(), "".to_string(), "c".to_string()], ", "), "a, , c");
}

#[test]
fn strings_and_characters_convert() {
    let v = chars_of("g\u{f6}\u{1f600}");
    assert_eq!(v, ['g', '\u{f6}', '\u{1f600}']);
    assert_eq!(string_of(&v), "g\u{f6}\u{1f600}");
    assert_eq!(copy_range(&v, 1, 3), ['\u{f6}', '\u{1f600}']);
    assert!(spells(&chars("ef"), "ef"));
    assert!(!spells(&chars("ef"), "eg"));
    assert!(same(&[], &[]));
    assert!(!same(&chars("a"), &chars("ab")));
}

#[test]
fn strings_are_ordered_as_std_orders_them() {
    let words = ["", "a", "ab", "b", "B", "\u{e9}", "z", "\u{ffff}", "\u{10000}"];
    for a in words {
        for b in words {
            assert_eq!(before(&chars(a), &chars(b)), a < b, "{:?} {:?}", a, b);
        }
    }
}
