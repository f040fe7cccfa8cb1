use dumahhfiles::text::{
    chars_of, decimal_string, parse_u16, parse_u64, parse_unsigned, parse_usize,
    string_from_chars, trim,
};

#[test]
fn decimal_string_writes_numbers_as_to_string_does() {
    assert_eq!(decimal_string(0), "0");
    assert_eq!(decimal_string(7), "7");
    assert_eq!(decimal_string(10), "10");
    assert_eq!(decimal_string(104857600), "104857600");
    assert_eq!(decimal_string(u64::MAX), "18446744073709551615");
    for n in [1u64, 9, 99, 100, 101, 4096, 5368709120, 123456789012345] {
        assert_eq!(decimal_string(n), n.to_string());
    }
}

#[test]
fn parse_usize_reads_plain_numbers() {
    assert_eq!(parse_usize("42"), Some(42));
    assert_eq!(parse_usize("007"), Some(7));
    assert_eq!(parse_usize("+7"), Some(7));
    assert_eq!(parse_usize("0"), Some(0));
}

#[test]
fn parse_usize_refuses_what_str_parse_refuses() {
    assert_eq!(parse_usize(""), None);
    assert_eq!(parse_usize("+"), None);
    assert_eq!(parse_usize("-1"), None);
    assert_eq!(parse_usize("-0"), None);
    assert_eq!(parse_usize(" 1"), None);
    assert_eq!(parse_usize("1 "), None);
    assert_eq!(parse_usize("12a"), None);
    assert_eq!(parse_usize("++1"), None);
    assert_eq!(parse_usize("١"), None);
}

#[test]
fn parse_agrees_with_std_on_many_inputs() {
    let inputs = [
        "", "0", "1", "+1", "-1", "+", "-", "00", "65535", "65536", "4294967295", "4294967296",
        "18446744073709551615", "18446744073709551616", "99999999999999999999999", " 5", "5\n",
        "1_000", "0x10", "NA", "3.0",
    ];
    for s in inputs {
        assert_eq!(parse_usize(s), s.parse::<usize>().ok(), "usize {:?}", s);
        assert_eq!(parse_u16(s), s.parse::<u16>().ok(), "u16 {:?}", s);
        assert_eq!(parse_u64(s), s.parse::<u64>().ok(), "u64 {:?}", s);
    }
}

#[test]
fn parse_unsigned_respects_the_bound() {
    assert_eq!(parse_unsigned("255", 255), Some(255));
    assert_eq!(parse_unsigned("256", 255), None);
    assert_eq!(parse_u16("65535"), Some(65535));
    assert_eq!(parse_u16("65536"), None);
}

#[test]
fn decimal_notation_reads_back() {
    for n in [0u64, 1, 9, 10, 255, 65535, 104857600, u64::MAX] {
        assert_eq!(parse_u64(&decimal_string(n)), Some(n));
    }
    for n in [0usize, 3000, 240, usize::MAX] {
        assert_eq!(parse_usize(&decimal_string(n as u64)), Some(n));
    }
}

#[test]
fn trim_removes_surrounding_white_space() {
    assert_eq!(trim("  hello \n"), "hello");
    assert_eq!(trim("\t\r\nNA\r\n"), "NA");
    assert_eq!(trim(""), "");
    assert_eq!(trim("   "), "");
    assert_eq!(trim("a b"), "a b");
    assert_eq!(trim("\u{3000}x\u{85}"), "x");
    assert_eq!(trim("\u{a0}\u{2009}y z\u{200a}\u{205f}"), "y z");
}

#[test]
fn trim_agrees_with_std() {
    let inputs = [
        "", " ", "x", " x ", "\u{1680}x", "x\u{2028}\u{2029}", "\u{202f}x\u{3000}", "\u{200b}x",
        "\u{feff}x", "\u{180e}x", "\u{b}\u{c}x\u{d}", "日本 ", " \u{85}\u{85}a\u{85}",
    ];
    for s in inputs {
        assert_eq!(trim(s), s.trim(), "{:?}", s);
    }
}

#[test]
fn chars_round_trip() {
    let s = "añb日";
    let cs = chars_of(s);
    assert_eq!(cs, vec!['a', 'ñ', 'b', '日']);
    assert_eq!(string_from_chars(&cs), s);
}
