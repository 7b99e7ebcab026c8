use curseforge_pack_downloader::text::{blank, push_decimal, read_number, to_chars};

fn decimal(n: u64) -> String {
    let mut out = String::new();
    push_decimal(&mut out, n);
    out
}

#[test]
fn to_chars_gives_each_character() {
    assert_eq!(to_chars("aé🦀"), vec!['a', 'é', '🦀']);
    assert_eq!(to_chars(""), Vec::<char>::new());
}

#[test]
fn decimal_of_small_numbers() {
    assert_eq!(decimal(0), "0");
    assert_eq!(decimal(7), "7");
    assert_eq!(decimal(10), "10");
    assert_eq!(decimal(4471), "4471");
}

#[test]
fn decimal_of_largest_number() {
    assert_eq!(decimal(u64::MAX), "18446744073709551615");
}

#[test]
fn decimal_appends_to_what_is_there() {
    let mut out = String::from("id=");
    push_decimal(&mut out, 120);
    assert_eq!(out, "id=120");
}

#[test]
fn decimal_agrees_with_formatting() {
    let mut n: u64 = 1;
    for _ in 0..64 {
        assert_eq!(decimal(n), format!("{}", n));
        assert_eq!(decimal(n - 1), format!("{}", n - 1));
        n = n.wrapping_mul(2);
    }
}

#[test]
fn read_number_reads_digits() {
    assert_eq!(read_number("0", u64::MAX), Some(0));
    assert_eq!(read_number("60", u64::MAX), Some(60));
    assert_eq!(read_number("007", u64::MAX), Some(7));
    assert_eq!(read_number("18446744073709551615", u64::MAX), Some(u64::MAX));
}

#[test]
fn read_number_takes_a_plus_sign() {
    assert_eq!(read_number("+5", u64::MAX), Some(5));
    assert_eq!(read_number("+", u64::MAX), None);
    assert_eq!(read_number("++5", u64::MAX), None);
    assert_eq!(read_number("5+", u64::MAX), None);
}

#[test]
fn read_number_refuses_what_is_no_number() {
    assert_eq!(read_number("", u64::MAX), None);
    assert_eq!(read_number("-5", u64::MAX), None);
    assert_eq!(read_number("abc", u64::MAX), None);
    assert_eq!(read_number("1 2", u64::MAX), None);
    assert_eq!(read_number(" 1", u64::MAX), None);
    assert_eq!(read_number("1.5", u64::MAX), None);
    assert_eq!(read_number("١٢", u64::MAX), None);
}

#[test]
fn read_number_refuses_numbers_above_the_limit() {
    assert_eq!(read_number("18446744073709551616", u64::MAX), None);
    assert_eq!(read_number("99999999999999999999999999", u64::MAX), None);
    assert_eq!(read_number("4294967295", 4294967295), Some(4294967295));
    assert_eq!(read_number("4294967296", 4294967295), None);
    assert_eq!(read_number("0", 0), Some(0));
    assert_eq!(read_number("1", 0), None);
}

#[test]
fn read_number_agrees_with_parse() {
    let samples = [
        "0", "1", "+1", "-1", "", "+", "00", "12a", "a12", "18446744073709551615",
        "18446744073709551616", "184467440737095516150", " 3", "3 ", "٣",
    ];
    for s in samples {
        assert_eq!(read_number(s, u64::MAX), s.parse::<u64>().ok());
        assert_eq!(read_number(s, u32::MAX as u64), s.parse::<u32>().ok().map(|n| n as u64));
    }
}

#[test]
fn blank_characters_are_white_space() {
    for c in [' ', '\t', '\n', '\r', '\u{b}', '\u{c}', '\u{85}', '\u{a0}', '\u{1680}', '\u{2000}',
        '\u{200a}', '\u{2028}', '\u{2029}', '\u{202f}', '\u{205f}', '\u{3000}']
    {
        assert!(blank(c));
    }
    for c in ['a', '0', '_', '\u{0}', '\u{8}', '\u{e}', '\u{200b}', '\u{feff}'] {
        assert!(!blank(c));
    }
}

#[test]
fn blank_agrees_with_is_whitespace() {
    let mut n: u32 = 0;
    while n <= 0x3100 {
        if let Some(c) = char::from_u32(n) {
            assert_eq!(blank(c), c.is_whitespace());
        }
        n += 1;
    }
}
