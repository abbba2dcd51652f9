use youtui::number::{parse_numeral, Reading};
use youtui::text::{
    char_is_digit, char_is_whitespace, concat2, concat3, contains_str, decimal_string, digit_of,
    join_strs, parse_usize, path_in, same, signed_decimal_string, string_of, to_chars, trim_range,
};

#[test]
fn white_space_is_what_std_says() {
    for n in 0..=0x11_0000u32 {
        if let Some(c) = char::from_u32(n) {
            assert_eq!(char_is_whitespace(c), c.is_whitespace(), "{n:#x}");
        }
    }
}

#[test]
fn trimming_agrees_with_std() {
    for s in ["", " ", "a", "  a b \n", "\u{3000}x\u{85}", "\t\r\n", "x\u{a0}", " é "] {
        let v = to_chars(s);
        let (a, b) = trim_range(&v, 0, v.len());
        assert_eq!(string_of(&v, a, b), s.trim(), "{s:?}");
    }
    let v = to_chars("ab  cd  ");
    assert_eq!(trim_range(&v, 2, 8), (4, 6));
    assert_eq!(trim_range(&v, 2, 4), (4, 4));
}

#[test]
fn digits() {
    for (i, c) in "0123456789".chars().enumerate() {
        assert_eq!(digit_of(i as u8), c);
        assert!(char_is_digit(c));
    }
    assert!(!char_is_digit('a') && !char_is_digit('/') && !char_is_digit(':') && !char_is_digit('٣'));
}

#[test]
fn decimals() {
    assert_eq!(decimal_string(0), "0");
    assert_eq!(decimal_string(7), "7");
    assert_eq!(decimal_string(10), "10");
    assert_eq!(decimal_string(500), "500");
    assert_eq!(decimal_string(u128::MAX), u128::MAX.to_string());
    assert_eq!(signed_decimal_string(-10), "-10");
    assert_eq!(signed_decimal_string(10), "10");
    assert_eq!(signed_decimal_string(0), "0");
    assert_eq!(signed_decimal_string(i64::MIN), i64::MIN.to_string());
    assert_eq!(signed_decimal_string(i64::MAX), i64::MAX.to_string());
}

#[test]
fn parse_usize_agrees_with_std() {
    let max = usize::MAX.to_string();
    let over = format!("{}0", max);
    for s in ["0", "7", "+7", "007", "", "+", "-1", "-0", "1 ", " 1", "1a", "++1", max.as_str(), over.as_str(), "18446744073709551616", "٣"] {
        assert_eq!(parse_usize(s), s.parse::<usize>().ok(), "{s:?}");
    }
}

#[test]
fn numerals() {
    let r = |negative, whole| Some(Reading::Finite { negative, whole });
    assert_eq!(parse_numeral("0"), r(false, 0));
    assert_eq!(parse_numeral("12.75"), r(false, 12));
    assert_eq!(parse_numeral("75.0"), r(false, 75));
    assert_eq!(parse_numeral("-3.9"), r(true, 3));
    assert_eq!(parse_numeral("+4"), r(false, 4));
    assert_eq!(parse_numeral("5."), r(false, 5));
    assert_eq!(parse_numeral(".5"), r(false, 0));
    assert_eq!(parse_numeral("-.5"), r(true, 0));
    assert_eq!(parse_numeral("18446744073709551615"), r(false, u64::MAX));
    assert_eq!(parse_numeral("99999999999999999999999.5"), r(false, u64::MAX));
    assert_eq!(parse_numeral("1e3"), r(false, 1000));
    assert_eq!(parse_numeral("1.8E2"), r(false, 180));
    assert_eq!(parse_numeral("1.79e2"), r(false, 179));
    assert_eq!(parse_numeral("1234.5e-2"), r(false, 12));
    assert_eq!(parse_numeral("1234.5e-4"), r(false, 0));
    assert_eq!(parse_numeral("1234.5e-40"), r(false, 0));
    assert_eq!(parse_numeral("-12.345e+1"), r(true, 123));
    assert_eq!(parse_numeral(".5e1"), r(false, 5));
    assert_eq!(parse_numeral("1.e1"), r(false, 10));
    assert_eq!(parse_numeral("1e-7"), r(false, 0));
    assert_eq!(parse_numeral("0e99999999999999999999999999"), r(false, 0));
    assert_eq!(parse_numeral("0.000e5"), r(false, 0));
    assert_eq!(parse_numeral("1e99999999999999999999999999"), r(false, u64::MAX));
    assert_eq!(parse_numeral("1e-99999999999999999999999999"), r(false, 0));
    assert_eq!(parse_numeral("1e19"), r(false, 10_000_000_000_000_000_000));
    assert_eq!(parse_numeral("1e20"), r(false, u64::MAX));
    assert_eq!(parse_numeral("0.00000000000000000001e20"), r(false, 1));
    assert_eq!(parse_numeral("inf"), Some(Reading::Infinite { negative: false }));
    assert_eq!(parse_numeral("-Infinity"), Some(Reading::Infinite { negative: true }));
    assert_eq!(parse_numeral("+INF"), Some(Reading::Infinite { negative: false }));
    assert_eq!(parse_numeral("NaN"), Some(Reading::NotANumber));
    assert_eq!(parse_numeral("-nan"), Some(Reading::NotANumber));
    for s in [
        "", ".", "-", "+", "1.2.3", "1,5", " 1", "1 ", "--1", "0x10", "1-", "e", "e5", "1e", "1e+",
        "1e-", ".e1", "1e1.5", "1e1e1", "infinit", "in", "infinityy", "nan0", "na", "1_0", "+-1",
        "1e 5", "ınf",
    ] {
        assert_eq!(parse_numeral(s), None, "{s:?}");
    }
}

#[test]
fn numerals_are_read_as_the_float_parser_reads_them() {
    let texts = [
        "0", "-0", "1", "180", "179.9", "180.0", "+7.25", "-7.25", "5.", ".5", "1e3", "1E3",
        "1e+3", "1e-3", "12.5e1", "12.5e-1", "0.0018e5", "18000e-2", "1.5e10", "2e18", "1e19",
        "3e25", "1e400", "-1e400", "1e-400", "inf", "-inf", "Infinity", "iNfInItY", "nan", "NAN",
        "+nan", "", "abc", "1e", "e1", ".", "+", "1.2.3", "1e1e1", "0x1p3", "1f", "١٢", "infinit",
        " 1", "1\n", "--1", "1e+-1", "00012.50", "000e000", "12e0", "12e-0", "12e+00",
    ];
    for s in texts {
        let got = parse_numeral(s);
        match s.parse::<f64>() {
            Err(_) => assert_eq!(got, None, "{s:?}"),
            Ok(x) if x.is_nan() => assert_eq!(got, Some(Reading::NotANumber), "{s:?}"),
            Ok(x) if x.is_infinite() => match got {
                Some(Reading::Infinite { negative }) => assert_eq!(negative, x < 0.0, "{s:?}"),
                Some(Reading::Finite { negative, whole }) => {
                    assert_eq!((negative, whole), (x < 0.0, u64::MAX), "{s:?}")
                }
                other => panic!("{s:?}: {other:?}"),
            },
            Ok(x) => assert_eq!(
                got,
                Some(Reading::Finite { negative: x.is_sign_negative(), whole: x.abs() as u64 }),
                "{s:?}"
            ),
        }
    }
}

#[test]
fn joining_and_containing() {
    assert_eq!(join_strs(&[], ", "), "");
    assert_eq!(join_strs(&["a"], ", "), "a");
    assert_eq!(join_strs(&["a", "", "c"], ", "), "a, , c");
    assert_eq!(concat2("ab", "cd"), "abcd");
    assert_eq!(concat3("a", "", "c"), "ac");
    assert!(same("é", "é") && !same("a", "b") && !same("a", "ab") && same("", ""));
    for (hay, needle) in [("", ""), ("abc", ""), ("abc", "bc"), ("abc", "abcd"), ("aab", "ab"), ("abab", "ba"), ("abc", "ac"), ("é=x", "=x"), ("x", "xx")] {
        assert_eq!(contains_str(hay, needle), hay.contains(needle), "{hay:?} {needle:?}");
    }
}

#[test]
fn paths() {
    assert_eq!(path_in("/tmp/x", "f.mp3"), "/tmp/x/f.mp3");
    assert_eq!(path_in("/tmp/x/", "f.mp3"), "/tmp/x/f.mp3");
    assert_eq!(path_in("", "f"), "f");
    assert_eq!(path_in(".", "Downloads"), "./Downloads");
    for (dir, leaf) in [("/a", "b"), ("/a/", "b"), ("", "b"), ("/", "b"), ("a/b", "c d.e")] {
        let joined = std::path::Path::new(dir).join(leaf);
        assert_eq!(path_in(dir, leaf), joined.to_string_lossy());
    }
}
