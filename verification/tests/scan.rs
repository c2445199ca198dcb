use chatr::scan::{
    after_plus, decimal, find_char, find_white, head, lines, parse_digits, parse_number,
    parse_signed, parse_unsigned, signed_decimal, tail, to_chars, to_text, trim, trim_start_len,
};

fn chars(s: &str) -> Vec<char> {
    s.chars().collect()
}

#[test]
fn text_and_characters_convert_both_ways() {
    assert_eq!(to_chars("héllo ✓"), chars("héllo ✓"));
    assert_eq!(to_chars(""), Vec::<char>::new());
    assert_eq!(to_text(&chars("héllo ✓")), "héllo ✓");
    assert_eq!(to_text(&[]), "");
}

#[test]
fn trimming_takes_white_space_off_both_ends() {
    assert_eq!(trim(&chars("  a b \t\r\n")), chars("a b"));
    assert_eq!(trim(&chars("\u{a0}x\u{2003}")), chars("x"));
    assert_eq!(trim(&chars("   ")), chars(""));
    assert_eq!(trim(&chars("")), chars(""));
    assert_eq!(trim(&chars("word")), chars("word"));
    assert_eq!(trim_start_len(&chars("  a ")), 2);
    assert_eq!(trim_start_len(&chars("   ")), 3);
}

#[test]
fn trimming_agrees_with_the_standard_library() {
    for s in ["", " ", " a", "a ", "\ta\u{3000}b\n", "\u{85}x", "_ _", "\u{200b}z "] {
        assert_eq!(to_text(&trim(&chars(s))), s.trim(), "{:?}", s);
    }
}

#[test]
fn searching_stops_at_the_first_hit() {
    assert_eq!(find_white(&chars("ab cd ef")), 2);
    assert_eq!(find_white(&chars("abcdef")), 6);
    assert_eq!(find_white(&chars("")), 0);
    assert_eq!(find_char(&chars("a|b|c"), '|'), 1);
    assert_eq!(find_char(&chars("abc"), '|'), 3);
    assert_eq!(head(&chars("abcdef"), 2), &chars("ab")[..]);
    assert_eq!(tail(&chars("abcdef"), 2), &chars("cdef")[..]);
    assert_eq!(tail(&chars("ab"), 2), &chars("")[..]);
}

#[test]
fn lines_end_at_line_feeds() {
    assert_eq!(lines(&chars("a\nb\r\nc")), vec![chars("a"), chars("b"), chars("c")]);
    assert_eq!(lines(&chars("a\n")), vec![chars("a")]);
    assert_eq!(lines(&chars("a\n\n")), vec![chars("a"), chars("")]);
    assert_eq!(lines(&chars("\n")), vec![chars("")]);
    assert_eq!(lines(&chars("")), Vec::<Vec<char>>::new());
    assert_eq!(lines(&chars("a\rb\r")), vec![chars("a\rb\r")]);
    assert_eq!(lines(&chars("a\rb\r\n")), vec![chars("a\rb")]);
}

#[test]
fn lines_agree_with_the_standard_library() {
    for s in ["", "\n", "a", "a\n", "a\r\n\r\nb", "\r", "x\r\r\ny", "one\ntwo\nthree\n\n"] {
        let mine: Vec<String> = lines(&chars(s)).iter().map(|l| to_text(l)).collect();
        let theirs: Vec<String> = s.lines().map(String::from).collect();
        assert_eq!(mine, theirs, "{:?}", s);
    }
}

#[test]
fn numbers_are_digits_after_at_most_one_plus() {
    assert_eq!(parse_number(&chars("0")), Some(0));
    assert_eq!(parse_number(&chars("007")), Some(7));
    assert_eq!(parse_number(&chars("+42")), Some(42));
    assert_eq!(parse_number(&chars("18446744073709551615")), Some(u64::MAX));
    assert_eq!(parse_number(&chars("18446744073709551616")), None);
    assert_eq!(parse_number(&chars("99999999999999999999999")), None);
    assert_eq!(parse_number(&chars("")), None);
    assert_eq!(parse_number(&chars("+")), None);
    assert_eq!(parse_number(&chars("++1")), None);
    assert_eq!(parse_number(&chars("-1")), None);
    assert_eq!(parse_number(&chars("1 ")), None);
    assert_eq!(parse_number(&chars("١٢")), None);
    assert_eq!(after_plus(&chars("+1")), &chars("1")[..]);
    assert_eq!(after_plus(&chars("1+")), &chars("1+")[..]);
    assert_eq!(parse_digits(&chars("250"), 250), Some(250));
    assert_eq!(parse_digits(&chars("251"), 250), None);
    assert_eq!(parse_digits(&chars("+1"), 250), None);
    assert_eq!(parse_digits(&chars("5"), 3), None);
}

#[test]
fn numbers_of_32_bits_have_their_limits() {
    assert_eq!(parse_unsigned(&chars("4294967295")), Some(u32::MAX));
    assert_eq!(parse_unsigned(&chars("4294967296")), None);
    assert_eq!(parse_unsigned(&chars("-0")), None);
    assert_eq!(parse_signed(&chars("2147483647")), Some(i32::MAX));
    assert_eq!(parse_signed(&chars("2147483648")), None);
    assert_eq!(parse_signed(&chars("-2147483648")), Some(i32::MIN));
    assert_eq!(parse_signed(&chars("-2147483649")), None);
    assert_eq!(parse_signed(&chars("-0")), Some(0));
    assert_eq!(parse_signed(&chars("+17")), Some(17));
    assert_eq!(parse_signed(&chars("-+17")), None);
    assert_eq!(parse_signed(&chars("+-17")), None);
    assert_eq!(parse_signed(&chars("-")), None);
    assert_eq!(parse_signed(&chars("")), None);
}

#[test]
fn reading_numbers_agrees_with_the_standard_library() {
    for s in ["", "+", "-", "0", "-0", "+0", "00012", "4294967295", "4294967296", "-2147483648",
        "2147483648", "1e3", " 1", "1_000", "+-1", "-+1", "18446744073709551615", "18446744073709551616"]
    {
        assert_eq!(parse_number(&chars(s)), s.parse::<u64>().ok(), "{:?}", s);
        assert_eq!(parse_unsigned(&chars(s)), s.parse::<u32>().ok(), "{:?}", s);
        assert_eq!(parse_signed(&chars(s)), s.parse::<i32>().ok(), "{:?}", s);
    }
}

#[test]
fn numbers_are_written_without_leading_zeros() {
    assert_eq!(decimal(0), "0");
    assert_eq!(decimal(9), "9");
    assert_eq!(decimal(10), "10");
    assert_eq!(decimal(1280), "1280");
    assert_eq!(decimal(u64::MAX), "18446744073709551615");
    assert_eq!(signed_decimal(0), "0");
    assert_eq!(signed_decimal(-35), "-35");
    assert_eq!(signed_decimal(i32::MIN), "-2147483648");
    assert_eq!(signed_decimal(i32::MAX), "2147483647");
}

#[test]
fn a_written_number_reads_back() {
    for v in [0u64, 1, 9, 10, 99, 100, 65535, 65536, u64::MAX] {
        assert_eq!(parse_number(&chars(&decimal(v))), Some(v));
    }
}

#[test]
fn white_space_is_what_unicode_says() {
    let white: Vec<u32> = (0x09..=0x0d)
        .chain([0x20, 0x85, 0xa0, 0x1680])
        .chain(0x2000..=0x200a)
        .chain([0x2028, 0x2029, 0x202f, 0x205f, 0x3000])
        .collect();
    for u in 0..=0x10ffffu32 {
        if let Some(c) = char::from_u32(u) {
            assert_eq!(trim_start_len(&[c]) == 1, white.contains(&u), "{:#x}", u);
            assert_eq!(find_white(&[c]) == 0, white.contains(&u), "{:#x}", u);
        }
    }
}
